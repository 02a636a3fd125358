use vstd::prelude::*;
use std::collections::HashMap;
use sp_runtime::BoundedVec;
use sp_runtime::traits::ConstU32;
use crate::types::{
    AccountId, Balance, BlockNumber, DispatchError, Entropy, Error, Event, Gender, Hash256, Kitty,
    Origin, Payment, ensure_signed, hash_eq,
};
use crate::hashing::{hash_of_kitty_fields, hash_of_seed, hash_of_account_seed};
use crate::owned::{owned_ids, owned_empty, owned_len, owned_at, owned_try_push, owned_swap_remove};
use crate::table::{KittyTable, first_index, is_first_index, lemma_first_index};
use crate::dna::{gender_of, dna_from_seed, dna_from_account_seed, mix_dna};
use crate::model::{PalletView, kitty_id_of, swap_removed};
use crate::laws::{law_empty_is_consistent, law_mint_keeps_consistent, law_transfer_kitty_to_keeps_consistent, law_set_price_keeps_consistent, law_accepted_bid_completes};

verus! {

broadcast use vstd::std_specs::hash::group_hash_axioms;

/// The kitties an account owns, as the bounded list that holds them.
pub open spec fn owned_of(m: Map<AccountId, BoundedVec<[u8; 32], ConstU32<4294967295>>>, a: AccountId) -> Seq<Hash256> {
    if m.contains_key(a) {
        owned_ids(m[a])
    } else {
        Seq::empty()
    }
}

/// The identifier of `kitty`: the hash of its SCALE encoding.
pub fn kitty_id(kitty: &Kitty) -> (id: Hash256)
    ensures
        id == kitty_id_of(*kitty),
{
    hash_of_kitty_fields(&kitty.dna, kitty.price, kitty.gender.index(), kitty.owner)
}

/// The kitty registry: the number of kitties minted, the kitties by
/// identifier, and for each account the bounded list of the kitties it owns.
pub struct Pallet {
    max_kitty_owned: u32,
    all_kitties_count: u64,
    kitties: KittyTable,
    kitties_owned: HashMap<AccountId, BoundedVec<[u8; 32], ConstU32<4294967295>>>,
}

impl View for Pallet {
    type V = PalletView;

    closed spec fn view(&self) -> PalletView {
        PalletView {
            max_kitty_owned: self.max_kitty_owned,
            all_kitties_count: self.all_kitties_count,
            kitties: self.kitties@,
            kitties_owned: Map::new(|a: AccountId| true, |a: AccountId| owned_of(self.kitties_owned@, a)),
        }
    }
}

impl Pallet {
    /// The table's two vectors are in step.
    closed spec fn table_ok(&self) -> bool {
        self.kitties.wf()
    }

    /// The registry's representation is in order and its state is
    /// consistent: each kitty is listed exactly once, under its owner, no
    /// list exceeds its bound, and the counter is the number of kitties.
    pub closed spec fn wf(&self) -> bool {
        &&& self.table_ok()
        &&& self@.consistent()
    }

    /// A registry with no kitties, where an account may own at most
    /// `max_kitty_owned` of them.
    pub fn new(max_kitty_owned: u32) -> (p: Pallet)
        ensures
            p.wf(),
            p@ == PalletView::empty(max_kitty_owned),
    {
        let p = Pallet {
            max_kitty_owned,
            all_kitties_count: 0,
            kitties: KittyTable::new(),
            kitties_owned: HashMap::new(),
        };
        assert(p@.kitties_owned =~= PalletView::empty(max_kitty_owned).kitties_owned);
        proof {
            law_empty_is_consistent(max_kitty_owned);
        }
        p
    }

    /// A registry in order is consistent: what `laws` proves of consistent
    /// states holds of it.
    pub proof fn lemma_wf_consistent(&self)
        requires
            self.wf(),
        ensures
            self@.consistent(),
    {
    }

    /// The most kitties an account may own.
    pub fn max_kitty_owned(&self) -> (r: u32)
        ensures
            r == self@.max_kitty_owned,
    {
        self.max_kitty_owned
    }

    /// How many kitties `a` owns.
    fn owned_count(&self, a: AccountId) -> (r: usize)
        ensures
            r == self@.owned(a).len(),
    {
        match self.kitties_owned.get(&a) {
            Some(v) => owned_len(v),
            None => 0,
        }
    }

    /// The first position of `id` in the list of `a`.
    fn owned_position(&self, a: AccountId, id: &Hash256) -> (r: Option<usize>)
        ensures
            match r {
                Option::Some(i) => first_index(self@.owned(a), *id) == Some(i as int),
                Option::None => first_index(self@.owned(a), *id) is None,
            },
    {
        proof {
            lemma_first_index(self@.owned(a), *id);
        }
        match self.kitties_owned.get(&a) {
            None => None,
            Some(v) => {
                let n = owned_len(v);
                let mut i: usize = 0;
                while i < n
                    invariant
                        n == owned_ids(*v).len(),
                        owned_ids(*v) == self@.owned(a),
                        i <= n,
                        forall|j: int| 0 <= j < i ==> owned_ids(*v)[j] != *id,
                    decreases n - i,
                {
                    let x = owned_at(v, i);
                    if hash_eq(&x, id) {
                        proof {
                            assert(is_first_index(self@.owned(a), *id, i as int));
                            lemma_first_index(self@.owned(a), *id);
                        }
                        return Some(i);
                    }
                    i = i + 1;
                }
                None
            },
        }
    }

    /// Appends `id` to the list of `a` when it has room (`try_push`);
    /// otherwise changes nothing.
    fn push_owned(&mut self, a: AccountId, id: Hash256) -> (r: bool)
        requires
            old(self).table_ok(),
        ensures
            final(self).table_ok(),
            r == (old(self)@.owned(a).len() < 4294967295),
            final(self)@ == (if r { old(self)@.with_owned(a, old(self)@.owned(a).push(id)) } else { old(self)@ }),
    {
        let ghost before = self@;
        let mut v = match self.kitties_owned.remove(&a) {
            Some(v) => v,
            None => owned_empty(),
        };
        assert(owned_ids(v) == before.owned(a));
        let pushed = owned_try_push(&mut v, id);
        self.kitties_owned.insert(a, v);
        let r = pushed.is_ok();
        proof {
            if r {
                assert(self@.kitties_owned =~= before.with_owned(a, before.owned(a).push(id)).kitties_owned);
            } else {
                assert(self@.kitties_owned =~= before.kitties_owned);
            }
        }
        r
    }

    /// Removes the item at `i` from the list of `a` (`swap_remove`).
    fn swap_remove_owned(&mut self, a: AccountId, i: usize)
        requires
            old(self).table_ok(),
            i < old(self)@.owned(a).len(),
        ensures
            final(self).table_ok(),
            final(self)@ == old(self)@.with_owned(a, swap_removed(old(self)@.owned(a), i as int)),
    {
        let ghost before = self@;
        let mut v = match self.kitties_owned.remove(&a) {
            Some(v) => v,
            None => owned_empty(),
        };
        assert(owned_ids(v) == before.owned(a));
        let _ = owned_swap_remove(&mut v, i);
        self.kitties_owned.insert(a, v);
        assert(self@.kitties_owned =~= before.with_owned(a, swap_removed(before.owned(a), i as int)).kitties_owned);
    }

    /// The number of kitties minted.
    pub fn all_kitties_count(&self) -> (r: u64)
        ensures
            r == self@.all_kitties_count,
    {
        self.all_kitties_count
    }

    /// The kitty stored under `kitty_id`.
    pub fn kitties(&self, kitty_id: &Hash256) -> (r: Option<Kitty>)
        requires
            self.wf(),
        ensures
            r == (if self@.kitties.contains_key(*kitty_id) { Some(self@.kitties[*kitty_id]) } else { None::<Kitty> }),
    {
        self.kitties.get(kitty_id)
    }

    /// Whether `acct` owns the kitty `kitty_id`; `KittyNotExist` when there
    /// is no such kitty.
    pub fn is_kitty_owner(&self, kitty_id: &Hash256, acct: AccountId) -> (r: Result<bool, Error>)
        requires
            self.wf(),
        ensures
            r == self@.owner_check(*kitty_id, acct),
    {
        match self.kitties.get(kitty_id) {
            Some(kitty) => Ok(kitty.owner == acct),
            None => Err(Error::KittyNotExist),
        }
    }

    /// Mints `kitty` under `kitty_id`. Refused, with nothing written, with
    /// `KittyCounterOverflow`, `ExceedMaxKittyOwned` (the owner's list is
    /// full) or `KittyIdExists`; otherwise counts the kitty, appends the
    /// identifier to the owner's list and stores the kitty.
    pub fn mint_with_id(&mut self, kitty: Kitty, kitty_id: Hash256) -> (r: Result<Hash256, Error>)
        requires
            old(self).wf(),
        ensures
            final(self).wf(),
            final(self)@ == old(self)@.mint(kitty, kitty_id).0,
            r == old(self)@.mint(kitty, kitty_id).1,
    {
        let count = match self.all_kitties_count.checked_add(1) {
            None => {
                return Err(Error::KittyCounterOverflow);
            },
            Some(c) => c,
        };
        if self.owned_count(kitty.owner) >= self.max_kitty_owned as usize {
            return Err(Error::ExceedMaxKittyOwned);
        }
        if self.kitties.contains(&kitty_id) {
            return Err(Error::KittyIdExists);
        }
        let ghost before = self@;
        proof {
            law_mint_keeps_consistent(before, kitty, kitty_id);
        }
        self.all_kitties_count = count;
        let _ = self.push_owned(kitty.owner, kitty_id);
        self.kitties.insert(kitty_id, kitty);
        Ok(kitty_id)
    }

    /// Mints for `owner` a kitty with the given DNA and gender, drawing
    /// from `entropy` those that are not given, under the identifier that
    /// its hash gives.
    pub fn mint(
        &mut self,
        owner: AccountId,
        dna: Option<Hash256>,
        gender: Option<Gender>,
        entropy: &Entropy,
    ) -> (r: Result<Hash256, Error>)
        requires
            old(self).wf(),
        ensures
            final(self).wf(),
            final(self)@ == old(self)@.mint_new(owner, dna, gender, *entropy).0,
            r == old(self)@.mint_new(owner, dna, gender, *entropy).1,
    {
        let dna = match dna {
            Some(d) => d,
            None => Self::gen_dna(&entropy.dna_random, entropy.block_number, self.all_kitties_count),
        };
        let gender = match gender {
            Some(g) => g,
            None => Self::gen_gender(&entropy.gender_random),
        };
        let kitty = Kitty { dna, price: None, gender, owner };
        let id = kitty_id(&kitty);
        self.mint_with_id(kitty, id)
    }

    /// Moves the kitty `kitty_id` to `to` and takes it off sale. Refused,
    /// with nothing written, with `KittyNotExist` (no such kitty, or its
    /// owner does not list it) or `ExceedMaxKittyOwned` (`to` has no room
    /// once the kitty has left its owner's list); otherwise the kitty leaves
    /// its owner's list, is stored with its new owner, then joins the list
    /// of `to`.
    pub fn transfer_kitty_to(&mut self, kitty_id: &Hash256, to: AccountId) -> (r: Result<(), Error>)
        requires
            old(self).wf(),
        ensures
            final(self).wf(),
            final(self)@ == old(self)@.transfer_kitty_to(*kitty_id, to).0,
            r == old(self)@.transfer_kitty_to(*kitty_id, to).1,
    {
        let kitty = match self.kitties.get(kitty_id) {
            Some(k) => k,
            None => {
                return Err(Error::KittyNotExist);
            },
        };
        let pre_owner = kitty.owner;
        let pos = match self.owned_position(pre_owner, kitty_id) {
            Some(i) => i,
            None => {
                return Err(Error::KittyNotExist);
            },
        };
        proof {
            lemma_first_index(self@.owned(pre_owner), *kitty_id);
            let removed = self@.with_owned(pre_owner, swap_removed(self@.owned(pre_owner), pos as int));
            assert(removed.owned(pre_owner).len() == self@.owned(pre_owner).len() - 1);
            if to != pre_owner {
                assert(removed.owned(to) == self@.owned(to));
            }
        }
        let room = if to == pre_owner {
            self.owned_count(pre_owner) - 1 < self.max_kitty_owned as usize
        } else {
            self.owned_count(to) < self.max_kitty_owned as usize
        };
        if !room {
            return Err(Error::ExceedMaxKittyOwned);
        }
        proof {
            law_transfer_kitty_to_keeps_consistent(self@, *kitty_id, to);
        }
        self.swap_remove_owned(pre_owner, pos);
        let moved = Kitty { dna: kitty.dna, price: None, gender: kitty.gender, owner: to };
        self.kitties.insert(*kitty_id, moved);
        let _ = self.push_owned(to, *kitty_id);
        Ok(())
    }

    /// The gender that `dna` stands for: male when its first byte is even.
    pub fn gender(dna: Hash256) -> (g: Gender)
        ensures
            g == gender_of(dna),
            (g == Gender::Male) <==> dna[0] % 2 == 0,
    {
        if dna[0] % 2 == 0 {
            Gender::Male
        } else {
            Gender::Female
        }
    }

    /// The gender drawn from the random value for the subject "gender".
    pub fn gen_gender(random: &Hash256) -> (g: Gender)
        ensures
            g == gender_of(*random),
            (g == Gender::Male) <==> random[0] % 2 == 0,
    {
        Self::gender(*random)
    }

    /// A fresh DNA: the hash of the random value for the subject "dna", the
    /// current block number and a nonce (the number of kitties minted so
    /// far, so that kitties minted in one block differ).
    pub fn gen_dna(random: &Hash256, block_number: BlockNumber, nonce: u64) -> (d: Hash256)
        ensures
            d == dna_from_seed(*random, block_number, nonce),
    {
        hash_of_seed(random, block_number, nonce)
    }

    /// A DNA for `sender`: the hash of the random seed
    /// `(seed, seed_block)`, the account and the nonce.
    pub fn gen_dna_by_account_id(sender: AccountId, seed: &Hash256, seed_block: BlockNumber, nonce: BlockNumber) -> (d: Hash256)
        ensures
            d == dna_from_account_seed(sender, *seed, seed_block, nonce),
    {
        hash_of_account_seed(seed, seed_block, sender, nonce)
    }

    /// The DNA bred from kitties `kid1` and `kid2`: each bit comes from
    /// `kid1` where a fresh DNA has a one and from `kid2` where it has a
    /// zero. `KittyNotExist` when either kitty is missing.
    pub fn breed_dna(&self, kid1: &Hash256, kid2: &Hash256, entropy: &Entropy) -> (r: Result<Hash256, Error>)
        requires
            self.wf(),
        ensures
            r == self@.breed_dna(*kid1, *kid2, *entropy),
    {
        let dna1 = match self.kitties.get(kid1) {
            Some(k) => k.dna,
            None => {
                return Err(Error::KittyNotExist);
            },
        };
        let dna2 = match self.kitties.get(kid2) {
            Some(k) => k.dna,
            None => {
                return Err(Error::KittyNotExist);
            },
        };
        let base = Self::gen_dna(&entropy.dna_random, entropy.block_number, self.all_kitties_count);
        Ok(mix_dna(&base, &dna1, &dna2))
    }

    /// Creates a kitty for the signer of `origin`, with DNA and gender
    /// drawn from `entropy`.
    pub fn create_kitty(&mut self, origin: Origin, entropy: &Entropy) -> (r: Result<Event, DispatchError>)
        requires
            old(self).wf(),
        ensures
            final(self).wf(),
            final(self)@ == old(self)@.create_kitty(origin, *entropy).0,
            r == old(self)@.create_kitty(origin, *entropy).1,
    {
        let sender = ensure_signed(origin)?;
        match self.mint(sender, None, None, entropy) {
            Ok(kitty_id) => Ok(Event::Created(sender, kitty_id)),
            Err(e) => Err(DispatchError::Module(e)),
        }
    }

    /// Sets the price of the kitty `kitty_id` (none: not for sale); only its
    /// owner may.
    pub fn set_price(&mut self, origin: Origin, kitty_id: Hash256, new_price: Option<Balance>) -> (r: Result<Event, DispatchError>)
        requires
            old(self).wf(),
        ensures
            final(self).wf(),
            final(self)@ == old(self)@.set_price(origin, kitty_id, new_price).0,
            r == old(self)@.set_price(origin, kitty_id, new_price).1,
    {
        let sender = ensure_signed(origin)?;
        match self.is_kitty_owner(&kitty_id, sender) {
            Err(e) => {
                return Err(DispatchError::Module(e));
            },
            Ok(false) => {
                return Err(DispatchError::Module(Error::NoKittyOwner));
            },
            Ok(true) => {},
        }
        proof {
            law_set_price_keeps_consistent(self@, origin, kitty_id, new_price);
        }
        match self.kitties.get(&kitty_id) {
            Some(kitty) => {
                let priced = Kitty { dna: kitty.dna, price: new_price, gender: kitty.gender, owner: kitty.owner };
                self.kitties.insert(kitty_id, priced);
            },
            None => {},
        }
        Ok(Event::PriceSet(sender, kitty_id, new_price))
    }

    /// Gives the kitty `kitty_id` to `to`, taking it off sale; only its
    /// owner may, not to itself, and `to` must have room for it.
    pub fn transfer(&mut self, origin: Origin, to: AccountId, kitty_id: Hash256) -> (r: Result<Event, DispatchError>)
        requires
            old(self).wf(),
        ensures
            final(self).wf(),
            final(self)@ == old(self)@.transfer(origin, to, kitty_id).0,
            r == old(self)@.transfer(origin, to, kitty_id).1,
    {
        let from = ensure_signed(origin)?;
        match self.is_kitty_owner(&kitty_id, from) {
            Err(e) => {
                return Err(DispatchError::Module(e));
            },
            Ok(false) => {
                return Err(DispatchError::Module(Error::NoKittyOwner));
            },
            Ok(true) => {},
        }
        if from == to {
            return Err(DispatchError::Module(Error::TransferToSelf));
        }
        let to_owned = self.owned_count(to);
        if !((to_owned as u32) < self.max_kitty_owned) {
            return Err(DispatchError::Module(Error::ExceedMaxKittyOwned));
        }
        match self.transfer_kitty_to(&kitty_id, to) {
            Ok(()) => Ok(Event::Transferred(from, to, kitty_id)),
            Err(e) => Err(DispatchError::Module(e)),
        }
    }

    /// Checks a bid of `bid_price` by the signer of `origin` for the kitty
    /// `kitty_id`, given the buyer's free balance, and answers the payment
    /// that the purchase asks for. Nothing is written: the payment is made
    /// by the currency, then `complete_purchase` hands the kitty over; on
    /// the registry as it stands, that hand-over succeeds.
    pub fn buy_kitty(&self, origin: Origin, kitty_id: Hash256, bid_price: Balance, buyer_free_balance: Balance) -> (r: Result<Payment, DispatchError>)
        requires
            self.wf(),
        ensures
            r == self@.buy_kitty(origin, kitty_id, bid_price, buyer_free_balance),
            r matches Ok(p) ==> self@.complete_purchase(p, Ok(())).1
                == Ok::<Event, DispatchError>(Event::Bought(p.buyer, p.seller, kitty_id, bid_price)),
    {
        proof {
            if self@.buy_kitty(origin, kitty_id, bid_price, buyer_free_balance) is Ok {
                law_accepted_bid_completes(self@, origin, kitty_id, bid_price, buyer_free_balance);
            }
        }
        let buyer = ensure_signed(origin)?;
        let kitty = match self.kitties.get(&kitty_id) {
            Some(k) => k,
            None => {
                return Err(DispatchError::Module(Error::KittyNotExist));
            },
        };
        if kitty.owner == buyer {
            return Err(DispatchError::Module(Error::BuyerIsKittyOwner));
        }
        match kitty.price {
            Some(ask_price) => {
                if !(ask_price <= bid_price) {
                    return Err(DispatchError::Module(Error::KittyBidPriceToLow));
                }
            },
            None => {
                return Err(DispatchError::Module(Error::KittyNotForSale));
            },
        }
        if !(buyer_free_balance >= bid_price) {
            return Err(DispatchError::Module(Error::NotEnoughBalance));
        }
        let to_owned = self.owned_count(buyer);
        if !((to_owned as u32) < self.max_kitty_owned) {
            return Err(DispatchError::Module(Error::ExceedMaxKittyOwned));
        }
        Ok(Payment { buyer, seller: kitty.owner, kitty_id, amount: bid_price })
    }

    /// Completes a purchase after the currency answered the payment: on
    /// success the kitty goes to the buyer, off sale. A refused payment, or
    /// a kitty that cannot be handed over, leaves the registry unchanged.
    pub fn complete_purchase(&mut self, payment: &Payment, paid: Result<(), DispatchError>) -> (r: Result<Event, DispatchError>)
        requires
            old(self).wf(),
        ensures
            final(self).wf(),
            final(self)@ == old(self)@.complete_purchase(*payment, paid).0,
            r == old(self)@.complete_purchase(*payment, paid).1,
    {
        match paid {
            Err(e) => {
                return Err(e);
            },
            Ok(()) => {},
        }
        match self.transfer_kitty_to(&payment.kitty_id, payment.buyer) {
            Err(e) => Err(DispatchError::Module(e)),
            Ok(()) => Ok(Event::Bought(payment.buyer, payment.seller, payment.kitty_id, payment.amount)),
        }
    }

    /// Breeds two different kitties `kid1` and `kid2`, both owned by the
    /// signer of `origin`, into a new kitty for the signer.
    pub fn breed_kitty(&mut self, origin: Origin, kid1: Hash256, kid2: Hash256, entropy: &Entropy) -> (r: Result<Event, DispatchError>)
        requires
            old(self).wf(),
        ensures
            final(self).wf(),
            final(self)@ == old(self)@.breed_kitty(origin, kid1, kid2, *entropy).0,
            r == old(self)@.breed_kitty(origin, kid1, kid2, *entropy).1,
    {
        let sender = ensure_signed(origin)?;
        if hash_eq(&kid1, &kid2) {
            return Err(DispatchError::Module(Error::SameKittyId));
        }
        match self.is_kitty_owner(&kid1, sender) {
            Err(e) => {
                return Err(DispatchError::Module(e));
            },
            Ok(false) => {
                return Err(DispatchError::Module(Error::NoKittyOwner));
            },
            Ok(true) => {},
        }
        match self.is_kitty_owner(&kid2, sender) {
            Err(e) => {
                return Err(DispatchError::Module(e));
            },
            Ok(false) => {
                return Err(DispatchError::Module(Error::NoKittyOwner));
            },
            Ok(true) => {},
        }
        let new_dna = match self.breed_dna(&kid1, &kid2, entropy) {
            Ok(d) => d,
            Err(e) => {
                return Err(DispatchError::Module(e));
            },
        };
        match self.mint(sender, Some(new_dna), None, entropy) {
            Ok(kitty_id) => Ok(Event::Breeded(sender, kitty_id)),
            Err(e) => Err(DispatchError::Module(e)),
        }
    }

    /// The kitties that `acct` owns, in order.
    pub fn kitties_owned(&self, acct: AccountId) -> (r: Vec<Hash256>)
        ensures
            r@ == self@.owned(acct),
    {
        let mut out: Vec<Hash256> = Vec::new();
        match self.kitties_owned.get(&acct) {
            None => {},
            Some(v) => {
                let n = owned_len(v);
                let mut i: usize = 0;
                while i < n
                    invariant
                        n == owned_ids(*v).len(),
                        i <= n,
                        out@ == owned_ids(*v).take(i as int),
                    decreases n - i,
                {
                    out.push(owned_at(v, i));
                    i = i + 1;
                    assert(out@ =~= owned_ids(*v).take(i as int));
                }
                assert(out@ =~= owned_ids(*v));
            },
        }
        out
    }
}

} // verus!
