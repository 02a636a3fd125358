use vstd::prelude::*;
use crate::types::{AccountId, Balance, DispatchError, Entropy, Error, Event, Gender, Hash256, Kitty, Origin, Payment, gender_index, signer_of};
use crate::hashing::{blake2_256, kitty_encoding};
use crate::dna::{gender_of, dna_from_seed, mixed_dna};
use crate::table::first_index;

verus! {

/// The kitty identifier of a kitty: the hash of its SCALE encoding.
pub open spec fn kitty_id_of(k: Kitty) -> Hash256 {
    blake2_256(kitty_encoding(k.dna, k.price, gender_index(k.gender), k.owner))
}

/// `s` with the item at `i` removed and the last item moved into its place.
pub open spec fn swap_removed<T>(s: Seq<T>, i: int) -> Seq<T> {
    s.update(i, s.last()).drop_last()
}

/// A kitty minted for `owner`: the given DNA and gender, or those drawn
/// from `entropy` (with `nonce` in the DNA's seed) where none is given;
/// never for sale.
pub open spec fn new_kitty(owner: AccountId, dna: Option<Hash256>, gender: Option<Gender>, entropy: Entropy, nonce: u64) -> Kitty {
    Kitty {
        dna: match dna {
            Option::Some(d) => d,
            Option::None => dna_from_seed(entropy.dna_random, entropy.block_number, nonce),
        },
        price: None,
        gender: match gender {
            Option::Some(g) => g,
            Option::None => gender_of(entropy.gender_random),
        },
        owner,
    }
}

/// The registry's state: the most kitties an account may own (fixed when the
/// registry is made), the number of kitties, the kitties by identifier, and
/// the kitties each account owns, in order (empty for an account that owns
/// none).
pub struct PalletView {
    pub max_kitty_owned: u32,
    pub all_kitties_count: u64,
    pub kitties: Map<Hash256, Kitty>,
    pub kitties_owned: Map<AccountId, Seq<Hash256>>,
}

impl PalletView {
    /// The state with no kitties, where an account may own at most
    /// `max_kitty_owned` of them.
    pub open spec fn empty(max_kitty_owned: u32) -> PalletView {
        PalletView {
            max_kitty_owned,
            all_kitties_count: 0,
            kitties: Map::empty(),
            kitties_owned: Map::new(|a: AccountId| true, |a: AccountId| Seq::<Hash256>::empty()),
        }
    }

    /// The kitties that `a` owns.
    pub open spec fn owned(self, a: AccountId) -> Seq<Hash256> {
        self.kitties_owned[a]
    }

    /// `a` may receive one more kitty.
    pub open spec fn has_room(self, a: AccountId) -> bool {
        (self.owned(a).len() as u32) < self.max_kitty_owned
    }

    /// This state with `a` owning `ids`.
    pub open spec fn with_owned(self, a: AccountId, ids: Seq<Hash256>) -> PalletView {
        PalletView { kitties_owned: self.kitties_owned.insert(a, ids), ..self }
    }

    /// This state with `k` stored under `id`.
    pub open spec fn with_kitty(self, id: Hash256, k: Kitty) -> PalletView {
        PalletView { kitties: self.kitties.insert(id, k), ..self }
    }

    /// Whether `who` owns the kitty `id`; an error when there is none.
    pub open spec fn owner_check(self, id: Hash256, who: AccountId) -> Result<bool, Error> {
        if self.kitties.contains_key(id) {
            Ok(self.kitties[id].owner == who)
        } else {
            Err(Error::KittyNotExist)
        }
    }

    /// Mints `kitty` under `id`: refused, with nothing written, when the
    /// counter would overflow, when the owner has no room left, or when `id`
    /// is taken; otherwise the counter goes up, `id` joins the end of the
    /// owner's list and the kitty is stored under it.
    pub open spec fn mint(self, kitty: Kitty, id: Hash256) -> (PalletView, Result<Hash256, Error>) {
        if self.all_kitties_count == u64::MAX {
            (self, Err(Error::KittyCounterOverflow))
        } else if self.owned(kitty.owner).len() >= self.max_kitty_owned {
            (self, Err(Error::ExceedMaxKittyOwned))
        } else if self.kitties.contains_key(id) {
            (self, Err(Error::KittyIdExists))
        } else {
            let counted = PalletView { all_kitties_count: (self.all_kitties_count + 1) as u64, ..self };
            (counted.with_owned(kitty.owner, self.owned(kitty.owner).push(id)).with_kitty(id, kitty), Ok(id))
        }
    }

    /// Mints for `owner` a kitty of the given (or drawn) DNA and gender,
    /// under the identifier that its hash gives; a drawn DNA takes the
    /// number of kitties as its nonce.
    pub open spec fn mint_new(
        self,
        owner: AccountId,
        dna: Option<Hash256>,
        gender: Option<Gender>,
        entropy: Entropy,
    ) -> (PalletView, Result<Hash256, Error>) {
        let k = new_kitty(owner, dna, gender, entropy, self.all_kitties_count);
        self.mint(k, kitty_id_of(k))
    }

    /// Moves the kitty `id` to `to` and takes it off sale: refused, with
    /// nothing written, when there is no such kitty, when its owner does not
    /// list it, or when `to` has no room once the kitty has left its owner's
    /// list; otherwise the kitty leaves its owner's list (the last item takes
    /// its place), is stored with its new owner, and joins the end of the
    /// list of `to`.
    pub open spec fn transfer_kitty_to(self, id: Hash256, to: AccountId) -> (PalletView, Result<(), Error>) {
        if !self.kitties.contains_key(id) {
            (self, Err(Error::KittyNotExist))
        } else {
            let kitty = self.kitties[id];
            let pre = kitty.owner;
            match first_index(self.owned(pre), id) {
                Option::None => (self, Err(Error::KittyNotExist)),
                Option::Some(i) => {
                    let removed = self.with_owned(pre, swap_removed(self.owned(pre), i));
                    if removed.owned(to).len() >= self.max_kitty_owned {
                        (self, Err(Error::ExceedMaxKittyOwned))
                    } else {
                        let moved = removed.with_kitty(id, Kitty { owner: to, price: None, ..kitty });
                        (moved.with_owned(to, removed.owned(to).push(id)), Ok(()))
                    }
                },
            }
        }
    }

    /// A call that creates a kitty for its signer from `entropy`.
    pub open spec fn create_kitty(self, origin: Origin, entropy: Entropy) -> (PalletView, Result<Event, DispatchError>) {
        match signer_of(origin) {
            Err(e) => (self, Err(e)),
            Ok(sender) => {
                let (s, r) = self.mint_new(sender, None, None, entropy);
                match r {
                    Ok(id) => (s, Ok(Event::Created(sender, id))),
                    Err(e) => (s, Err(DispatchError::Module(e))),
                }
            },
        }
    }

    /// A call by the owner of `id` that sets its price (none: not for sale).
    pub open spec fn set_price(self, origin: Origin, id: Hash256, new_price: Option<Balance>) -> (PalletView, Result<Event, DispatchError>) {
        match signer_of(origin) {
            Err(e) => (self, Err(e)),
            Ok(sender) => match self.owner_check(id, sender) {
                Err(e) => (self, Err(DispatchError::Module(e))),
                Ok(false) => (self, Err(DispatchError::Module(Error::NoKittyOwner))),
                Ok(true) => (
                    self.with_kitty(id, Kitty { price: new_price, ..self.kitties[id] }),
                    Ok(Event::PriceSet(sender, id, new_price)),
                ),
            },
        }
    }

    /// A call by the owner of `id` that gives it to `to`.
    pub open spec fn transfer(self, origin: Origin, to: AccountId, id: Hash256) -> (PalletView, Result<Event, DispatchError>) {
        match signer_of(origin) {
            Err(e) => (self, Err(e)),
            Ok(from) => match self.owner_check(id, from) {
                Err(e) => (self, Err(DispatchError::Module(e))),
                Ok(false) => (self, Err(DispatchError::Module(Error::NoKittyOwner))),
                Ok(true) => if from == to {
                    (self, Err(DispatchError::Module(Error::TransferToSelf)))
                } else if !self.has_room(to) {
                    (self, Err(DispatchError::Module(Error::ExceedMaxKittyOwned)))
                } else {
                    let (s, r) = self.transfer_kitty_to(id, to);
                    match r {
                        Ok(()) => (s, Ok(Event::Transferred(from, to, id))),
                        Err(e) => (s, Err(DispatchError::Module(e))),
                    }
                },
            },
        }
    }

    /// The payment that a bid of `bid_price` for `id` asks for, or why the
    /// bid is refused, given the buyer's free balance.
    pub open spec fn buy_kitty(
        self,
        origin: Origin,
        id: Hash256,
        bid_price: Balance,
        buyer_free_balance: Balance,
    ) -> Result<Payment, DispatchError> {
        match signer_of(origin) {
            Err(e) => Err(e),
            Ok(buyer) => if !self.kitties.contains_key(id) {
                Err(DispatchError::Module(Error::KittyNotExist))
            } else {
                let kitty = self.kitties[id];
                if kitty.owner == buyer {
                    Err(DispatchError::Module(Error::BuyerIsKittyOwner))
                } else {
                    match kitty.price {
                        Option::None => Err(DispatchError::Module(Error::KittyNotForSale)),
                        Option::Some(ask) => if ask > bid_price {
                            Err(DispatchError::Module(Error::KittyBidPriceToLow))
                        } else if buyer_free_balance < bid_price {
                            Err(DispatchError::Module(Error::NotEnoughBalance))
                        } else if !self.has_room(buyer) {
                            Err(DispatchError::Module(Error::ExceedMaxKittyOwned))
                        } else {
                            Ok(Payment { buyer, seller: kitty.owner, kitty_id: id, amount: bid_price })
                        },
                    }
                }
            },
        }
    }

    /// Completes a purchase once the payment was made (or refused): the
    /// kitty goes to the buyer; any refusal leaves the state as it was.
    pub open spec fn complete_purchase(self, payment: Payment, paid: Result<(), DispatchError>) -> (PalletView, Result<Event, DispatchError>) {
        match paid {
            Err(e) => (self, Err(e)),
            Ok(()) => {
                let (s, r) = self.transfer_kitty_to(payment.kitty_id, payment.buyer);
                match r {
                    Ok(()) => (s, Ok(Event::Bought(payment.buyer, payment.seller, payment.kitty_id, payment.amount))),
                    Err(e) => (self, Err(DispatchError::Module(e))),
                }
            },
        }
    }

    /// The DNA bred from kitties `kid1` and `kid2` under the selector drawn
    /// from `entropy`, with the number of kitties as nonce.
    pub open spec fn breed_dna(self, kid1: Hash256, kid2: Hash256, entropy: Entropy) -> Result<Hash256, Error> {
        if !self.kitties.contains_key(kid1) || !self.kitties.contains_key(kid2) {
            Err(Error::KittyNotExist)
        } else {
            Ok(mixed_dna(
                dna_from_seed(entropy.dna_random, entropy.block_number, self.all_kitties_count),
                self.kitties[kid1].dna,
                self.kitties[kid2].dna,
            ))
        }
    }

    /// A call by the owner of two different kitties `kid1` and `kid2` that
    /// mints a kitty bred from them.
    pub open spec fn breed_kitty(self, origin: Origin, kid1: Hash256, kid2: Hash256, entropy: Entropy) -> (PalletView, Result<Event, DispatchError>) {
        match signer_of(origin) {
            Err(e) => (self, Err(e)),
            Ok(sender) => if kid1 == kid2 {
                (self, Err(DispatchError::Module(Error::SameKittyId)))
            } else if self.owner_check(kid1, sender) is Err {
                (self, Err(DispatchError::Module(self.owner_check(kid1, sender)->Err_0)))
            } else if self.owner_check(kid1, sender) == Ok::<bool, Error>(false) {
                (self, Err(DispatchError::Module(Error::NoKittyOwner)))
            } else if self.owner_check(kid2, sender) is Err {
                (self, Err(DispatchError::Module(self.owner_check(kid2, sender)->Err_0)))
            } else if self.owner_check(kid2, sender) == Ok::<bool, Error>(false) {
                (self, Err(DispatchError::Module(Error::NoKittyOwner)))
            } else {
                match self.breed_dna(kid1, kid2, entropy) {
                    Err(e) => (self, Err(DispatchError::Module(e))),
                    Ok(dna) => {
                        let (s, r) = self.mint_new(sender, Some(dna), None, entropy);
                        match r {
                            Ok(id) => (s, Ok(Event::Breeded(sender, id))),
                            Err(e) => (s, Err(DispatchError::Module(e))),
                        }
                    },
                }
            },
        }
    }

    /// Mints the genesis kitties in order, whatever each mint answers.
    pub open spec fn genesis(self, entries: Seq<(AccountId, Hash256, Gender)>, entropy: Entropy) -> PalletView
        decreases entries.len(),
    {
        if entries.len() == 0 {
            self
        } else {
            let e = entries.last();
            self.genesis(entries.drop_last(), entropy).mint_new(e.0, Some(e.1), Some(e.2), entropy).0
        }
    }
}

} // verus!
