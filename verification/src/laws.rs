use vstd::prelude::*;
use crate::types::{Gender, AccountId, Balance, DispatchError, Entropy, Error, Event, Hash256, Kitty, Origin, Payment, signer_of};
use crate::model::{PalletView, swap_removed};
use crate::table::{first_index, is_first_index, lemma_first_index};
use crate::dna::{is_mix, mixed_byte, mixed_dna, lemma_mix_unique, gender_of, dna_from_seed};
use crate::model::kitty_id_of;

verus! {

impl PalletView {
    /// Every kitty is listed under its owner.
    pub open spec fn kitties_listed(self) -> bool {
        forall|id: Hash256| #[trigger] self.kitties.contains_key(id) ==> self.owned(self.kitties[id].owner).contains(id)
    }

    /// Every listed identifier is a kitty owned by the account that lists it.
    pub open spec fn lists_sound(self) -> bool {
        forall|a: AccountId, i: int| 0 <= i < self.owned(a).len() ==> {
            &&& self.kitties.contains_key(#[trigger] self.owned(a)[i])
            &&& self.kitties[self.owned(a)[i]].owner == a
        }
    }

    /// No list holds an identifier twice.
    pub open spec fn lists_distinct(self) -> bool {
        forall|a: AccountId| #[trigger] self.owned(a).no_duplicates()
    }

    /// No account lists more kitties than it may own.
    pub open spec fn lists_bounded(self) -> bool {
        forall|a: AccountId| #[trigger] self.owned(a).len() <= self.max_kitty_owned
    }

    /// The kitties are finitely many, and the counter says how many.
    pub open spec fn counted(self) -> bool {
        &&& self.kitties.dom().finite()
        &&& self.kitties.dom().len() == self.all_kitties_count
    }

    /// The registry's state is consistent: each kitty is listed exactly once,
    /// under its owner, lists are within bound, and the counter is the number
    /// of kitties.
    pub open spec fn consistent(self) -> bool {
        &&& self.kitties_listed()
        &&& self.lists_sound()
        &&& self.lists_distinct()
        &&& self.lists_bounded()
        &&& self.counted()
    }
}

/// The registry starts consistent.
pub proof fn law_empty_is_consistent(max_kitty_owned: u32)
    ensures
        PalletView::empty(max_kitty_owned).consistent(),
{
    let s = PalletView::empty(max_kitty_owned);
    assert(s.kitties.dom() =~= Set::<Hash256>::empty());
}

/// Removing the only occurrence of `x` (at `i`) from a list without
/// duplicates keeps it without duplicates, drops `x` and keeps the rest.
pub proof fn lemma_swap_removed<T>(s: Seq<T>, i: int)
    requires
        s.no_duplicates(),
        0 <= i < s.len(),
    ensures
        swap_removed(s, i).len() == s.len() - 1,
        swap_removed(s, i).no_duplicates(),
        forall|y: T| swap_removed(s, i).contains(y) <==> (s.contains(y) && y != s[i]),
        forall|j: int| 0 <= j < swap_removed(s, i).len() ==> s.contains(#[trigger] swap_removed(s, i)[j]),
{
    let r = swap_removed(s, i);
    let n = s.len();
    assert forall|j: int| 0 <= j < r.len() implies #[trigger] r[j] == (if j == i { s[n - 1] } else { s[j] }) by {}
    assert forall|y: T| r.contains(y) <==> (s.contains(y) && y != s[i]) by {
        if r.contains(y) {
            let j = choose|j: int| 0 <= j < r.len() && r[j] == y;
            if j == i {
                assert(s[n - 1] == y);
            } else {
                assert(s[j] == y);
            }
        }
        if s.contains(y) && y != s[i] {
            let j = choose|j: int| 0 <= j < s.len() && s[j] == y;
            if j == n - 1 {
                assert(r[i] == y);
            } else {
                assert(r[j] == y);
            }
        }
    }
    assert forall|j: int| 0 <= j < r.len() implies s.contains(#[trigger] r[j]) by {
        if j == i {
            assert(s[n - 1] == r[j]);
        } else {
            assert(s[j] == r[j]);
        }
    }
}

/// Setting a price keeps the registry consistent.
pub proof fn law_set_price_keeps_consistent(s: PalletView, origin: Origin, id: Hash256, new_price: Option<Balance>)
    requires
        s.consistent(),
    ensures
        s.set_price(origin, id, new_price).0.consistent(),
{
    let t = s.set_price(origin, id, new_price).0;
    if t != s {
        assert(t.kitties.dom() =~= s.kitties.dom());
        assert(t.kitties_owned == s.kitties_owned);
        assert forall|a: AccountId, i: int| 0 <= i < t.owned(a).len() implies {
            &&& t.kitties.contains_key(#[trigger] t.owned(a)[i])
            &&& t.kitties[t.owned(a)[i]].owner == a
        } by {
            assert(s.kitties.contains_key(s.owned(a)[i]));
        }
        assert forall|a: AccountId| #[trigger] t.owned(a).len() <= t.max_kitty_owned by {
            assert(s.owned(a).len() <= s.max_kitty_owned);
        }
    }
}

/// Minting keeps the registry consistent, and a refused mint changes
/// nothing.
pub proof fn law_mint_keeps_consistent(s: PalletView, kitty: Kitty, id: Hash256)
    requires
        s.consistent(),
    ensures
        s.mint(kitty, id).0.consistent(),
        s.mint(kitty, id).1 is Err ==> s.mint(kitty, id).0 == s,
{
    let t = s.mint(kitty, id).0;
    let o = kitty.owner;
    if s.all_kitties_count == u64::MAX || s.owned(o).len() >= s.max_kitty_owned || s.kitties.contains_key(id) {
    } else {
        let l = s.owned(o);
        assert(t.owned(o) == l.push(id));
        assert(t.kitties == s.kitties.insert(id, kitty));
        // the new identifier was listed nowhere
        assert forall|a: AccountId| !s.owned(a).contains(id) by {
            if s.owned(a).contains(id) {
                let j = choose|j: int| 0 <= j < s.owned(a).len() && s.owned(a)[j] == id;
                assert(s.kitties.contains_key(s.owned(a)[j]));
            }
        }
        assert(t.kitties.dom() =~= s.kitties.dom().insert(id));
        assert forall|k: Hash256| #[trigger] t.kitties.contains_key(k) implies t.owned(t.kitties[k].owner).contains(k) by {
            if k == id {
                assert(t.owned(o)[l.len() as int] == id);
            } else {
                let a = s.kitties[k].owner;
                assert(s.owned(a).contains(k));
                if a == o {
                    let j = choose|j: int| 0 <= j < l.len() && l[j] == k;
                    assert(t.owned(o)[j] == k);
                }
            }
        }
        assert forall|a: AccountId, i: int| 0 <= i < t.owned(a).len() implies {
            &&& t.kitties.contains_key(#[trigger] t.owned(a)[i])
            &&& t.kitties[t.owned(a)[i]].owner == a
        } by {
            if a == o && i == l.len() {
            } else {
                assert(t.owned(a)[i] == s.owned(a)[i]);
                assert(s.kitties.contains_key(s.owned(a)[i]));
            }
        }
        assert forall|a: AccountId| #[trigger] t.owned(a).no_duplicates() by {
            assert(s.owned(a).no_duplicates());
            if a == o {
                assert forall|i: int, j: int| 0 <= i < t.owned(a).len() && 0 <= j < t.owned(a).len() && i != j
                    implies t.owned(a)[i] != t.owned(a)[j] by {
                    if i == l.len() {
                        assert(l[j] != id);
                    } else if j == l.len() {
                        assert(l[i] != id);
                    }
                }
            }
        }
        assert forall|a: AccountId| #[trigger] t.owned(a).len() <= t.max_kitty_owned by {
            assert(s.owned(a).len() <= s.max_kitty_owned);
        }
    }
}

/// Moving a kitty keeps the registry consistent, and a refused move changes
/// nothing.
pub proof fn law_transfer_kitty_to_keeps_consistent(s: PalletView, id: Hash256, to: AccountId)
    requires
        s.consistent(),
    ensures
        s.transfer_kitty_to(id, to).0.consistent(),
        s.transfer_kitty_to(id, to).1 is Err ==> s.transfer_kitty_to(id, to).0 == s,
{
    let t = s.transfer_kitty_to(id, to).0;
    if !s.kitties.contains_key(id) {
        return;
    }
    let k = s.kitties[id];
    let pre = k.owner;
    let l = s.owned(pre);
    lemma_first_index(l, id);
    if first_index(l, id) is None {
        return;
    }
    let i = first_index(l, id).unwrap();
    assert(s.lists_distinct() ==> l.no_duplicates());
    assert(l.no_duplicates());
    lemma_swap_removed(l, i);
    let lr = swap_removed(l, i);
    let r = s.with_owned(pre, lr);
    let m = r.owned(to);
    if m.len() >= s.max_kitty_owned {
        return;
    }
    // the kitty is listed nowhere but in its owner's list
    assert forall|a: AccountId| a != pre implies !(#[trigger] s.owned(a)).contains(id) by {
        if s.owned(a).contains(id) {
            let j = choose|j: int| 0 <= j < s.owned(a).len() && s.owned(a)[j] == id;
            assert(s.kitties.contains_key(s.owned(a)[j]));
        }
    }
    if to == pre {
        assert(m == lr);
        assert(l[i] == id);
    } else {
        assert(m == s.owned(to));
        assert(!s.owned(to).contains(id));
    }
    assert(!m.contains(id));
    assert(m.len() < s.max_kitty_owned);
    assert(t.kitties == s.kitties.insert(id, Kitty { owner: to, price: None, ..k }));
    assert(t.owned(to) == m.push(id));
    assert(t.kitties.dom() =~= s.kitties.dom());
    // where the identifiers of each list come from
    assert forall|a: AccountId, j: int| 0 <= j < t.owned(a).len() && t.owned(a)[j] != id implies
        s.owned(a).contains(#[trigger] t.owned(a)[j]) || (a == to && l.contains(t.owned(a)[j])) by {
        if a == to {
            if j < m.len() {
                if to == pre {
                    assert(lr.contains(lr[j]));
                } else {
                    assert(s.owned(a)[j] == t.owned(a)[j]);
                }
            }
        } else if a == pre {
            assert(lr.contains(lr[j]));
        } else {
            assert(s.owned(a)[j] == t.owned(a)[j]);
        }
    }
    assert forall|x: Hash256| #[trigger] t.kitties.contains_key(x) implies t.owned(t.kitties[x].owner).contains(x) by {
        if x == id {
            assert(t.owned(to)[m.len() as int] == id);
        } else {
            let b = s.kitties[x].owner;
            assert(s.owned(b).contains(x));
            let j = choose|j: int| 0 <= j < s.owned(b).len() && s.owned(b)[j] == x;
            if b == to {
                if to == pre {
                    assert(lr.contains(x));
                    let q = choose|q: int| 0 <= q < lr.len() && lr[q] == x;
                    assert(t.owned(to)[q] == x);
                } else {
                    assert(t.owned(to)[j] == x);
                }
            } else if b == pre {
                assert(lr.contains(x));
            } else {
                assert(t.owned(b)[j] == x);
            }
        }
    }
    assert forall|a: AccountId, j: int| 0 <= j < t.owned(a).len() implies {
        &&& t.kitties.contains_key(#[trigger] t.owned(a)[j])
        &&& t.kitties[t.owned(a)[j]].owner == a
    } by {
        let x = t.owned(a)[j];
        if x != id {
            if s.owned(a).contains(x) {
                let q = choose|q: int| 0 <= q < s.owned(a).len() && s.owned(a)[q] == x;
                assert(s.kitties.contains_key(s.owned(a)[q]));
            } else {
                let q = choose|q: int| 0 <= q < l.len() && l[q] == x;
                assert(s.kitties.contains_key(l[q]));
            }
        } else {
            if a != to {
                if a == pre {
                    assert(lr.contains(x));
                } else {
                    assert(s.owned(a).contains(x));
                }
            }
        }
    }
    assert forall|a: AccountId| #[trigger] t.owned(a).no_duplicates() by {
        assert(s.owned(a).no_duplicates());
        if a == to {
            assert(m.no_duplicates());
            assert forall|p: int, q: int| 0 <= p < t.owned(a).len() && 0 <= q < t.owned(a).len() && p != q
                implies t.owned(a)[p] != t.owned(a)[q] by {
                if p == m.len() {
                    assert(m.contains(m[q]));
                } else if q == m.len() {
                    assert(m.contains(m[p]));
                }
            }
        }
    }
    assert forall|a: AccountId| #[trigger] t.owned(a).len() <= t.max_kitty_owned by {
        assert(s.owned(a).len() <= s.max_kitty_owned);
    }
}

/// A transfer keeps the registry consistent.
pub proof fn law_transfer_keeps_consistent(s: PalletView, origin: Origin, to: AccountId, id: Hash256)
    requires
        s.consistent(),
    ensures
        s.transfer(origin, to, id).0.consistent(),
        s.transfer(origin, to, id).1 is Err ==> s.transfer(origin, to, id).0 == s,
{
    if let Ok(from) = signer_of(origin) {
        if s.owner_check(id, from) == Ok::<bool, Error>(true) && from != to && s.has_room(to) {
            let k = s.kitties[id];
            let l = s.owned(k.owner);
            lemma_first_index(l, id);
            assert(l.contains(id));
            let i = first_index(l, id).unwrap();
            let r = s.with_owned(k.owner, swap_removed(l, i));
            assert(r.owned(to) == s.owned(to));
            assert(s.owned(to).len() <= s.max_kitty_owned);
            assert(s.owned(to).len() < s.max_kitty_owned);
            law_transfer_kitty_to_keeps_consistent(s, id, to);
        }
    }
}

/// A transfer that succeeds gives the kitty to the receiver, off sale,
/// moves its identifier from the sender's list to the receiver's, and
/// leaves every other kitty as it was.
pub proof fn law_transfer_moves_kitty(s: PalletView, origin: Origin, to: AccountId, id: Hash256)
    requires
        s.consistent(),
        s.transfer(origin, to, id).1 is Ok,
    ensures
        ({
            let t = s.transfer(origin, to, id).0;
            let from = signer_of(origin).unwrap();
            &&& s.kitties.contains_key(id)
            &&& s.kitties[id].owner == from
            &&& from != to
            &&& t.kitties.contains_key(id)
            &&& t.kitties[id] == (Kitty { owner: to, price: None, ..s.kitties[id] })
            &&& t.owned(to).contains(id)
            &&& !t.owned(from).contains(id)
            &&& t.kitties.dom() == s.kitties.dom()
            &&& forall|k: Hash256| k != id && #[trigger] s.kitties.contains_key(k) ==> t.kitties[k] == s.kitties[k]
            &&& t.all_kitties_count == s.all_kitties_count
        }),
{
    let t = s.transfer(origin, to, id).0;
    let from = signer_of(origin).unwrap();
    let k = s.kitties[id];
    let l = s.owned(from);
    lemma_first_index(l, id);
    assert(l.contains(id));
    let i = first_index(l, id).unwrap();
    assert(l.no_duplicates());
    lemma_swap_removed(l, i);
    let lr = swap_removed(l, i);
    assert(t.owned(to)[t.owned(to).len() - 1] == id);
    assert(t.owned(from) == lr);
    assert(l[i] == id);
    assert(t.kitties.dom() =~= s.kitties.dom());
}

/// Setting a price succeeds exactly when the signer owns the kitty; it then
/// changes that kitty's price and nothing else, and a refusal changes
/// nothing.
pub proof fn law_only_owner_sets_price(s: PalletView, origin: Origin, id: Hash256, new_price: Option<Balance>)
    ensures
        (s.set_price(origin, id, new_price).1 is Ok) <==> (signer_of(origin) is Ok
            && s.owner_check(id, signer_of(origin).unwrap()) == Ok::<bool, Error>(true)),
        s.set_price(origin, id, new_price).1 is Err ==> s.set_price(origin, id, new_price).0 == s,
        s.set_price(origin, id, new_price).1 is Ok ==> s.set_price(origin, id, new_price).0 == s.with_kitty(
            id,
            Kitty { price: new_price, ..s.kitties[id] },
        ),
{
}

/// A bid that is accepted asks the buyer to pay its bid to the kitty's
/// owner, who is someone else; the bid covers the asking price and the
/// buyer's balance covers the bid. Once paid, the purchase completes: the
/// kitty belongs to the buyer, off sale, and the registry stays consistent.
pub proof fn law_accepted_bid_completes(s: PalletView, origin: Origin, id: Hash256, bid_price: Balance, buyer_free_balance: Balance)
    requires
        s.consistent(),
        s.buy_kitty(origin, id, bid_price, buyer_free_balance) is Ok,
    ensures
        ({
            let p = s.buy_kitty(origin, id, bid_price, buyer_free_balance).unwrap();
            let (t, r) = s.complete_purchase(p, Ok(()));
            &&& signer_of(origin) == Ok::<AccountId, DispatchError>(p.buyer)
            &&& s.kitties.contains_key(id)
            &&& p.kitty_id == id
            &&& p.seller == s.kitties[id].owner
            &&& p.seller != p.buyer
            &&& p.amount == bid_price
            &&& s.kitties[id].price matches Some(ask) && ask <= bid_price
            &&& buyer_free_balance >= bid_price
            &&& r == Ok::<Event, DispatchError>(Event::Bought(p.buyer, p.seller, id, bid_price))
            &&& t.kitties[id] == (Kitty { owner: p.buyer, price: None, ..s.kitties[id] })
            &&& t.owned(p.buyer).contains(id)
            &&& t.consistent()
        }),
{
    let p = s.buy_kitty(origin, id, bid_price, buyer_free_balance).unwrap();
    let k = s.kitties[id];
    let l = s.owned(k.owner);
    lemma_first_index(l, id);
    assert(l.contains(id));
    let i = first_index(l, id).unwrap();
    let r = s.with_owned(k.owner, swap_removed(l, i));
    assert(r.owned(p.buyer) == s.owned(p.buyer));
    assert(s.owned(p.buyer).len() <= s.max_kitty_owned);
    law_transfer_kitty_to_keeps_consistent(s, id, p.buyer);
    let t = s.complete_purchase(p, Ok(())).0;
    assert(t.owned(p.buyer)[t.owned(p.buyer).len() - 1] == id);
}

/// A purchase that is refused, by the currency or by the registry, leaves
/// the registry as it was; completing a purchase keeps it consistent.
pub proof fn law_refused_purchase_changes_nothing(s: PalletView, payment: Payment, paid: Result<(), DispatchError>)
    requires
        s.consistent(),
    ensures
        s.complete_purchase(payment, paid).1 is Err ==> s.complete_purchase(payment, paid).0 == s,
        s.complete_purchase(payment, paid).0.consistent(),
{
    if paid is Ok && s.transfer_kitty_to(payment.kitty_id, payment.buyer).1 is Ok {
        law_transfer_kitty_to_keeps_consistent(s, payment.kitty_id, payment.buyer);
    }
}

/// Creating a kitty keeps the registry consistent, and a refused creation
/// changes nothing.
pub proof fn law_create_kitty_keeps_consistent(s: PalletView, origin: Origin, entropy: Entropy)
    requires
        s.consistent(),
    ensures
        s.create_kitty(origin, entropy).0.consistent(),
        s.create_kitty(origin, entropy).1 is Err ==> s.create_kitty(origin, entropy).0 == s,
{
    if let Ok(sender) = signer_of(origin) {
        let k = crate::model::new_kitty(sender, None, None, entropy, s.all_kitties_count);
        law_mint_keeps_consistent(s, k, crate::model::kitty_id_of(k));
    }
}

/// Breeding keeps the registry consistent, and a refused breeding changes
/// nothing.
pub proof fn law_breed_kitty_keeps_consistent(s: PalletView, origin: Origin, kid1: Hash256, kid2: Hash256, entropy: Entropy)
    requires
        s.consistent(),
    ensures
        s.breed_kitty(origin, kid1, kid2, entropy).0.consistent(),
        s.breed_kitty(origin, kid1, kid2, entropy).1 is Err ==> s.breed_kitty(origin, kid1, kid2, entropy).0 == s,
{
    if let Ok(sender) = signer_of(origin) {
        if kid1 != kid2 && s.owner_check(kid1, sender) == Ok::<bool, Error>(true) && s.owner_check(kid2, sender) == Ok::<bool, Error>(true)
            && s.breed_dna(kid1, kid2, entropy) is Ok {
            let dna = s.breed_dna(kid1, kid2, entropy).unwrap();
            let k = crate::model::new_kitty(sender, Some(dna), None, entropy, s.all_kitties_count);
            law_mint_keeps_consistent(s, k, crate::model::kitty_id_of(k));
        }
    }
}

/// `t` holds every kitty that `s` holds, and its counter is no lower.
pub open spec fn keeps_kitties(s: PalletView, t: PalletView) -> bool {
    &&& forall|id: Hash256| #[trigger] s.kitties.contains_key(id) ==> t.kitties.contains_key(id)
    &&& s.all_kitties_count <= t.all_kitties_count
}

/// No call removes a kitty or lowers the counter: kitties are never burned.
pub proof fn law_kitties_are_never_lost(
    s: PalletView,
    origin: Origin,
    id: Hash256,
    to: AccountId,
    new_price: Option<Balance>,
    kid1: Hash256,
    kid2: Hash256,
    entropy: Entropy,
    payment: Payment,
    paid: Result<(), DispatchError>,
    kitty: Kitty,
)
    ensures
        keeps_kitties(s, s.mint(kitty, id).0),
        keeps_kitties(s, s.transfer_kitty_to(id, to).0),
        keeps_kitties(s, s.create_kitty(origin, entropy).0),
        keeps_kitties(s, s.set_price(origin, id, new_price).0),
        keeps_kitties(s, s.transfer(origin, to, id).0),
        keeps_kitties(s, s.complete_purchase(payment, paid).0),
        keeps_kitties(s, s.breed_kitty(origin, kid1, kid2, entropy).0),
{
    assert forall|k: Kitty, x: Hash256| keeps_kitties(s, #[trigger] s.mint(k, x).0) by {}
    assert forall|x: Hash256, a: AccountId| keeps_kitties(s, #[trigger] s.transfer_kitty_to(x, a).0) by {}
}

/// Every bit of a bred DNA comes from a parent: where the parents agree the
/// child agrees with them, and a bit that both parents lack the child lacks.
pub proof fn law_bred_bits_come_from_parents(r: Hash256, a: Hash256, b: Hash256, c: Hash256)
    requires
        is_mix(r, a, b, c),
    ensures
        forall|i: int| 0 <= i < 32 ==> #[trigger] c[i] & !(a[i] | b[i]) == 0,
        forall|i: int| 0 <= i < 32 && a[i] == b[i] ==> #[trigger] c[i] == a[i],
{
    assert forall|i: int| 0 <= i < 32 implies #[trigger] c[i] & !(a[i] | b[i]) == 0 by {
        let (x, y, z) = (r[i], a[i], b[i]);
        assert(mixed_byte(x, y, z) & !(y | z) == 0) by (bit_vector);
        assert(c[i] == mixed_byte(x, y, z));
    }
    assert forall|i: int| 0 <= i < 32 && a[i] == b[i] implies #[trigger] c[i] == a[i] by {
        let (x, y) = (r[i], a[i]);
        assert(mixed_byte(x, y, y) == y) by (bit_vector);
        assert(c[i] == mixed_byte(x, a[i], b[i]));
    }
}

/// Mixing a kitty's DNA with itself gives the same DNA.
pub proof fn law_mixing_dna_with_itself(s: PalletView, kid: Hash256, entropy: Entropy)
    requires
        s.kitties.contains_key(kid),
    ensures
        s.breed_dna(kid, kid, entropy) == Ok::<Hash256, Error>(s.kitties[kid].dna),
{
    let d = s.kitties[kid].dna;
    let r = crate::dna::dna_from_seed(entropy.dna_random, entropy.block_number, s.all_kitties_count);
    assert forall|i: int| 0 <= i < 32 implies #[trigger] d[i] == mixed_byte(r[i], d[i], d[i]) by {
        let (x, y) = (r[i], d[i]);
        assert(mixed_byte(x, y, y) == y) by (bit_vector);
    }
    assert(is_mix(r, d, d, d));
    lemma_mix_unique(r, d, d, mixed_dna(r, d, d), d);
}

/// A created kitty belongs to the signer, is not for sale, carries the DNA
/// and gender drawn from the call's entropy, is stored under the hash of its
/// record and listed last under the signer; the counter goes up by one.
pub proof fn law_created_kitty(s: PalletView, origin: Origin, entropy: Entropy)
    requires
        s.create_kitty(origin, entropy).1 is Ok,
    ensures
        ({
            let (t, r) = s.create_kitty(origin, entropy);
            let sender = signer_of(origin).unwrap();
            let k = crate::model::new_kitty(sender, None, None, entropy, s.all_kitties_count);
            let id = crate::model::kitty_id_of(k);
            &&& r == Ok::<Event, DispatchError>(Event::Created(sender, id))
            &&& !s.kitties.contains_key(id)
            &&& t.kitties == s.kitties.insert(id, k)
            &&& k.owner == sender && k.price is None
            &&& t.owned(sender) == s.owned(sender).push(id)
            &&& t.all_kitties_count == s.all_kitties_count + 1
        }),
{
}

/// Minting genesis entries keeps a consistent state consistent; an entry
/// whose kitty is already there is refused and changes nothing.
pub proof fn law_genesis_keeps_consistent(s: PalletView, entries: Seq<(AccountId, Hash256, Gender)>, entropy: Entropy)
    requires
        s.consistent(),
    ensures
        s.genesis(entries, entropy).consistent(),
    decreases entries.len(),
{
    if entries.len() > 0 {
        let pre = entries.drop_last();
        law_genesis_keeps_consistent(s, pre, entropy);
        let last = entries.last();
        let k = crate::model::new_kitty(last.0, Some(last.1), Some(last.2), entropy, s.genesis(pre, entropy).all_kitties_count);
        law_mint_keeps_consistent(s.genesis(pre, entropy), k, crate::model::kitty_id_of(k));
    }
}

/// A chain starts consistent, whatever its genesis kitties.
pub proof fn law_genesis_is_consistent(max_kitty_owned: u32, entries: Seq<(AccountId, Hash256, Gender)>, entropy: Entropy)
    ensures
        PalletView::empty(max_kitty_owned).genesis(entries, entropy).consistent(),
{
    law_empty_is_consistent(max_kitty_owned);
    law_genesis_keeps_consistent(PalletView::empty(max_kitty_owned), entries, entropy);
}

/// A move takes one kitty off its owner's list and puts one on the
/// receiver's: every other list is untouched, so the lists hold as many
/// kitties in all as before, and the counter and the set of kitties stay.
pub proof fn law_transfer_kitty_to_moves_one(s: PalletView, id: Hash256, to: AccountId)
    requires
        s.consistent(),
        s.transfer_kitty_to(id, to).1 is Ok,
    ensures
        ({
            let t = s.transfer_kitty_to(id, to).0;
            let from = s.kitties[id].owner;
            &&& s.kitties.contains_key(id)
            &&& t.all_kitties_count == s.all_kitties_count
            &&& t.kitties.dom() == s.kitties.dom()
            &&& from != to ==> t.owned(from).len() == s.owned(from).len() - 1
            &&& from != to ==> t.owned(to).len() == s.owned(to).len() + 1
            &&& from == to ==> t.owned(to).len() == s.owned(to).len()
            &&& forall|a: AccountId| a != from && a != to ==> #[trigger] t.owned(a) == s.owned(a)
        }),
{
    let t = s.transfer_kitty_to(id, to).0;
    let l = s.owned(s.kitties[id].owner);
    lemma_first_index(l, id);
    assert(t.kitties.dom() =~= s.kitties.dom());
}

/// A transfer there and back again gives the kitty back to its owner, off
/// sale: the receiver's list is as it was, and the owner's list holds the
/// same kitties as before (possibly in another order); nothing else changes.
pub proof fn law_transfer_there_and_back(s: PalletView, a: AccountId, b: AccountId, id: Hash256)
    requires
        s.consistent(),
        s.transfer(Origin::Signed(a), b, id).1 is Ok,
    ensures
        ({
            let s1 = s.transfer(Origin::Signed(a), b, id).0;
            let (s2, r2) = s1.transfer(Origin::Signed(b), a, id);
            &&& r2 == Ok::<Event, DispatchError>(Event::Transferred(b, a, id))
            &&& s2.kitties[id] == (Kitty { price: None, ..s.kitties[id] })
            &&& s2.kitties.dom() == s.kitties.dom()
            &&& forall|k: Hash256| k != id && #[trigger] s.kitties.contains_key(k) ==> s2.kitties[k] == s.kitties[k]
            &&& s2.owned(b) == s.owned(b)
            &&& s2.owned(a).len() == s.owned(a).len()
            &&& forall|x: Hash256| #[trigger] s2.owned(a).contains(x) <==> s.owned(a).contains(x)
            &&& forall|c: AccountId| c != a && c != b ==> #[trigger] s2.owned(c) == s.owned(c)
            &&& s2.all_kitties_count == s.all_kitties_count
        }),
{
    let s1 = s.transfer(Origin::Signed(a), b, id).0;
    law_transfer_moves_kitty(s, Origin::Signed(a), b, id);
    law_transfer_keeps_consistent(s, Origin::Signed(a), b, id);
    let l = s.owned(a);
    let m = s.owned(b);
    lemma_first_index(l, id);
    let i = first_index(l, id).unwrap();
    assert(l.no_duplicates());
    lemma_swap_removed(l, i);
    let lr = swap_removed(l, i);
    assert(s1.owned(a) == lr);
    // the kitty was listed under its owner only
    assert(!m.contains(id)) by {
        if m.contains(id) {
            let j = choose|j: int| 0 <= j < m.len() && m[j] == id;
            assert(s.kitties.contains_key(m[j]));
        }
    }
    assert(s1.owned(b) == m.push(id));
    assert(is_first_index(m.push(id), id, m.len() as int));
    lemma_first_index(m.push(id), id);
    assert(swap_removed(m.push(id), m.len() as int) =~= m);
    assert(s1.owned(a).len() < s1.max_kitty_owned);
    let s2 = s1.transfer(Origin::Signed(b), a, id).0;
    assert(s2.owned(b) == m);
    assert(s2.owned(a) == lr.push(id));
    assert(l[i] == id);
    assert forall|x: Hash256| #[trigger] s2.owned(a).contains(x) <==> l.contains(x) by {
        if s2.owned(a).contains(x) && x != id {
            let j = choose|j: int| 0 <= j < s2.owned(a).len() && s2.owned(a)[j] == x;
            assert(lr[j] == x);
        }
        if l.contains(x) {
            if x == id {
                assert(s2.owned(a)[lr.len() as int] == x);
            } else {
                assert(lr.contains(x));
                let j = choose|j: int| 0 <= j < lr.len() && lr[j] == x;
                assert(s2.owned(a)[j] == x);
            }
        }
    }
    assert(s2.kitties.dom() =~= s.kitties.dom());
}

/// A kitty cannot be bred with itself: the call is refused and changes
/// nothing.
pub proof fn law_breeding_with_itself_refused(s: PalletView, who: AccountId, kid: Hash256, entropy: Entropy)
    ensures
        s.breed_kitty(Origin::Signed(who), kid, kid, entropy)
            == (s, Err::<Event, DispatchError>(DispatchError::Module(Error::SameKittyId))),
{
}

/// A DNA stands for a male exactly when its first byte is even, and for a
/// female exactly when it is odd.
pub proof fn law_gender_is_parity_of_first_byte(dna: Hash256)
    ensures
        (gender_of(dna) == Gender::Male) <==> dna[0] % 2 == 0,
        (gender_of(dna) == Gender::Female) <==> dna[0] % 2 == 1,
{
}

/// A bid is accepted whenever it may be: when the signer does not own the
/// kitty, the kitty asks a price the bid covers, the balance covers the bid
/// and the signer's own list has room, the answer is the payment of the bid
/// from the signer to the owner.
pub proof fn law_bid_accepted_when_allowed(
    s: PalletView,
    buyer: AccountId,
    id: Hash256,
    ask: Balance,
    bid_price: Balance,
    buyer_free_balance: Balance,
)
    requires
        s.kitties.contains_key(id),
        s.kitties[id].owner != buyer,
        s.kitties[id].price == Some(ask),
        ask <= bid_price,
        buyer_free_balance >= bid_price,
        s.owned(buyer).len() < s.max_kitty_owned,
    ensures
        s.buy_kitty(Origin::Signed(buyer), id, bid_price, buyer_free_balance)
            == Ok::<Payment, DispatchError>(Payment { buyer, seller: s.kitties[id].owner, kitty_id: id, amount: bid_price }),
{
    let n = s.owned(buyer).len();
    assert(n < 0x1_0000_0000);
    assert((n as u32) == n);
}

/// A transfer succeeds whenever it may: when the signer owns the kitty, the
/// receiver is someone else and the receiver's list has room, the kitty goes
/// to the receiver.
pub proof fn law_transfer_succeeds_when_allowed(s: PalletView, from: AccountId, to: AccountId, id: Hash256)
    requires
        s.consistent(),
        s.kitties.contains_key(id),
        s.kitties[id].owner == from,
        from != to,
        s.owned(to).len() < s.max_kitty_owned,
    ensures
        s.transfer(Origin::Signed(from), to, id).1 == Ok::<Event, DispatchError>(Event::Transferred(from, to, id)),
        s.transfer(Origin::Signed(from), to, id).0.kitties[id] == (Kitty { owner: to, price: None, ..s.kitties[id] }),
{
    let n = s.owned(to).len();
    assert((n as u32) == n);
    let l = s.owned(from);
    assert(l.contains(id));
    lemma_first_index(l, id);
    let i = first_index(l, id).unwrap();
    let r = s.with_owned(from, swap_removed(l, i));
    assert(r.owned(to) == s.owned(to));
}

/// Breeding succeeds whenever it may, whatever the parents' genders: when
/// the signer owns two different kitties, the counter can go up, the signer's
/// list has room and the child's identifier is new, the child (the parents'
/// DNA mixed under a fresh selector, a drawn gender, off sale, owned by the
/// signer) is stored under its identifier and listed last under the signer.
pub proof fn law_breeding_succeeds_when_allowed(
    s: PalletView,
    sender: AccountId,
    kid1: Hash256,
    kid2: Hash256,
    entropy: Entropy,
)
    requires
        kid1 != kid2,
        s.kitties.contains_key(kid1),
        s.kitties.contains_key(kid2),
        s.kitties[kid1].owner == sender,
        s.kitties[kid2].owner == sender,
        s.all_kitties_count < u64::MAX,
        s.owned(sender).len() < s.max_kitty_owned,
        !s.kitties.contains_key(kitty_id_of(Kitty {
            dna: mixed_dna(
                dna_from_seed(entropy.dna_random, entropy.block_number, s.all_kitties_count),
                s.kitties[kid1].dna,
                s.kitties[kid2].dna,
            ),
            price: None,
            gender: gender_of(entropy.gender_random),
            owner: sender,
        })),
    ensures
        ({
            let child = Kitty {
                dna: mixed_dna(
                    dna_from_seed(entropy.dna_random, entropy.block_number, s.all_kitties_count),
                    s.kitties[kid1].dna,
                    s.kitties[kid2].dna,
                ),
                price: None,
                gender: gender_of(entropy.gender_random),
                owner: sender,
            };
            let id = kitty_id_of(child);
            let (t, r) = s.breed_kitty(Origin::Signed(sender), kid1, kid2, entropy);
            &&& r == Ok::<Event, DispatchError>(Event::Breeded(sender, id))
            &&& t.kitties == s.kitties.insert(id, child)
            &&& t.owned(sender) == s.owned(sender).push(id)
            &&& t.all_kitties_count == s.all_kitties_count + 1
        }),
{
}

/// Building genesis from a list that ends in an entry mints that entry on
/// the state the earlier entries built, whatever they answered: the entry's
/// kitty (its DNA and gender, off sale, owned by its account) is minted under
/// its identifier.
pub proof fn law_genesis_mints_each_entry(
    s: PalletView,
    entries: Seq<(AccountId, Hash256, Gender)>,
    entry: (AccountId, Hash256, Gender),
    entropy: Entropy,
)
    ensures
        ({
            let k = Kitty { dna: entry.1, price: None, gender: entry.2, owner: entry.0 };
            s.genesis(entries.push(entry), entropy) == s.genesis(entries, entropy).mint(k, kitty_id_of(k)).0
        }),
{
    assert(entries.push(entry).drop_last() =~= entries);
}

/// An entry whose kitty is new and whose account has room is minted, whatever
/// the entries before it answered.
pub proof fn law_genesis_entry_minted_when_allowed(
    s: PalletView,
    entries: Seq<(AccountId, Hash256, Gender)>,
    entry: (AccountId, Hash256, Gender),
    entropy: Entropy,
)
    requires
        ({
            let g = s.genesis(entries, entropy);
            let k = Kitty { dna: entry.1, price: None, gender: entry.2, owner: entry.0 };
            &&& g.all_kitties_count < u64::MAX
            &&& g.owned(entry.0).len() < g.max_kitty_owned
            &&& !g.kitties.contains_key(kitty_id_of(k))
        }),
    ensures
        ({
            let k = Kitty { dna: entry.1, price: None, gender: entry.2, owner: entry.0 };
            let t = s.genesis(entries.push(entry), entropy);
            &&& t.kitties.contains_key(kitty_id_of(k))
            &&& t.kitties[kitty_id_of(k)] == k
            &&& t.all_kitties_count == s.genesis(entries, entropy).all_kitties_count + 1
        }),
{
    law_genesis_mints_each_entry(s, entries, entry, entropy);
}

/// A bid is refused only when it may not be accepted: the call is not
/// signed, the kitty is missing, the signer owns it, it asks no price or a
/// price above the bid, the balance is below the bid, or the signer's list is
/// full. A refused bid writes nothing (the call only reads).
pub proof fn law_bid_refused_only_when_disallowed(
    s: PalletView,
    origin: Origin,
    id: Hash256,
    bid_price: Balance,
    buyer_free_balance: Balance,
)
    requires
        s.buy_kitty(origin, id, bid_price, buyer_free_balance) is Err,
    ensures
        ({
            let buyer = signer_of(origin)->Ok_0;
            ||| signer_of(origin) is Err
            ||| !s.kitties.contains_key(id)
            ||| s.kitties[id].owner == buyer
            ||| s.kitties[id].price is None
            ||| s.kitties[id].price->Some_0 > bid_price
            ||| buyer_free_balance < bid_price
            ||| s.owned(buyer).len() >= s.max_kitty_owned
        }),
{
    if let Ok(buyer) = signer_of(origin) {
        let n = s.owned(buyer).len();
        if n < s.max_kitty_owned {
            assert((n as u32) == n);
        }
    }
}

/// In a consistent registry a transfer is refused only when it may not be
/// made: the call is not signed, the kitty is missing or not the signer's,
/// the receiver is the signer, or the receiver's list is full.
pub proof fn law_transfer_refused_only_when_disallowed(s: PalletView, origin: Origin, to: AccountId, id: Hash256)
    requires
        s.consistent(),
        s.transfer(origin, to, id).1 is Err,
    ensures
        ({
            let from = signer_of(origin)->Ok_0;
            ||| signer_of(origin) is Err
            ||| !s.kitties.contains_key(id)
            ||| s.kitties[id].owner != from
            ||| from == to
            ||| s.owned(to).len() >= s.max_kitty_owned
        }),
{
    if let Ok(from) = signer_of(origin) {
        if s.kitties.contains_key(id) && s.kitties[id].owner == from && from != to && s.owned(to).len() < s.max_kitty_owned {
            law_transfer_succeeds_when_allowed(s, from, to, id);
        }
    }
}

/// Minting succeeds whenever it may: when the counter can go up, the owner's
/// list has room and the identifier is new, the kitty is stored under it,
/// listed last under its owner, and counted.
pub proof fn law_mint_succeeds_when_allowed(s: PalletView, kitty: Kitty, id: Hash256)
    requires
        s.all_kitties_count < u64::MAX,
        s.owned(kitty.owner).len() < s.max_kitty_owned,
        !s.kitties.contains_key(id),
    ensures
        s.mint(kitty, id).1 == Ok::<Hash256, Error>(id),
        s.mint(kitty, id).0.kitties == s.kitties.insert(id, kitty),
        s.mint(kitty, id).0.owned(kitty.owner) == s.owned(kitty.owner).push(id),
        forall|a: AccountId| a != kitty.owner ==> #[trigger] s.mint(kitty, id).0.owned(a) == s.owned(a),
        s.mint(kitty, id).0.all_kitties_count == s.all_kitties_count + 1,
{
}

/// A mint is refused only when it may not be made, and then writes nothing.
pub proof fn law_mint_refused_only_when_disallowed(s: PalletView, kitty: Kitty, id: Hash256)
    requires
        s.mint(kitty, id).1 is Err,
    ensures
        s.all_kitties_count == u64::MAX || s.owned(kitty.owner).len() >= s.max_kitty_owned || s.kitties.contains_key(id),
        s.mint(kitty, id).0 == s,
{
}

/// Creating succeeds whenever it may: for a signed call, when the counter can
/// go up, the signer's list has room and the new kitty's identifier is new,
/// the kitty drawn from the entropy (off sale, owned by the signer) is
/// stored under its identifier.
pub proof fn law_create_succeeds_when_allowed(s: PalletView, sender: AccountId, entropy: Entropy)
    requires
        s.all_kitties_count < u64::MAX,
        s.owned(sender).len() < s.max_kitty_owned,
        !s.kitties.contains_key(kitty_id_of(Kitty {
            dna: dna_from_seed(entropy.dna_random, entropy.block_number, s.all_kitties_count),
            price: None,
            gender: gender_of(entropy.gender_random),
            owner: sender,
        })),
    ensures
        ({
            let k = Kitty {
                dna: dna_from_seed(entropy.dna_random, entropy.block_number, s.all_kitties_count),
                price: None,
                gender: gender_of(entropy.gender_random),
                owner: sender,
            };
            let (t, r) = s.create_kitty(Origin::Signed(sender), entropy);
            &&& r == Ok::<Event, DispatchError>(Event::Created(sender, kitty_id_of(k)))
            &&& t.kitties == s.kitties.insert(kitty_id_of(k), k)
            &&& t.owned(sender) == s.owned(sender).push(kitty_id_of(k))
            &&& t.all_kitties_count == s.all_kitties_count + 1
        }),
{
}

/// A move succeeds whenever it may: in a consistent registry, when the
/// receiver's list has room once the kitty has left its owner's, the kitty
/// goes to the receiver, off sale.
pub proof fn law_transfer_kitty_to_succeeds_when_allowed(s: PalletView, id: Hash256, to: AccountId)
    requires
        s.consistent(),
        s.kitties.contains_key(id),
        to == s.kitties[id].owner || s.owned(to).len() < s.max_kitty_owned,
    ensures
        s.transfer_kitty_to(id, to).1 is Ok,
        s.transfer_kitty_to(id, to).0.kitties[id] == (Kitty { owner: to, price: None, ..s.kitties[id] }),
        s.transfer_kitty_to(id, to).0.owned(to).last() == id,
{
    let pre = s.kitties[id].owner;
    let l = s.owned(pre);
    assert(l.contains(id));
    lemma_first_index(l, id);
    let i = first_index(l, id).unwrap();
    assert(l.len() <= s.max_kitty_owned);
    let r = s.with_owned(pre, swap_removed(l, i));
    if to != pre {
        assert(r.owned(to) == s.owned(to));
    }
}

} // verus!
