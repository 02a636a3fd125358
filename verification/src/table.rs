use vstd::prelude::*;
use crate::types::{Hash256, Kitty, hash_eq};

verus! {

/// The first position of `x` in `s`, when `s` holds it.
pub open spec fn first_index<T>(s: Seq<T>, x: T) -> Option<int> {
    s.index_of_first(x)
}

/// `i` is the first position of `x` in `s`.
pub open spec fn is_first_index<T>(s: Seq<T>, x: T, i: int) -> bool {
    &&& 0 <= i < s.len()
    &&& s[i] == x
    &&& forall|j: int| 0 <= j < i ==> s[j] != x
}

/// `index_of_first` is the first position, and none exactly when absent.
pub proof fn lemma_first_index<T>(s: Seq<T>, x: T)
    ensures
        match first_index(s, x) {
            Option::Some(i) => is_first_index(s, x, i),
            Option::None => !s.contains(x),
        },
        forall|i: int| is_first_index(s, x, i) ==> first_index(s, x) == Some(i),
{
    s.index_of_first_ensures(x);
    assert forall|i: int| is_first_index(s, x, i) implies first_index(s, x) == Some(i) by {
        assert(s.contains(x));
        let k = first_index(s, x).unwrap();
        if k < i {
            assert(s[k] != x);
        } else if i < k {
            assert(s[i] != x);
        }
    }
}

/// A table from kitty identifiers to kitties, kept as two parallel vectors.
/// The first occurrence of an identifier gives its kitty.
pub struct KittyTable {
    ids: Vec<Hash256>,
    records: Vec<Kitty>,
}

impl View for KittyTable {
    type V = Map<Hash256, Kitty>;

    closed spec fn view(&self) -> Map<Hash256, Kitty> {
        Map::new(
            |k: Hash256| self.ids@.contains(k),
            |k: Hash256| self.records@[first_index(self.ids@, k).unwrap()],
        )
    }
}

impl KittyTable {
    /// The two vectors have the same length.
    pub closed spec fn wf(&self) -> bool {
        self.ids@.len() == self.records@.len()
    }

    /// An empty table.
    pub fn new() -> (t: KittyTable)
        ensures
            t.wf(),
            t@ == Map::<Hash256, Kitty>::empty(),
    {
        let t = KittyTable { ids: Vec::new(), records: Vec::new() };
        assert(t@ =~= Map::<Hash256, Kitty>::empty());
        t
    }

    /// The position of `id`, if the table holds it.
    fn find(&self, id: &Hash256) -> (r: Option<usize>)
        requires
            self.wf(),
        ensures
            match r {
                Option::Some(i) => is_first_index(self.ids@, *id, i as int) && i < self.records@.len(),
                Option::None => !self.ids@.contains(*id),
            },
    {
        let mut i: usize = 0;
        while i < self.ids.len()
            invariant
                self.wf(),
                i <= self.ids@.len(),
                forall|j: int| 0 <= j < i ==> self.ids@[j] != *id,
            decreases self.ids@.len() - i,
        {
            if hash_eq(&self.ids[i], id) {
                return Some(i);
            }
            i = i + 1;
        }
        None
    }

    /// The kitty stored under `id`.
    pub fn get(&self, id: &Hash256) -> (r: Option<Kitty>)
        requires
            self.wf(),
        ensures
            r == (if self@.contains_key(*id) { Some(self@[*id]) } else { None::<Kitty> }),
    {
        match self.find(id) {
            Some(i) => {
                proof {
                    lemma_first_index(self.ids@, *id);
                }
                Some(self.records[i])
            },
            None => None,
        }
    }

    /// Whether the table holds `id`.
    pub fn contains(&self, id: &Hash256) -> (r: bool)
        requires
            self.wf(),
        ensures
            r == self@.contains_key(*id),
    {
        self.find(id).is_some()
    }

    /// Stores `kitty` under `id`, replacing what was there.
    pub fn insert(&mut self, id: Hash256, kitty: Kitty)
        requires
            old(self).wf(),
        ensures
            final(self).wf(),
            final(self)@ == old(self)@.insert(id, kitty),
    {
        let ghost old_ids = self.ids@;
        match self.find(&id) {
            Some(i) => {
                self.records.set(i, kitty);
                proof {
                    lemma_first_index(old_ids, id);
                    assert forall|k: Hash256| #[trigger] old_ids.contains(k) && k != id implies
                        first_index(old_ids, k).unwrap() != i by {
                        lemma_first_index(old_ids, k);
                    }
                    assert(self.ids@ == old_ids);
                    assert(old_ids.contains(id));
                    assert forall|k: Hash256| self@.contains_key(k) implies #[trigger] self@[k]
                        == old(self)@.insert(id, kitty)[k] by {
                        if k != id {
                            lemma_first_index(old_ids, k);
                        }
                    }
                }
                assert(self@ =~= old(self)@.insert(id, kitty));
            },
            None => {
                self.ids.push(id);
                self.records.push(kitty);
                proof {
                    let n = old_ids.len() as int;
                    assert(is_first_index(self.ids@, id, n));
                    lemma_first_index(self.ids@, id);
                    assert forall|k: Hash256| #[trigger] old_ids.contains(k) && k != id implies
                        first_index(self.ids@, k) == first_index(old_ids, k)
                        && first_index(old_ids, k).unwrap() < n by {
                        lemma_first_index(old_ids, k);
                        let m = first_index(old_ids, k).unwrap();
                        assert(is_first_index(self.ids@, k, m));
                        lemma_first_index(self.ids@, k);
                    }
                    assert forall|k: Hash256| #[trigger] self.ids@.contains(k) <==> (old_ids.contains(k) || k == id) by {
                        if self.ids@.contains(k) && k != id {
                            let j = choose|j: int| 0 <= j < self.ids@.len() && self.ids@[j] == k;
                            assert(old_ids[j] == k);
                        }
                        if old_ids.contains(k) {
                            let j = choose|j: int| 0 <= j < old_ids.len() && old_ids[j] == k;
                            assert(self.ids@[j] == k);
                        }
                    }
                    assert forall|k: Hash256| self@.contains_key(k) implies #[trigger] self@[k]
                        == old(self)@.insert(id, kitty)[k] by {
                        if k != id {
                            assert(old_ids.contains(k));
                            lemma_first_index(old_ids, k);
                        }
                    }
                }
                assert(self@ =~= old(self)@.insert(id, kitty));
            },
        }
    }
}

} // verus!
