//! A table of values keyed by name, seen as a map from names to values.
//!
//! Entries keep their insertion order; inserting under a name that is
//! already present replaces the value in place.

use vstd::prelude::*;
use crate::text::str_eq;

verus! {

/// Values keyed by name; no name occurs twice.
pub struct NamedTable<T> {
    entries: Vec<(String, T)>,
}

impl<T> NamedTable<T> {
    #[verifier::type_invariant]
    closed spec fn keys_unique(self) -> bool {
        forall|i: int, j: int|
            0 <= i < j < self.entries.len() ==> #[trigger] self.entries@[i].0@
                != #[trigger] self.entries@[j].0@
    }

    closed spec fn has_key(self, k: Seq<char>) -> bool {
        exists|i: int| 0 <= i < self.entries.len() && #[trigger] self.entries@[i].0@ == k
    }

    closed spec fn index_of_key(self, k: Seq<char>) -> int {
        choose|i: int| 0 <= i < self.entries.len() && #[trigger] self.entries@[i].0@ == k
    }

    /// The names in the table, in insertion order.
    pub closed spec fn names(self) -> Seq<Seq<char>> {
        self.entries@.map_values(|e: (String, T)| e.0@)
    }

    proof fn lemma_lookup(self, i: int)
        requires
            self.keys_unique(),
            0 <= i < self.entries.len(),
        ensures
            self@.contains_key(self.entries@[i].0@),
            self@[self.entries@[i].0@] == self.entries@[i].1,
    {
        let k = self.entries@[i].0@;
        assert(self.has_key(k));
        let j = self.index_of_key(k);
        if i < j {
            assert(self.entries@[i].0@ != self.entries@[j].0@);
        } else if j < i {
            assert(self.entries@[j].0@ != self.entries@[i].0@);
        }
    }

    /// An empty table.
    pub fn new() -> (r: Self)
        ensures
            r@ == Map::<Seq<char>, T>::empty(),
    {
        let r = NamedTable { entries: Vec::new() };
        assert(r@ =~= Map::<Seq<char>, T>::empty());
        r
    }

    /// Number of entries.
    pub fn len(&self) -> (r: usize)
        ensures
            r == self@.dom().len(),
    {
        proof {
            use_type_invariant(self);
            self.lemma_dom_len();
        }
        self.entries.len()
    }

    proof fn lemma_dom_len(self)
        requires
            self.keys_unique(),
        ensures
            self@.dom().len() == self.entries.len(),
            self@.dom() == self.names().to_set(),
            self.names().no_duplicates(),
            self.names().len() == self.entries.len(),
    {
        let ns = self.names();
        assert(ns.no_duplicates()) by {
            assert forall|i: int, j: int| 0 <= i < ns.len() && 0 <= j < ns.len() && i != j
                implies ns[i] != ns[j] by {
                if i < j {
                    assert(self.entries@[i].0@ != self.entries@[j].0@);
                } else {
                    assert(self.entries@[j].0@ != self.entries@[i].0@);
                }
            }
        }
        assert(self@.dom() =~= ns.to_set()) by {
            assert forall|k: Seq<char>| self@.dom().contains(k) implies ns.to_set().contains(k) by {
                let i = self.index_of_key(k);
                assert(ns[i] == k);
            }
            assert forall|k: Seq<char>| ns.to_set().contains(k) implies self@.dom().contains(k) by {
                let i = choose|i: int| 0 <= i < ns.len() && ns[i] == k;
                assert(self.entries@[i].0@ == k);
            }
        }
        ns.unique_seq_to_set();
    }

    fn find(&self, key: &str) -> (r: Option<usize>)
        ensures
            r matches Some(i) ==> i < self.entries.len() && self.entries@[i as int].0@ == key@,
            r is None ==> !self@.contains_key(key@),
    {
        let mut i: usize = 0;
        while i < self.entries.len()
            invariant
                i <= self.entries.len(),
                forall|j: int| 0 <= j < i ==> self.entries@[j].0@ != key@,
            decreases self.entries.len() - i,
        {
            if str_eq(self.entries[i].0.as_str(), key) {
                return Some(i);
            }
            i = i + 1;
        }
        None
    }

    /// The value stored under `key`, if any.
    pub fn get(&self, key: &str) -> (r: Option<&T>)
        ensures
            self@.contains_key(key@) ==> r == Some(&self@[key@]),
            !self@.contains_key(key@) ==> r is None,
    {
        proof {
            use_type_invariant(self);
        }
        match self.find(key) {
            Some(i) => {
                proof {
                    self.lemma_lookup(i as int);
                }
                Some(&self.entries[i].1)
            },
            None => None,
        }
    }

    /// `key` has a value in the table.
    pub fn contains(&self, key: &str) -> (r: bool)
        ensures
            r == self@.contains_key(key@),
    {
        proof {
            use_type_invariant(self);
        }
        match self.find(key) {
            Some(i) => {
                proof {
                    self.lemma_lookup(i as int);
                }
                true
            },
            None => false,
        }
    }

    /// Stores `value` under `key`, replacing any value already there.
    pub fn insert(&mut self, key: String, value: T)
        ensures
            final(self)@ == old(self)@.insert(key@, value),
    {
        proof {
            use_type_invariant(&*self);
        }
        let ghost old_self = *self;
        let ghost k = key@;
        match self.find(key.as_str()) {
            Some(i) => {
                let mut entries = Vec::new();
                std::mem::swap(&mut entries, &mut self.entries);
                entries.set(i, (key, value));
                let ghost ne = entries@;
                assert forall|a: int, b: int| 0 <= a < b < ne.len() implies #[trigger] ne[a].0@
                    != #[trigger] ne[b].0@ by {
                    assert(old_self.entries@[a].0@ != old_self.entries@[b].0@);
                }
                self.entries = entries;
                proof {
                    assert forall|kk: Seq<char>|
                        #![trigger self@.contains_key(kk)]
                        self@.contains_key(kk) == old_self@.insert(k, value).contains_key(kk)
                        && (self@.contains_key(kk) ==> self@[kk] == old_self@.insert(k, value)[kk]) by {
                        if old_self.has_key(kk) {
                            let j = old_self.index_of_key(kk);
                            assert(self.entries@[j].0@ == kk);
                            self.lemma_lookup(j);
                            if j != i {
                                old_self.lemma_lookup(j);
                            }
                        }
                        if self.has_key(kk) {
                            let j = self.index_of_key(kk);
                            if j != i {
                                assert(old_self.entries@[j].0@ == kk);
                            }
                        }
                        if kk == k {
                            self.lemma_lookup(i as int);
                        }
                    }
                    assert(self@ =~= old_self@.insert(k, value));
                }
            },
            None => {
                let mut entries = Vec::new();
                std::mem::swap(&mut entries, &mut self.entries);
                entries.push((key, value));
                let ghost ne = entries@;
                assert forall|a: int, b: int| 0 <= a < b < ne.len() implies #[trigger] ne[a].0@
                    != #[trigger] ne[b].0@ by {
                    if b == ne.len() - 1 {
                        assert(!old_self.has_key(k));
                    } else {
                        assert(old_self.entries@[a].0@ != old_self.entries@[b].0@);
                    }
                }
                self.entries = entries;
                proof {
                    let n = old_self.entries.len() as int;
                    assert forall|kk: Seq<char>|
                        #![trigger self@.contains_key(kk)]
                        self@.contains_key(kk) == old_self@.insert(k, value).contains_key(kk)
                        && (self@.contains_key(kk) ==> self@[kk] == old_self@.insert(k, value)[kk]) by {
                        if old_self.has_key(kk) {
                            let j = old_self.index_of_key(kk);
                            assert(self.entries@[j].0@ == kk);
                            self.lemma_lookup(j);
                            old_self.lemma_lookup(j);
                        }
                        if self.has_key(kk) {
                            let j = self.index_of_key(kk);
                            if j != n {
                                assert(old_self.entries@[j].0@ == kk);
                            }
                        }
                        if kk == k {
                            self.lemma_lookup(n);
                        }
                    }
                    assert(self@ =~= old_self@.insert(k, value));
                }
            },
        }
    }

    /// Removes the value stored under `key` and returns it.
    pub fn remove(&mut self, key: &str) -> (r: Option<T>)
        ensures
            final(self)@ == old(self)@.remove(key@),
            old(self)@.contains_key(key@) ==> r == Some(old(self)@[key@]),
            !old(self)@.contains_key(key@) ==> r is None,
    {
        proof {
            use_type_invariant(&*self);
        }
        let ghost old_self = *self;
        let ghost k = key@;
        match self.find(key) {
            Some(i) => {
                proof {
                    old_self.lemma_lookup(i as int);
                }
                let mut entries = Vec::new();
                std::mem::swap(&mut entries, &mut self.entries);
                let (_, v) = entries.remove(i);
                let ghost ne = entries@;
                assert forall|a: int, b: int| 0 <= a < b < ne.len() implies #[trigger] ne[a].0@
                    != #[trigger] ne[b].0@ by {
                    let oa = if a < i { a } else { a + 1 };
                    let ob = if b < i { b } else { b + 1 };
                    assert(old_self.entries@[oa].0@ != old_self.entries@[ob].0@);
                }
                self.entries = entries;
                proof {
                    assert forall|kk: Seq<char>|
                        #![trigger self@.contains_key(kk)]
                        self@.contains_key(kk) == old_self@.remove(k).contains_key(kk)
                        && (self@.contains_key(kk) ==> self@[kk] == old_self@.remove(k)[kk]) by {
                        if old_self.has_key(kk) && kk != k {
                            let j = old_self.index_of_key(kk);
                            old_self.lemma_lookup(j);
                            assert(j != i);
                            let nj = if j < i { j } else { j - 1 };
                            assert(self.entries@[nj].0@ == kk);
                            self.lemma_lookup(nj);
                        }
                        if self.has_key(kk) {
                            let j = self.index_of_key(kk);
                            let oj = if j < i { j } else { j + 1 };
                            assert(old_self.entries@[oj].0@ == kk);
                            assert(oj != i ==> old_self.entries@[oj].0@ != old_self.entries@[i as int].0@);
                        }
                    }
                    assert(self@ =~= old_self@.remove(k));
                }
                Some(v)
            },
            None => {
                assert(old_self@.remove(k) =~= old_self@);
                None
            },
        }
    }
}

impl NamedTable<u64> {
    /// The entries of the table, each name once, in insertion order.
    pub fn pairs(&self) -> (r: Vec<(String, u64)>)
        ensures
            r@.len() == self@.dom().len(),
            forall|i: int| 0 <= i < r@.len() ==> #[trigger] self@.contains_key(r@[i].0@) && self@[r@[i].0@] == r@[i].1,
            forall|i: int, j: int| 0 <= i < j < r@.len() ==> #[trigger] r@[i].0@ != #[trigger] r@[j].0@,
    {
        proof {
            use_type_invariant(self);
            self.lemma_dom_len();
        }
        let mut r: Vec<(String, u64)> = Vec::new();
        let mut i: usize = 0;
        while i < self.entries.len()
            invariant
                self.keys_unique(),
                i <= self.entries.len(),
                r@.len() == i,
                forall|k: int| 0 <= k < i ==> #[trigger] r@[k].0@ == self.entries@[k].0@ && r@[k].1 == self.entries@[k].1,
            decreases self.entries.len() - i,
        {
            r.push((self.entries[i].0.clone(), self.entries[i].1));
            i = i + 1;
        }
        proof {
            assert forall|k: int| 0 <= k < r@.len() implies #[trigger] self@.contains_key(r@[k].0@) && self@[r@[k].0@] == r@[k].1 by {
                self.lemma_lookup(k);
            }
            assert forall|a: int, b: int| 0 <= a < b < r@.len() implies #[trigger] r@[a].0@ != #[trigger] r@[b].0@ by {
                assert(self.entries@[a].0@ != self.entries@[b].0@);
            }
        }
        r
    }
}

impl<T> View for NamedTable<T> {
    type V = Map<Seq<char>, T>;

    closed spec fn view(&self) -> Map<Seq<char>, T> {
        Map::new(|k: Seq<char>| self.has_key(k), |k: Seq<char>| self.entries@[self.index_of_key(k)].1)
    }
}

} // verus!
