//! A map keyed by strings, kept as a vector of entries with distinct keys.
//! Its view is a `Map` from the key's characters to the value's view.

use vstd::prelude::*;

use crate::text::str_eq;

verus! {

pub struct StrMap<V: View> {
    entries: Vec<(String, V)>,
}

impl<V: View> StrMap<V> {
    /// The keys' characters, in storage order.
    pub closed spec fn key_seq(&self) -> Seq<Seq<char>> {
        self.entries@.map_values(|e: (String, V)| e.0@)
    }

    /// No key occurs twice.
    #[verifier::type_invariant]
    closed spec fn keys_distinct(&self) -> bool {
        self.key_seq().no_duplicates()
    }

    closed spec fn key_at(&self, i: int) -> Seq<char> {
        self.entries@[i].0@
    }

    closed spec fn key_index(&self, k: Seq<char>) -> int {
        choose|i: int| 0 <= i < self.entries@.len() && self.key_at(i) == k
    }

    closed spec fn has_key(&self, k: Seq<char>) -> bool {
        exists|i: int| 0 <= i < self.entries@.len() && self.key_at(i) == k
    }

    pub closed spec fn map_view(&self) -> Map<Seq<char>, V::V> {
        Map::new(|k: Seq<char>| self.has_key(k), |k: Seq<char>| self.entries@[self.key_index(k)].1@)
    }

    proof fn lemma_index_unique(&self, i: int)
        requires
            self.key_seq().no_duplicates(),
            0 <= i < self.entries@.len(),
        ensures
            self.has_key(self.key_at(i)),
            self.key_index(self.key_at(i)) == i,
            self.map_view().dom().contains(self.key_at(i)),
            self.map_view()[self.key_at(i)] == self.entries@[i].1@,
    {
        let k = self.key_at(i);
        assert(self.key_seq()[i] == k);
        let j = self.key_index(k);
        assert(self.key_seq()[j] == k);
    }

    proof fn lemma_dom(&self)
        requires
            self.key_seq().no_duplicates(),
        ensures
            self.map_view().dom() == self.key_seq().to_set(),
            self.map_view().dom().len() == self.entries@.len(),
            self.map_view().dom().finite(),
    {
        assert forall|k: Seq<char>| self.map_view().dom().contains(k) <==> #[trigger] self.key_seq().to_set().contains(k) by {
            if self.has_key(k) {
                let i = choose|i: int| 0 <= i < self.entries@.len() && self.key_at(i) == k;
                assert(self.key_seq()[i] == k);
            }
            if self.key_seq().contains(k) {
                let i = choose|i: int| 0 <= i < self.key_seq().len() && self.key_seq()[i] == k;
                assert(self.key_at(i) == k);
            }
        }
        assert(self.map_view().dom() =~= self.key_seq().to_set());
        self.key_seq().unique_seq_to_set();
        vstd::seq_lib::seq_to_set_is_finite(self.key_seq());
    }

    pub fn new() -> (m: Self)
        ensures
            m@ == Map::<Seq<char>, V::V>::empty(),
    {
        let m = StrMap { entries: Vec::new() };
        assert(m.key_seq() =~= Seq::<Seq<char>>::empty());
        assert(m.map_view() =~= Map::<Seq<char>, V::V>::empty());
        m
    }

    /// Number of entries.
    pub fn len(&self) -> (n: usize)
        ensures
            n == self@.dom().len(),
            self@.dom().finite(),
    {
        proof {
            use_type_invariant(self);
            self.lemma_dom();
        }
        self.entries.len()
    }

    fn find(&self, key: &str) -> (r: Option<usize>)
        ensures
            match r {
                Some(i) => i < self.entries@.len() && self.key_at(i as int) == key@
                    && self.map_view().dom().contains(key@) && self.map_view()[key@]
                    == self.entries@[i as int].1@,
                None => !self.map_view().dom().contains(key@),
            },
    {
        proof {
            use_type_invariant(self);
        }
        let mut i: usize = 0;
        while i < self.entries.len()
            invariant
                self.key_seq().no_duplicates(),
                i <= self.entries@.len(),
                forall|k: int| 0 <= k < i ==> self.key_at(k) != key@,
            decreases self.entries@.len() - i,
        {
            if str_eq(self.entries[i].0.as_str(), key) {
                proof {
                    self.lemma_index_unique(i as int);
                }
                return Some(i);
            }
            i = i + 1;
        }
        None
    }

    pub fn contains_key(&self, key: &str) -> (r: bool)
        ensures
            r == self@.dom().contains(key@),
    {
        self.find(key).is_some()
    }

    /// The value stored under `key`, if any.
    pub fn get(&self, key: &str) -> (r: Option<&V>)
        ensures
            r is Some <==> self@.dom().contains(key@),
            r matches Some(v) ==> v@ == self@[key@],
    {
        match self.find(key) {
            Some(i) => Some(&self.entries[i].1),
            None => None,
        }
    }

    /// Stores `value` under `key`, replacing any earlier value.
    pub fn insert(&mut self, key: String, value: V)
        ensures
            final(self)@ == old(self)@.insert(key@, value@),
    {
        proof {
            use_type_invariant(&*self);
        }
        let ghost k = key@;
        let ghost v = value@;
        match self.find(key.as_str()) {
            Some(i) => {
                let ghost pre = *self;
                let mut entries: Vec<(String, V)> = Vec::new();
                std::mem::swap(&mut entries, &mut self.entries);
                entries.set(i, (key, value));
                assert(entries@.map_values(|e: (String, V)| e.0@) =~= pre.key_seq());
                self.entries = entries;
                assert(self.key_seq() == pre.key_seq());
                assert forall|q: Seq<char>| #[trigger]
                    self.map_view().dom().contains(q) == pre.map_view().insert(
                        k,
                        v,
                    ).dom().contains(q) by {
                    if self.has_key(q) {
                        let j = choose|j: int| 0 <= j < self.entries@.len() && self.key_at(j) == q;
                        assert(self.key_seq()[j] == q);
                        assert(pre.key_seq()[j] == q);
                        assert(pre.key_at(j) == q);
                    }
                    if pre.has_key(q) {
                        let j = choose|j: int| 0 <= j < pre.entries@.len() && pre.key_at(j) == q;
                        assert(pre.key_seq()[j] == q);
                        assert(self.key_seq()[j] == q);
                        assert(self.key_at(j) == q);
                    }
                }
                assert forall|q: Seq<char>| self.map_view().dom().contains(q) implies #[trigger] self.map_view()[q]
                    == pre.map_view().insert(k, v)[q] by {
                    let j = self.key_index(q);
                    self.lemma_index_unique(j);
                    assert(self.key_seq()[j] == q);
                    assert(pre.key_seq()[j] == q);
                    assert(pre.key_at(j) == q);
                    if q != k {
                        pre.lemma_index_unique(j);
                    } else {
                        assert(self.key_at(i as int) == k);
                        self.lemma_index_unique(i as int);
                        assert(self.entries@[i as int].1@ == v);
                    }
                }
                assert(self.map_view() =~= pre.map_view().insert(k, v));
            },
            None => {
                let ghost pre = *self;
                let mut entries: Vec<(String, V)> = Vec::new();
                std::mem::swap(&mut entries, &mut self.entries);
                entries.push((key, value));
                assert(entries@.map_values(|e: (String, V)| e.0@) =~= pre.key_seq().push(k));
                assert(!pre.key_seq().contains(k)) by {
                    if pre.key_seq().contains(k) {
                        let j = choose|j: int| 0 <= j < pre.key_seq().len() && pre.key_seq()[j] == k;
                        assert(pre.key_at(j) == k);
                    }
                }
                self.entries = entries;
                let ghost n = self.entries@.len() - 1;
                assert(self.key_seq() =~= pre.key_seq().push(k));
                assert(!pre.key_seq().contains(k)) by {
                    if pre.key_seq().contains(k) {
                        let j = choose|j: int| 0 <= j < pre.key_seq().len() && pre.key_seq()[j] == k;
                        assert(pre.key_at(j) == k);
                    }
                }
                assert forall|q: Seq<char>| #[trigger]
                    self.map_view().dom().contains(q) == pre.map_view().insert(
                        k,
                        v,
                    ).dom().contains(q) by {
                    if pre.has_key(q) {
                        let j = choose|j: int| 0 <= j < pre.entries@.len() && pre.key_at(j) == q;
                        assert(self.key_at(j) == q);
                    }
                    if q == k {
                        assert(self.key_at(n) == q);
                    }
                    if self.has_key(q) {
                        let j = choose|j: int| 0 <= j < self.entries@.len() && self.key_at(j) == q;
                        if j < n {
                            assert(pre.key_at(j) == q);
                        }
                    }
                }
                assert forall|q: Seq<char>| self.map_view().dom().contains(q) implies #[trigger] self.map_view()[q]
                    == pre.map_view().insert(k, v)[q] by {
                    let j = self.key_index(q);
                    self.lemma_index_unique(j);
                    if q != k {
                        assert(j < n);
                        assert(pre.key_at(j) == q);
                        pre.lemma_index_unique(j);
                    } else {
                        self.lemma_index_unique(n);
                    }
                }
                assert(self.map_view() =~= pre.map_view().insert(k, v));
            },
        }
    }

    /// Removes `key` and its value, if present.
    pub fn remove(&mut self, key: &str)
        ensures
            final(self)@ == old(self)@.remove(key@),
    {
        proof {
            use_type_invariant(&*self);
        }
        match self.find(key) {
            Some(i) => {
                let ghost k = key@;
                let ghost pre = *self;
                let mut entries: Vec<(String, V)> = Vec::new();
                std::mem::swap(&mut entries, &mut self.entries);
                entries.remove(i);
                assert(entries@.map_values(|e: (String, V)| e.0@) =~= pre.key_seq().remove(
                    i as int,
                ));
                let ghost ks = entries@.map_values(|e: (String, V)| e.0@);
                assert forall|a: int, b: int|
                    0 <= a < ks.len() && 0 <= b < ks.len() && a != b implies #[trigger] ks[a]
                    != #[trigger] ks[b] by {
                    let a0 = if a < i { a } else { a + 1 };
                    let b0 = if b < i { b } else { b + 1 };
                    assert(pre.key_seq()[a0] != pre.key_seq()[b0]);
                }
                self.entries = entries;
                assert forall|q: Seq<char>| #[trigger]
                    self.map_view().dom().contains(q) == pre.map_view().remove(
                        k,
                    ).dom().contains(q) by {
                    if pre.has_key(q) && q != k {
                        let j = choose|j: int| 0 <= j < pre.entries@.len() && pre.key_at(j) == q;
                        assert(j != i);
                        let j2 = if j < i { j } else { j - 1 };
                        assert(self.key_at(j2) == q);
                    }
                    if self.has_key(q) {
                        let j = choose|j: int| 0 <= j < self.entries@.len() && self.key_at(j) == q;
                        let j0 = if j < i { j } else { j + 1 };
                        assert(pre.key_at(j0) == q);
                        assert(pre.key_seq()[j0] != pre.key_seq()[i as int]);
                    }
                }
                assert forall|q: Seq<char>| self.map_view().dom().contains(q) implies #[trigger] self.map_view()[q]
                    == pre.map_view().remove(k)[q] by {
                    let j = self.key_index(q);
                    self.lemma_index_unique(j);
                    let j0 = if j < i { j } else { j + 1 };
                    assert(pre.key_at(j0) == q);
                    pre.lemma_index_unique(j0);
                }
                assert(self.map_view() =~= pre.map_view().remove(k));
            },
            None => {
                assert(old(self)@ =~= old(self)@.remove(key@));
            },
        }
    }
}

impl StrMap<String> {
    /// An independent copy of a map of strings.
    pub fn duplicate(&self) -> (r: Self)
        ensures
            r@ == self@,
    {
        proof {
            use_type_invariant(self);
        }
        let mut entries: Vec<(String, String)> = Vec::new();
        let mut i: usize = 0;
        while i < self.entries.len()
            invariant
                i <= self.entries@.len(),
                entries@.len() == i,
                forall|k: int|
                    0 <= k < i ==> #[trigger] entries@[k].0@ == self.entries@[k].0@
                        && entries@[k].1@ == self.entries@[k].1@,
            decreases self.entries@.len() - i,
        {
            let e = &self.entries[i];
            entries.push((e.0.clone(), e.1.clone()));
            i = i + 1;
        }
        let ghost ks = entries@.map_values(|e: (String, String)| e.0@);
        assert(ks =~= self.key_seq());
        let r = StrMap { entries };
        assert forall|q: Seq<char>| #[trigger] r.map_view().dom().contains(q) == self.map_view().dom().contains(q) by {
            if r.has_key(q) {
                let j = choose|j: int| 0 <= j < r.entries@.len() && r.key_at(j) == q;
                assert(self.key_at(j) == q);
            }
            if self.has_key(q) {
                let j = choose|j: int| 0 <= j < self.entries@.len() && self.key_at(j) == q;
                assert(r.key_at(j) == q);
            }
        }
        assert forall|q: Seq<char>| r.map_view().dom().contains(q) implies #[trigger] r.map_view()[q]
            == self.map_view()[q] by {
            let j = r.key_index(q);
            r.lemma_index_unique(j);
            assert(self.key_at(j) == q);
            self.lemma_index_unique(j);
        }
        assert(r.map_view() =~= self.map_view());
        r
    }
}

impl<V: View> View for StrMap<V> {
    type V = Map<Seq<char>, V::V>;

    open spec fn view(&self) -> Map<Seq<char>, V::V> {
        self.map_view()
    }
}

} // verus!
