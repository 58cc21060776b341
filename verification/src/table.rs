//! A keyed table of records: the contract's storage maps, held as a list of
//! entries with distinct keys whose meaning is a finite map from key to value.
use vstd::prelude::*;

verus! {

/// A key that can be compared by what it means.
pub trait TableKey: View + Sized {
    fn same_key(&self, other: &Self) -> (same: bool)
        ensures
            same == (self@ == other@),
    ;
}

impl TableKey for u64 {
    fn same_key(&self, other: &Self) -> (same: bool) {
        *self == *other
    }
}

impl TableKey for String {
    fn same_key(&self, other: &Self) -> (same: bool) {
        *self == *other
    }
}

/// Entries with pairwise distinct keys; `model` is the map they stand for.
pub struct Table<K: TableKey, V: View> {
    entries: Vec<(K, V)>,
    model: Ghost<Map<K::V, V::V>>,
}

impl<K: TableKey, V: View> View for Table<K, V> {
    type V = Map<K::V, V::V>;

    closed spec fn view(&self) -> Map<K::V, V::V> {
        self.model@
    }
}

impl<K: TableKey, V: View> Table<K, V> {
    /// The entries' keys are distinct, each entry is in the map, and the map has
    /// nothing else.
    pub closed spec fn wf(&self) -> bool {
        &&& forall|i: int, j: int|
            0 <= i < j < self.entries@.len() ==> (#[trigger] self.entries@[i]).0@
                != (#[trigger] self.entries@[j]).0@
        &&& forall|i: int|
            0 <= i < self.entries@.len() ==> {
                let e = #[trigger] self.entries@[i];
                &&& self.model@.contains_key(e.0@)
                &&& self.model@[e.0@] == e.1@
            }
        &&& forall|k: K::V|
            #[trigger] self.model@.contains_key(k) ==> exists|i: int|
                0 <= i < self.entries@.len() && (#[trigger] self.entries@[i]).0@ == k
    }

    /// The entries, listed as the table holds them.
    pub closed spec fn listed(&self) -> Seq<(K, V)> {
        self.entries@
    }

    pub fn new() -> (t: Self)
        ensures
            t.wf(),
            t@ == Map::<K::V, V::V>::empty(),
    {
        Table { entries: Vec::new(), model: Ghost(Map::empty()) }
    }

    /// The position of the entry with `key`, if there is one.
    fn position(&self, key: &K) -> (pos: Option<usize>)
        requires
            self.wf(),
        ensures
            match pos {
                Some(i) => i < self.entries@.len() && self.entries@[i as int].0@ == key@,
                None => !self@.contains_key(key@),
            },
    {
        let mut i: usize = 0;
        while i < self.entries.len()
            invariant
                self.wf(),
                i <= self.entries@.len(),
                forall|j: int| 0 <= j < i ==> (#[trigger] self.entries@[j]).0@ != key@,
            decreases self.entries@.len() - i,
        {
            if self.entries[i].0.same_key(key) {
                return Some(i);
            }
            i += 1;
        }
        None
    }

    /// The value stored under `key`.
    pub fn get(&self, key: &K) -> (found: Option<&V>)
        requires
            self.wf(),
        ensures
            match found {
                Some(v) => self@.contains_key(key@) && self@[key@] == v@,
                None => !self@.contains_key(key@),
            },
    {
        match self.position(key) {
            Some(i) => {
                assert(self.entries@[i as int].0@ == key@);
                Some(&self.entries[i].1)
            },
            None => None,
        }
    }

    /// Stores `value` under `key`, replacing what was there.
    pub fn save(&mut self, key: K, value: V)
        requires
            old(self).wf(),
        ensures
            final(self).wf(),
            final(self)@ == old(self)@.insert(key@, value@),
    {
        let ghost k = key@;
        let ghost v = value@;
        let ghost pre = self.entries@;
        let ghost at: int;
        match self.position(&key) {
            Some(i) => {
                self.entries[i] = (key, value);
                proof { at = i as int; }
            },
            None => {
                self.entries.push((key, value));
                proof { at = pre.len() as int; }
            },
        }
        self.model = Ghost(self.model@.insert(k, v));
        assert(self.entries@[at].0@ == k);
        assert forall|k2: K::V| #[trigger] self.model@.contains_key(k2) implies exists|i: int|
            0 <= i < self.entries@.len() && (#[trigger] self.entries@[i]).0@ == k2 by {
            if k2 == k {
                assert(self.entries@[at].0@ == k2);
            } else {
                assert(old(self).model@.contains_key(k2));
                let i = choose|i: int| 0 <= i < pre.len() && (#[trigger] pre[i]).0@ == k2;
                assert(self.entries@[i].0@ == k2);
            }
        }
    }

    /// The entries, for persisting them elsewhere.
    pub fn entries(&self) -> (list: &Vec<(K, V)>)
        ensures
            list@ == self.listed(),
    {
        &self.entries
    }

    /// What the listed entries say about the map.
    pub proof fn lemma_listed(&self)
        requires
            self.wf(),
        ensures
            forall|i: int|
                0 <= i < self.listed().len() ==> {
                    let e = #[trigger] self.listed()[i];
                    &&& self@.contains_key(e.0@)
                    &&& self@[e.0@] == e.1@
                },
            forall|i: int, j: int|
                0 <= i < j < self.listed().len() ==> (#[trigger] self.listed()[i]).0@
                    != (#[trigger] self.listed()[j]).0@,
            forall|k: K::V|
                #[trigger] self@.contains_key(k) ==> exists|i: int|
                    0 <= i < self.listed().len() && (#[trigger] self.listed()[i]).0@ == k,
    {
        assert forall|k: K::V| #[trigger] self@.contains_key(k) implies exists|i: int|
            0 <= i < self.listed().len() && (#[trigger] self.listed()[i]).0@ == k by {
            let i = choose|i: int| 0 <= i < self.entries@.len() && (#[trigger] self.entries@[i]).0@ == k;
            assert(self.listed()[i].0@ == k);
        }
    }
}

} // verus!
