//! A small table with unique keys, modelled as a map.
//!
//! The router keys its entries by player key (a `String`) and the
//! correlator by (player id, request id). Both keep their entries in a
//! vector and compare keys one by one; the ghost map is what contracts
//! speak of.
use vstd::prelude::*;

verus! {

/// A key that can be compared in executable code, in agreement with its view.
pub trait TableKey: View + Sized {
    fn same_key(&self, other: &Self) -> (r: bool)
        ensures
            r == (self@ == other@),
    ;
}

impl TableKey for String {
    fn same_key(&self, other: &String) -> (r: bool) {
        *self == *other
    }
}

impl TableKey for (u32, u32) {
    fn same_key(&self, other: &(u32, u32)) -> (r: bool) {
        self.0 == other.0 && self.1 == other.1
    }
}

struct Entry<K, V> {
    key: K,
    value: V,
}

pub struct KeyedTable<K: TableKey, V> {
    entries: Vec<Entry<K, V>>,
    map: Ghost<Map<K::V, V>>,
}

impl<K: TableKey, V> View for KeyedTable<K, V> {
    type V = Map<K::V, V>;

    closed spec fn view(&self) -> Map<K::V, V> {
        self.map@
    }
}

impl<K: TableKey, V> KeyedTable<K, V> {
    /// Keys are unique, and the entries hold exactly the map.
    pub closed spec fn wf(&self) -> bool {
        &&& forall|i: int, j: int|
            0 <= i < j < self.entries@.len() ==> self.entries@[i].key@ != self.entries@[j].key@
        &&& forall|i: int|
            0 <= i < self.entries@.len() ==> {
                &&& self.map@.contains_key(#[trigger] self.entries@[i].key@)
                &&& self.map@[self.entries@[i].key@] == self.entries@[i].value
            }
        &&& forall|k: K::V| #[trigger]
            self.map@.contains_key(k) ==> exists|i: int|
                0 <= i < self.entries@.len() && self.entries@[i].key@ == k
    }

    pub fn new() -> (r: Self)
        ensures
            r.wf(),
            r@ == Map::<K::V, V>::empty(),
    {
        KeyedTable { entries: Vec::new(), map: Ghost(Map::empty()) }
    }

    /// Index of the entry under `key`, if there is one.
    fn find(&self, key: &K) -> (r: Option<usize>)
        requires
            self.wf(),
        ensures
            match r {
                Some(i) => i < self.entries@.len() && self.entries@[i as int].key@ == key@,
                None => !self@.contains_key(key@),
            },
    {
        let mut i: usize = 0;
        while i < self.entries.len()
            invariant
                self.wf(),
                i <= self.entries@.len(),
                forall|j: int| 0 <= j < i ==> self.entries@[j].key@ != key@,
            decreases self.entries@.len() - i,
        {
            if self.entries[i].key.same_key(key) {
                return Some(i);
            }
            i += 1;
        }
        proof {
            if self.map@.contains_key(key@) {
                let j = choose|j: int| 0 <= j < self.entries@.len() && self.entries@[j].key@ == key@;
                assert(self.entries@[j].key@ != key@);
            }
        }
        None
    }

    /// Whether an entry exists under `key`.
    pub fn contains_key(&self, key: &K) -> (r: bool)
        requires
            self.wf(),
        ensures
            r == self@.contains_key(key@),
    {
        self.find(key).is_some()
    }

    /// Removes the entry under `key` and returns its value.
    pub fn remove(&mut self, key: &K) -> (r: Option<V>)
        requires
            old(self).wf(),
        ensures
            final(self).wf(),
            final(self)@ == old(self)@.remove(key@),
            r == (if old(self)@.contains_key(key@) {
                Some(old(self)@[key@])
            } else {
                None
            }),
    {
        let i = match self.find(key) {
            Some(i) => i,
            None => {
                proof {
                    assert(self@ =~= old(self)@.remove(key@));
                }
                return None;
            },
        };
        let ghost before = self.entries@;
        let ghost map_before = self.map@;
        let entry = self.entries.remove(i);
        self.map = Ghost(self.map@.remove(key@));
        proof {
            assert forall|j: int| 0 <= j < self.entries@.len() implies #[trigger]
                self.entries@[j].key@ != key@ by {
                if j < i {
                    assert(self.entries@[j] == before[j]);
                } else {
                    assert(self.entries@[j] == before[j + 1]);
                }
            }
            assert forall|k: K::V| #[trigger]
                self.map@.contains_key(k) implies exists|j: int|
                    0 <= j < self.entries@.len() && self.entries@[j].key@ == k by {
                assert(map_before.contains_key(k));
                let j = choose|j: int| 0 <= j < before.len() && before[j].key@ == k;
                if j < i {
                    assert(self.entries@[j] == before[j]);
                } else {
                    assert(j != i);
                    assert(self.entries@[j - 1] == before[j]);
                }
            }
        }
        Some(entry.value)
    }

    /// Stores `value` under `key`, replacing any earlier entry.
    pub fn insert(&mut self, key: K, value: V)
        requires
            old(self).wf(),
        ensures
            final(self).wf(),
            final(self)@ == old(self)@.insert(key@, value),
    {
        self.remove(&key);
        let ghost before = self.entries@;
        let ghost middle = self.map@;
        let ghost k = key@;
        self.entries.push(Entry { key, value });
        self.map = Ghost(self.map@.insert(k, value));
        proof {
            assert forall|j: int| 0 <= j < before.len() implies #[trigger] before[j].key@ != k by {
                assert(middle.contains_key(before[j].key@));
            }
            assert forall|j: int| 0 <= j < self.entries@.len() implies {
                &&& self.map@.contains_key(#[trigger] self.entries@[j].key@)
                &&& self.map@[self.entries@[j].key@] == self.entries@[j].value
            } by {
                if j < before.len() {
                    assert(self.entries@[j] == before[j]);
                }
            }
            assert forall|kk: K::V| #[trigger]
                self.map@.contains_key(kk) implies exists|j: int|
                    0 <= j < self.entries@.len() && self.entries@[j].key@ == kk by {
                if kk == k {
                    assert(self.entries@[before.len() as int].key@ == kk);
                } else {
                    assert(middle.contains_key(kk));
                    let j = choose|j: int| 0 <= j < before.len() && before[j].key@ == kk;
                    assert(self.entries@[j] == before[j]);
                }
            }
            assert(self.map@ =~= old(self)@.insert(k, value));
        }
    }
}

} // verus!
