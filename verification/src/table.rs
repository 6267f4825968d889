//! A small map keyed by address, kept as a list in which no address occurs
//! twice.

use crate::address::Address;
use vstd::prelude::*;

verus! {

/// One entry of an [`AddressMap`].
pub struct Entry<T> {
    pub key: Address,
    pub value: T,
}

/// A finite map from addresses to values.
pub struct AddressMap<T> {
    entries: Vec<Entry<T>>,
}

impl<T> View for AddressMap<T> {
    type V = Map<Address, T>;

    closed spec fn view(&self) -> Map<Address, T> {
        Map::new(
            |key: Address| self.position(key) is Some,
            |key: Address| self.entries@[self.position(key)->0].value,
        )
    }
}

impl<T> AddressMap<T> {
    /// An index at which `key` is held, if there is one.
    closed spec fn position(&self, key: Address) -> Option<int> {
        if exists|i: int| 0 <= i < self.entries@.len() && self.entries@[i].key == key {
            Some(choose|i: int| 0 <= i < self.entries@.len() && self.entries@[i].key == key)
        } else {
            None
        }
    }

    /// No address is held twice.
    pub closed spec fn wf(&self) -> bool {
        forall|i: int, j: int|
            0 <= i < j < self.entries@.len() ==> self.entries@[i].key != self.entries@[j].key
    }

    /// In a well-formed map the index of a key is the one place that holds
    /// it.
    proof fn lemma_position(&self, i: int)
        requires
            self.wf(),
            0 <= i < self.entries@.len(),
        ensures
            self.position(self.entries@[i].key) == Some(i),
            self@.contains_key(self.entries@[i].key),
            self@[self.entries@[i].key] == self.entries@[i].value,
    {
        let key = self.entries@[i].key;
        let j = self.position(key)->0;
        assert(0 <= j < self.entries@.len() && self.entries@[j].key == key);
        if i < j {
            assert(self.entries@[i].key != self.entries@[j].key);
        } else if j < i {
            assert(self.entries@[j].key != self.entries@[i].key);
        }
    }

    /// A key that no entry holds is not in the map.
    proof fn lemma_absent(&self, key: Address)
        requires
            forall|i: int| 0 <= i < self.entries@.len() ==> self.entries@[i].key != key,
        ensures
            !self@.contains_key(key),
    {
    }

    /// The empty map.
    pub fn new() -> (map: AddressMap<T>)
        ensures
            map.wf(),
            map@ == Map::<Address, T>::empty(),
    {
        let map = AddressMap { entries: Vec::new() };
        assert(map@ =~= Map::<Address, T>::empty());
        map
    }

    /// The index of the entry for `key`.
    fn find(&self, key: &Address) -> (found: Option<usize>)
        requires
            self.wf(),
        ensures
            match found {
                Some(i) => i < self.entries@.len() && self.entries@[i as int].key == *key
                    && self@.contains_key(*key) && self@[*key] == self.entries@[i as int].value,
                None => !self@.contains_key(*key) && forall|i: int|
                    0 <= i < self.entries@.len() ==> self.entries@[i].key != *key,
            },
    {
        let mut i: usize = 0;
        while i < self.entries.len()
            invariant
                self.wf(),
                i <= self.entries@.len(),
                forall|k: int| 0 <= k < i ==> self.entries@[k].key != *key,
            decreases self.entries@.len() - i,
        {
            if self.entries[i].key == *key {
                proof {
                    self.lemma_position(i as int);
                }
                return Some(i);
            }
            i += 1;
        }
        proof {
            self.lemma_absent(*key);
        }
        None
    }

    /// Whether the map holds a value for `key`.
    pub fn contains_key(&self, key: &Address) -> (held: bool)
        requires
            self.wf(),
        ensures
            held == self@.contains_key(*key),
    {
        self.find(key).is_some()
    }

    /// The value held for `key`.
    pub fn get(&self, key: &Address) -> (value: Option<&T>)
        requires
            self.wf(),
        ensures
            match value {
                Some(v) => self@.contains_key(*key) && *v == self@[*key],
                None => !self@.contains_key(*key),
            },
    {
        match self.find(key) {
            Some(i) => Some(&self.entries[i].value),
            None => None,
        }
    }

    /// Holds `value` for `key`, in place of what was held for it before.
    pub fn insert(&mut self, key: Address, value: T)
        requires
            old(self).wf(),
        ensures
            final(self).wf(),
            final(self)@ == old(self)@.insert(key, value),
    {
        match self.find(&key) {
            Some(i) => {
                self.entries[i] = Entry { key, value };
                proof {
                    assert(self.entries@ == old(self).entries@.update(
                        i as int,
                        Entry { key, value },
                    ));
                    assert(self.wf());
                    assert forall|k: Address|
                        self@.contains_key(k) == old(self)@.insert(key, value).contains_key(
                            k,
                        ) by {
                        if old(self)@.contains_key(k) {
                            let j = old(self).position(k)->0;
                            self.lemma_position(j);
                        }
                        if self@.contains_key(k) {
                            let j = self.position(k)->0;
                            old(self).lemma_position(j);
                        }
                    }
                    assert forall|k: Address| self@.contains_key(k) implies self@[k] == old(
                        self,
                    )@.insert(key, value)[k] by {
                        let j = self.position(k)->0;
                        self.lemma_position(j);
                        old(self).lemma_position(j);
                    }
                    assert(self@ =~= old(self)@.insert(key, value));
                }
            },
            None => {
                self.entries.push(Entry { key, value });
                proof {
                    let n = old(self).entries@.len() as int;
                    assert(self.entries@ == old(self).entries@.push(Entry { key, value }));
                    assert(self.wf());
                    self.lemma_position(n);
                    assert forall|k: Address|
                        self@.contains_key(k) == old(self)@.insert(key, value).contains_key(
                            k,
                        ) by {
                        if old(self)@.contains_key(k) {
                            let j = old(self).position(k)->0;
                            self.lemma_position(j);
                        }
                        if self@.contains_key(k) && k != key {
                            let j = self.position(k)->0;
                            old(self).lemma_position(j);
                        }
                    }
                    assert forall|k: Address| self@.contains_key(k) implies self@[k] == old(
                        self,
                    )@.insert(key, value)[k] by {
                        let j = self.position(k)->0;
                        self.lemma_position(j);
                        if j < n {
                            old(self).lemma_position(j);
                        }
                    }
                    assert(self@ =~= old(self)@.insert(key, value));
                }
            },
        }
    }

    /// Takes out what is held for `key` and returns it.
    pub fn remove(&mut self, key: &Address) -> (value: Option<T>)
        requires
            old(self).wf(),
        ensures
            final(self).wf(),
            final(self)@ == old(self)@.remove(*key),
            match value {
                Some(v) => old(self)@.contains_key(*key) && v == old(self)@[*key],
                None => !old(self)@.contains_key(*key),
            },
    {
        match self.find(key) {
            Some(i) => {
                let entry = self.entries.remove(i);
                proof {
                    assert(self.entries@ == old(self).entries@.remove(i as int));
                    assert forall|a: int, b: int|
                        0 <= a < b < self.entries@.len() implies self.entries@[a].key
                        != self.entries@[b].key by {
                        let a0 = if a < i { a } else { a + 1 };
                        let b0 = if b < i { b } else { b + 1 };
                        assert(self.entries@[a] == old(self).entries@[a0]);
                        assert(self.entries@[b] == old(self).entries@[b0]);
                    }
                    assert forall|k: Address|
                        self@.contains_key(k) == old(self)@.remove(*key).contains_key(k) by {
                        if old(self)@.contains_key(k) && k != *key {
                            let j = old(self).position(k)->0;
                            let j1 = if j < i { j } else { j - 1 };
                            assert(self.entries@[j1] == old(self).entries@[j]);
                            self.lemma_position(j1);
                        }
                        if self@.contains_key(k) {
                            let j = self.position(k)->0;
                            let j0 = if j < i { j } else { j + 1 };
                            assert(self.entries@[j] == old(self).entries@[j0]);
                            old(self).lemma_position(j0);
                            old(self).lemma_position(i as int);
                        }
                    }
                    assert forall|k: Address| self@.contains_key(k) implies self@[k] == old(
                        self,
                    )@.remove(*key)[k] by {
                        let j = self.position(k)->0;
                        let j0 = if j < i { j } else { j + 1 };
                        assert(self.entries@[j] == old(self).entries@[j0]);
                        self.lemma_position(j);
                        old(self).lemma_position(j0);
                    }
                    assert(self@ =~= old(self)@.remove(*key));
                }
                Some(entry.value)
            },
            None => {
                proof {
                    assert(self@ =~= old(self)@.remove(*key));
                }
                None
            },
        }
    }
}

} // verus!
