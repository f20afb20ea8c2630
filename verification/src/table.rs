//! Accounts kept by address.
//!
//! A table holds at most one record at each address. It stands for the host's
//! storage, in which an account is found again by the address that was derived
//! for it.

use crate::address::Address;
use vstd::prelude::*;

verus! {

/// Records kept by address, one at most at each.
pub struct Table<V> {
    keys: Vec<Address>,
    values: Vec<V>,
}

impl<V> View for Table<V> {
    type V = Map<Address, V>;

    closed spec fn view(&self) -> Map<Address, V> {
        Map::new(
            |key: Address| self.keys@.contains(key),
            |key: Address| self.values@[self.keys@.index_of(key)],
        )
    }
}

impl<V> Table<V> {
    /// Every address has its record, and no address occurs twice.
    pub closed spec fn wf(&self) -> bool {
        &&& self.keys@.len() == self.values@.len()
        &&& forall|i: int, j: int|
            0 <= i < j < self.keys@.len() ==> self.keys@[i] != self.keys@[j]
    }

    proof fn lemma_index(&self, i: int)
        requires
            self.wf(),
            0 <= i < self.keys@.len(),
        ensures
            self@.contains_key(self.keys@[i]),
            self.keys@.index_of(self.keys@[i]) == i,
            self@[self.keys@[i]] == self.values@[i],
    {
        let key = self.keys@[i];
        assert(self.keys@.contains(key));
        let found = self.keys@.index_of(key);
        assert(0 <= found < self.keys@.len() && self.keys@[found] == key);
    }

    /// An empty table.
    pub fn new() -> (r: Table<V>)
        ensures
            r.wf(),
            r@ == Map::<Address, V>::empty(),
    {
        let r = Table { keys: Vec::new(), values: Vec::new() };
        assert(r@ =~= Map::<Address, V>::empty());
        r
    }

    /// How many records the table holds.
    pub fn len(&self) -> (r: usize)
        requires
            self.wf(),
        ensures
            r == self@.dom().len(),
            self@.dom().finite(),
    {
        proof {
            self.lemma_dom();
        }
        self.keys.len()
    }

    proof fn lemma_dom(&self)
        requires
            self.wf(),
        ensures
            self@.dom() == self.keys@.to_set(),
            self@.dom().finite(),
            self@.dom().len() == self.keys@.len(),
    {
        assert(self@.dom() =~= self.keys@.to_set());
        assert(self.keys@.no_duplicates());
        self.keys@.unique_seq_to_set();
    }

    fn position(&self, key: &Address) -> (r: Option<usize>)
        ensures
            match r {
                Some(i) => i < self.keys@.len() && self.keys@[i as int] == *key,
                None => !self.keys@.contains(*key),
            },
    {
        let mut i: usize = 0;
        while i < self.keys.len()
            invariant
                i <= self.keys@.len(),
                forall|j: int| 0 <= j < i ==> self.keys@[j] != *key,
            decreases self.keys@.len() - i,
        {
            if self.keys[i] == *key {
                return Some(i);
            }
            i += 1;
        }
        None
    }

    /// Whether a record lives at `key`.
    pub fn contains_key(&self, key: &Address) -> (r: bool)
        ensures
            r == self@.contains_key(*key),
    {
        self.position(key).is_some()
    }

    /// The record at `key`, if one lives there.
    pub fn get(&self, key: &Address) -> (r: Option<&V>)
        requires
            self.wf(),
        ensures
            match r {
                Some(value) => self@.contains_key(*key) && *value == self@[*key],
                None => !self@.contains_key(*key),
            },
    {
        match self.position(key) {
            Some(i) => {
                proof {
                    self.lemma_index(i as int);
                }
                Some(&self.values[i])
            },
            None => None,
        }
    }

    /// Puts `value` at `key`, in place of the record that lived there, if any.
    pub fn insert(&mut self, key: Address, value: V)
        requires
            old(self).wf(),
        ensures
            final(self).wf(),
            final(self)@ == old(self)@.insert(key, value),
    {
        match self.position(&key) {
            Some(i) => {
                self.values.set(i, value);
                proof {
                    assert forall|k: Address| self@.contains_key(k) implies #[trigger] self@[k]
                        == old(self)@.insert(key, value)[k] by {
                        old(self).lemma_index(i as int);
                    }
                    assert(self@ =~= old(self)@.insert(key, value));
                }
            },
            None => {
                self.keys.push(key);
                self.values.push(value);
                proof {
                    let n = old(self).keys@.len() as int;
                    assert(self.keys@[n] == key);
                    assert forall|k: Address| #[trigger]
                        self@.contains_key(k) == old(self)@.insert(key, value).contains_key(k) by {
                        if old(self).keys@.contains(k) {
                            assert(self.keys@[old(self).keys@.index_of(k)] == k);
                        }
                    }
                    assert forall|k: Address| self@.contains_key(k) implies #[trigger] self@[k]
                        == old(self)@.insert(key, value)[k] by {
                        if k != key {
                            old(self).lemma_index(self.keys@.index_of(k));
                        }
                    }
                    assert(self@ =~= old(self)@.insert(key, value));
                }
            },
        }
    }
}

} // verus!
