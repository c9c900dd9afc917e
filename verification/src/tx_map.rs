//! A collection of records keyed by transaction identifier, which keeps the
//! order in which its keys first came in.

use vstd::prelude::*;
use crate::identifiers::TxId;

verus! {

/// Whether no identifier occurs twice among the keys of `entries`.
pub open spec fn distinct_keys<V>(entries: Seq<(TxId, V)>) -> bool {
    forall|i: int, j: int|
        0 <= i < j < entries.len() ==> (#[trigger] entries[i]).0 != (#[trigger] entries[j]).0
}

/// Whether some entry of `entries` has the key `key`.
pub open spec fn has_key<V>(entries: Seq<(TxId, V)>, key: TxId) -> bool {
    exists|i: int| 0 <= i < entries.len() && (#[trigger] entries[i]).0 == key
}

/// Records keyed by transaction identifier. No key occurs twice, and the
/// entries stand in the order in which their keys were first inserted.
#[derive(Debug, PartialEq, Eq)]
pub struct TxMap<V> {
    entries: Vec<(TxId, V)>,
}

impl<V> TxMap<V> {
    #[verifier::type_invariant]
    spec fn well_formed(self) -> bool {
        distinct_keys(self.entries@)
    }

    /// The entries, in order.
    pub closed spec fn entries(&self) -> Seq<(TxId, V)> {
        self.entries@
    }

    pub fn new() -> (map: TxMap<V>)
        ensures
            map.entries() == Seq::<(TxId, V)>::empty(),
    {
        TxMap { entries: Vec::new() }
    }

    /// The number of entries. No two of them share a key.
    pub fn len(&self) -> (n: usize)
        ensures
            n == self.entries().len(),
            distinct_keys(self.entries()),
    {
        proof {
            use_type_invariant(self);
        }
        self.entries.len()
    }

    pub fn is_empty(&self) -> (empty: bool)
        ensures
            empty == (self.entries().len() == 0),
    {
        self.entries.len() == 0
    }

    /// Where the entry with the key `key` stands, if there is one.
    pub fn index_of(&self, key: &TxId) -> (found: Option<usize>)
        ensures
            match found {
                Some(i) => i < self.entries().len() && self.entries()[i as int].0 == *key,
                None => !has_key(self.entries(), *key),
            },
    {
        let mut i: usize = 0;
        while i < self.entries.len()
            invariant
                i <= self.entries@.len(),
                forall|k: int| 0 <= k < i ==> (#[trigger] self.entries@[k]).0 != *key,
            decreases self.entries@.len() - i,
        {
            if self.entries[i].0 == *key {
                return Some(i);
            }
            i += 1;
        }
        None
    }

    pub fn contains_key(&self, key: &TxId) -> (present: bool)
        ensures
            present == has_key(self.entries(), *key),
    {
        self.index_of(key).is_some()
    }

    /// The record stored under `key`, if there is one.
    pub fn get(&self, key: &TxId) -> (found: Option<&V>)
        ensures
            match found {
                Some(value) => exists|i: int|
                    0 <= i < self.entries().len() && #[trigger] self.entries()[i] == (*key, *value),
                None => !has_key(self.entries(), *key),
            },
    {
        match self.index_of(key) {
            Some(i) => Some(&self.entries[i].1),
            None => None,
        }
    }

    /// The key of the entry at position `index`.
    pub fn key_at(&self, index: usize) -> (key: TxId)
        requires
            index < self.entries().len(),
        ensures
            key == self.entries()[index as int].0,
    {
        self.entries[index].0
    }

    /// The record of the entry at position `index`.
    pub fn value_at(&self, index: usize) -> (value: &V)
        requires
            index < self.entries().len(),
        ensures
            *value == self.entries()[index as int].1,
    {
        &self.entries[index].1
    }

    /// Stores `value` under `key`. A key that is already present keeps its
    /// position and gives up its former record; a new key goes to the end.
    pub fn insert(&mut self, key: TxId, value: V) -> (former: Option<V>)
        ensures
            match former {
                Some(v) => exists|i: int|
                    0 <= i < old(self).entries().len() && #[trigger] old(self).entries()[i] == (
                        key,
                        v,
                    ) && final(self).entries() == old(self).entries().update(i, (key, value)),
                None => !has_key(old(self).entries(), key) && final(self).entries() == old(
                    self,
                ).entries().push((key, value)),
            },
    {
        proof {
            use_type_invariant(&*self);
        }
        let found = self.index_of(&key);
        let ghost before = self.entries@;
        let mut entries: Vec<(TxId, V)> = Vec::new();
        std::mem::swap(&mut self.entries, &mut entries);
        let former = match found {
            Some(i) => {
                let displaced = entries.remove(i);
                entries.insert(i, (key, value));
                assert(entries@ =~= before.update(i as int, (key, value)));
                assert(before[i as int] == (key, displaced.1));
                Some(displaced.1)
            },
            None => {
                entries.push((key, value));
                None
            },
        };
        self.entries = entries;
        former
    }
}

} // verus!
