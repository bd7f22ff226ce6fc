//! Keyed stores: a map from keys to values with lookup, presence test and overwrite.
use vstd::prelude::*;
use crate::types::{BlockNumber, ProposalId};

verus! {

/// A key of a [`StorageMap`]: a plain value that can be told apart from another at run time.
pub trait StorageKey: Copy {
    /// Whether the two keys are the same.
    fn same_key(&self, other: &Self) -> (same: bool)
        ensures
            same == (*self == *other),
    ;
}

impl StorageKey for BlockNumber {
    fn same_key(&self, other: &BlockNumber) -> (same: bool) {
        *self == *other
    }
}

impl StorageKey for ProposalId {
    fn same_key(&self, other: &ProposalId) -> (same: bool) {
        let mut i: usize = 0;
        while i < 32
            invariant
                i <= 32,
                forall|j: int| 0 <= j < i ==> self[j] == other[j],
            decreases 32 - i,
        {
            if self[i] != other[i] {
                return false;
            }
            i = i + 1;
        }
        assert(*self =~= *other);
        true
    }
}

/// A map from keys to values, held as two vectors of equal length in which no key occurs
/// twice.
#[derive(Clone, Debug)]
pub struct StorageMap<K, V> {
    keys: Vec<K>,
    values: Vec<V>,
}

impl<K, V> View for StorageMap<K, V> {
    type V = Map<K, V>;

    closed spec fn view(&self) -> Map<K, V> {
        Map::new(
            |k: K| self.keys@.contains(k),
            |k: K| self.values@[self.keys@.index_of(k)],
        )
    }
}

impl<K: StorageKey, V> StorageMap<K, V> {
    /// The representation invariant.
    pub closed spec fn wf(&self) -> bool {
        &&& self.keys@.len() == self.values@.len()
        &&& self.keys@.no_duplicates()
    }

    /// The empty map.
    pub fn new() -> (map: StorageMap<K, V>)
        ensures
            map@ == Map::<K, V>::empty(),
            map.wf(),
    {
        StorageMap { keys: Vec::new(), values: Vec::new() }
    }

    /// The keys in the order in which they are held.
    pub closed spec fn keys(&self) -> Seq<K> {
        self.keys@
    }

    /// The keys of a sound map are those under which a value is stored, each of them once.
    pub proof fn lemma_keys(&self)
        requires
            self.wf(),
        ensures
            self.keys().no_duplicates(),
            forall|k: K| self@.contains_key(k) <==> self.keys().contains(k),
    {
    }

    /// Number of keys.
    pub fn len(&self) -> (n: usize)
        ensures
            n == self.keys().len(),
    {
        self.keys.len()
    }

    /// The key that is held at place `i`, with its value.
    pub fn entry(&self, i: usize) -> (entry: (K, &V))
        requires
            self.wf(),
            i < self.keys().len(),
        ensures
            entry.0 == self.keys()[i as int],
            self@.contains_key(entry.0),
            *entry.1 == self@[entry.0],
    {
        assert(self.keys@.index_of(self.keys@[i as int]) == i);
        (self.keys[i], &self.values[i])
    }

    fn position(&self, key: &K) -> (found: Option<usize>)
        requires
            self.wf(),
        ensures
            match found {
                Some(i) => i < self.keys@.len() && self.keys@[i as int] == *key,
                None => !self.keys@.contains(*key),
            },
    {
        let mut i: usize = 0;
        while i < self.keys.len()
            invariant
                i <= self.keys@.len(),
                forall|j: int| 0 <= j < i ==> self.keys@[j] != *key,
            decreases self.keys@.len() - i,
        {
            if self.keys[i].same_key(key) {
                return Some(i);
            }
            i = i + 1;
        }
        None
    }

    /// Whether a value is stored under `key`.
    pub fn contains_key(&self, key: &K) -> (present: bool)
        requires
            self.wf(),
        ensures
            present == self@.contains_key(*key),
    {
        self.position(key).is_some()
    }

    /// The value stored under `key`, if there is one.
    pub fn get(&self, key: &K) -> (value: Option<&V>)
        requires
            self.wf(),
        ensures
            match value {
                Some(v) => self@.contains_key(*key) && *v == self@[*key],
                None => !self@.contains_key(*key),
            },
    {
        match self.position(key) {
            Some(i) => {
                assert(self.keys@.index_of(*key) == i);
                Some(&self.values[i])
            },
            None => None,
        }
    }

    /// Stores `value` under `key`, in place of what was stored there.
    pub fn insert(&mut self, key: K, value: V)
        requires
            old(self).wf(),
        ensures
            final(self).wf(),
            final(self)@ == old(self)@.insert(key, value),
    {
        match self.position(&key) {
            Some(i) => {
                self.values[i] = value;
                assert(final(self)@ =~= old(self)@.insert(key, value)) by {
                    assert forall|k: K| self.keys@.contains(k) implies
                        #[trigger] self@[k] == old(self)@.insert(key, value)[k] by {
                        let j = self.keys@.index_of(k);
                        if k == key {
                            assert(j == i);
                        }
                    }
                }
            },
            None => {
                self.keys.push(key);
                self.values.push(value);
                assert(final(self)@ =~= old(self)@.insert(key, value)) by {
                    let n = old(self).keys@.len() as int;
                    assert(self.keys@[n] == key);
                    assert forall|k: K| #[trigger] self.keys@.contains(k) <==> (k == key
                        || old(self).keys@.contains(k)) by {
                        if old(self).keys@.contains(k) {
                            let j = old(self).keys@.index_of(k);
                            assert(self.keys@[j] == k);
                        }
                    }
                    assert forall|k: K| self.keys@.contains(k) implies
                        #[trigger] self@[k] == old(self)@.insert(key, value)[k] by {
                        let j = self.keys@.index_of(k);
                        if k != key {
                            assert(old(self).keys@[j] == k);
                            assert(old(self).keys@.index_of(k) == j);
                        } else {
                            assert(j == n);
                        }
                    }
                }
            },
        }
    }
}

} // verus!
