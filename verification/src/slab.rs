//! A table of values named by generation-checked keys.
//!
//! A key names one value for as long as that value stays in the table. Once the
//! value is removed its key is dead for good: the position may be used again, but
//! only under a later generation, so a stale key never reaches a newer value.

use vstd::prelude::*;

verus! {

/// The name of one value in a [`Slab`].
#[derive(Clone, Copy, Debug, PartialEq, Eq, Hash, Structural)]
pub struct Key {
    pub index: usize,
    pub generation: u64,
}

enum Entry<V> {
    /// Holds `value` under the key of this position and `generation`.
    Occupied { generation: u64, value: V },
    /// Empty; the next value stored here gets generation `next`.
    Vacant { next: u64 },
    /// Empty, with every generation used up.
    Retired,
}

impl<V> Entry<V> {
    spec fn holds(self, generation: u64) -> bool {
        match self {
            Entry::Occupied { generation: g, .. } => g == generation,
            _ => false,
        }
    }

    spec fn used(self, generation: u64) -> bool {
        match self {
            Entry::Occupied { generation: g, .. } => generation <= g,
            Entry::Vacant { next } => generation < next,
            Entry::Retired => true,
        }
    }
}

pub struct Slab<V> {
    entries: Vec<Entry<V>>,
}

impl<V> Slab<V> {
    /// Whether `key` names a value that is in the table now.
    pub closed spec fn live(&self, key: Key) -> bool {
        key.index < self.entries@.len() && self.entries@[key.index as int].holds(key.generation)
    }

    /// The value that a live `key` names.
    pub closed spec fn value_of(&self, key: Key) -> V {
        self.entries@[key.index as int]->value
    }

    /// Whether `key` has ever been handed out by this table.
    pub closed spec fn issued(&self, key: Key) -> bool {
        key.index < self.entries@.len() && self.entries@[key.index as int].used(key.generation)
    }

    /// The keys that this table has handed out so far, live or not.
    pub open spec fn issued_keys(&self) -> Set<Key> {
        Set::new(|key: Key| self.issued(key))
    }

    /// The number of positions, used or not.
    pub closed spec fn positions(&self) -> nat {
        self.entries@.len()
    }

    /// The table as a map from the live keys to their values.
    pub open spec fn view(&self) -> Map<Key, V> {
        Map::new(|key: Key| self.live(key), |key: Key| self.value_of(key))
    }

    /// Every live key was handed out, lies below `positions`, and no two live
    /// keys share a position.
    pub proof fn lemma_live_keys(&self)
        ensures
            forall|key: Key| #[trigger]
                self@.contains_key(key) ==> self.issued_keys().contains(key) && key.index
                    < self.positions(),
            forall|a: Key, b: Key|
                self@.contains_key(a) && self@.contains_key(b) && a.index == b.index ==> a == b,
    {
    }

    pub fn new() -> (slab: Slab<V>)
        ensures
            slab@ == Map::<Key, V>::empty(),
            slab.issued_keys() == Set::<Key>::empty(),
            slab.positions() == 0,
    {
        let slab = Slab { entries: Vec::new() };
        assert(slab@ =~= Map::<Key, V>::empty());
        assert(slab.issued_keys() =~= Set::<Key>::empty());
        slab
    }

    /// Stores `value` under a key that was never handed out before. The key
    /// lies at a position that is free, or at a new position behind the last.
    pub fn insert(&mut self, value: V) -> (key: Key)
        ensures
            !old(self).issued_keys().contains(key),
            final(self)@ == old(self)@.insert(key, value),
            final(self).issued_keys() == old(self).issued_keys().insert(key),
            key.index <= old(self).positions(),
            final(self).positions() == (if key.index == old(self).positions() {
                old(self).positions() + 1
            } else {
                old(self).positions()
            }),
    {
        let mut i: usize = 0;
        while i < self.entries.len()
            invariant
                *self == *old(self),
                i <= self.entries@.len(),
            decreases self.entries@.len() - i,
        {
            if let Entry::Vacant { next } = self.entries[i] {
                let key = Key { index: i, generation: next };
                self.entries[i] = Entry::Occupied { generation: next, value };
                assert(self@ =~= old(self)@.insert(key, value));
                assert(self.issued_keys() =~= old(self).issued_keys().insert(key));
                return key;
            }
            i = i + 1;
        }
        let key = Key { index: self.entries.len(), generation: 0 };
        self.entries.push(Entry::Occupied { generation: 0, value });
        assert(self@ =~= old(self)@.insert(key, value));
        assert(self.issued_keys() =~= old(self).issued_keys().insert(key));
        key
    }

    /// Takes the value of `key` out of the table, if it is there. The key is
    /// never handed out again.
    pub fn remove(&mut self, key: Key) -> (removed: Option<V>)
        ensures
            removed == (if old(self)@.contains_key(key) {
                Some(old(self)@[key])
            } else {
                None
            }),
            final(self)@ == old(self)@.remove(key),
            final(self).issued_keys() == old(self).issued_keys(),
            final(self).positions() == old(self).positions(),
    {
        if !self.contains(key) {
            assert(self@ =~= old(self)@.remove(key));
            return None;
        }
        let mut before = if key.generation < u64::MAX {
            Entry::Vacant { next: key.generation + 1 }
        } else {
            Entry::Retired
        };
        core::mem::swap(&mut self.entries[key.index], &mut before);
        assert(self@ =~= old(self)@.remove(key));
        assert(self.issued_keys() =~= old(self).issued_keys());
        match before {
            Entry::Occupied { value, .. } => Some(value),
            _ => None,
        }
    }

    pub fn contains(&self, key: Key) -> (found: bool)
        ensures
            found == self@.contains_key(key),
    {
        if key.index < self.entries.len() {
            match &self.entries[key.index] {
                Entry::Occupied { generation, .. } => *generation == key.generation,
                _ => false,
            }
        } else {
            false
        }
    }

    pub fn get(&self, key: Key) -> (found: Option<&V>)
        ensures
            found == (if self@.contains_key(key) {
                Some(&self@[key])
            } else {
                None
            }),
    {
        if key.index < self.entries.len() {
            match &self.entries[key.index] {
                Entry::Occupied { generation, value } => {
                    if *generation == key.generation {
                        Some(value)
                    } else {
                        None
                    }
                },
                _ => None,
            }
        } else {
            None
        }
    }

    /// Lends the value of `key` for change, if it is there.
    pub fn get_mut(&mut self, key: Key) -> (found: Option<&mut V>)
        ensures
            match found {
                Some(value) => {
                    &&& old(self)@.contains_key(key)
                    &&& *value == old(self)@[key]
                    &&& final(self)@ == old(self)@.insert(key, *final(value))
                },
                None => !old(self)@.contains_key(key) && final(self)@ == old(self)@,
            },
            final(self).issued_keys() == old(self).issued_keys(),
            final(self).positions() == old(self).positions(),
    {
        if !self.contains(key) {
            return None;
        }
        match &mut self.entries[key.index] {
            Entry::Occupied { value, .. } => Some(value),
            _ => None,
        }
    }

    /// The number of positions, used or not: every live key lies below it.
    pub fn slots(&self) -> (n: usize)
        ensures
            n == self.positions(),
    {
        self.entries.len()
    }

    /// The live key at position `index`, if that position holds a value.
    pub fn key_at(&self, index: usize) -> (found: Option<Key>)
        ensures
            match found {
                Some(key) => key.index == index && self@.contains_key(key),
                None => forall|key: Key| self@.contains_key(key) ==> key.index != index,
            },
    {
        if index < self.entries.len() {
            match &self.entries[index] {
                Entry::Occupied { generation, .. } => Some(Key { index, generation: *generation }),
                _ => None,
            }
        } else {
            None
        }
    }
}

} // verus!
