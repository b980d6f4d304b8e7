//! A durable keyed store, the engine's model of persistent contract storage.
//!
//! Writes are appended to a journal; a later entry for a key shadows every
//! earlier one. The store's abstract value is the map from each key to the
//! value it was last written with.

use vstd::prelude::*;

verus! {

/// A keyed store holding one value per `u64` key, viewed as a
/// `Map<u64, T>` of the most recent write to each key.
pub struct Store<T> {
    entries: Vec<(u64, T)>,
}

/// The map described by a journal of writes: each entry overrides
/// earlier entries for the same key.
spec fn map_of<T>(s: Seq<(u64, T)>) -> Map<u64, T>
    decreases s.len(),
{
    if s.len() == 0 {
        Map::empty()
    } else {
        map_of(s.drop_last()).insert(s.last().0, s.last().1)
    }
}

/// The most recent value written for `key`, if any.
spec fn lookup<T>(s: Seq<(u64, T)>, key: u64) -> Option<T>
    decreases s.len(),
{
    if s.len() == 0 {
        None
    } else if s.last().0 == key {
        Some(s.last().1)
    } else {
        lookup(s.drop_last(), key)
    }
}

/// A journal's most recent write for a key is exactly the key's binding in
/// the map the journal describes.
proof fn lemma_lookup_agrees_with_map<T>(s: Seq<(u64, T)>, key: u64)
    ensures
        match lookup(s, key) {
            Some(v) => map_of(s).contains_key(key) && map_of(s)[key] == v,
            None => !map_of(s).contains_key(key),
        },
    decreases s.len(),
{
    if s.len() > 0 {
        lemma_lookup_agrees_with_map(s.drop_last(), key);
    }
}

impl<T> View for Store<T> {
    type V = Map<u64, T>;

    closed spec fn view(&self) -> Map<u64, T> {
        map_of(self.entries@)
    }
}

impl<T: Copy> Store<T> {
    /// An empty store: no key holds a value.
    pub fn new() -> (s: Store<T>)
        ensures
            s@ == Map::<u64, T>::empty(),
    {
        Store { entries: Vec::new() }
    }

    /// The value most recently written for `key`, or `None` if `key` was
    /// never written.
    pub fn get(&self, key: u64) -> (r: Option<T>)
        ensures
            match r {
                Some(v) => self@.contains_key(key) && v == self@[key],
                None => !self@.contains_key(key),
            },
    {
        let mut i: usize = self.entries.len();
        proof {
            assert(self.entries@.take(i as int) =~= self.entries@);
        }
        while i > 0
            invariant
                i <= self.entries@.len(),
                lookup(self.entries@, key) == lookup(self.entries@.take(i as int), key),
            decreases i,
        {
            i = i - 1;
            proof {
                assert(self.entries@.take(i as int + 1).drop_last() =~= self.entries@.take(
                    i as int,
                ));
                assert(self.entries@.take(i as int + 1).last() == self.entries@[i as int]);
            }
            if self.entries[i].0 == key {
                proof {
                    lemma_lookup_agrees_with_map(self.entries@, key);
                }
                return Some(self.entries[i].1);
            }
        }
        proof {
            assert(self.entries@.take(0) =~= Seq::<(u64, T)>::empty());
            lemma_lookup_agrees_with_map(self.entries@, key);
        }
        None
    }

    /// Writes `value` for `key`, shadowing any earlier value.
    pub fn put(&mut self, key: u64, value: T)
        ensures
            final(self)@ == old(self)@.insert(key, value),
    {
        self.entries.push((key, value));
        proof {
            assert(self.entries@.drop_last() =~= old(self).entries@);
            assert(self.entries@.last() == (key, value));
        }
    }
}

} // verus!
