//! A small key-value store: the storage primitive under the registry's
//! mappings.

use vstd::prelude::*;

verus! {

/// Keys of an [`AssocMap`]: plain values with a decidable equality.
pub trait Key: Copy {
    /// Whether two keys are the same value.
    fn key_eq(&self, other: &Self) -> (r: bool)
        ensures
            r == (*self == *other),
    ;
}

/// A finite map, stored as a list of entries in which no key occurs twice.
pub struct AssocMap<K, T> {
    entries: Vec<(K, T)>,
}

impl<K, T> View for AssocMap<K, T> {
    type V = Map<K, T>;

    closed spec fn view(&self) -> Map<K, T> {
        map_of(self.entries@)
    }
}

/// The keys of a list of entries, in order.
pub open spec fn keys_of<K, T>(entries: Seq<(K, T)>) -> Seq<K> {
    entries.map_values(|e: (K, T)| e.0)
}

/// The map that a list of entries stands for: each key with the value of its
/// first entry.
pub open spec fn map_of<K, T>(entries: Seq<(K, T)>) -> Map<K, T> {
    Map::new(
        |k: K| keys_of(entries).contains(k),
        |k: K| entries[keys_of(entries).index_of(k)].1,
    )
}

impl<K, T> AssocMap<K, T> {
    /// The stored keys, in storage order.
    spec fn keys(&self) -> Seq<K> {
        keys_of(self.entries@)
    }

    #[verifier::type_invariant]
    spec fn well_formed(&self) -> bool {
        self.keys().no_duplicates()
    }
}

impl<K: Key, T: Copy> AssocMap<K, T> {
    /// The empty map.
    pub fn new() -> (m: Self)
        ensures
            m@ == Map::<K, T>::empty(),
    {
        let m = AssocMap { entries: Vec::new() };
        assert(m@ =~= Map::<K, T>::empty());
        m
    }

    /// The position of `key` among the entries.
    fn position(&self, key: &K) -> (r: Option<usize>)
        ensures
            match r {
                Some(i) => i < self.keys().len() && self.keys()[i as int] == *key,
                None => !self.keys().contains(*key),
            },
    {
        let mut i: usize = 0;
        while i < self.entries.len()
            invariant
                i <= self.entries.len(),
                forall|j: int| 0 <= j < i ==> self.keys()[j] != *key,
            decreases self.entries.len() - i,
        {
            if self.entries[i].0.key_eq(key) {
                return Some(i);
            }
            i += 1;
        }
        None
    }

    /// The value stored under `key`, if any.
    pub fn get(&self, key: &K) -> (r: Option<T>)
        ensures
            r == (if self@.dom().contains(*key) {
                Some(self@[*key])
            } else {
                None
            }),
    {
        proof {
            use_type_invariant(self);
        }
        match self.position(key) {
            Some(i) => {
                proof {
                    self.keys().index_of_first_ensures(*key);
                    let j = self.keys().index_of(*key);
                    assert(self.keys()[j] == self.keys()[i as int]);
                }
                Some(self.entries[i].1)
            },
            None => None,
        }
    }

    /// Stores `value` under `key`, replacing what was stored there.
    pub fn insert(&mut self, key: K, value: T)
        ensures
            final(self)@ == old(self)@.insert(key, value),
    {
        proof {
            use_type_invariant(&*self);
        }
        let found = self.position(&key);
        let mut entries: Vec<(K, T)> = Vec::new();
        std::mem::swap(&mut entries, &mut self.entries);
        let ghost before = entries@;
        match found {
            Some(i) => {
                proof {
                    keys_of(before).index_of_first_ensures(key);
                }
                entries.set(i, (key, value));
            },
            None => {
                entries.push((key, value));
            },
        }
        proof {
            lemma_insert_entries(before, entries@, key, value);
        }
        self.entries = entries;
    }

    /// The number of stored keys.
    pub fn len(&self) -> (n: usize)
        ensures
            self@.dom().finite(),
            n == self@.dom().len(),
    {
        proof {
            use_type_invariant(self);
            self.keys().unique_seq_to_set();
            assert(self@.dom() =~= self.keys().to_set());
        }
        self.entries.len()
    }

    /// A copy that holds the same entries.
    pub fn duplicate(&self) -> (m: Self)
        ensures
            m@ == self@,
    {
        proof {
            use_type_invariant(self);
        }
        let mut entries: Vec<(K, T)> = Vec::new();
        let mut i: usize = 0;
        while i < self.entries.len()
            invariant
                i <= self.entries.len(),
                entries@ == self.entries@.take(i as int),
            decreases self.entries.len() - i,
        {
            entries.push(self.entries[i]);
            assert(entries@ =~= self.entries@.take(i + 1));
            i += 1;
        }
        assert(entries@ =~= self.entries@);
        AssocMap { entries }
    }
}

/// Replacing the entry of a key, or appending one for a new key, keeps the
/// keys distinct and inserts into the map that the entries stand for.
proof fn lemma_insert_entries<K, T>(before: Seq<(K, T)>, after: Seq<(K, T)>, key: K, value: T)
    requires
        keys_of(before).no_duplicates(),
        keys_of(before).contains(key) ==> after == before.update(
            keys_of(before).index_of(key),
            (key, value),
        ),
        !keys_of(before).contains(key) ==> after == before.push((key, value)),
    ensures
        keys_of(after).no_duplicates(),
        map_of(after) == map_of(before).insert(key, value),
{
    let old_keys = keys_of(before);
    let new_keys = keys_of(after);
    if old_keys.contains(key) {
        old_keys.index_of_first_ensures(key);
        assert(new_keys =~= old_keys);
        assert forall|k: K| new_keys.contains(k) implies #[trigger] map_of(after)[k] == map_of(
            before,
        ).insert(key, value)[k] by {
            new_keys.index_of_first_ensures(k);
        }
    } else {
        assert(new_keys =~= old_keys.push(key));
        assert forall|k: K| #[trigger] new_keys.contains(k) <==> (k == key || old_keys.contains(
            k,
        )) by {
            if old_keys.contains(k) {
                old_keys.index_of_first_ensures(k);
                assert(new_keys[old_keys.index_of(k)] == k);
            }
            if k == key {
                assert(new_keys[old_keys.len() as int] == k);
            }
        }
        assert forall|k: K| new_keys.contains(k) implies #[trigger] map_of(after)[k] == map_of(
            before,
        ).insert(key, value)[k] by {
            new_keys.index_of_first_ensures(k);
            if k != key {
                old_keys.index_of_first_ensures(k);
                assert(new_keys[old_keys.index_of(k)] == k);
            }
        }
    }
    assert(map_of(after) =~= map_of(before).insert(key, value));
}

} // verus!
