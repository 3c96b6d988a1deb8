//! A sparse key-value store in which every key reads as the unset value of
//! its slot until it is written.

use crate::address::Address;
use crate::word::U256;
use vstd::prelude::*;

verus! {

/// A key of a [`Mapping`]: a value that can be compared for identity.
pub trait Key: Copy {
    /// Whether the two keys are the same value.
    fn same_key(&self, other: &Self) -> (r: bool)
        ensures
            r == (*self == *other),
    ;
}

impl Key for U256 {
    fn same_key(&self, other: &Self) -> (r: bool) {
        *self == *other
    }
}

impl Key for Address {
    fn same_key(&self, other: &Self) -> (r: bool) {
        self.same(other)
    }
}

/// A value of a [`Mapping`]: a type with a distinguished value that a slot
/// holds before it is written.
pub trait Slot: Copy {
    /// What a slot that was never written holds.
    spec fn unset() -> Self;

    /// What a slot that was never written holds.
    fn unset_value() -> (r: Self)
        ensures
            r == Self::unset(),
    ;
}

impl Slot for bool {
    open spec fn unset() -> bool {
        false
    }

    fn unset_value() -> (r: bool) {
        false
    }
}

impl Slot for U256 {
    open spec fn unset() -> U256 {
        U256::zero()
    }

    fn unset_value() -> (r: U256) {
        U256::zero()
    }
}

/// Whether no key stands twice in `entries`.
spec fn distinct_keys<K, V>(entries: Seq<(K, V)>) -> bool {
    forall|i: int, j: int|
        0 <= i < entries.len() && 0 <= j < entries.len() && i != j ==> entries[i].0 != entries[j].0
}

/// Whether `key` stands at position `i` of `entries`.
spec fn key_at<K, V>(entries: Seq<(K, V)>, key: K, i: int) -> bool {
    0 <= i < entries.len() && entries[i].0 == key
}

/// What `key` reads as in a store that holds `written`: the value written
/// last, or the unset value.
pub open spec fn read_slot<K, V: Slot>(written: Map<K, V>, key: K) -> V {
    if written.contains_key(key) {
        written[key]
    } else {
        V::unset()
    }
}

/// The map that a list of entries with distinct keys stands for.
spec fn entries_to_map<K, V>(entries: Seq<(K, V)>) -> Map<K, V> {
    Map::new(
        |key: K| exists|i: int| key_at(entries, key, i),
        |key: K| entries[choose|i: int| key_at(entries, key, i)].1,
    )
}

/// A sparse store from keys to values. A key that was never written reads as
/// the unset value of `V`.
pub struct Mapping<K: Key, V: Slot> {
    entries: Vec<(K, V)>,
}

impl<K: Key, V: Slot> View for Mapping<K, V> {
    type V = Map<K, V>;

    /// The keys that were written, each with the value written last.
    closed spec fn view(&self) -> Map<K, V> {
        entries_to_map(self.entries@)
    }
}

impl<K: Key, V: Slot> Mapping<K, V> {
    #[verifier::type_invariant]
    spec fn well_formed(&self) -> bool {
        distinct_keys(self.entries@)
    }

    /// What `key` reads as: the value written last, or the unset value.
    pub open spec fn read(&self, key: K) -> V {
        read_slot(self@, key)
    }

    /// A store in which nothing was written.
    pub fn new() -> (r: Self)
        ensures
            r@ == Map::<K, V>::empty(),
    {
        let r = Mapping { entries: Vec::new() };
        assert(r@ =~= Map::<K, V>::empty());
        r
    }

    /// The position of `key` among the entries, if it was written.
    fn position(&self, key: &K) -> (r: Option<usize>)
        ensures
            r matches Some(i) ==> key_at(self.entries@, *key, i as int),
            r is None ==> forall|i: int| !key_at(self.entries@, *key, i),
    {
        let mut i: usize = 0;
        while i < self.entries.len()
            invariant
                i <= self.entries@.len(),
                forall|j: int| 0 <= j < i ==> self.entries@[j].0 != *key,
            decreases self.entries@.len() - i,
        {
            if self.entries[i].0.same_key(key) {
                return Some(i);
            }
            i = i + 1;
        }
        None
    }

    /// Reads `key`.
    pub fn get(&self, key: &K) -> (r: V)
        ensures
            r == self.read(*key),
    {
        proof {
            use_type_invariant(self);
        }
        match self.position(key) {
            Some(i) => {
                proof {
                    lemma_entry_value(self.entries@, i as int);
                }
                self.entries[i].1
            },
            None => V::unset_value(),
        }
    }

    /// Writes `value` under `key`.
    pub fn insert(&mut self, key: K, value: V)
        ensures
            final(self)@ == old(self)@.insert(key, value),
    {
        proof {
            use_type_invariant(&*self);
        }
        let found = self.position(&key);
        let mut entries: Vec<(K, V)> = Vec::new();
        std::mem::swap(&mut entries, &mut self.entries);
        let ghost before = entries@;
        match found {
            Some(i) => {
                entries.set(i, (key, value));
                proof {
                    lemma_overwrite(before, i as int, value);
                }
            },
            None => {
                entries.push((key, value));
                proof {
                    lemma_append(before, key, value);
                }
            },
        }
        self.entries = entries;
    }
}

/// With distinct keys, the map holds each entry's value under its key.
proof fn lemma_entry_value<K, V>(entries: Seq<(K, V)>, i: int)
    requires
        distinct_keys(entries),
        0 <= i < entries.len(),
    ensures
        entries_to_map(entries).contains_key(entries[i].0),
        entries_to_map(entries)[entries[i].0] == entries[i].1,
{
    let key = entries[i].0;
    assert(key_at(entries, key, i));
    let chosen = choose|j: int| key_at(entries, key, j);
    assert(key_at(entries, key, chosen));
    assert(chosen == i);
}

/// Overwriting the value of an entry is an insertion under its key.
proof fn lemma_overwrite<K, V>(entries: Seq<(K, V)>, i: int, value: V)
    requires
        distinct_keys(entries),
        0 <= i < entries.len(),
    ensures
        distinct_keys(entries.update(i, (entries[i].0, value))),
        entries_to_map(entries.update(i, (entries[i].0, value))) == entries_to_map(entries).insert(
            entries[i].0,
            value,
        ),
{
    let key = entries[i].0;
    let after = entries.update(i, (key, value));
    assert(distinct_keys(after));
    assert forall|k: K| #[trigger]
        entries_to_map(after).contains_key(k) == entries_to_map(entries).insert(
            key,
            value,
        ).contains_key(k) by {
        if entries_to_map(after).contains_key(k) {
            let j = choose|j: int| key_at(after, k, j);
            assert(key_at(entries, k, j));
        }
        if entries_to_map(entries).contains_key(k) {
            let j = choose|j: int| key_at(entries, k, j);
            assert(key_at(after, k, j));
        }
        if k == key {
            assert(key_at(after, k, i));
        }
    }
    assert forall|k: K| #[trigger] entries_to_map(after).contains_key(k) implies entries_to_map(
        after,
    )[k] == entries_to_map(entries).insert(key, value)[k] by {
        let j = choose|j: int| key_at(after, k, j);
        assert(key_at(after, k, j));
        lemma_entry_value(after, j);
        if k != key {
            assert(j != i);
            lemma_entry_value(entries, j);
        } else {
            assert(j == i);
        }
    }
    assert(entries_to_map(after) =~= entries_to_map(entries).insert(key, value));
}

/// Appending an entry under a key that stands nowhere is an insertion.
proof fn lemma_append<K, V>(entries: Seq<(K, V)>, key: K, value: V)
    requires
        distinct_keys(entries),
        forall|i: int| !key_at(entries, key, i),
    ensures
        distinct_keys(entries.push((key, value))),
        entries_to_map(entries.push((key, value))) == entries_to_map(entries).insert(key, value),
{
    let after = entries.push((key, value));
    let last = entries.len() as int;
    assert forall|i: int, j: int|
        0 <= i < after.len() && 0 <= j < after.len() && i != j implies after[i].0 != after[j].0 by {
        if i < last && j < last {
        } else if i < last {
            assert(!key_at(entries, key, i));
        } else {
            assert(!key_at(entries, key, j));
        }
    }
    assert forall|k: K| #[trigger]
        entries_to_map(after).contains_key(k) == entries_to_map(entries).insert(
            key,
            value,
        ).contains_key(k) by {
        if entries_to_map(after).contains_key(k) {
            let j = choose|j: int| key_at(after, k, j);
            if j < last {
                assert(key_at(entries, k, j));
            }
        }
        if entries_to_map(entries).contains_key(k) {
            let j = choose|j: int| key_at(entries, k, j);
            assert(key_at(after, k, j));
        }
        if k == key {
            assert(key_at(after, k, last));
        }
    }
    assert forall|k: K| #[trigger] entries_to_map(after).contains_key(k) implies entries_to_map(
        after,
    )[k] == entries_to_map(entries).insert(key, value)[k] by {
        let j = choose|j: int| key_at(after, k, j);
        assert(key_at(after, k, j));
        lemma_entry_value(after, j);
        if k != key {
            assert(j != last);
            lemma_entry_value(entries, j);
        } else {
            assert(key_at(after, k, last));
            assert(j == last);
        }
    }
    assert(entries_to_map(after) =~= entries_to_map(entries).insert(key, value));
}

} // verus!
