//! A small map keyed by [`Address`], kept as a list of entries with distinct
//! keys. It stands for the per-address records of a contract's persistent
//! store.

use vstd::prelude::*;
use crate::address::Address;

verus! {

/// One record of an [`AddressMap`].
pub struct Entry<V> {
    pub key: Address,
    pub value: V,
}

/// A finite map from addresses to values.
pub struct AddressMap<V> {
    entries: Vec<Entry<V>>,
}

/// Whether some entry of `entries` has key `key`.
pub open spec fn has_key<V>(entries: Seq<Entry<V>>, key: Address) -> bool {
    exists|i: int| 0 <= i < entries.len() && (#[trigger] entries[i]).key == key
}

/// The position of an entry of `entries` with key `key`.
pub open spec fn index_of<V>(entries: Seq<Entry<V>>, key: Address) -> int {
    choose|i: int| 0 <= i < entries.len() && (#[trigger] entries[i]).key == key
}

/// Whether no two entries of `entries` share a key.
pub open spec fn distinct_keys<V>(entries: Seq<Entry<V>>) -> bool {
    forall|i: int, j: int|
        0 <= i < j < entries.len() ==> (#[trigger] entries[i]).key != (#[trigger] entries[j]).key
}

/// The map that a list of entries with distinct keys stands for.
pub open spec fn entries_to_map<V>(entries: Seq<Entry<V>>) -> Map<Address, V> {
    Map::new(
        |key: Address| has_key(entries, key),
        |key: Address| entries[index_of(entries, key)].value,
    )
}

/// In a list with distinct keys, the entry at position `i` is the one its key
/// maps to.
pub proof fn lemma_entry_at<V>(entries: Seq<Entry<V>>, i: int)
    requires
        distinct_keys(entries),
        0 <= i < entries.len(),
    ensures
        entries_to_map(entries).contains_key(entries[i].key),
        entries_to_map(entries)[entries[i].key] == entries[i].value,
        index_of(entries, entries[i].key) == i,
{
    let key = entries[i].key;
    assert(has_key(entries, key));
    let j = index_of(entries, key);
    assert(0 <= j < entries.len() && entries[j].key == key);
    if j < i {
        assert(entries[j].key != entries[i].key);
    } else if i < j {
        assert(entries[i].key != entries[j].key);
    }
}

/// Appending an entry under a fresh key adds that key to the map.
pub proof fn lemma_push_entry<V>(entries: Seq<Entry<V>>, entry: Entry<V>)
    requires
        distinct_keys(entries),
        !has_key(entries, entry.key),
    ensures
        distinct_keys(entries.push(entry)),
        entries_to_map(entries.push(entry)) == entries_to_map(entries).insert(
            entry.key,
            entry.value,
        ),
{
    let after = entries.push(entry);
    assert forall|i: int, j: int| 0 <= i < j < after.len() implies (#[trigger] after[i]).key != (
    #[trigger] after[j]).key by {
        if j < entries.len() {
            assert(entries[i].key != entries[j].key);
        } else {
            assert(after[i] == entries[i]);
            assert(!has_key(entries, entry.key));
        }
    }
    let lhs = entries_to_map(after);
    let rhs = entries_to_map(entries).insert(entry.key, entry.value);
    assert forall|key: Address| lhs.contains_key(key) <==> rhs.contains_key(key) by {
        if has_key(after, key) {
            let i = index_of(after, key);
            if i < entries.len() {
                assert(entries[i].key == key);
            }
        }
        if has_key(entries, key) {
            let i = index_of(entries, key);
            assert(after[i].key == key);
        }
        if key == entry.key {
            assert(after[entries.len() as int].key == key);
        }
    }
    assert forall|key: Address| lhs.contains_key(key) implies lhs[key] == rhs[key] by {
        let i = index_of(after, key);
        lemma_entry_at(after, i);
        if i < entries.len() {
            assert(after[i] == entries[i]);
            lemma_entry_at(entries, i);
        }
    }
    assert(lhs =~= rhs);
}

/// Replacing the value of the entry at position `i` updates its key in the map.
pub proof fn lemma_update_entry<V>(entries: Seq<Entry<V>>, i: int, value: V)
    requires
        distinct_keys(entries),
        0 <= i < entries.len(),
    ensures
        distinct_keys(entries.update(i, Entry { key: entries[i].key, value })),
        entries_to_map(entries.update(i, Entry { key: entries[i].key, value })) == entries_to_map(
            entries,
        ).insert(entries[i].key, value),
{
    let k = entries[i].key;
    let after = entries.update(i, Entry { key: k, value });
    assert forall|a: int| 0 <= a < after.len() implies (#[trigger] after[a]).key == entries[a].key by {}
    assert forall|a: int, b: int| 0 <= a < b < after.len() implies (#[trigger] after[a]).key != (
    #[trigger] after[b]).key by {
        assert(entries[a].key != entries[b].key);
    }
    let lhs = entries_to_map(after);
    let rhs = entries_to_map(entries).insert(k, value);
    assert forall|key: Address| lhs.contains_key(key) <==> rhs.contains_key(key) by {
        if has_key(after, key) {
            let a = index_of(after, key);
            assert(entries[a].key == key);
        }
        if has_key(entries, key) {
            let a = index_of(entries, key);
            assert(after[a].key == key);
        }
        if key == k {
            assert(after[i].key == key);
        }
    }
    assert forall|key: Address| lhs.contains_key(key) implies lhs[key] == rhs[key] by {
        let a = index_of(after, key);
        lemma_entry_at(after, a);
        if a != i {
            assert(after[a] == entries[a]);
            lemma_entry_at(entries, a);
        }
    }
    assert(lhs =~= rhs);
}

/// Taking out the entry at position `i` removes its key from the map.
pub proof fn lemma_remove_entry<V>(entries: Seq<Entry<V>>, i: int)
    requires
        distinct_keys(entries),
        0 <= i < entries.len(),
    ensures
        distinct_keys(entries.remove(i)),
        entries_to_map(entries.remove(i)) == entries_to_map(entries).remove(entries[i].key),
{
    let k = entries[i].key;
    let after = entries.remove(i);
    assert forall|a: int| 0 <= a < after.len() implies #[trigger] after[a] == entries[if a < i {
        a
    } else {
        a + 1
    }] by {}
    assert forall|a: int, b: int| 0 <= a < b < after.len() implies (#[trigger] after[a]).key != (
    #[trigger] after[b]).key by {
        let a0 = if a < i { a } else { a + 1 };
        let b0 = if b < i { b } else { b + 1 };
        assert(entries[a0].key != entries[b0].key);
    }
    let lhs = entries_to_map(after);
    let rhs = entries_to_map(entries).remove(k);
    assert forall|key: Address| lhs.contains_key(key) <==> rhs.contains_key(key) by {
        if has_key(after, key) {
            let a = index_of(after, key);
            let a0 = if a < i { a } else { a + 1 };
            assert(entries[a0].key == key);
            if key == k {
                if a0 < i {
                    assert(entries[a0].key != entries[i].key);
                } else {
                    assert(entries[i].key != entries[a0].key);
                }
            }
        }
        if has_key(entries, key) && key != k {
            let a0 = index_of(entries, key);
            let a = if a0 < i { a0 } else { a0 - 1 };
            assert(after[a].key == key);
        }
    }
    assert forall|key: Address| lhs.contains_key(key) implies lhs[key] == rhs[key] by {
        let a = index_of(after, key);
        let a0 = if a < i { a } else { a + 1 };
        lemma_entry_at(after, a);
        lemma_entry_at(entries, a0);
    }
    assert(lhs =~= rhs);
}

impl<V> AddressMap<V> {
    /// The representation invariant: no key occurs twice.
    pub closed spec fn inv(&self) -> bool {
        distinct_keys(self.entries@)
    }

    /// The mathematical map this value stands for.
    pub closed spec fn view(&self) -> Map<Address, V> {
        entries_to_map(self.entries@)
    }

    /// The entries in the order in which their keys were first inserted.
    pub closed spec fn entries_view(&self) -> Seq<Entry<V>> {
        self.entries@
    }

    /// The view is the map of the entry list, and the list has distinct keys.
    pub proof fn lemma_view_of_entries(&self)
        requires
            self.inv(),
        ensures
            distinct_keys(self.entries_view()),
            self@ == entries_to_map(self.entries_view()),
    {
    }

    /// The empty map.
    pub fn new() -> (m: Self)
        ensures
            m.inv(),
            m@ == Map::<Address, V>::empty(),
            m.entries_view().len() == 0,
    {
        let m = AddressMap { entries: Vec::new() };
        assert(m@ =~= Map::<Address, V>::empty());
        m
    }

    /// The number of entries.
    pub(crate) fn len(&self) -> (n: usize)
        ensures
            n == self.entries_view().len(),
    {
        self.entries.len()
    }

    /// The entry at position `i` of the insertion order.
    pub(crate) fn entry_at(&self, i: usize) -> (e: &Entry<V>)
        requires
            i < self.entries_view().len(),
        ensures
            *e == self.entries_view()[i as int],
    {
        &self.entries[i]
    }

    /// The position of `key` among the entries, if it is present.
    fn position(&self, key: &Address) -> (r: Option<usize>)
        requires
            self.inv(),
        ensures
            match r {
                Some(i) => i < self.entries@.len() && self.entries@[i as int].key == *key,
                None => !has_key(self.entries@, *key),
            },
    {
        let mut i: usize = 0;
        while i < self.entries.len()
            invariant
                i <= self.entries@.len(),
                forall|j: int| 0 <= j < i ==> (#[trigger] self.entries@[j]).key != *key,
            decreases self.entries@.len() - i,
        {
            if self.entries[i].key == *key {
                return Some(i);
            }
            i += 1;
        }
        None
    }

    /// Whether `key` is present.
    pub fn contains_key(&self, key: &Address) -> (present: bool)
        requires
            self.inv(),
        ensures
            present == self@.contains_key(*key),
    {
        self.position(key).is_some()
    }

    /// The value stored under `key`, if any.
    pub fn get(&self, key: &Address) -> (r: Option<&V>)
        requires
            self.inv(),
        ensures
            match r {
                Some(v) => self@.contains_key(*key) && *v == self@[*key],
                None => !self@.contains_key(*key),
            },
    {
        match self.position(key) {
            Some(i) => {
                proof {
                    lemma_entry_at(self.entries@, i as int);
                }
                Some(&self.entries[i].value)
            },
            None => None,
        }
    }

    /// Stores `value` under `key`, replacing what was there.
    pub fn insert(&mut self, key: Address, value: V)
        requires
            old(self).inv(),
        ensures
            final(self).inv(),
            final(self)@ == old(self)@.insert(key, value),
    {
        match self.position(&key) {
            Some(i) => {
                proof {
                    lemma_update_entry(self.entries@, i as int, value);
                }
                self.entries.set(i, Entry { key, value });
            },
            None => {
                proof {
                    lemma_push_entry(self.entries@, Entry { key, value });
                }
                self.entries.push(Entry { key, value });
            },
        }
    }

    /// Removes `key`, returning the value that was stored under it.
    pub fn remove(&mut self, key: &Address) -> (r: Option<V>)
        requires
            old(self).inv(),
        ensures
            final(self).inv(),
            final(self)@ == old(self)@.remove(*key),
            match r {
                Some(v) => old(self)@.contains_key(*key) && v == old(self)@[*key],
                None => !old(self)@.contains_key(*key),
            },
    {
        match self.position(key) {
            Some(i) => {
                proof {
                    lemma_entry_at(self.entries@, i as int);
                    lemma_remove_entry(self.entries@, i as int);
                }
                let e = self.entries.remove(i);
                Some(e.value)
            },
            None => {
                assert(final(self)@ =~= old(self)@.remove(*key));
                None
            },
        }
    }
}

impl<V: Copy> AddressMap<V> {
    /// A copy of the map, entry for entry.
    pub fn duplicate(&self) -> (m: Self)
        requires
            self.inv(),
        ensures
            m.inv(),
            m@ == self@,
            m.entries_view() == self.entries_view(),
    {
        let mut entries: Vec<Entry<V>> = Vec::new();
        let mut i: usize = 0;
        while i < self.entries.len()
            invariant
                i <= self.entries@.len(),
                entries@ == self.entries@.take(i as int),
            decreases self.entries@.len() - i,
        {
            let e = &self.entries[i];
            entries.push(Entry { key: e.key, value: e.value });
            assert(entries@ =~= self.entries@.take(i + 1));
            i += 1;
        }
        assert(entries@ =~= self.entries@);
        AddressMap { entries }
    }
}

} // verus!
