//! A small map backed by an unsorted vector of entries.

use vstd::prelude::*;
use vstd::laws_eq::obeys_concrete_eq;
use vstd::pervasive::VecAdditionalExecFns;

verus! {

/// Whether no key occurs twice among the entries.
pub open spec fn keys_unique<K, V>(entries: Seq<(K, V)>) -> bool {
    forall|i: int, j: int|
        0 <= i < entries.len() && 0 <= j < entries.len() && i != j ==> #[trigger] entries[i].0
            != #[trigger] entries[j].0
}

/// Whether some entry has the key.
pub open spec fn has_key<K, V>(entries: Seq<(K, V)>, key: K) -> bool {
    exists|i: int| 0 <= i < entries.len() && #[trigger] entries[i].0 == key
}

/// The position of the entry with the key (meaningful when there is one).
pub open spec fn index_of<K, V>(entries: Seq<(K, V)>, key: K) -> int {
    choose|i: int| 0 <= i < entries.len() && #[trigger] entries[i].0 == key
}

/// The keys of the entries, in order.
pub open spec fn keys_of<K, V>(entries: Seq<(K, V)>) -> Seq<K> {
    entries.map_values(|e: (K, V)| e.0)
}

/// The finite map that the entries describe.
pub open spec fn entries_map<K, V>(entries: Seq<(K, V)>) -> Map<K, V> {
    Map::new(|k: K| has_key(entries, k), |k: K| entries[index_of(entries, k)].1)
}

/// With unique keys, the position of an entry's key is that entry's position.
pub proof fn lemma_index_of_unique<K, V>(entries: Seq<(K, V)>, k: int)
    requires
        keys_unique(entries),
        0 <= k < entries.len(),
    ensures
        has_key(entries, entries[k].0),
        index_of(entries, entries[k].0) == k,
{
    assert(entries[k].0 == entries[k].0);
}

proof fn lemma_push_map<K, V>(entries: Seq<(K, V)>, key: K, value: V)
    requires
        keys_unique(entries),
        !has_key(entries, key),
    ensures
        keys_unique(entries.push((key, value))),
        entries_map(entries.push((key, value))) == entries_map(entries).insert(key, value),
{
    let e2 = entries.push((key, value));
    assert forall|k: K| #[trigger] has_key(e2, k) == (has_key(entries, k) || k == key) by {
        if has_key(entries, k) {
            let i = index_of(entries, k);
            assert(e2[i].0 == k);
        }
        if k == key {
            assert(e2[entries.len() as int].0 == k);
        }
    }
    assert forall|k: K| has_key(e2, k) implies #[trigger] entries_map(e2)[k] == entries_map(
        entries,
    ).insert(key, value)[k] by {
        let j = index_of(e2, k);
        if k == key {
            assert(e2[entries.len() as int].0 == k);
        } else {
            let i = index_of(entries, k);
            assert(e2[i].0 == k);
        }
    }
    assert(entries_map(e2) =~= entries_map(entries).insert(key, value));
}

proof fn lemma_update_map<K, V>(entries: Seq<(K, V)>, key: K, value: V)
    requires
        keys_unique(entries),
        has_key(entries, key),
    ensures
        keys_unique(entries.update(index_of(entries, key), (key, value))),
        entries_map(entries.update(index_of(entries, key), (key, value))) == entries_map(
            entries,
        ).insert(key, value),
{
    let i = index_of(entries, key);
    let e2 = entries.update(i, (key, value));
    assert forall|k: K| #[trigger] has_key(e2, k) == has_key(entries, k) by {
        if has_key(entries, k) {
            let j = index_of(entries, k);
            assert(e2[j].0 == k);
        }
        if has_key(e2, k) {
            let j = index_of(e2, k);
            assert(entries[j].0 == k);
        }
    }
    assert forall|k: K| has_key(e2, k) implies #[trigger] entries_map(e2)[k] == entries_map(
        entries,
    ).insert(key, value)[k] by {
        let j = index_of(entries, k);
        assert(e2[j].0 == k);
    }
    assert(entries_map(e2) =~= entries_map(entries).insert(key, value));
}

proof fn lemma_remove_map<K, V>(entries: Seq<(K, V)>, key: K)
    requires
        keys_unique(entries),
        has_key(entries, key),
    ensures
        keys_unique(entries.remove(index_of(entries, key))),
        entries_map(entries.remove(index_of(entries, key))) == entries_map(entries).remove(key),
{
    let i = index_of(entries, key);
    let e2 = entries.remove(i);
    assert forall|k: K| #[trigger] has_key(e2, k) == (has_key(entries, k) && k != key) by {
        if has_key(entries, k) && k != key {
            let j = index_of(entries, k);
            if j < i {
                assert(e2[j].0 == k);
            } else {
                assert(e2[j - 1].0 == k);
            }
        }
        if has_key(e2, k) {
            let j = index_of(e2, k);
            if j < i {
                assert(entries[j].0 == k);
            } else {
                assert(entries[j + 1].0 == k);
            }
        }
    }
    assert forall|k: K| has_key(e2, k) implies #[trigger] entries_map(e2)[k] == entries_map(
        entries,
    ).remove(key)[k] by {
        let j = index_of(entries, k);
        if j < i {
            assert(e2[j].0 == k);
        } else {
            assert(e2[j - 1].0 == k);
        }
    }
    assert(entries_map(e2) =~= entries_map(entries).remove(key));
}

/// A small map backed by an unsorted vector.
///
/// Maintains key uniqueness at cost of O(n) lookup/insert/remove. Maintains insertion order
/// (`insert` calls that overwrite an existing value don't change order).
#[derive(Clone, Default)]
pub struct VecMap<K, V>(Vec<(K, V)>);

impl<K, V> View for VecMap<K, V> {
    type V = Seq<(K, V)>;

    /// The entries in insertion order.
    closed spec fn view(&self) -> Seq<(K, V)> {
        self.0@
    }
}

impl<K: PartialEq, V> VecMap<K, V> {
    /// The well-formedness of the map: keys compare by value and occur once each.
    pub open spec fn wf(&self) -> bool {
        &&& obeys_concrete_eq::<K>()
        &&& keys_unique(self@)
    }

    /// The contents as a mathematical map.
    pub open spec fn as_map(&self) -> Map<K, V> {
        entries_map(self@)
    }
}

impl<K: PartialEq, V> VecMap<K, V> {
    /// An empty map (well formed wherever the keys' `==` is the mathematical equality).
    pub fn new() -> (r: Self)
        ensures
            obeys_concrete_eq::<K>() ==> r.wf(),
            r@ == Seq::<(K, V)>::empty(),
    {
        VecMap(Vec::new())
    }

    /// Whether the map has no entries.
    pub fn is_empty(&self) -> (r: bool)
        ensures
            r == (self@.len() == 0),
    {
        self.0.len() == 0
    }

    /// Removes all the entries.
    pub fn clear(&mut self)
        requires
            old(self).wf(),
        ensures
            final(self).wf(),
            final(self)@ == Seq::<(K, V)>::empty(),
    {
        self.0.clear();
    }

    /// The position of the entry with the key.
    fn find(&self, key: &K) -> (r: Option<usize>)
        requires
            self.wf(),
        ensures
            match r {
                Some(i) => i < self@.len() && self@[i as int].0 == *key,
                None => !has_key(self@, *key),
            },
    {
        proof {
            reveal(obeys_concrete_eq);
        }
        let mut i: usize = 0;
        while i < self.0.len()
            invariant
                i <= self@.len(),
                self.wf(),
                forall|j: int| 0 <= j < i ==> self@[j].0 != *key,
            decreases self@.len() - i,
        {
            proof {
                reveal(obeys_concrete_eq);
            }
            if self.0[i].0 == *key {
                return Some(i);
            }
            i = i + 1;
        }
        None
    }

    /// Whether some entry has the key.
    pub fn contains(&self, key: &K) -> (r: bool)
        requires
            self.wf(),
        ensures
            r == has_key(self@, *key),
            r == self.as_map().dom().contains(*key),
    {
        self.find(key).is_some()
    }

    /// The value of the key.
    pub fn get(&self, key: &K) -> (r: Option<&V>)
        requires
            self.wf(),
        ensures
            match r {
                Some(v) => has_key(self@, *key) && *v == self@[index_of(self@, *key)].1,
                None => !has_key(self@, *key),
            },
            r is Some == self.as_map().dom().contains(*key),
            r matches Some(v) ==> *v == self.as_map()[*key],
    {
        match self.find(key) {
            Some(i) => Some(&self.0[i].1),
            None => None,
        }
    }

    /// Sets the value of the key and returns the value it replaces. A new key is appended at the
    /// end; an existing key keeps its position.
    pub fn insert(&mut self, key: K, value: V) -> (r: Option<V>)
        requires
            old(self).wf(),
        ensures
            final(self).wf(),
            has_key(old(self)@, key) ==> {
                let i = index_of(old(self)@, key);
                &&& r == Some(old(self)@[i].1)
                &&& final(self)@ == old(self)@.update(i, (key, value))
            },
            !has_key(old(self)@, key) ==> {
                &&& r is None
                &&& final(self)@ == old(self)@.push((key, value))
            },
            final(self).as_map() == old(self).as_map().insert(key, value),
            keys_of(final(self)@) == if has_key(old(self)@, key) {
                keys_of(old(self)@)
            } else {
                keys_of(old(self)@).push(key)
            },
    {
        match self.find(&key) {
            Some(i) => {
                proof {
                    lemma_update_map(self@, key, value);
                }
                let mut entry = (key, value);
                self.0.set_and_swap(i, &mut entry);
                Some(entry.1)
            },
            None => {
                proof {
                    lemma_push_map(self@, key, value);
                }
                self.0.push((key, value));
                None
            },
        }
    }

    /// The value of the key, to change in place (the entry keeps its position).
    pub fn get_mut(&mut self, key: &K) -> (r: Option<&mut V>)
        requires
            old(self).wf(),
        ensures
            match r {
                Some(v) => {
                    let i = index_of(old(self)@, *key);
                    &&& has_key(old(self)@, *key)
                    &&& *v == old(self)@[i].1
                    &&& final(self)@ == old(self)@.update(i, (old(self)@[i].0, *final(v)))
                },
                None => !has_key(old(self)@, *key) && final(self)@ == old(self)@,
            },
    {
        match self.find(key) {
            Some(i) => Some(&mut self.0[i].1),
            None => None,
        }
    }

    /// Removes the entry with the key and returns its value; the other entries keep their order.
    pub fn remove(&mut self, key: &K) -> (r: Option<V>)
        requires
            old(self).wf(),
        ensures
            final(self).wf(),
            has_key(old(self)@, *key) ==> {
                let i = index_of(old(self)@, *key);
                &&& r == Some(old(self)@[i].1)
                &&& final(self)@ == old(self)@.remove(i)
            },
            !has_key(old(self)@, *key) ==> r is None && final(self)@ == old(self)@,
            final(self).as_map() == old(self).as_map().remove(*key),
            has_key(old(self)@, *key) ==> keys_of(final(self)@) == keys_of(old(self)@).remove(
                index_of(old(self)@, *key),
            ),
    {
        match self.find(key) {
            Some(i) => {
                proof {
                    lemma_remove_map(self@, *key);
                }
                Some(self.0.remove(i).1)
            },
            None => None,
        }
    }

    /// The values, in the order of the entries.
    pub fn values(&self) -> (r: Vec<&V>)
        ensures
            r@.len() == self@.len(),
            forall|i: int| 0 <= i < self@.len() ==> *#[trigger] r@[i] == self@[i].1,
    {
        let mut out: Vec<&V> = Vec::new();
        let mut i: usize = 0;
        while i < self.0.len()
            invariant
                i <= self@.len(),
                out@.len() == i,
                forall|j: int| 0 <= j < i ==> *#[trigger] out@[j] == self@[j].1,
            decreases self@.len() - i,
        {
            out.push(&self.0[i].1);
            i = i + 1;
        }
        out
    }

    /// The number of entries.
    pub fn len(&self) -> (r: usize)
        ensures
            r == self@.len(),
    {
        self.0.len()
    }

    /// The entry at the position, in insertion order.
    pub fn entry(&self, index: usize) -> (r: (&K, &V))
        requires
            index < self@.len(),
        ensures
            *r.0 == self@[index as int].0,
            *r.1 == self@[index as int].1,
    {
        let e = &self.0[index];
        (&e.0, &e.1)
    }
}

impl<K: PartialEq + Copy, V: Clone> VecMap<K, V> {
    /// A copy with the same keys in the same order, each value cloned.
    pub fn duplicate(&self) -> (r: Self)
        requires
            self.wf(),
        ensures
            r.wf(),
            keys_of(r@) == keys_of(self@),
            forall|i: int| 0 <= i < self@.len() ==> cloned(self@[i].1, #[trigger] r@[i].1),
    {
        let mut out: Vec<(K, V)> = Vec::new();
        let mut i: usize = 0;
        while i < self.0.len()
            invariant
                i <= self@.len(),
                self.wf(),
                out@.len() == i,
                forall|j: int| 0 <= j < i ==> (#[trigger] out@[j]).0 == self@[j].0,
                forall|j: int| 0 <= j < i ==> cloned(self@[j].1, #[trigger] out@[j].1),
            decreases self@.len() - i,
        {
            let key: K = self.0[i].0;
            let value = self.0[i].1.clone();
            out.push((key, value));
            i = i + 1;
        }
        let r = VecMap(out);
        proof {
            assert(keys_of(r@) =~= keys_of(self@));
        }
        r
    }
}

} // verus!
