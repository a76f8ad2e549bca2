//! The single-threaded key/value cache and the set built on it.

use std::collections::HashMap;
use std::hash::Hash;
use vstd::prelude::*;
use vstd::std_specs::hash::obeys_key_model;

verus! {

broadcast use vstd::std_specs::hash::group_hash_axioms;

/// A map whose reads hand out clones of the stored values, so that no caller
/// holds a reference into the storage.
pub struct CloneMap<K, V> {
    inner: HashMap<K, V>,
}

impl<K, V> View for CloneMap<K, V> {
    type V = Map<K, V>;

    closed spec fn view(&self) -> Map<K, V> {
        self.inner@
    }
}

impl<K: Eq + Hash, V: Clone> CloneMap<K, V> {
    /// An empty map.
    pub fn new() -> (r: Self)
        ensures
            r@ == Map::<K, V>::empty(),
            r@.dom().finite(),
    {
        CloneMap { inner: HashMap::new() }
    }

    /// A clone of the value stored under `k`, or `None` when there is none.
    pub fn get(&self, k: &K) -> (r: Option<V>)
        requires
            obeys_key_model::<K>(),
        ensures
            r is Some <==> self@.contains_key(*k),
            r is Some ==> cloned(self@[*k], r->0),
    {
        match self.inner.get(k) {
            Some(v) => Some(v.clone()),
            None => None,
        }
    }

    /// Stores `v` under `k` and returns the value that was stored there
    /// before, if any.
    pub fn insert(&mut self, k: K, v: V) -> (r: Option<V>)
        requires
            obeys_key_model::<K>(),
        ensures
            final(self)@ == old(self)@.insert(k, v),
            final(self)@.dom().finite(),
            r is Some <==> old(self)@.contains_key(k),
            r is Some ==> r->0 == old(self)@[k],
    {
        self.inner.insert(k, v)
    }
}

impl<K: Eq + Hash, V: Clone> Default for CloneMap<K, V> {
    fn default() -> (r: Self)
        ensures
            r@ == Map::<K, V>::empty(),
    {
        Self::new()
    }
}

/// What `CHashSet::insert` reports when it adds `v` to contents `s`.
pub open spec fn is_new<V>(s: Set<V>, v: V) -> bool {
    !s.contains(v)
}

/// A set of values, kept as the keys of a [`CloneMap`] with unit values.
pub struct CHashSet<V> {
    inner: CloneMap<V, ()>,
}

impl<V> View for CHashSet<V> {
    type V = Set<V>;

    closed spec fn view(&self) -> Set<V> {
        self.inner@.dom()
    }
}

impl<V: Eq + Hash> CHashSet<V> {
    /// An empty set.
    pub fn new() -> (r: Self)
        ensures
            r@ == Set::<V>::empty(),
            r@.finite(),
    {
        let r = CHashSet { inner: CloneMap::new() };
        assert(r@ =~= Set::<V>::empty());
        r
    }

    /// Adds `v`; true when `v` was not in the set before.
    pub fn insert(&mut self, v: V) -> (r: bool)
        requires
            obeys_key_model::<V>(),
        ensures
            final(self)@ == old(self)@.insert(v),
            final(self)@.finite(),
            r == is_new(old(self)@, v),
    {
        let prev = self.inner.insert(v, ());
        assert(self@ =~= old(self)@.insert(v));
        prev.is_none()
    }
}

impl<V: Eq + Hash> Default for CHashSet<V> {
    fn default() -> (r: Self)
        ensures
            r@ == Set::<V>::empty(),
    {
        Self::new()
    }
}

/// Inserting one element twice into a set with contents `before`: the first
/// insert reports the element as new exactly when it was absent, and the
/// repeat, on the contents that the first left, reports it as present and
/// changes nothing.
pub proof fn lemma_set_insert_repeat<V>(before: Set<V>, v: V)
    ensures
        is_new(before, v) <==> !before.contains(v),
        !is_new(before.insert(v), v),
        before.insert(v).insert(v) == before.insert(v),
{
    assert(before.insert(v).insert(v) =~= before.insert(v));
}

/// Inserting into a set with finite contents `before` keeps every element and
/// grows the set by one exactly when the insert reports the element as new.
pub proof fn lemma_set_insert_grows<V>(before: Set<V>, v: V)
    requires
        before.finite(),
    ensures
        before.subset_of(before.insert(v)),
        before.insert(v).len() == before.len() + (if is_new(before, v) { 1int } else { 0int }),
{
    if !is_new(before, v) {
        assert(before.insert(v) =~= before);
    }
}

} // verus!
