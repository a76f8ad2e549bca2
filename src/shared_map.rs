//! The key/value cache and set for use from several worker threads at once,
//! kept in a lock-sharded `dashmap::DashMap`.
//!
//! Each call locks only the shard of its key, and only for its own duration:
//! other threads may write between two calls, so the contracts here promise
//! nothing that another thread's write could make false.

use dashmap::DashMap;
use std::hash::Hash;
use vstd::prelude::*;

verus! {

#[verifier::external_type_specification]
#[verifier::external_body]
#[verifier::reject_recursive_types(K)]
#[verifier::reject_recursive_types(V)]
#[verifier::reject_recursive_types(S)]
pub struct ExDashMap<K, V, S>(DashMap<K, V, S>);

/// Relies on `DashMap::new`: an empty map with the default hasher.
#[verifier::external_body]
fn dash_new<K: Eq + Hash, V>() -> (r: DashMap<K, V>) {
    DashMap::new()
}

/// Relies on `DashMap::get`: a clone of the value under `k` at the time of the
/// call, taken while the shard's read lock is held.
#[verifier::external_body]
fn dash_get_cloned<K: Eq + Hash, V: Clone>(m: &DashMap<K, V>, k: &K) -> (r: Option<V>) {
    m.get(k).map(|e| e.value().clone())
}

/// Relies on `DashMap::insert`: stores `v` under `k` under the shard's write
/// lock and hands back the value it replaced.
#[verifier::external_body]
fn dash_insert<K: Eq + Hash, V>(m: &DashMap<K, V>, k: K, v: V) -> (r: Option<V>) {
    m.insert(k, v)
}

/// A map that several threads may read and write through shared references;
/// reads hand out clones of the stored values.
#[verifier::reject_recursive_types(K)]
#[verifier::reject_recursive_types(V)]
pub struct SharedCloneMap<K, V> {
    inner: DashMap<K, V>,
}

impl<K: Eq + Hash, V: Clone> SharedCloneMap<K, V> {
    /// An empty map.
    pub fn new() -> (r: Self) {
        SharedCloneMap { inner: dash_new() }
    }

    /// A clone of the value stored under `k`, or `None` when there is none.
    pub fn get(&self, k: &K) -> (r: Option<V>) {
        dash_get_cloned(&self.inner, k)
    }

    /// Stores `v` under `k` and returns the value that was stored there
    /// before, if any.
    pub fn insert(&self, k: K, v: V) -> (r: Option<V>) {
        dash_insert(&self.inner, k, v)
    }
}

impl<K: Eq + Hash, V: Clone> Default for SharedCloneMap<K, V> {
    fn default() -> (r: Self) {
        Self::new()
    }
}

/// A set that several threads may fill through shared references.
#[verifier::reject_recursive_types(V)]
pub struct SharedHashSet<V> {
    inner: SharedCloneMap<V, ()>,
}

impl<V: Eq + Hash> SharedHashSet<V> {
    /// An empty set.
    pub fn new() -> (r: Self) {
        SharedHashSet { inner: SharedCloneMap::new() }
    }

    /// Adds `v`; true when no value equal to `v` was in the set at the time.
    pub fn insert(&self, v: V) -> (r: bool) {
        let prev = self.inner.insert(v, ());
        prev.is_none()
    }
}

impl<V: Eq + Hash> Default for SharedHashSet<V> {
    fn default() -> (r: Self) {
        Self::new()
    }
}

} // verus!
