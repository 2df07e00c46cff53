//! The shared store: canonical state, all access serialized by one lock.

use std::sync::Arc;
use vstd::hash_map::StringHashMap;
use vstd::prelude::*;
use vstd::rwlock::{RwLock, RwLockPredicate};

verus! {

/// What a lookup of `key` in the mapping `m` returns: the stored value, or
/// `None` where the key is absent.
pub open spec fn lookup<T>(m: Map<Seq<char>, T>, key: Seq<char>) -> Option<T> {
    if m.contains_key(key) {
        Some(m[key])
    } else {
        None
    }
}

/// The mapping after a batch of writes is applied: every entry of `batch` is
/// present, replacing any prior value for the same key; every other entry of
/// `store` is untouched.
pub open spec fn apply_view<T>(
    store: Map<Seq<char>, T>,
    batch: Map<Seq<char>, T>,
) -> Map<Seq<char>, T> {
    store.union_prefer_right(batch)
}

/// The store's mapping just before and just after a locked batch
/// application: the pair of states between which the batch is one atomic
/// step. Ghost evidence only — values of this type exist in contracts, not
/// at run time.
pub struct Snapshots<T> {
    /// The mapping at the instant the lock was acquired.
    pub before: Map<Seq<char>, T>,
    /// The mapping at the instant the lock was released.
    pub after: Map<Seq<char>, T>,
}

/// The lock of a shared store accepts every mapping: the store keeps no data
/// invariant beyond what the map type itself maintains. Its one guarantee is
/// mutual exclusion, which the lock provides by construction.
pub struct AnyMap;

impl<T> RwLockPredicate<StringHashMap<T>> for AnyMap {
    open spec fn inv(self, v: StringHashMap<T>) -> bool {
        true
    }
}

/// A mapping from string keys to values of `T`, guarded by one lock and
/// reachable from many owners: handles are duplicated by `clone`, and every
/// duplicate reaches the same underlying mapping. The mapping is mutated only
/// while the lock is held, so no partial state is ever observable.
#[verifier::reject_recursive_types(T)]
pub struct SharedStore<T> {
    lock: Arc<RwLock<StringHashMap<T>, AnyMap>>,
}

impl<T: Copy> SharedStore<T> {
    /// Creates a store whose mapping is empty. The ghost half of the result
    /// is the creation snapshot: the mapping as the store starts out, before
    /// any owner has committed to it.
    pub fn new() -> (r: (Self, Ghost<Map<Seq<char>, T>>))
        ensures
            r.1@ == Map::<Seq<char>, T>::empty(),
    {
        let m = StringHashMap::new();
        let ghost creation = m@;
        let store = SharedStore { lock: Arc::new(RwLock::new(m, Ghost(AnyMap))) };
        (store, Ghost(creation))
    }

    /// Acquires the lock, looks `key` up in the mapping, releases the lock.
    /// The ghost half of the result is the mapping as it stood while the lock
    /// was held; the value returned is exactly that snapshot's value at
    /// `key`. Another owner may change the mapping as soon as the lock is
    /// released, so no more than consistency with one snapshot can be
    /// promised.
    pub fn get(&self, key: &str) -> (r: (Option<T>, Ghost<Map<Seq<char>, T>>))
        ensures
            r.0 == lookup(r.1@, key@),
    {
        let handle = self.lock.acquire_read();
        let m = handle.borrow();
        let ghost snapshot = m@;
        let value = match m.get(key) {
            Some(v) => Some(*v),
            None => None,
        };
        handle.release_read();
        (value, Ghost(snapshot))
    }

    /// Acquires the lock once, inserts every entry of `batch` into the
    /// mapping (each insertion replaces any prior value for that key),
    /// releases the lock. The ghost result gives the mapping just before and
    /// just after: the whole batch is applied as one atomic unit relative to
    /// every other lock user.
    pub fn apply(&self, batch: StringHashMap<T>) -> (g: Ghost<Snapshots<T>>)
        ensures
            g@.after == apply_view(g@.before, batch@),
    {
        let (mut m, handle) = self.lock.acquire_write();
        let ghost before = m@;
        m.union_prefer_right(batch);
        let ghost after = m@;
        handle.release_write(m);
        Ghost(Snapshots { before, after })
    }
}

impl<T: Copy> Clone for SharedStore<T> {
    /// A duplicate handle to the same underlying store: shared ownership,
    /// not a copy of the contents.
    fn clone(&self) -> (r: Self)
        ensures
            r == *self,
    {
        SharedStore { lock: Arc::clone(&self.lock) }
    }
}

} // verus!
