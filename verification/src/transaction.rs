//! Transactions: a private write log layered over one shared store.

use crate::store::{apply_view, lookup, SharedStore, Snapshots};
use vstd::hash_map::StringHashMap;
use vstd::prelude::*;

verus! {

/// What a transaction's `read` returns, given the store's mapping, the
/// transaction's log and the key: the logged value where one exists
/// (read-your-own-writes), otherwise the store's value, otherwise `None`.
pub open spec fn read_view<T>(
    store: Map<Seq<char>, T>,
    log: Map<Seq<char>, T>,
    key: Seq<char>,
) -> Option<T> {
    if log.contains_key(key) {
        Some(log[key])
    } else {
        lookup(store, key)
    }
}

/// A short-lived, single-owner transaction: a handle to one shared store and
/// a private log of buffered writes. The log is visible only to this
/// transaction until `commit`; the store is untouched until `commit`.
/// Discarding a transaction without committing leaves the store unchanged —
/// that is the only form of abort.
#[verifier::reject_recursive_types(T)]
pub struct Transaction<T> {
    data: SharedStore<T>,
    log: StringHashMap<T>,
}

impl<T: Copy> Transaction<T> {
    /// The transaction's private log, as a mapping from key to buffered value.
    pub closed spec fn log_view(&self) -> Map<Seq<char>, T> {
        self.log@
    }

    /// The store this transaction is bound to.
    pub closed spec fn store(&self) -> SharedStore<T> {
        self.data
    }

    /// Creates a transaction bound to `data`, with an empty log.
    pub fn new(data: SharedStore<T>) -> (t: Self)
        ensures
            t.log_view() == Map::<Seq<char>, T>::empty(),
            t.store() == data,
    {
        Transaction { data, log: StringHashMap::new() }
    }

    /// Returns the logged value for `key` where one exists, taking no lock;
    /// otherwise queries the shared store. The transaction itself is left
    /// unchanged. The ghost half of the result is the store snapshot the
    /// read went by, and the value returned is exactly [`read_view`] of that
    /// snapshot, the log and the key. When the key is in the log the log
    /// shadows the store, no lock is taken and the snapshot half is vacuous;
    /// otherwise it is the store's mapping at the instant the lock was held.
    /// Reads are not snapshot-isolated: another owner's commit may change
    /// the mapping between two reads of the same store-resident key, so each
    /// read is pinned only relative to its own snapshot.
    pub fn read(&mut self, key: &str) -> (r: (Option<T>, Ghost<Map<Seq<char>, T>>))
        ensures
            *final(self) == *old(self),
            r.0 == read_view(r.1@, old(self).log_view(), key@),
            old(self).log_view().contains_key(key@) ==> r.0 == Some(
                old(self).log_view()[key@],
            ),
    {
        if let Some(value) = self.log.get(key) {
            return (Some(*value), Ghost(Map::empty()));
        }
        self.data.get(key)
    }

    /// Inserts `key -> value` into the private log, replacing any value this
    /// transaction logged for `key` before. No lock is taken; nothing is
    /// visible to any other transaction or to the store until `commit`.
    pub fn write(&mut self, key: &str, value: T)
        ensures
            final(self).log_view() == old(self).log_view().insert(key@, value),
            final(self).store() == old(self).store(),
    {
        self.log.insert(key.to_owned(), value);
    }

    /// Consumes the transaction, acquires the store's lock once, copies the
    /// entire log into the store as one atomic batch, and unconditionally
    /// reports success. There is no validation of earlier reads and no
    /// failure outcome: commit is a blind overwrite of whatever the log
    /// contains. The ghost half of the result is the store's mapping just
    /// before and just after the batch: the mapping afterwards is exactly
    /// the mapping before with every log entry laid over it — entries of
    /// the log replace prior values, every other key keeps its value, and an
    /// empty log changes nothing (see [`crate::laws`] for what follows).
    pub fn commit(self) -> (r: (bool, Ghost<Snapshots<T>>))
        ensures
            r.0,
            r.1@.after == apply_view(r.1@.before, self.log_view()),
    {
        let Transaction { data, log } = self;
        let snapshots = data.apply(log);
        (true, snapshots)
    }
}

} // verus!
