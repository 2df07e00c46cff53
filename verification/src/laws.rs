//! What the transactional contract guarantees — and what it deliberately does
//! not. Each law is stated over the mappings that the executable contracts
//! speak of: a transaction's log ([`Transaction::log_view`]), the store
//! snapshot that [`SharedStore::get`] returns alongside its value, and the
//! before/after snapshots that [`SharedStore::apply`] returns, related by
//! [`apply_view`]. Reads combine log and store as [`read_view`] states.
//!
//! [`Transaction::log_view`]: crate::transaction::Transaction::log_view
//! [`SharedStore::get`]: crate::store::SharedStore::get
//! [`SharedStore::apply`]: crate::store::SharedStore::apply

use crate::store::{apply_view, lookup};
use crate::transaction::read_view;
use vstd::prelude::*;

verus! {

/// Read-your-own-writes: within one transaction, a write of `value` under
/// `key` followed by a read of `key` returns `value`, whatever the store
/// holds and whatever was logged before — the log entry shadows everything.
pub proof fn lemma_read_your_writes<T>(
    store: Map<Seq<char>, T>,
    log: Map<Seq<char>, T>,
    key: Seq<char>,
    value: T,
)
    ensures
        read_view(store, log.insert(key, value), key) == Some(value),
{
}

/// A read of a key with no logged write and no committed value returns
/// `None`: the abstraction invents nothing.
pub proof fn lemma_read_absent<T>(store: Map<Seq<char>, T>, log: Map<Seq<char>, T>, key: Seq<char>)
    requires
        !log.contains_key(key),
        !store.contains_key(key),
    ensures
        read_view(store, log, key) == None::<T>,
{
}

/// Commit visibility: once a commit whose log holds `key` is applied, a
/// transaction started afterwards — its own log still empty — reads the
/// committed value for `key`, whatever the store held before.
pub proof fn lemma_commit_visibility<T>(
    store: Map<Seq<char>, T>,
    log: Map<Seq<char>, T>,
    key: Seq<char>,
)
    requires
        log.contains_key(key),
    ensures
        read_view(apply_view(store, log), Map::<Seq<char>, T>::empty(), key) == Some(log[key]),
{
}

/// Keys a commit does not touch keep their value: applying a batch changes
/// the store at the batch's keys and nowhere else.
pub proof fn lemma_commit_untouched<T>(
    store: Map<Seq<char>, T>,
    log: Map<Seq<char>, T>,
    key: Seq<char>,
)
    requires
        !log.contains_key(key),
    ensures
        lookup(apply_view(store, log), key) == lookup(store, key),
{
}

/// Two commits over disjoint key sets lose nothing: after both are applied —
/// the lock orders them one way or the other, and the statement is symmetric
/// in `first` and `second` — the store holds every entry of both batches.
pub proof fn lemma_disjoint_commits<T>(
    store: Map<Seq<char>, T>,
    first: Map<Seq<char>, T>,
    second: Map<Seq<char>, T>,
)
    requires
        first.dom().disjoint(second.dom()),
    ensures
        forall|key: Seq<char>| #[trigger]
            first.contains_key(key) ==> lookup(
                apply_view(apply_view(store, first), second),
                key,
            ) == Some(first[key]),
        forall|key: Seq<char>| #[trigger]
            second.contains_key(key) ==> lookup(
                apply_view(apply_view(store, first), second),
                key,
            ) == Some(second[key]),
{
}

/// Two commits writing the same key: whichever the lock lets in second wins,
/// so the store afterwards holds one of the two committed values — which
/// one is decided only by the lock acquisition order.
pub proof fn lemma_conflicting_commits<T>(
    store: Map<Seq<char>, T>,
    first: Map<Seq<char>, T>,
    second: Map<Seq<char>, T>,
    key: Seq<char>,
)
    requires
        first.contains_key(key),
        second.contains_key(key),
    ensures
        lookup(apply_view(apply_view(store, first), second), key) == Some(second[key]),
        lookup(apply_view(apply_view(store, second), first), key) == Some(first[key]),
{
}

} // verus!
