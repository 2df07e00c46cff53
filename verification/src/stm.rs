//! The transactional store handle: bootstraps and shares one store.

use crate::store::SharedStore;
use crate::transaction::Transaction;
use vstd::prelude::*;

verus! {

/// A lightweight, duplicable factory bound to one shared store. Cloning a
/// handle shares the store (it does not copy its contents); every clone and
/// every transaction started from any clone operates on the same mapping.
#[verifier::reject_recursive_types(T)]
pub struct STM<T> {
    data: SharedStore<T>,
}

impl<T: Copy> STM<T> {
    /// The store this handle is bound to.
    pub closed spec fn store(&self) -> SharedStore<T> {
        self.data
    }

    /// Creates a handle that owns a fresh shared store, shared with no
    /// pre-existing handle. The ghost half of the result is the store's
    /// creation snapshot: the empty mapping, as every key reads absent until
    /// some commit runs.
    pub fn new() -> (r: (Self, Ghost<Map<Seq<char>, T>>))
        ensures
            r.1@ == Map::<Seq<char>, T>::empty(),
    {
        let (store, creation) = SharedStore::new();
        (STM { data: store }, creation)
    }

    /// Creates a transaction bound to this handle's store, with an empty
    /// log. The store itself is not touched.
    pub fn start_transaction(&self) -> (t: Transaction<T>)
        ensures
            t.log_view() == Map::<Seq<char>, T>::empty(),
            t.store() == self.store(),
    {
        Transaction::new(self.data.clone())
    }
}

impl<T: Copy> Clone for STM<T> {
    /// A duplicate handle bound to the same underlying store.
    fn clone(&self) -> (r: Self)
        ensures
            r == *self,
    {
        STM { data: self.data.clone() }
    }
}

} // verus!
