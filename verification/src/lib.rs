//! A minimal transactional key-value abstraction: a shared, lock-guarded
//! mapping from string keys to values, wrapped so that callers group several
//! reads and writes into one logical operation whose effects become visible
//! all at once.
//!
//! An [`STM`] handle owns a shared store and hands out [`Transaction`]s
//! against it. A transaction buffers its writes in a private log; `read`
//! prefers the log over the store (read-your-own-writes), and `commit`
//! copies the whole log into the store under the lock, as one atomic batch.
//! There is no conflict detection, no read validation and no retry: commit
//! is a blind overwrite, so concurrent transactions can lose updates — a
//! documented property of this contract, not an accident. See [`laws`] for
//! what is guaranteed and what is not.

pub mod laws;
pub mod stm;
pub mod store;
pub mod transaction;
pub mod workloads;

pub use stm::STM;
pub use store::SharedStore;
pub use transaction::Transaction;
