//! Toy workloads over the transactional store: funds transfer and inventory
//! adjustment. Each one starts a transaction, reads, decides, writes and
//! commits. The decision is a pure function of the values read, stated
//! exactly; the values read depend on what other owners committed
//! concurrently, so each workload returns ghost witnesses of its reads, and
//! its contract ties the outcome — and the committed batch — to those
//! witnesses.

use crate::stm::STM;
use crate::store::{apply_view, Snapshots};
use vstd::prelude::*;

verus! {

/// The outcome of debiting `amount` from `from_balance` and crediting it to
/// `to_balance`: the two new balances, or `None` when the funds are
/// insufficient or either new balance would not fit the value type.
pub open spec fn transfer_result(from_balance: i32, to_balance: i32, amount: i32) -> Option<
    (i32, i32),
> {
    let debited = from_balance - amount;
    let credited = to_balance + amount;
    if from_balance >= amount && i32::MIN <= debited <= i32::MAX && i32::MIN <= credited
        <= i32::MAX {
        Some((debited as i32, credited as i32))
    } else {
        None
    }
}

/// Computes the balances after a transfer, exactly as [`transfer_result`]
/// states: `None` when the source balance is below `amount`, or when a new
/// balance would overflow.
pub fn transfer_amounts(from_balance: i32, to_balance: i32, amount: i32) -> (r: Option<(i32, i32)>)
    ensures
        r == transfer_result(from_balance, to_balance, amount),
{
    if from_balance < amount {
        return None;
    }
    match (from_balance.checked_sub(amount), to_balance.checked_add(amount)) {
        (Some(debited), Some(credited)) => Some((debited, credited)),
        _ => None,
    }
}

/// Ghost record of one transfer: the two balances the transaction read (a
/// missing account read as 0), and the store snapshots around its commit —
/// `None` where nothing was committed.
pub struct TransferTrace {
    /// The source balance the transaction read.
    pub from_balance: i32,
    /// The destination balance the transaction read.
    pub to_balance: i32,
    /// The store's mapping around the commit, where one ran.
    pub committed: Option<Snapshots<i32>>,
}

/// Transfers `amount` from `from` to `to` in one transaction: reads both
/// balances (a missing account counts as 0), and where the funds suffice —
/// and the new balances fit `i32` (the original would overflow there; this
/// one refuses instead, as a verified function may not panic) — writes both
/// new balances and commits, returning true; otherwise commits nothing and
/// returns false.
///
/// The ghost half of the result witnesses the two balances read; the
/// contract ties the outcome to [`transfer_result`] of those witnesses, and,
/// on success, ties the committed batch to exactly the two new balances.
/// What the witnesses are depends on what other owners committed before each
/// read; there is no validation at commit, so two concurrent transfers can
/// both read the same balance and the later commit silently overwrite the
/// earlier one (a lost update) — see [`crate::laws`].
pub fn transfer(stm: &STM<i32>, from: &str, to: &str, amount: i32) -> (r: (
    bool,
    Ghost<TransferTrace>,
))
    ensures
        r.0 == transfer_result(r.1@.from_balance, r.1@.to_balance, amount).is_some(),
        match transfer_result(r.1@.from_balance, r.1@.to_balance, amount) {
            Some(balances) => match r.1@.committed {
                Some(s) => s.after == apply_view(
                    s.before,
                    Map::<Seq<char>, i32>::empty().insert(from@, balances.0).insert(
                        to@,
                        balances.1,
                    ),
                ),
                None => false,
            },
            None => r.1@.committed is None,
        },
{
    let mut txn = stm.start_transaction();
    let (from_read, _) = txn.read(from);
    let from_balance = match from_read {
        Some(v) => v,
        None => 0,
    };
    let (to_read, _) = txn.read(to);
    let to_balance = match to_read {
        Some(v) => v,
        None => 0,
    };
    match transfer_amounts(from_balance, to_balance, amount) {
        Some((debited, credited)) => {
            txn.write(from, debited);
            txn.write(to, credited);
            let (ok, snapshots) = txn.commit();
            (ok, Ghost(TransferTrace { from_balance, to_balance, committed: Some(snapshots@) }))
        },
        None => (false, Ghost(TransferTrace { from_balance, to_balance, committed: None })),
    }
}

/// The stock level after adjusting a current level (absent counts as 0) by
/// `quantity`: the sum, or `None` when it would not fit the value type.
pub open spec fn restock_result(current: Option<i32>, quantity: i32) -> Option<i32> {
    let base: int = match current {
        Some(v) => v as int,
        None => 0,
    };
    let next = base + quantity;
    if i32::MIN <= next <= i32::MAX {
        Some(next as i32)
    } else {
        None
    }
}

/// Computes the adjusted stock level, exactly as [`restock_result`] states.
pub fn next_stock(current: Option<i32>, quantity: i32) -> (r: Option<i32>)
    ensures
        r == restock_result(current, quantity),
{
    let base = match current {
        Some(v) => v,
        None => 0,
    };
    base.checked_add(quantity)
}

/// Ghost record of one stock adjustment: the level the transaction read
/// (`None` for a missing product), and the store snapshots around its
/// commit — `None` where nothing was committed.
pub struct RestockTrace {
    /// The stock level the transaction read.
    pub current: Option<i32>,
    /// The store's mapping around the commit, where one ran.
    pub committed: Option<Snapshots<i32>>,
}

/// Adjusts the stock of `product` by `quantity` in one transaction: reads
/// the current level (a missing product counts as 0), writes the adjusted
/// level and commits, returning true. Only an adjusted level that would not
/// fit `i32` is refused (where the original would overflow): nothing is
/// committed and false is returned.
///
/// The ghost half of the result witnesses the level read; the contract ties
/// the outcome to [`restock_result`] of that witness and, on success, ties
/// the committed batch to exactly the adjusted level. As with [`transfer`],
/// the witness is the store's value at the moment of the read, and commit
/// validates nothing.
pub fn update_stock(stm: &STM<i32>, product: &str, quantity: i32) -> (r: (
    bool,
    Ghost<RestockTrace>,
))
    ensures
        r.0 == restock_result(r.1@.current, quantity).is_some(),
        match restock_result(r.1@.current, quantity) {
            Some(level) => match r.1@.committed {
                Some(s) => s.after == apply_view(
                    s.before,
                    Map::<Seq<char>, i32>::empty().insert(product@, level),
                ),
                None => false,
            },
            None => r.1@.committed is None,
        },
{
    let mut txn = stm.start_transaction();
    let (current, _) = txn.read(product);
    match next_stock(current, quantity) {
        Some(level) => {
            txn.write(product, level);
            let (ok, snapshots) = txn.commit();
            (ok, Ghost(RestockTrace { current, committed: Some(snapshots@) }))
        },
        None => (false, Ghost(RestockTrace { current, committed: None })),
    }
}

} // verus!
