use stm_kv::stm::STM;
use stm_kv::workloads::transfer;

#[test]
fn disjoint_concurrent_commits_keep_both() {
    // Two concurrent commits over disjoint key sets: the store afterwards
    // holds the union of both batches, with no entries lost.
    let (stm, _creation) = STM::<i32>::new();
    crossbeam::thread::scope(|s| {
        let left = stm.clone();
        s.spawn(move |_| {
            let mut txn = left.start_transaction();
            txn.write("left_a", 1);
            txn.write("left_b", 2);
            txn.commit();
        });
        let right = stm.clone();
        s.spawn(move |_| {
            let mut txn = right.start_transaction();
            txn.write("right_a", 3);
            txn.write("right_b", 4);
            txn.commit();
        });
    })
    .unwrap();
    let mut check = stm.start_transaction();
    assert_eq!(check.read("left_a").0, Some(1));
    assert_eq!(check.read("left_b").0, Some(2));
    assert_eq!(check.read("right_a").0, Some(3));
    assert_eq!(check.read("right_b").0, Some(4));
}

#[test]
fn conflicting_concurrent_commits_one_value_wins() {
    // Two concurrent commits writing the same key: the store afterwards
    // holds one of the two committed values. Which one depends on the lock
    // acquisition order, so the test asserts membership, not a specific
    // value.
    let (stm, _creation) = STM::<i32>::new();
    crossbeam::thread::scope(|s| {
        let first = stm.clone();
        s.spawn(move |_| {
            let mut txn = first.start_transaction();
            txn.write("k", 1);
            txn.commit();
        });
        let second = stm.clone();
        s.spawn(move |_| {
            let mut txn = second.start_transaction();
            txn.write("k", 2);
            txn.commit();
        });
    })
    .unwrap();
    let mut check = stm.start_transaction();
    let value = check.read("k").0;
    assert!(value == Some(1) || value == Some(2));
}

#[test]
fn concurrent_increments_race() {
    // Ten concurrent transactions each read the counter, add 1, write and
    // commit. Reads are not isolated from concurrent commits, so increments
    // can be lost: the final value is only guaranteed to lie in 1..=10.
    // Asserting equality with 10 would be an unreliable expectation; this
    // outcome is non-deterministic by design.
    let (stm, _creation) = STM::<i32>::new();
    crossbeam::thread::scope(|s| {
        for _ in 0..10 {
            let worker = stm.clone();
            s.spawn(move |_| {
                let mut txn = worker.start_transaction();
                let value = txn.read("key").0.unwrap_or(0);
                txn.write("key", value + 1);
                txn.commit();
            });
        }
    })
    .unwrap();
    let value = stm.start_transaction().read("key").0.unwrap_or(0);
    assert!((1..=10).contains(&value));
}

#[test]
fn concurrent_transfers_lost_update_anomaly() {
    // Ten concurrent "transfer 10 from Alice to Bob if sufficient funds"
    // transactions. Because commit validates nothing, a transfer computed
    // from a stale read can silently overwrite another's commit, so the
    // conservation invariant Alice + Bob == 150 is NOT guaranteed and is
    // deliberately not asserted — the lost update is a known anomaly of this
    // design. What is guaranteed: every committed balance derives from some
    // observed balance by one ten-unit step, and at least one transfer
    // commits, so both balances stay multiples of ten within fixed bounds.
    let (stm, _creation) = STM::<i32>::new();
    let mut init = stm.start_transaction();
    init.write("Alice", 100);
    init.write("Bob", 50);
    assert!(init.commit().0);
    crossbeam::thread::scope(|s| {
        for _ in 0..10 {
            let worker = stm.clone();
            s.spawn(move |_| {
                transfer(&worker, "Alice", "Bob", 10);
            });
        }
    })
    .unwrap();
    let alice = stm.start_transaction().read("Alice").0.unwrap_or(0);
    let bob = stm.start_transaction().read("Bob").0.unwrap_or(0);
    assert!((0..=90).contains(&alice));
    assert!((60..=150).contains(&bob));
    assert_eq!(alice % 10, 0);
    assert_eq!(bob % 10, 0);
}
