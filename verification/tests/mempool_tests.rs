use ledger_core::errors::BlockchainError;
use ledger_core::mempool::Mempool;
use ledger_core::transaction::Transaction;

fn dummy_address(byte: u8) -> [u8; 20] {
    [byte; 20]
}

#[test]
fn test_priority_order_with_tie_break() {
    let mut pool = Mempool::new();

    // Scores: 10 * 10 = 100, 30 * 10 = 300, 20 * 5 = 100, submitted in
    // that order.
    let tx1 = Transaction::new_transfer(dummy_address(1), dummy_address(2), 10, 1, 10, 10).unwrap();
    let tx2 = Transaction::new_transfer(dummy_address(3), dummy_address(4), 10, 1, 10, 30).unwrap();
    let tx3 = Transaction::new_transfer(dummy_address(5), dummy_address(6), 10, 1, 5, 20).unwrap();
    let h1 = tx1.hash;
    let h2 = tx2.hash;
    let h3 = tx3.hash;

    pool.submit(tx1).unwrap();
    pool.submit(tx2).unwrap();
    pool.submit(tx3).unwrap();
    assert_eq!(pool.len(), 3);

    let served = pool.take(3);
    assert_eq!(served.len(), 3);
    assert_eq!(served[0].hash, h2); // the 300-score transaction first
    assert_eq!(served[1].hash, h1); // first 100-score by submission time
    assert_eq!(served[2].hash, h3); // second 100-score
}

#[test]
fn test_take_peeks_without_removing() {
    let mut pool = Mempool::new();
    let tx = Transaction::new_transfer(dummy_address(1), dummy_address(2), 10, 1, 10, 10).unwrap();
    pool.submit(tx).unwrap();

    let first = pool.take(5);
    assert_eq!(first.len(), 1);
    assert_eq!(pool.len(), 1);

    let limited = pool.take(0);
    assert_eq!(limited.len(), 0);
}

#[test]
fn test_submit_rejects_invalid() {
    let mut pool = Mempool::new();
    let tx = Transaction::new_transfer(dummy_address(1), dummy_address(1), 10, 1, 10, 10).unwrap();
    match pool.submit(tx) {
        Err(BlockchainError::InvalidTransaction { reason }) => {
            assert_eq!(reason, "Cannot transfer to self")
        }
        other => panic!("expected InvalidTransaction, got {:?}", other),
    }
    assert_eq!(pool.len(), 0);
}

#[test]
fn test_submit_is_idempotent_per_hash() {
    let mut pool = Mempool::new();
    let tx = Transaction::new_transfer(dummy_address(1), dummy_address(2), 10, 1, 10, 10).unwrap();
    let copy = tx.clone();
    pool.submit(tx).unwrap();
    pool.submit(copy).unwrap();
    assert_eq!(pool.len(), 1);
}

#[test]
fn test_remove_is_idempotent() {
    let mut pool = Mempool::new();
    let tx1 = Transaction::new_transfer(dummy_address(1), dummy_address(2), 10, 1, 10, 10).unwrap();
    let tx2 = Transaction::new_transfer(dummy_address(3), dummy_address(4), 10, 1, 10, 30).unwrap();
    let h1 = tx1.hash;
    pool.submit(tx1).unwrap();
    pool.submit(tx2).unwrap();

    pool.remove(&h1).unwrap();
    assert_eq!(pool.len(), 1);
    pool.remove(&h1).unwrap();
    assert_eq!(pool.len(), 1);
    pool.remove(&[0u8; 32]).unwrap();
    assert_eq!(pool.len(), 1);
}
