use ledger_core::errors::BlockchainError;
use ledger_core::transaction::{Transaction, TransactionStatus};

fn dummy_address(byte: u8) -> [u8; 20] {
    [byte; 20]
}

#[test]
fn test_transaction_creation() {
    let from = dummy_address(1);
    let to = dummy_address(2);
    let amount = 1000;
    let nonce = 1;
    let gas_limit = 21000;
    let gas_price = 20;

    let tx = Transaction::new_transfer(from, to, amount, nonce, gas_limit, gas_price).unwrap();

    assert_eq!(tx.sender(), from);
    assert_eq!(tx.recipient(), Some(to));
    assert_eq!(tx.amount(), amount);
    assert_eq!(tx.nonce, nonce);
    assert_eq!(tx.total_fee(), gas_limit * gas_price);
    assert_eq!(tx.status, TransactionStatus::Pending);
}

#[test]
fn test_transaction_validation() {
    let from = dummy_address(1);
    let to = dummy_address(2);
    let tx = Transaction::new_transfer(from, to, 1000, 1, 21000, 20).unwrap();

    assert!(tx.validate_structure().is_ok());
}

#[test]
fn test_invalid_transaction() {
    let from = dummy_address(1);
    let to = from; // Same address
    let result = Transaction::new_transfer(from, to, 1000, 1, 21000, 20);

    assert!(result.is_ok()); // Creation succeeds
    let tx = result.unwrap();
    assert!(tx.validate_structure().is_err()); // But validation fails
}

#[test]
fn test_hash_consistency() {
    let from = dummy_address(1);
    let to = dummy_address(2);
    let tx = Transaction::new_transfer(from, to, 1000, 1, 21000, 20).unwrap();

    let hash1 = tx.calculate_hash().unwrap();
    let hash2 = tx.calculate_hash().unwrap();
    assert_eq!(hash1, hash2);
    assert_eq!(tx.hash, hash1);
}

fn expect_invalid_reason(tx: &Transaction, expected: &str) {
    match tx.validate_structure() {
        Err(BlockchainError::InvalidTransaction { reason }) => assert_eq!(reason, expected),
        other => panic!("expected InvalidTransaction, got {:?}", other),
    }
}

#[test]
fn test_validation_reasons() {
    let a1 = dummy_address(1);
    let a2 = dummy_address(2);
    let zero = [0u8; 20];

    let tx = Transaction::new_transfer(zero, a2, 10, 1, 21000, 20).unwrap();
    expect_invalid_reason(&tx, "Invalid sender address");

    let tx = Transaction::new_transfer(a1, zero, 10, 1, 21000, 20).unwrap();
    expect_invalid_reason(&tx, "Invalid recipient address");

    let tx = Transaction::new_transfer(a1, a2, 0, 1, 21000, 20).unwrap();
    expect_invalid_reason(&tx, "Transfer amount cannot be zero");

    let tx = Transaction::new_transfer(a1, a1, 10, 1, 21000, 20).unwrap();
    expect_invalid_reason(&tx, "Cannot transfer to self");

    let tx = Transaction::new_deploy(a1, Vec::new(), Vec::new(), 1, 21000, 20).unwrap();
    expect_invalid_reason(&tx, "Contract code cannot be empty");

    let tx = Transaction::new_call(zero, a2, vec![1], 5, 1, 21000, 20).unwrap();
    expect_invalid_reason(&tx, "Invalid caller address");

    let tx = Transaction::new_call(a1, zero, vec![1], 5, 1, 21000, 20).unwrap();
    expect_invalid_reason(&tx, "Invalid contract address");

    let tx = Transaction::new_transfer(a1, a2, 10, 1, 0, 20).unwrap();
    expect_invalid_reason(&tx, "Gas limit cannot be zero");

    let tx = Transaction::new_transfer(a1, a2, 10, 1, 21000, 0).unwrap();
    expect_invalid_reason(&tx, "Gas price cannot be zero");

    let mut tx = Transaction::new_transfer(a1, a2, 10, 1, 21000, 20).unwrap();
    tx.hash[0] = tx.hash[0].wrapping_add(1);
    expect_invalid_reason(&tx, "Transaction hash mismatch");
}

#[test]
fn test_identity_stable_under_status_and_signature() {
    let mut tx = Transaction::new_transfer(dummy_address(1), dummy_address(2), 7, 3, 21000, 20)
        .unwrap();
    let identity = tx.hash;

    tx.update_status(TransactionStatus::Confirmed { block_height: 5, block_hash: [9u8; 32] });
    tx.signature = vec![1, 2, 3];

    assert_eq!(tx.hash, identity);
    assert_eq!(tx.calculate_hash().unwrap(), identity);
}

#[test]
fn test_deploy_and_call_accessors() {
    let a1 = dummy_address(1);
    let a2 = dummy_address(2);

    let deploy = Transaction::new_deploy(a1, vec![1, 2], vec![3], 1, 21000, 20).unwrap();
    assert_eq!(deploy.sender(), a1);
    assert_eq!(deploy.recipient(), None);
    assert_eq!(deploy.amount(), 0);
    assert!(deploy.validate_structure().is_ok());

    let call = Transaction::new_call(a1, a2, vec![4, 5], 99, 1, 21000, 20).unwrap();
    assert_eq!(call.sender(), a1);
    assert_eq!(call.recipient(), Some(a2));
    assert_eq!(call.amount(), 99);
    assert!(call.validate_structure().is_ok());
}

#[test]
fn test_total_fee_saturates() {
    let tx = Transaction::new_transfer(dummy_address(1), dummy_address(2), 10, 1, u64::MAX, 2)
        .unwrap();
    assert_eq!(tx.total_fee(), u64::MAX);
}

#[test]
fn test_clone_preserves_transaction() {
    let tx = Transaction::new_call(dummy_address(1), dummy_address(2), vec![1, 2, 3], 50, 4, 21000, 20)
        .unwrap();
    let copy = tx.clone();
    assert_eq!(copy.hash, tx.hash);
    assert_eq!(copy.nonce, tx.nonce);
    assert_eq!(copy.tx_type, tx.tx_type);
    assert_eq!(copy.status, tx.status);
    assert_eq!(copy.signature, tx.signature);
}
