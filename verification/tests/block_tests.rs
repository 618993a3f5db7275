use ledger_core::block::Block;
use ledger_core::errors::BlockchainError;
use ledger_core::hashing::hash_data;
use ledger_core::merkle::merkle_root;
use ledger_core::transaction::Transaction;

fn dummy_address(byte: u8) -> [u8; 20] {
    [byte; 20]
}

#[test]
fn test_genesis_block() {
    let genesis = Block::genesis().unwrap();
    assert_eq!(genesis.header.height, 0);
    assert_eq!(genesis.header.previous_hash, [0u8; 32]);
    assert_eq!(genesis.transaction_count, 0);
    assert!(genesis.validate().is_ok());
}

#[test]
fn test_block_with_transactions() {
    let tx1 = Transaction::new_transfer(dummy_address(1), dummy_address(2), 1000, 1, 21000, 20)
        .unwrap();

    let tx2 = Transaction::new_transfer(dummy_address(3), dummy_address(4), 2000, 1, 21000, 20)
        .unwrap();

    let transactions = vec![tx1, tx2];
    let block = Block::new(1, [1u8; 32], transactions, 1000).unwrap();

    assert_eq!(block.header.height, 1);
    assert_eq!(block.transaction_count, 2);
    assert_eq!(block.total_transaction_value(), 3000);
    assert!(block.validate().is_ok());
}

#[test]
fn test_block_chain_validation() {
    let genesis = Block::genesis().unwrap();

    let tx = Transaction::new_transfer(dummy_address(1), dummy_address(2), 1000, 1, 21000, 20)
        .unwrap();

    let block2 = Block::new(1, genesis.hash, vec![tx], 1000).unwrap();

    assert!(block2.can_follow(&genesis).is_ok());
}

#[test]
fn test_merkle_root_calculation() {
    let tx1 = Transaction::new_transfer(dummy_address(1), dummy_address(2), 1000, 1, 21000, 20)
        .unwrap();

    let transactions = vec![tx1];
    let root = Block::calculate_merkle_root(&transactions).unwrap();

    // Merkle root of single transaction should equal transaction hash
    assert_eq!(root, transactions[0].hash);
}

#[test]
fn test_empty_merkle_root() {
    let root = Block::calculate_merkle_root(&[]).unwrap();
    assert_eq!(root, [0u8; 32]);
}

#[test]
fn test_merkle_root_three_leaves_pads_by_duplication() {
    let l0 = [1u8; 32];
    let l1 = [2u8; 32];
    let l2 = [3u8; 32];

    let mut d01 = Vec::new();
    d01.extend_from_slice(&l0);
    d01.extend_from_slice(&l1);
    let h01 = hash_data(&d01);

    let mut d22 = Vec::new();
    d22.extend_from_slice(&l2);
    d22.extend_from_slice(&l2);
    let h22 = hash_data(&d22);

    let mut top = Vec::new();
    top.extend_from_slice(&h01);
    top.extend_from_slice(&h22);
    let expected = hash_data(&top);

    assert_eq!(merkle_root(vec![l0, l1, l2]), expected);
}

fn expect_follow_reason(block: &Block, previous: &Block, expected: &str) {
    match block.can_follow(previous) {
        Err(BlockchainError::BlockValidationFailed { reason }) => assert_eq!(reason, expected),
        other => panic!("expected BlockValidationFailed, got {:?}", other),
    }
}

#[test]
fn test_can_follow_violations() {
    let genesis = Block::genesis().unwrap();

    let wrong_height = Block::new(2, genesis.hash, Vec::new(), 1).unwrap();
    expect_follow_reason(&wrong_height, &genesis, "Invalid height");

    let wrong_link = Block::new(1, [7u8; 32], Vec::new(), 1).unwrap();
    expect_follow_reason(&wrong_link, &genesis, "Previous hash mismatch");

    let early = Block::new(1, [0u8; 32], Vec::new(), 1).unwrap();
    let late_predecessor = Block::new(0, [0u8; 32], Vec::new(), 1).unwrap();
    let mut linked = early;
    linked.header.previous_hash = late_predecessor.hash;
    linked.hash = linked.calculate_hash().unwrap();
    expect_follow_reason(&linked, &late_predecessor, "Block timestamp must be after previous block");
}

#[test]
fn test_block_validation_detects_tampering() {
    let tx = Transaction::new_transfer(dummy_address(1), dummy_address(2), 5, 1, 21000, 20)
        .unwrap();
    let mut block = Block::new(1, [1u8; 32], vec![tx], 1).unwrap();

    block.header.nonce = block.header.nonce.wrapping_add(1);
    match block.validate() {
        Err(BlockchainError::BlockValidationFailed { reason }) => {
            assert_eq!(reason, "Block hash mismatch")
        }
        other => panic!("expected BlockValidationFailed, got {:?}", other),
    }

    block.hash = block.calculate_hash().unwrap();
    block.header.merkle_root[0] = block.header.merkle_root[0].wrapping_add(1);
    block.hash = block.calculate_hash().unwrap();
    match block.validate() {
        Err(BlockchainError::BlockValidationFailed { reason }) => {
            assert_eq!(reason, "Merkle root mismatch")
        }
        other => panic!("expected BlockValidationFailed, got {:?}", other),
    }
}

#[test]
fn test_block_validation_reports_invalid_transaction() {
    let good = Transaction::new_transfer(dummy_address(1), dummy_address(2), 5, 1, 21000, 20)
        .unwrap();
    let bad = Transaction::new_transfer(dummy_address(3), dummy_address(3), 5, 1, 21000, 20)
        .unwrap();
    let block = Block::new(1, [1u8; 32], vec![good, bad], 1).unwrap();

    match block.validate() {
        Err(BlockchainError::InvalidTransaction { reason }) => {
            assert_eq!(reason, "Cannot transfer to self")
        }
        other => panic!("expected InvalidTransaction, got {:?}", other),
    }
}

#[test]
fn test_set_nonce_recomputes_hash() {
    let mut block = Block::genesis().unwrap();
    block.set_nonce(42).unwrap();
    assert_eq!(block.header.nonce, 42);
    assert_eq!(block.hash, block.calculate_hash().unwrap());
    assert!(block.validate().is_ok());
}

#[test]
fn test_lookup_and_totals() {
    let tx1 = Transaction::new_transfer(dummy_address(1), dummy_address(2), 100, 1, 10, 3).unwrap();
    let tx2 = Transaction::new_transfer(dummy_address(3), dummy_address(4), 200, 1, 10, 4).unwrap();
    let h1 = tx1.hash;
    let h2 = tx2.hash;
    let block = Block::new(1, [1u8; 32], vec![tx1, tx2], 1).unwrap();

    assert!(block.contains_transaction(&h1));
    assert!(block.contains_transaction(&h2));
    assert!(!block.contains_transaction(&[0u8; 32]));
    assert_eq!(block.get_transaction(&h2).unwrap().hash, h2);
    assert!(block.get_transaction(&[0u8; 32]).is_none());

    assert_eq!(block.total_transaction_value(), 300);
    assert_eq!(block.total_fees(), 70);
}

#[test]
fn test_chain_scenario_two_transfers() {
    let genesis = Block::genesis().unwrap();
    assert!(genesis.validate().is_ok());

    let tx1 = Transaction::new_transfer(dummy_address(1), dummy_address(2), 1000, 1, 21000, 20)
        .unwrap();
    let tx2 = Transaction::new_transfer(dummy_address(3), dummy_address(4), 2000, 1, 21000, 20)
        .unwrap();
    let block = Block::new(1, genesis.hash, vec![tx1, tx2], 1000).unwrap();

    assert_eq!(block.total_transaction_value(), 3000);
    assert!(block.validate().is_ok());
    assert!(block.can_follow(&genesis).is_ok());
}

#[test]
fn test_total_value_saturates() {
    let tx1 = Transaction::new_transfer(dummy_address(1), dummy_address(2), u64::MAX, 1, 10, 3)
        .unwrap();
    let tx2 = Transaction::new_transfer(dummy_address(3), dummy_address(4), 5, 1, 10, 3).unwrap();
    let block = Block::new(1, [1u8; 32], vec![tx1, tx2], 1).unwrap();
    assert_eq!(block.total_transaction_value(), u64::MAX);
}
