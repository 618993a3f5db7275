use ledger_core::hashing::{hash_data, validate_address};

#[test]
fn test_hash_data() {
    let data = b"hello world";
    let hash1 = hash_data(data);
    let hash2 = hash_data(data);
    assert_eq!(hash1, hash2);

    let different_data = b"hello world!";
    let hash3 = hash_data(different_data);
    assert_ne!(hash1, hash3);
}

#[test]
fn test_validate_address() {
    let zero_address = [0u8; 20];
    assert!(!validate_address(&zero_address));

    let mut valid_address = [0u8; 20];
    valid_address[0] = 1;
    assert!(validate_address(&valid_address));
}

#[test]
fn test_hash_is_32_bytes_and_stable_across_calls() {
    let empty: &[u8] = &[];
    let h = hash_data(empty);
    assert_eq!(h.len(), 32);
    assert_eq!(h, hash_data(empty));
    assert_ne!(hash_data(b"a"), hash_data(b"b"));
}
