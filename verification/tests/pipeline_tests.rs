use ledger_core::config::{RetryPolicyConfig, ScyllaConfig};
use ledger_core::peers::PeerStatus;
use ledger_core::pipeline::{
    CommitmentData, RelayerBatch, RelayerStatus, ValidationBatch, ValidationResult,
    ValidationStatus,
};

fn sample_result(is_valid: bool) -> ValidationResult {
    ValidationResult {
        is_valid,
        validated_transactions: vec![[1u8; 32]],
        failed_transactions: Vec::new(),
        gas_estimates: Vec::new(),
        balance_changes: Vec::new(),
        validation_time_ms: 12,
        error_message: None,
    }
}

fn sample_commitment() -> CommitmentData {
    CommitmentData {
        merkle_root: [4u8; 32],
        transaction_count: 1,
        total_gas_used: 21000,
        total_fees: 420000,
        batch_hash: [5u8; 32],
        proof_data: vec![1, 2, 3],
    }
}

#[test]
fn test_validation_batch_happy_path() {
    let mut batch = ValidationBatch::new(vec![[1u8; 32]], "validator-1".to_string());
    assert_eq!(batch.validation_status, ValidationStatus::Pending);
    assert!(batch.started_at.is_none());

    batch.start_processing().unwrap();
    assert_eq!(batch.validation_status, ValidationStatus::Processing);
    assert!(batch.started_at.is_some());

    batch.complete_validation(sample_result(true)).unwrap();
    assert_eq!(batch.validation_status, ValidationStatus::Validated);
    assert!(batch.completed_at.is_some());
    assert!(batch.validation_result.is_some());
}

#[test]
fn test_validation_batch_failure_path() {
    let mut batch = ValidationBatch::new(vec![[1u8; 32]], "validator-1".to_string());
    batch.start_processing().unwrap();
    batch.complete_validation(sample_result(false)).unwrap();
    assert_eq!(batch.validation_status, ValidationStatus::Failed);
}

#[test]
fn test_validation_terminal_states_stay_terminal() {
    let mut batch = ValidationBatch::new(vec![[1u8; 32]], "validator-1".to_string());
    batch.start_processing().unwrap();
    batch.complete_validation(sample_result(true)).unwrap();

    assert!(batch.start_processing().is_err());
    assert!(batch.complete_validation(sample_result(true)).is_err());
    assert!(batch.reject().is_err());
    assert_eq!(batch.validation_status, ValidationStatus::Validated);
}

#[test]
fn test_validation_reject_only_from_pending() {
    let mut batch = ValidationBatch::new(vec![[2u8; 32]], "validator-2".to_string());
    batch.reject().unwrap();
    assert_eq!(batch.validation_status, ValidationStatus::Rejected);
    assert!(batch.start_processing().is_err());

    let mut processing = ValidationBatch::new(vec![[2u8; 32]], "validator-2".to_string());
    processing.start_processing().unwrap();
    assert!(processing.reject().is_err());
    assert_eq!(processing.validation_status, ValidationStatus::Processing);
}

#[test]
fn test_relayer_retry_ceiling() {
    let mut batch = RelayerBatch::new(vec![[3u8; 32]], "relayer-1".to_string());
    assert_eq!(batch.status, RelayerStatus::Queued);
    assert_eq!(batch.retry_count, 0);

    batch.start_processing(5, 2).unwrap();
    assert_eq!(batch.status, RelayerStatus::Processing);
    assert_eq!(batch.target_block_height, Some(5));

    batch.mark_failed().unwrap();
    assert_eq!(batch.retry_count, 1);
    assert!(batch.can_retry(2));

    batch.start_processing(6, 2).unwrap();
    batch.mark_failed().unwrap();
    assert_eq!(batch.retry_count, 2);

    // retry_count == max_retries: never Processing again.
    assert!(!batch.can_retry(2));
    assert!(batch.start_processing(7, 2).is_err());
    assert_eq!(batch.status, RelayerStatus::Failed);
}

#[test]
fn test_relayer_commit_path() {
    let mut batch = RelayerBatch::new(vec![[3u8; 32]], "relayer-1".to_string());
    batch.start_processing(9, 3).unwrap();
    batch.mark_committed(sample_commitment()).unwrap();
    assert_eq!(batch.status, RelayerStatus::Committed);
    assert!(batch.commitment_data.is_some());

    assert!(batch.start_processing(10, 3).is_err());
    assert!(batch.mark_failed().is_err());
    assert!(batch.cancel().is_err());
    assert_eq!(batch.status, RelayerStatus::Committed);
}

#[test]
fn test_relayer_cancel() {
    let mut queued = RelayerBatch::new(vec![[3u8; 32]], "relayer-1".to_string());
    queued.cancel().unwrap();
    assert_eq!(queued.status, RelayerStatus::Cancelled);
    assert!(queued.start_processing(1, 3).is_err());

    let mut processing = RelayerBatch::new(vec![[3u8; 32]], "relayer-1".to_string());
    processing.start_processing(1, 3).unwrap();
    processing.cancel().unwrap();
    assert_eq!(processing.status, RelayerStatus::Cancelled);
}

#[test]
fn test_status_text_round_trips() {
    let validation = [
        ValidationStatus::Pending,
        ValidationStatus::Processing,
        ValidationStatus::Validated,
        ValidationStatus::Failed,
        ValidationStatus::Rejected,
    ];
    for s in validation.iter() {
        let text = s.text();
        assert_eq!(ValidationStatus::from_text(&text).unwrap(), *s);
    }
    assert_eq!(ValidationStatus::from_text("validated").unwrap(), ValidationStatus::Validated);
    assert_eq!(
        ValidationStatus::from_text("bogus").unwrap_err(),
        "Invalid validation status"
    );

    let relayer = [
        RelayerStatus::Queued,
        RelayerStatus::Processing,
        RelayerStatus::Committed,
        RelayerStatus::Failed,
        RelayerStatus::Cancelled,
    ];
    for s in relayer.iter() {
        let text = s.text();
        assert_eq!(RelayerStatus::from_text(&text).unwrap(), *s);
    }
    assert_eq!(RelayerStatus::from_text("nope").unwrap_err(), "Invalid relayer status");

    let peers = [
        PeerStatus::Connected,
        PeerStatus::Disconnected,
        PeerStatus::Banned,
        PeerStatus::Syncing,
    ];
    for s in peers.iter() {
        let text = s.text();
        assert_eq!(PeerStatus::from_text(&text).unwrap(), *s);
    }
    assert_eq!(PeerStatus::from_text("gone").unwrap_err(), "Invalid peer status");
}

#[test]
fn test_status_decode_ignores_case() {
    assert_eq!(ValidationStatus::from_text("PENDING").unwrap(), ValidationStatus::Pending);
    assert_eq!(ValidationStatus::from_text("Processing").unwrap(), ValidationStatus::Processing);
    assert_eq!(ValidationStatus::from_text("vAlIdAtEd").unwrap(), ValidationStatus::Validated);
    assert_eq!(RelayerStatus::from_text("Queued").unwrap(), RelayerStatus::Queued);
    assert_eq!(RelayerStatus::from_text("CANCELLED").unwrap(), RelayerStatus::Cancelled);
    assert_eq!(PeerStatus::from_text("Connected").unwrap(), PeerStatus::Connected);
    assert_eq!(PeerStatus::from_text("SYNCING").unwrap(), PeerStatus::Syncing);
    assert_eq!(
        ValidationStatus::from_text("pend ing").unwrap_err(),
        "Invalid validation status"
    );
}

#[test]
fn test_config_validation() {
    let config = ScyllaConfig::default();
    assert!(config.validate().is_ok());
    assert_eq!(config.retry_policy.max_retries, RetryPolicyConfig::default().max_retries);

    let mut no_nodes = ScyllaConfig::default();
    no_nodes.nodes = Vec::new();
    assert_eq!(
        no_nodes.validate().unwrap_err(),
        "At least one ScyllaDB node must be specified"
    );

    let mut empty_keyspace = ScyllaConfig::default();
    empty_keyspace.keyspace = String::new();
    assert_eq!(empty_keyspace.validate().unwrap_err(), "Keyspace name cannot be empty");

    let mut zero_pool = ScyllaConfig::default();
    zero_pool.pool_size = 0;
    assert_eq!(zero_pool.validate().unwrap_err(), "Pool size must be greater than 0");

    let mut bad_read = ScyllaConfig::default();
    bad_read.read_consistency = "SOMETIMES".to_string();
    assert_eq!(bad_read.validate().unwrap_err(), "Invalid read consistency level");

    let mut bad_write = ScyllaConfig::default();
    bad_write.write_consistency = "NEVER".to_string();
    assert_eq!(bad_write.validate().unwrap_err(), "Invalid write consistency level");
}
