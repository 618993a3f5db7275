//! The staged pipelines behind the chain head: batches of transaction
//! hashes move through validation (pending → processing → validated or
//! failed, rejected only before processing) and relayed commitment
//! (queued → processing → committed or failed, with bounded retry and an
//! administrative cancel). Every transition checks legality against the
//! state machine: an illegal move is refused, never applied.

use vstd::prelude::*;

use crate::errors::BlockchainError;
use crate::text::{eq_ignore_ascii_case, str_eq_ignore_ascii_case};

verus! {

/// Relies on `uuid::Uuid::new_v4` for a fresh random identifier; nothing
/// is assumed of the value returned.
#[verifier::external_body]
fn fresh_id() -> u128 {
    uuid::Uuid::new_v4().as_u128()
}

/// Status of a validation batch.
#[derive(Debug, Clone, Copy, PartialEq, Eq, Structural)]
pub enum ValidationStatus {
    Pending,
    Processing,
    Validated,
    Failed,
    Rejected,
}

/// A validation status from which no further transition is allowed.
pub open spec fn validation_terminal(s: ValidationStatus) -> bool {
    s is Validated || s is Failed || s is Rejected
}

/// The forward-only transition relation of the validation state machine:
/// Pending → Processing, Pending → Rejected, Processing → Validated,
/// Processing → Failed, and nothing else.
pub open spec fn validation_step_allowed(a: ValidationStatus, b: ValidationStatus) -> bool {
    ||| (a is Pending && b is Processing)
    ||| (a is Pending && b is Rejected)
    ||| (a is Processing && b is Validated)
    ||| (a is Processing && b is Failed)
}

/// No sequence of operations can leave a terminal validation status:
/// Validated, Failed and Rejected admit no further step.
pub proof fn lemma_validation_terminal_no_step(a: ValidationStatus, b: ValidationStatus)
    requires
        validation_terminal(a),
    ensures
        !validation_step_allowed(a, b),
{
}

impl ValidationStatus {
    /// The canonical storage-boundary text of this status.
    pub open spec fn spec_text(self) -> Seq<char> {
        match self {
            ValidationStatus::Pending => "pending"@,
            ValidationStatus::Processing => "processing"@,
            ValidationStatus::Validated => "validated"@,
            ValidationStatus::Failed => "failed"@,
            ValidationStatus::Rejected => "rejected"@,
        }
    }

    /// Encode the status as its canonical text.
    pub fn text(&self) -> (r: String)
        ensures
            r@ == self.spec_text(),
    {
        match self {
            ValidationStatus::Pending => String::from_str("pending"),
            ValidationStatus::Processing => String::from_str("processing"),
            ValidationStatus::Validated => String::from_str("validated"),
            ValidationStatus::Failed => String::from_str("failed"),
            ValidationStatus::Rejected => String::from_str("rejected"),
        }
    }

    /// Decode a status from its text, matched up to ASCII case as the
    /// storage boundary decodes; any unrecognized text is the defined
    /// fallback error.
    pub fn from_text(s: &str) -> (r: Result<ValidationStatus, String>)
        ensures
            r matches Ok(v) ==> eq_ignore_ascii_case(s@, v.spec_text()),
            r matches Err(m) ==> m@ == "Invalid validation status"@ && forall|v: ValidationStatus|
                !eq_ignore_ascii_case(s@, #[trigger] v.spec_text()),
    {
        if str_eq_ignore_ascii_case(s, "pending") {
            Ok(ValidationStatus::Pending)
        } else if str_eq_ignore_ascii_case(s, "processing") {
            Ok(ValidationStatus::Processing)
        } else if str_eq_ignore_ascii_case(s, "validated") {
            Ok(ValidationStatus::Validated)
        } else if str_eq_ignore_ascii_case(s, "failed") {
            Ok(ValidationStatus::Failed)
        } else if str_eq_ignore_ascii_case(s, "rejected") {
            Ok(ValidationStatus::Rejected)
        } else {
            proof {
                assert forall|v: ValidationStatus| !eq_ignore_ascii_case(
                    s@,
                    #[trigger] v.spec_text(),
                ) by {
                    assert(v is Pending || v is Processing || v is Validated || v is Failed
                        || v is Rejected);
                }
            }
            Err(String::from_str("Invalid validation status"))
        }
    }
}

/// Per-transaction detail of a failed validation.
#[derive(Debug)]
pub struct FailedTransaction {
    pub tx_hash: [u8; 32],
    pub error_code: String,
    pub error_message: String,
    pub suggested_gas_limit: Option<u64>,
}

/// Gas estimation for a transaction.
#[derive(Debug)]
pub struct GasEstimate {
    pub tx_hash: [u8; 32],
    pub estimated_gas: u64,
    pub gas_price_suggestion: u64,
    pub execution_time_estimate_ms: u64,
}

/// Balance delta recorded for an address so the caller can apply the
/// outcome atomically.
#[derive(Debug)]
pub struct BalanceChange {
    pub address: [u8; 20],
    pub old_balance: u64,
    pub new_balance: u64,
    pub old_nonce: u64,
    pub new_nonce: u64,
}

/// Structured outcome of validating a batch.
#[derive(Debug)]
pub struct ValidationResult {
    pub is_valid: bool,
    pub validated_transactions: Vec<[u8; 32]>,
    pub failed_transactions: Vec<FailedTransaction>,
    pub gas_estimates: Vec<GasEstimate>,
    pub balance_changes: Vec<BalanceChange>,
    pub validation_time_ms: u64,
    pub error_message: Option<String>,
}

/// A set of transaction hashes submitted together for validation. The
/// batch references transactions by hash only, never by embedding them.
#[derive(Debug)]
pub struct ValidationBatch {
    pub queue_id: u128,
    pub batch_timestamp: i64,
    pub tx_hashes: Vec<[u8; 32]>,
    pub validation_status: ValidationStatus,
    pub validator_id: String,
    pub started_at: Option<i64>,
    pub completed_at: Option<i64>,
    pub validation_result: Option<ValidationResult>,
}

impl ValidationBatch {
    /// Form a new batch: status Pending, no timestamps, no result.
    pub fn new(tx_hashes: Vec<[u8; 32]>, validator_id: String) -> (r: ValidationBatch)
        ensures
            r.tx_hashes == tx_hashes,
            r.validator_id == validator_id,
            r.validation_status is Pending,
            r.started_at is None,
            r.completed_at is None,
            r.validation_result is None,
    {
        ValidationBatch {
            queue_id: fresh_id(),
            batch_timestamp: crate::clock::now_nanos(),
            tx_hashes,
            validation_status: ValidationStatus::Pending,
            validator_id,
            started_at: None,
            completed_at: None,
            validation_result: None,
        }
    }

    /// Claim the batch for processing. Legal only from Pending; the claim
    /// records the start time and changes nothing else. An illegal claim
    /// is refused and leaves the batch untouched.
    pub fn start_processing(&mut self) -> (r: Result<(), BlockchainError>)
        ensures
            r is Ok <==> old(self).validation_status is Pending,
            old(self).validation_status is Pending ==> {
                &&& final(self).validation_status is Processing
                &&& final(self).started_at is Some
                &&& final(self).queue_id == old(self).queue_id
                &&& final(self).batch_timestamp == old(self).batch_timestamp
                &&& final(self).tx_hashes == old(self).tx_hashes
                &&& final(self).validator_id == old(self).validator_id
                &&& final(self).completed_at == old(self).completed_at
                &&& final(self).validation_result == old(self).validation_result
            },
            !(old(self).validation_status is Pending) ==> {
                &&& *final(self) == *old(self)
                &&& r matches Err(e) && e matches BlockchainError::InvalidStateTransition { reason }
                    && reason@ == "Validation batch is not pending"@
            },
            validation_step_allowed(old(self).validation_status, final(self).validation_status)
                || final(self).validation_status == old(self).validation_status,
    {
        if self.validation_status == ValidationStatus::Pending {
            self.validation_status = ValidationStatus::Processing;
            self.started_at = Some(crate::clock::now_nanos());
            Ok(())
        } else {
            Err(BlockchainError::InvalidStateTransition {
                reason: String::from_str("Validation batch is not pending"),
            })
        }
    }

    /// Record the outcome of validation. Legal only from Processing; the
    /// batch becomes Validated when the result is valid and Failed when it
    /// is not, the completion time is stamped and the structured result
    /// stored. An illegal completion is refused and leaves the batch
    /// untouched.
    pub fn complete_validation(&mut self, result: ValidationResult) -> (r: Result<
        (),
        BlockchainError,
    >)
        ensures
            r is Ok <==> old(self).validation_status is Processing,
            old(self).validation_status is Processing ==> {
                &&& result.is_valid ==> final(self).validation_status is Validated
                &&& !result.is_valid ==> final(self).validation_status is Failed
                &&& final(self).completed_at is Some
                &&& final(self).validation_result == Some(result)
                &&& final(self).queue_id == old(self).queue_id
                &&& final(self).batch_timestamp == old(self).batch_timestamp
                &&& final(self).tx_hashes == old(self).tx_hashes
                &&& final(self).validator_id == old(self).validator_id
                &&& final(self).started_at == old(self).started_at
            },
            !(old(self).validation_status is Processing) ==> {
                &&& *final(self) == *old(self)
                &&& r matches Err(e) && e matches BlockchainError::InvalidStateTransition { reason }
                    && reason@ == "Validation batch is not processing"@
            },
            validation_step_allowed(old(self).validation_status, final(self).validation_status)
                || final(self).validation_status == old(self).validation_status,
    {
        if self.validation_status == ValidationStatus::Processing {
            self.validation_status = if result.is_valid {
                ValidationStatus::Validated
            } else {
                ValidationStatus::Failed
            };
            self.completed_at = Some(crate::clock::now_nanos());
            self.validation_result = Some(result);
            Ok(())
        } else {
            Err(BlockchainError::InvalidStateTransition {
                reason: String::from_str("Validation batch is not processing"),
            })
        }
    }

    /// Discard the batch before processing begins. Legal only from
    /// Pending — Rejected is reachable from no other status. An illegal
    /// rejection is refused and leaves the batch untouched.
    pub fn reject(&mut self) -> (r: Result<(), BlockchainError>)
        ensures
            r is Ok <==> old(self).validation_status is Pending,
            old(self).validation_status is Pending ==> {
                &&& final(self).validation_status is Rejected
                &&& final(self).queue_id == old(self).queue_id
                &&& final(self).batch_timestamp == old(self).batch_timestamp
                &&& final(self).tx_hashes == old(self).tx_hashes
                &&& final(self).validator_id == old(self).validator_id
                &&& final(self).started_at == old(self).started_at
                &&& final(self).completed_at == old(self).completed_at
                &&& final(self).validation_result == old(self).validation_result
            },
            !(old(self).validation_status is Pending) ==> {
                &&& *final(self) == *old(self)
                &&& r matches Err(e) && e matches BlockchainError::InvalidStateTransition { reason }
                    && reason@ == "Validation batch is not pending"@
            },
            validation_step_allowed(old(self).validation_status, final(self).validation_status)
                || final(self).validation_status == old(self).validation_status,
    {
        if self.validation_status == ValidationStatus::Pending {
            self.validation_status = ValidationStatus::Rejected;
            Ok(())
        } else {
            Err(BlockchainError::InvalidStateTransition {
                reason: String::from_str("Validation batch is not pending"),
            })
        }
    }
}

/// Status of a relayer commitment batch.
#[derive(Debug, Clone, Copy, PartialEq, Eq, Structural)]
pub enum RelayerStatus {
    Queued,
    Processing,
    Committed,
    Failed,
    Cancelled,
}

impl RelayerStatus {
    /// The canonical storage-boundary text of this status.
    pub open spec fn spec_text(self) -> Seq<char> {
        match self {
            RelayerStatus::Queued => "queued"@,
            RelayerStatus::Processing => "processing"@,
            RelayerStatus::Committed => "committed"@,
            RelayerStatus::Failed => "failed"@,
            RelayerStatus::Cancelled => "cancelled"@,
        }
    }

    /// Encode the status as its canonical text.
    pub fn text(&self) -> (r: String)
        ensures
            r@ == self.spec_text(),
    {
        match self {
            RelayerStatus::Queued => String::from_str("queued"),
            RelayerStatus::Processing => String::from_str("processing"),
            RelayerStatus::Committed => String::from_str("committed"),
            RelayerStatus::Failed => String::from_str("failed"),
            RelayerStatus::Cancelled => String::from_str("cancelled"),
        }
    }

    /// Decode a status from its text, matched up to ASCII case as the
    /// storage boundary decodes; any unrecognized text is the defined
    /// fallback error.
    pub fn from_text(s: &str) -> (r: Result<RelayerStatus, String>)
        ensures
            r matches Ok(v) ==> eq_ignore_ascii_case(s@, v.spec_text()),
            r matches Err(m) ==> m@ == "Invalid relayer status"@ && forall|v: RelayerStatus|
                !eq_ignore_ascii_case(s@, #[trigger] v.spec_text()),
    {
        if str_eq_ignore_ascii_case(s, "queued") {
            Ok(RelayerStatus::Queued)
        } else if str_eq_ignore_ascii_case(s, "processing") {
            Ok(RelayerStatus::Processing)
        } else if str_eq_ignore_ascii_case(s, "committed") {
            Ok(RelayerStatus::Committed)
        } else if str_eq_ignore_ascii_case(s, "failed") {
            Ok(RelayerStatus::Failed)
        } else if str_eq_ignore_ascii_case(s, "cancelled") {
            Ok(RelayerStatus::Cancelled)
        } else {
            proof {
                assert forall|v: RelayerStatus| !eq_ignore_ascii_case(
                    s@,
                    #[trigger] v.spec_text(),
                ) by {
                    assert(v is Queued || v is Processing || v is Committed || v is Failed
                        || v is Cancelled);
                }
            }
            Err(String::from_str("Invalid relayer status"))
        }
    }
}

/// Commitment data recorded when a batch is committed externally.
#[derive(Debug)]
pub struct CommitmentData {
    pub merkle_root: [u8; 32],
    pub transaction_count: u32,
    pub total_gas_used: u64,
    pub total_fees: u64,
    pub batch_hash: [u8; 32],
    pub proof_data: Vec<u8>,
}

/// A set of transaction hashes submitted for external commitment, with
/// bounded retry.
#[derive(Debug)]
pub struct RelayerBatch {
    pub commitment_id: u128,
    pub batch_timestamp: i64,
    pub tx_hashes: Vec<[u8; 32]>,
    pub status: RelayerStatus,
    pub relayer_id: String,
    pub retry_count: u32,
    pub last_attempt: Option<i64>,
    pub target_block_height: Option<u64>,
    pub commitment_data: Option<CommitmentData>,
}

/// Whether a batch may be retried under the given ceiling: it has failed
/// and has attempts left.
pub open spec fn spec_can_retry(b: RelayerBatch, max_retries: u32) -> bool {
    b.retry_count < max_retries && b.status is Failed
}

/// Whether a batch may enter processing under the given ceiling: it is
/// queued, or it failed with attempts left.
pub open spec fn relayer_can_start(b: RelayerBatch, max_retries: u32) -> bool {
    b.status is Queued || spec_can_retry(b, max_retries)
}

/// Retry ceiling: a batch whose retry count has reached the ceiling can
/// never retry, and once Failed can never enter processing again.
pub proof fn lemma_retry_ceiling(b: RelayerBatch, max_retries: u32)
    requires
        b.retry_count >= max_retries,
    ensures
        !spec_can_retry(b, max_retries),
        b.status is Failed ==> !relayer_can_start(b, max_retries),
{
}

/// The transition relation of the relayer state machine: Queued →
/// Processing, Processing → Committed, Processing → Failed, Failed →
/// Processing (under the retry ceiling, checked at the call), and Queued
/// or Processing → Cancelled. Committed and Cancelled admit no step.
pub open spec fn relayer_step_allowed(a: RelayerStatus, b: RelayerStatus) -> bool {
    ||| (a is Queued && b is Processing)
    ||| (a is Processing && b is Committed)
    ||| (a is Processing && b is Failed)
    ||| (a is Failed && b is Processing)
    ||| (a is Queued && b is Cancelled)
    ||| (a is Processing && b is Cancelled)
}

/// Committed and Cancelled are terminal for the relayer state machine.
pub proof fn lemma_relayer_terminal_no_step(a: RelayerStatus, b: RelayerStatus)
    requires
        a is Committed || a is Cancelled,
    ensures
        !relayer_step_allowed(a, b),
{
}

impl RelayerBatch {
    /// Form a new commitment batch: status Queued, no attempts yet.
    pub fn new(tx_hashes: Vec<[u8; 32]>, relayer_id: String) -> (r: RelayerBatch)
        ensures
            r.tx_hashes == tx_hashes,
            r.relayer_id == relayer_id,
            r.status is Queued,
            r.retry_count == 0,
            r.last_attempt is None,
            r.target_block_height is None,
            r.commitment_data is None,
    {
        RelayerBatch {
            commitment_id: fresh_id(),
            batch_timestamp: crate::clock::now_nanos(),
            tx_hashes,
            status: RelayerStatus::Queued,
            relayer_id,
            retry_count: 0,
            last_attempt: None,
            target_block_height: None,
            commitment_data: None,
        }
    }

    /// Begin a commitment attempt: stamps the attempt time and the target
    /// height. Legal from Queued, or from Failed while the retry count is
    /// under the ceiling; any other start is refused and leaves the batch
    /// untouched — in particular, a batch whose retries are exhausted
    /// never becomes Processing again.
    pub fn start_processing(&mut self, target_block_height: u64, max_retries: u32) -> (r: Result<
        (),
        BlockchainError,
    >)
        ensures
            r is Ok <==> relayer_can_start(*old(self), max_retries),
            relayer_can_start(*old(self), max_retries) ==> {
                &&& final(self).status is Processing
                &&& final(self).last_attempt is Some
                &&& final(self).target_block_height == Some(target_block_height)
                &&& final(self).commitment_id == old(self).commitment_id
                &&& final(self).batch_timestamp == old(self).batch_timestamp
                &&& final(self).tx_hashes == old(self).tx_hashes
                &&& final(self).relayer_id == old(self).relayer_id
                &&& final(self).retry_count == old(self).retry_count
                &&& final(self).commitment_data == old(self).commitment_data
            },
            !relayer_can_start(*old(self), max_retries) ==> {
                &&& *final(self) == *old(self)
                &&& r matches Err(e) && e matches BlockchainError::InvalidStateTransition { reason }
                    && reason@ == "Relayer batch cannot start processing"@
            },
            relayer_step_allowed(old(self).status, final(self).status) || final(self).status == old(
                self,
            ).status,
    {
        let may_start = self.status == RelayerStatus::Queued || (self.status
            == RelayerStatus::Failed && self.retry_count < max_retries);
        if may_start {
            self.status = RelayerStatus::Processing;
            self.last_attempt = Some(crate::clock::now_nanos());
            self.target_block_height = Some(target_block_height);
            Ok(())
        } else {
            Err(BlockchainError::InvalidStateTransition {
                reason: String::from_str("Relayer batch cannot start processing"),
            })
        }
    }

    /// Record a successful external commitment. Legal only from
    /// Processing; the batch becomes Committed and keeps the recorded
    /// commitment data. An illegal call is refused and leaves the batch
    /// untouched.
    pub fn mark_committed(&mut self, commitment_data: CommitmentData) -> (r: Result<
        (),
        BlockchainError,
    >)
        ensures
            r is Ok <==> old(self).status is Processing,
            old(self).status is Processing ==> {
                &&& final(self).status is Committed
                &&& final(self).commitment_data == Some(commitment_data)
                &&& final(self).commitment_id == old(self).commitment_id
                &&& final(self).batch_timestamp == old(self).batch_timestamp
                &&& final(self).tx_hashes == old(self).tx_hashes
                &&& final(self).relayer_id == old(self).relayer_id
                &&& final(self).retry_count == old(self).retry_count
                &&& final(self).last_attempt == old(self).last_attempt
                &&& final(self).target_block_height == old(self).target_block_height
            },
            !(old(self).status is Processing) ==> {
                &&& *final(self) == *old(self)
                &&& r matches Err(e) && e matches BlockchainError::InvalidStateTransition { reason }
                    && reason@ == "Relayer batch is not processing"@
            },
            relayer_step_allowed(old(self).status, final(self).status) || final(self).status == old(
                self,
            ).status,
    {
        if self.status == RelayerStatus::Processing {
            self.status = RelayerStatus::Committed;
            self.commitment_data = Some(commitment_data);
            Ok(())
        } else {
            Err(BlockchainError::InvalidStateTransition {
                reason: String::from_str("Relayer batch is not processing"),
            })
        }
    }

    /// Record a failed commitment attempt: the retry count rises by one
    /// (clamped at its type's maximum) and the attempt time is stamped.
    /// Legal only from Processing; an illegal call is refused and leaves
    /// the batch untouched.
    pub fn mark_failed(&mut self) -> (r: Result<(), BlockchainError>)
        ensures
            r is Ok <==> old(self).status is Processing,
            old(self).status is Processing ==> {
                &&& final(self).status is Failed
                &&& final(self).retry_count == (if old(self).retry_count == u32::MAX {
                    u32::MAX as int
                } else {
                    old(self).retry_count + 1
                })
                &&& final(self).last_attempt is Some
                &&& final(self).commitment_id == old(self).commitment_id
                &&& final(self).batch_timestamp == old(self).batch_timestamp
                &&& final(self).tx_hashes == old(self).tx_hashes
                &&& final(self).relayer_id == old(self).relayer_id
                &&& final(self).target_block_height == old(self).target_block_height
                &&& final(self).commitment_data == old(self).commitment_data
            },
            !(old(self).status is Processing) ==> {
                &&& *final(self) == *old(self)
                &&& r matches Err(e) && e matches BlockchainError::InvalidStateTransition { reason }
                    && reason@ == "Relayer batch is not processing"@
            },
            relayer_step_allowed(old(self).status, final(self).status) || final(self).status == old(
                self,
            ).status,
    {
        if self.status == RelayerStatus::Processing {
            self.status = RelayerStatus::Failed;
            self.retry_count = if self.retry_count == u32::MAX {
                u32::MAX
            } else {
                self.retry_count + 1
            };
            self.last_attempt = Some(crate::clock::now_nanos());
            Ok(())
        } else {
            Err(BlockchainError::InvalidStateTransition {
                reason: String::from_str("Relayer batch is not processing"),
            })
        }
    }

    /// Abandon the batch administratively, outside the retry loop. Legal
    /// from Queued or Processing; a terminal batch is left untouched.
    pub fn cancel(&mut self) -> (r: Result<(), BlockchainError>)
        ensures
            r is Ok <==> (old(self).status is Queued || old(self).status is Processing),
            (old(self).status is Queued || old(self).status is Processing) ==> {
                &&& final(self).status is Cancelled
                &&& final(self).commitment_id == old(self).commitment_id
                &&& final(self).batch_timestamp == old(self).batch_timestamp
                &&& final(self).tx_hashes == old(self).tx_hashes
                &&& final(self).relayer_id == old(self).relayer_id
                &&& final(self).retry_count == old(self).retry_count
                &&& final(self).last_attempt == old(self).last_attempt
                &&& final(self).target_block_height == old(self).target_block_height
                &&& final(self).commitment_data == old(self).commitment_data
            },
            !(old(self).status is Queued || old(self).status is Processing) ==> {
                &&& *final(self) == *old(self)
                &&& r matches Err(e) && e matches BlockchainError::InvalidStateTransition { reason }
                    && reason@ == "Relayer batch is already terminal"@
            },
            relayer_step_allowed(old(self).status, final(self).status) || final(self).status == old(
                self,
            ).status,
    {
        if self.status == RelayerStatus::Queued || self.status == RelayerStatus::Processing {
            self.status = RelayerStatus::Cancelled;
            Ok(())
        } else {
            Err(BlockchainError::InvalidStateTransition {
                reason: String::from_str("Relayer batch is already terminal"),
            })
        }
    }

    /// Whether another attempt is allowed: the batch has failed and its
    /// retry count is under the given ceiling.
    pub fn can_retry(&self, max_retries: u32) -> (r: bool)
        ensures
            r == spec_can_retry(*self, max_retries),
    {
        self.retry_count < max_retries && self.status == RelayerStatus::Failed
    }
}

} // verus!
