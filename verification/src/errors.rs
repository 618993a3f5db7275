//! The closed error taxonomy of the core: every rejection carries a
//! human-readable reason, and callers can branch on the kind.

use vstd::prelude::*;

verus! {

/// Core ledger errors. Structural invalidity, linkage invalidity and
/// corruption are each reported through a dedicated variant so that a
/// caller can decide to discard, retry or escalate.
#[derive(Debug)]
pub enum BlockchainError {
    /// A block hash that does not denote any stored block.
    InvalidBlockHash([u8; 32]),
    /// A transaction whose structure is malformed; the reason says which
    /// check failed.
    InvalidTransaction { reason: String },
    /// A block whose structure or linkage is invalid.
    BlockValidationFailed { reason: String },
    /// A chain-level consistency failure.
    ChainValidationFailed { reason: String },
    /// A spend that exceeds the available balance.
    InsufficientBalance { have: u64, need: u64 },
    /// A replay-protection nonce that does not match the account state.
    InvalidNonce { expected: u64, actual: u64 },
    /// An attempt to move a pipeline batch backwards or out of turn.
    InvalidStateTransition { reason: String },
    /// A failure reported by the persistence layer.
    StorageError(String),
}

} // verus!
