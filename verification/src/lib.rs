//! Integrity core of a content-addressed ledger: canonical encodings and
//! digests, transactions and blocks with their validation rules, merkle
//! roots, a prioritized mempool, and the batch pipelines that move accepted
//! transactions towards external commitment.

pub mod arith;
pub mod block;
pub mod clock;
pub mod config;
pub mod encoding;
pub mod errors;
pub mod hashing;
pub mod mempool;
pub mod peers;
pub mod merkle;
pub mod pipeline;
pub mod text;
pub mod transaction;
