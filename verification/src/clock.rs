//! The wall clock, behind a trusted boundary. Nothing in the core depends
//! on the value read here being anything in particular: every contract that
//! involves the current time states what holds of any reading.

use vstd::prelude::*;

verus! {

/// Relies on `chrono::Utc::now` for the current wall-clock instant, reduced
/// to nanoseconds since the Unix epoch. The value is not assumed to relate
/// to any earlier or later reading. `Utc::now` itself panics on a host
/// whose clock reads before the Unix epoch; no value of the library can
/// trigger that, and nothing proved here depends on it.
#[verifier::external_body]
pub fn now_nanos() -> i64 {
    chrono::Utc::now().timestamp_nanos_opt().unwrap_or(i64::MAX)
}

} // verus!
