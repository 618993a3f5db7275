//! Saturating fee arithmetic. Fee products and fee sums saturate at the
//! largest 64-bit value instead of wrapping: a documented policy choice so
//! that oversized fees are clamped, never silently reduced by wraparound.

use vstd::prelude::*;

verus! {

/// Product of two 64-bit values, clamped to `u64::MAX`.
pub open spec fn sat_mul_u64(a: u64, b: u64) -> u64 {
    if a * b > u64::MAX {
        u64::MAX
    } else {
        (a * b) as u64
    }
}

/// Sum of two 64-bit values, clamped to `u64::MAX`.
pub open spec fn sat_add_u64(a: u64, b: u64) -> u64 {
    if a + b > u64::MAX {
        u64::MAX
    } else {
        (a + b) as u64
    }
}

/// Sum of two 64-bit signed values, clamped to the representable range.
pub open spec fn sat_add_i64(a: i64, b: i64) -> i64 {
    if a + b > i64::MAX {
        i64::MAX
    } else if a + b < i64::MIN {
        i64::MIN
    } else {
        (a + b) as i64
    }
}

/// An unbounded integer clamped into the 64-bit unsigned range.
pub open spec fn clamp_u64(x: int) -> u64 {
    if x > u64::MAX {
        u64::MAX
    } else if x < 0 {
        0
    } else {
        x as u64
    }
}

/// Saturating addition of clamped values agrees with clamping the exact
/// sum, for non-negative addends.
pub proof fn lemma_sat_add_clamp(x: int, y: int)
    requires
        x >= 0,
        y >= 0,
    ensures
        sat_add_u64(clamp_u64(x), clamp_u64(y)) == clamp_u64(x + y),
{
}

/// Saturating multiplication.
pub fn saturating_mul_u64(a: u64, b: u64) -> (r: u64)
    ensures
        r == sat_mul_u64(a, b),
{
    match a.checked_mul(b) {
        Some(v) => v,
        None => u64::MAX,
    }
}

/// Saturating addition.
pub fn saturating_add_u64(a: u64, b: u64) -> (r: u64)
    ensures
        r == sat_add_u64(a, b),
{
    match a.checked_add(b) {
        Some(v) => v,
        None => u64::MAX,
    }
}

/// Saturating addition of 64-bit signed values.
pub fn saturating_add_i64(a: i64, b: i64) -> (r: i64)
    ensures
        r == sat_add_i64(a, b),
{
    match a.checked_add(b) {
        Some(v) => v,
        None => {
            if b >= 0 {
                i64::MAX
            } else {
                i64::MIN
            }
        }
    }
}

} // verus!
