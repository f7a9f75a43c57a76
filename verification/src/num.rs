//! Saturating arithmetic helpers used by the nonce partitioning and the
//! on-chain timestamp computations.
use vstd::prelude::*;

verus! {

/// Saturating product of two 64-bit values.
pub open spec fn spec_sat_mul_u64(x: u64, y: u64) -> u64 {
    if x * y > u64::MAX {
        u64::MAX
    } else {
        (x * y) as u64
    }
}

#[verifier::when_used_as_spec(spec_sat_mul_u64)]
pub fn sat_mul_u64(x: u64, y: u64) -> (r: u64)
    ensures
        r == spec_sat_mul_u64(x, y),
{
    match x.checked_mul(y) {
        Some(v) => v,
        None => u64::MAX,
    }
}

/// Saturating sum of two signed 64-bit values.
pub open spec fn spec_sat_add_i64(x: i64, y: i64) -> i64 {
    if x + y > i64::MAX {
        i64::MAX
    } else if x + y < i64::MIN {
        i64::MIN
    } else {
        (x + y) as i64
    }
}

#[verifier::when_used_as_spec(spec_sat_add_i64)]
pub fn sat_add_i64(x: i64, y: i64) -> (r: i64)
    ensures
        r == spec_sat_add_i64(x, y),
{
    match x.checked_add(y) {
        Some(v) => v,
        None => if y > 0 {
            i64::MAX
        } else {
            i64::MIN
        },
    }
}

/// Saturating difference of two signed 64-bit values.
pub open spec fn spec_sat_sub_i64(x: i64, y: i64) -> i64 {
    if x - y > i64::MAX {
        i64::MAX
    } else if x - y < i64::MIN {
        i64::MIN
    } else {
        (x - y) as i64
    }
}

#[verifier::when_used_as_spec(spec_sat_sub_i64)]
pub fn sat_sub_i64(x: i64, y: i64) -> (r: i64)
    ensures
        r == spec_sat_sub_i64(x, y),
{
    match x.checked_sub(y) {
        Some(v) => v,
        None => if y < 0 {
            i64::MAX
        } else {
            i64::MIN
        },
    }
}

} // verus!
