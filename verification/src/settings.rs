//! The configuration surface the core consumes. Each value is persisted
//! outside the library and handed in as a plain value; the newtypes keep the
//! signals apart.
use vstd::prelude::*;

verus! {

/// Default priority fee, in microlamports.
pub const DEFAULT_PRIORITY_FEE: u64 = 5000;

/// Upper cap on any estimated priority fee, in microlamports.
pub const PRIORITY_FEE_CAP: u64 = 1_000_000;

/// The fee-estimation endpoint URL.
#[derive(Clone, Debug, Default, PartialEq)]
pub struct FeeUrl(pub String);

/// The current priority fee, in microlamports.
#[derive(Clone, Copy, Debug, Default, PartialEq, Eq, Structural)]
pub struct PriorityFee(pub u64);

/// The user-configured cap on estimated priority fees, in microlamports.
#[derive(Clone, Copy, Debug, Default, PartialEq, Eq, Structural)]
pub struct PriorityFeeCap(pub u64);

/// How many workers of the pool receive jobs, from one up to the hardware
/// thread count.
#[derive(Clone, Copy, Debug, Default, PartialEq, Eq, Structural)]
pub struct PowerLevel(pub u64);

} // verus!
