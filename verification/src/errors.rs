//! Error taxonomy of the gateway and of the fee estimator.
use vstd::prelude::*;

verus! {

/// Errors of the RPC gateway and the submission protocol.
///
/// `AccountNotFound` is recoverable (callers may treat it as an empty or
/// default value); `FailedDeserialization` is fatal for the call that saw it;
/// `TransactionTimeout` is terminal once the retry budget is exhausted;
/// `Unknown` is a terminal on-chain execution error; `RetryFailed` means the
/// bounded retry helper gave up.
#[derive(Clone, Copy, Debug, PartialEq, Eq, Structural)]
pub enum GatewayError {
    AccountNotFound,
    FailedDeserialization,
    TransactionTimeout,
    Unknown,
    RetryFailed,
}

/// Errors of the priority-fee estimator. Callers never let these block
/// mining: on either error they fall back to the last known fee value.
#[derive(Clone, Copy, Debug, PartialEq, Eq, Structural)]
pub enum FeeError {
    /// The configured endpoint's host matches no supported provider family.
    UnsupportedProvider,
    /// The provider's response did not hold the expected fields.
    ParseFailed,
}

} // verus!
