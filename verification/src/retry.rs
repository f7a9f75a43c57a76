//! The bounded retry policy that wraps every RPC read: up to a fixed number
//! of attempts, each under a per-attempt timeout, with exponential backoff
//! between attempts.
//!
//! The transport performs the attempts and the sleeps; this module decides.
//! The outcomes the attempts produced arrive as a list, and the policy's
//! result is a function of that list alone.
use vstd::prelude::*;
use crate::errors::GatewayError;
use crate::num::{sat_mul_u64, spec_sat_mul_u64};

verus! {

/// Attempts before the retry helper gives up.
pub const MAX_RETRIES: u32 = 8;

/// Backoff before the second attempt, in milliseconds; it doubles after
/// each further failure.
pub const INITIAL_BACKOFF_MS: u64 = 200;

/// Per-attempt timeout, in milliseconds.
pub const ATTEMPT_TIMEOUT_MS: u64 = 8000;

/// What one attempt of the retried operation produced.
#[derive(Clone, Copy, Debug, PartialEq, Eq, Structural)]
pub enum RetryEvent {
    /// The operation succeeded with this value.
    Success(u64),
    /// The operation itself failed.
    Failed(GatewayError),
    /// The attempt hit the per-attempt timeout.
    TimedOut,
}

/// The backoff before attempt `k + 1`: the initial backoff doubled `k`
/// times (saturating, though the bounded schedule never reaches that).
pub open spec fn spec_backoff_ms(k: u32) -> u64
    decreases k,
{
    if k == 0 {
        INITIAL_BACKOFF_MS
    } else {
        spec_sat_mul_u64(spec_backoff_ms((k - 1) as u32), 2)
    }
}

/// Compute the backoff before attempt `k + 1`.
pub fn backoff_ms(k: u32) -> (r: u64)
    ensures
        r == spec_backoff_ms(k),
{
    let mut b: u64 = INITIAL_BACKOFF_MS;
    let mut i: u32 = 0;
    while i < k
        invariant
            0 <= i <= k,
            b == spec_backoff_ms(i),
        decreases k - i,
    {
        b = sat_mul_u64(b, 2);
        i = i + 1;
    }
    b
}

/// What the retry policy returns, given the attempt outcomes: the value of
/// the first success; the operation's own error when the last attempt
/// failed; a retry failure when the last attempt timed out.
pub open spec fn spec_retry(events: Seq<RetryEvent>, attempt: u32, max_attempts: u32) -> Result<
    u64,
    GatewayError,
>
    recommends
        attempt < max_attempts,
        events.len() >= max_attempts,
    decreases max_attempts - attempt,
{
    match events[attempt as int] {
        RetryEvent::Success(v) => Ok(v),
        RetryEvent::Failed(e) => if attempt + 1 < max_attempts {
            spec_retry(events, (attempt + 1) as u32, max_attempts)
        } else {
            Err(e)
        },
        RetryEvent::TimedOut => if attempt + 1 < max_attempts {
            spec_retry(events, (attempt + 1) as u32, max_attempts)
        } else {
            Err(GatewayError::RetryFailed)
        },
    }
}

/// Drive the retry policy over the outcomes the attempts produced.
pub fn retry(events: &Vec<RetryEvent>, max_attempts: u32) -> (r: Result<u64, GatewayError>)
    requires
        1 <= max_attempts,
        events@.len() >= max_attempts,
    ensures
        r == spec_retry(events@, 0, max_attempts),
{
    let mut attempt: u32 = 0;
    loop
        invariant
            0 <= attempt < max_attempts,
            events@.len() >= max_attempts,
            spec_retry(events@, 0, max_attempts) == spec_retry(events@, attempt, max_attempts),
        decreases max_attempts - attempt,
    {
        match events[attempt as usize] {
            RetryEvent::Success(v) => {
                return Ok(v);
            },
            RetryEvent::Failed(e) => {
                if attempt + 1 >= max_attempts {
                    return Err(e);
                }
            },
            RetryEvent::TimedOut => {
                if attempt + 1 >= max_attempts {
                    return Err(GatewayError::RetryFailed);
                }
            },
        }
        attempt = attempt + 1;
    }
}

} // verus!
