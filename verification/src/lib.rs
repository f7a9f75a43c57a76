//! Core logic of a proof-of-work mining client: priority-fee estimation
//! across heterogeneous providers, a retrying transaction submission
//! protocol, and a coordinator that partitions a nonce search space across
//! parallel workers, aggregates their results and decides whether to submit
//! the winner or to search again.
//!
//! Network transport, signing and the worker processes themselves live
//! outside this crate; everything here is a decision or a computation on
//! plain values, stated in contracts and verified.
pub mod accounts;
pub mod coordinator;
pub mod errors;
pub mod fee;
pub mod json;
pub mod num;
pub mod retry;
pub mod settings;
pub mod strategy;
pub mod submit;
pub mod toolbar;
pub mod worker;

use vstd::prelude::*;

verus! {

/// Resolve a relative asset path for the UI layer.
pub fn asset_path(relative_path: &str) -> (r: String)
    ensures
        r@ == relative_path@,
{
    relative_path.to_owned()
}

} // verus!
