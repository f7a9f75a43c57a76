//! The transaction submission protocol: build a prioritized instruction
//! list, then drive a bounded retry loop that re-prices and re-signs on a
//! fixed cadence, submits, and polls for confirmation.
//!
//! The library decides; the transport performs. Everything the outside
//! world contributes to one attempt — the re-estimated fee, whether the
//! send was accepted, what each confirmation poll reported — arrives as an
//! `AttemptEvents` value, and the protocol's result is a function of those
//! events alone.
use vstd::prelude::*;
use crate::errors::GatewayError;
use crate::strategy::PriorityFeeStrategy;
use crate::toolbar::{MinerStatusMessage, MinerToolbarState, UpdateMinerToolbarState};

verus! {

/// Compute-unit limit used when no policy-specific limit is given.
pub const DEFAULT_CU_LIMIT: u32 = 200_000;

/// Compute-unit price used when no fee has been resolved yet.
pub const DEFAULT_CU_PRICE: u64 = 10_000;

/// Compute-unit limit of a mine transaction.
pub const CU_LIMIT_MINE: u32 = 1_400_000;

/// Compute-unit limit assumed under a dynamic-limit policy.
pub const DYNAMIC_CU_LIMIT: u32 = 1_400_000;

/// Submission attempts before the protocol gives up.
pub const GATEWAY_RETRIES: u64 = 64;

/// Confirmation polls per submitted transaction.
pub const CONFIRM_RETRIES: u64 = 8;

/// Delay between confirmation polls, in milliseconds.
pub const CONFIRM_DELAY_MS: u64 = 500;

/// A transaction is re-priced and re-signed on every attempt whose index is
/// a multiple of this cadence (blockhashes expire after roughly 45 to 60
/// seconds of chain time).
pub const REPRICE_CADENCE: u64 = 10;

/// Tip paid alongside every submitted transaction, in lamports.
pub const TIP_AMOUNT: u64 = 100_000;

/// The compute-budget policy of one submission.
#[derive(Clone, Copy, Debug, PartialEq, Eq, Structural)]
pub enum ComputeBudget {
    DynamicLimitEstimatePrice,
    DynamicLimitStaticPrice(u64),
    FixedLimitEstimatePrice(u32),
    FixedLimitStaticPrice(u32, u64),
}

/// What a compute-budget policy resolves to: a unit limit, a pricing
/// strategy, and the initial fee. An estimate-price policy takes the
/// estimated fee where one was obtained and degrades to the last known fee
/// otherwise — fee estimation is best effort and never blocks submission.
pub open spec fn spec_resolve_compute_budget(
    cb: ComputeBudget,
    estimated_fee: Option<u64>,
    fallback_fee: u64,
) -> (u32, PriorityFeeStrategy, u64) {
    match cb {
        ComputeBudget::DynamicLimitEstimatePrice => (
            DYNAMIC_CU_LIMIT,
            PriorityFeeStrategy::Estimate,
            match estimated_fee {
                Some(f) => f,
                None => fallback_fee,
            },
        ),
        ComputeBudget::DynamicLimitStaticPrice(f) => (
            DYNAMIC_CU_LIMIT,
            PriorityFeeStrategy::Static,
            f,
        ),
        ComputeBudget::FixedLimitEstimatePrice(cus) => (
            cus,
            PriorityFeeStrategy::Estimate,
            match estimated_fee {
                Some(f) => f,
                None => fallback_fee,
            },
        ),
        ComputeBudget::FixedLimitStaticPrice(cus, f) => (cus, PriorityFeeStrategy::Static, f),
    }
}

/// Resolve a compute-budget policy.
pub fn resolve_compute_budget(
    cb: &ComputeBudget,
    estimated_fee: Option<u64>,
    fallback_fee: u64,
) -> (r: (u32, PriorityFeeStrategy, u64))
    ensures
        r == spec_resolve_compute_budget(*cb, estimated_fee, fallback_fee),
{
    match cb {
        ComputeBudget::DynamicLimitEstimatePrice => (
            DYNAMIC_CU_LIMIT,
            PriorityFeeStrategy::Estimate,
            match estimated_fee {
                Some(f) => f,
                None => fallback_fee,
            },
        ),
        ComputeBudget::DynamicLimitStaticPrice(f) => (
            DYNAMIC_CU_LIMIT,
            PriorityFeeStrategy::Static,
            *f,
        ),
        ComputeBudget::FixedLimitEstimatePrice(cus) => (
            *cus,
            PriorityFeeStrategy::Estimate,
            match estimated_fee {
                Some(f) => f,
                None => fallback_fee,
            },
        ),
        ComputeBudget::FixedLimitStaticPrice(cus, f) => (*cus, PriorityFeeStrategy::Static, *f),
    }
}

/// A transaction instruction, as the submission logic sees it. The
/// transport maps each template to the real instruction one for one.
#[derive(Clone, Copy, Debug, PartialEq, Eq, Structural)]
pub enum Ix {
    /// Set the compute-unit limit of the transaction.
    ComputeUnitLimit(u32),
    /// Set the compute-unit price (the priority fee), in microlamports.
    ComputeUnitPrice(u64),
    /// Transfer the given tip amount, in lamports, to the tip address.
    Transfer(u64),
    /// Open the proof account for reads by the mine instruction.
    Auth,
    /// Reset the epoch accounting.
    Reset,
    /// Submit the solution through the bus with the given index.
    Mine(u64),
    /// An opaque caller instruction, identified by a tag.
    Payload(u64),
}

/// The tip halves when the user brings their own RPC endpoint.
pub fn tip_amount(is_default_rpc: bool) -> (r: u64)
    ensures
        r == if is_default_rpc {
            TIP_AMOUNT
        } else {
            (TIP_AMOUNT / 2) as u64
        },
{
    if is_default_rpc {
        TIP_AMOUNT
    } else {
        TIP_AMOUNT / 2
    }
}

/// The instruction list of one submission: the compute-unit-price
/// instruction first, then the caller's instructions, then the tip
/// transfer.
pub fn build_final_ixs(ixs: &Vec<Ix>, fee: u64, tip: u64) -> (r: Vec<Ix>)
    ensures
        r@ == seq![Ix::ComputeUnitPrice(fee)] + ixs@ + seq![Ix::Transfer(tip)],
{
    let mut r: Vec<Ix> = Vec::new();
    r.push(Ix::ComputeUnitPrice(fee));
    let mut i: usize = 0;
    while i < ixs.len()
        invariant
            0 <= i <= ixs@.len(),
            r@ == seq![Ix::ComputeUnitPrice(fee)] + ixs@.subrange(0, i as int),
        decreases ixs@.len() - i,
    {
        let ghost prev = r@;
        r.push(ixs[i]);
        proof {
            assert(prev.push(ixs@[i as int]) =~= seq![Ix::ComputeUnitPrice(fee)] + ixs@.subrange(
                0,
                i as int + 1,
            ));
        }
        i = i + 1;
    }
    proof {
        assert(ixs@.subrange(0, ixs@.len() as int) =~= ixs@);
    }
    let ghost before_tip = r@;
    r.push(Ix::Transfer(tip));
    proof {
        assert(before_tip.push(Ix::Transfer(tip)) =~= seq![Ix::ComputeUnitPrice(fee)] + ixs@
            + seq![Ix::Transfer(tip)]);
    }
    r
}

/// Replace the compute-unit-price instruction (the first instruction) with
/// one carrying the new fee.
pub fn set_price_ix(ixs: &mut Vec<Ix>, fee: u64)
    requires
        old(ixs)@.len() >= 1,
    ensures
        final (ixs)@ == old(ixs)@.update(0, Ix::ComputeUnitPrice(fee)),
{
    ixs.remove(0);
    ixs.insert(0, Ix::ComputeUnitPrice(fee));
    proof {
        assert(final (ixs)@ =~= old(ixs)@.update(0, Ix::ComputeUnitPrice(fee)));
    }
}

/// What one confirmation poll reported about the submitted signature.
/// `StatusUnavailable` covers both a failed status query and a signature
/// with no status yet.
#[derive(Clone, Copy, Debug, PartialEq, Eq, Structural)]
pub enum PollStatus {
    StatusUnavailable,
    StatusError,
    Processed,
    Confirmed,
    Finalized,
}

/// What the confirmation polls of one attempt amount to.
#[derive(Clone, Copy, Debug, PartialEq, Eq, Structural)]
pub enum ConfirmOutcome {
    /// The transaction reached a confirmed or finalized state.
    TxConfirmed,
    /// The chain reported an execution error: terminal, not retried.
    TxFatal,
    /// No decision within the poll budget; the outer loop retries.
    TxPending,
}

/// Scan the polls of one attempt in order: an on-chain error is terminal, a
/// confirmed or finalized status is success, anything else keeps polling.
pub open spec fn spec_confirm_scan(polls: Seq<PollStatus>) -> ConfirmOutcome
    decreases polls.len(),
{
    if polls.len() == 0 {
        ConfirmOutcome::TxPending
    } else {
        match polls[0] {
            PollStatus::StatusError => ConfirmOutcome::TxFatal,
            PollStatus::Confirmed => ConfirmOutcome::TxConfirmed,
            PollStatus::Finalized => ConfirmOutcome::TxConfirmed,
            _ => spec_confirm_scan(polls.drop_first()),
        }
    }
}

/// Walk one attempt's confirmation polls.
pub fn confirm_scan(polls: &Vec<PollStatus>) -> (r: ConfirmOutcome)
    ensures
        r == spec_confirm_scan(polls@),
{
    let mut i: usize = 0;
    proof {
        assert(polls@.skip(0) =~= polls@);
    }
    while i < polls.len()
        invariant
            0 <= i <= polls@.len(),
            spec_confirm_scan(polls@) == spec_confirm_scan(polls@.skip(i as int)),
        decreases polls@.len() - i,
    {
        proof {
            assert(polls@.skip(i as int)[0] == polls@[i as int]);
            assert(polls@.skip(i as int).drop_first() =~= polls@.skip(i as int + 1));
        }
        match polls[i] {
            PollStatus::StatusError => {
                return ConfirmOutcome::TxFatal;
            },
            PollStatus::Confirmed => {
                return ConfirmOutcome::TxConfirmed;
            },
            PollStatus::Finalized => {
                return ConfirmOutcome::TxConfirmed;
            },
            _ => {},
        }
        i = i + 1;
    }
    proof {
        assert(polls@.skip(polls@.len() as int).len() == 0);
    }
    ConfirmOutcome::TxPending
}

/// Everything the outside world contributed to one submission attempt.
#[derive(Clone, Debug)]
pub struct AttemptEvents {
    /// Outcome of the fee re-estimate, where one was made on this attempt.
    pub fee_estimate: Option<u64>,
    /// Whether the RPC accepted the transaction.
    pub send_ok: bool,
    /// Token identifying the submitted transaction when the send succeeded.
    pub signature: u64,
    /// What each confirmation poll of this attempt reported, in order.
    pub confirm_polls: Vec<PollStatus>,
}

/// The fee in use after the re-price step of one attempt: on a cadence
/// attempt under the estimate strategy the freshly estimated fee replaces
/// the current one (keeping the current fee when the estimate failed);
/// otherwise the fee is unchanged.
pub open spec fn spec_attempt_fee(
    strategy: PriorityFeeStrategy,
    attempt: u64,
    fee: u64,
    ev: AttemptEvents,
) -> u64 {
    if attempt % REPRICE_CADENCE == 0 && strategy is Estimate {
        match ev.fee_estimate {
            Some(f) => f,
            None => fee,
        }
    } else {
        fee
    }
}

/// Re-pricing happens exactly on the cadence and only under the estimate
/// strategy: on every other attempt the fee in use is the fee of the
/// attempt before.
pub proof fn lemma_reprice_cadence(
    strategy: PriorityFeeStrategy,
    attempt: u64,
    fee: u64,
    ev: AttemptEvents,
)
    ensures
        attempt % REPRICE_CADENCE != 0 ==> spec_attempt_fee(strategy, attempt, fee, ev) == fee,
        strategy is Static ==> spec_attempt_fee(strategy, attempt, fee, ev) == fee,
{
}

/// Where the submission protocol stopped: its result, the index of the
/// last attempt made, the fee that attempt used, and every status message
/// the protocol published on the way, oldest first.
pub struct ProtocolOutcome {
    pub result: Result<u64, GatewayError>,
    pub attempt: u64,
    pub fee: u64,
    pub published: Seq<MinerStatusMessage>,
}

/// What one attempt publishes before it submits: its counter with the fee
/// carried in, and, on a re-price attempt, its counter with the fee the
/// transaction is then re-signed under.
pub open spec fn spec_attempt_publications(
    strategy: PriorityFeeStrategy,
    attempt: u64,
    fee: u64,
    ev: AttemptEvents,
) -> Seq<MinerStatusMessage> {
    if attempt % REPRICE_CADENCE == 0 {
        seq![
            MinerStatusMessage::Submitting(attempt, fee),
            MinerStatusMessage::Submitting(attempt, spec_attempt_fee(strategy, attempt, fee, ev)),
        ]
    } else {
        seq![MinerStatusMessage::Submitting(attempt, fee)]
    }
}

/// The submission protocol as a function of the attempt events: starting
/// at `attempt` with the fee `fee`, re-price on the cadence, submit, then
/// confirm unless `skip_confirm`; an on-chain error is terminal, and the
/// attempt budget running out is a transaction timeout.
pub open spec fn spec_protocol(
    events: Seq<AttemptEvents>,
    attempt: u64,
    fee: u64,
    strategy: PriorityFeeStrategy,
    skip_confirm: bool,
) -> ProtocolOutcome
    recommends
        attempt < GATEWAY_RETRIES,
        events.len() >= GATEWAY_RETRIES,
    decreases GATEWAY_RETRIES - attempt,
{
    let ev = events[attempt as int];
    let fee2 = spec_attempt_fee(strategy, attempt, fee, ev);
    let head = spec_attempt_publications(strategy, attempt, fee, ev);
    let outcome = if ev.send_ok {
        if skip_confirm {
            ConfirmOutcome::TxConfirmed
        } else {
            spec_confirm_scan(ev.confirm_polls@)
        }
    } else {
        ConfirmOutcome::TxPending
    };
    match outcome {
        ConfirmOutcome::TxConfirmed => ProtocolOutcome {
            result: Ok(ev.signature),
            attempt,
            fee: fee2,
            published: head,
        },
        ConfirmOutcome::TxFatal => ProtocolOutcome {
            result: Err(GatewayError::Unknown),
            attempt,
            fee: fee2,
            published: head,
        },
        ConfirmOutcome::TxPending => {
            if attempt + 1 >= GATEWAY_RETRIES {
                ProtocolOutcome {
                    result: Err(GatewayError::TransactionTimeout),
                    attempt,
                    fee: fee2,
                    published: head,
                }
            } else {
                let rest = spec_protocol(events, (attempt + 1) as u64, fee2, strategy, skip_confirm);
                ProtocolOutcome {
                    result: rest.result,
                    attempt: rest.attempt,
                    fee: rest.fee,
                    published: head + rest.published,
                }
            }
        },
    }
}

/// The published history mentions an attempt's counter.
pub open spec fn spec_publishes_attempt(published: Seq<MinerStatusMessage>, a: u64) -> bool {
    exists|i: int|
        0 <= i < published.len() && (#[trigger] published[i]) is Submitting
            && published[i]->Submitting_0 == a
}

/// Observers see live progress: every attempt the protocol makes publishes
/// its counter before it submits, the history holds nothing but submission
/// messages, and the last publication carries the final attempt's counter
/// and the fee its transaction was priced at.
pub proof fn lemma_protocol_publishes_every_attempt(
    events: Seq<AttemptEvents>,
    attempt: u64,
    fee: u64,
    strategy: PriorityFeeStrategy,
    skip_confirm: bool,
)
    requires
        events.len() >= GATEWAY_RETRIES,
        attempt < GATEWAY_RETRIES,
    ensures
        ({
            let outcome = spec_protocol(events, attempt, fee, strategy, skip_confirm);
            &&& outcome.published.len() >= 1
            &&& outcome.published.last() == MinerStatusMessage::Submitting(
                outcome.attempt,
                outcome.fee,
            )
            &&& attempt <= outcome.attempt < GATEWAY_RETRIES
            &&& forall|i: int|
                0 <= i < outcome.published.len() ==> (#[trigger] outcome.published[i]) is Submitting
            &&& forall|a: u64|
                attempt <= a <= outcome.attempt ==> #[trigger] spec_publishes_attempt(
                    outcome.published,
                    a,
                )
        }),
    decreases GATEWAY_RETRIES - attempt,
{
    let outcome = spec_protocol(events, attempt, fee, strategy, skip_confirm);
    let ev = events[attempt as int];
    let fee2 = spec_attempt_fee(strategy, attempt, fee, ev);
    let head = spec_attempt_publications(strategy, attempt, fee, ev);
    let pending = spec_attempt_pending(ev, skip_confirm);
    assert(head.len() >= 1 && head[0] == MinerStatusMessage::Submitting(attempt, fee));
    assert(head.last() == MinerStatusMessage::Submitting(attempt, fee2));
    if !pending || attempt + 1 >= GATEWAY_RETRIES {
        assert(outcome.published == head);
        assert(spec_publishes_attempt(outcome.published, attempt)) by {
            assert(outcome.published[0] is Submitting && outcome.published[0]->Submitting_0
                == attempt);
        }
    } else {
        let rest = spec_protocol(events, (attempt + 1) as u64, fee2, strategy, skip_confirm);
        lemma_protocol_publishes_every_attempt(
            events,
            (attempt + 1) as u64,
            fee2,
            strategy,
            skip_confirm,
        );
        assert(outcome.published == head + rest.published);
        assert(outcome.published.last() == rest.published.last());
        assert forall|i: int| 0 <= i < outcome.published.len() implies (
        #[trigger] outcome.published[i]) is Submitting by {
            if i >= head.len() {
                assert(outcome.published[i] == rest.published[i - head.len()]);
            }
        }
        assert forall|a: u64| attempt <= a <= outcome.attempt implies #[trigger] spec_publishes_attempt(
            outcome.published,
            a,
        ) by {
            if a == attempt {
                assert(outcome.published[0] is Submitting && outcome.published[0]->Submitting_0
                    == a);
            } else {
                assert(spec_publishes_attempt(rest.published, a));
                let j = choose|j: int|
                    0 <= j < rest.published.len() && (#[trigger] rest.published[j]) is Submitting
                        && rest.published[j]->Submitting_0 == a;
                assert(outcome.published[head.len() + j] == rest.published[j]);
            }
        }
    }
}


/// One attempt that moves the protocol on rather than ending it: the send
/// was rejected, or confirmation stayed undecided within the poll budget.
pub open spec fn spec_attempt_pending(ev: AttemptEvents, skip_confirm: bool) -> bool {
    !ev.send_ok || (!skip_confirm && spec_confirm_scan(ev.confirm_polls@) is TxPending)
}

/// A run in which no attempt reaches confirmation (or a terminal error)
/// exhausts the whole attempt budget and ends in a transaction timeout.
pub proof fn lemma_no_confirmation_times_out(
    events: Seq<AttemptEvents>,
    attempt: u64,
    fee: u64,
    strategy: PriorityFeeStrategy,
    skip_confirm: bool,
)
    requires
        events.len() >= GATEWAY_RETRIES,
        attempt < GATEWAY_RETRIES,
        forall|i: int|
            0 <= i < GATEWAY_RETRIES ==> spec_attempt_pending(#[trigger] events[i], skip_confirm),
    ensures
        spec_protocol(events, attempt, fee, strategy, skip_confirm).result == Err::<
            u64,
            GatewayError,
        >(GatewayError::TransactionTimeout),
    decreases GATEWAY_RETRIES - attempt,
{
    let ev = events[attempt as int];
    let fee2 = spec_attempt_fee(strategy, attempt, fee, ev);
    if attempt + 1 < GATEWAY_RETRIES {
        lemma_no_confirmation_times_out(events, (attempt + 1) as u64, fee2, strategy, skip_confirm);
    }
}

/// Drive the submission protocol to a result.
///
/// The caller resolves the compute budget first and passes the resolved
/// strategy and initial fee. `events` holds, per attempt, what the outside
/// world answered; the result equals `spec_protocol` over those events.
/// Every attempt publishes its counter and the fee its transaction carries
/// through the toolbar state before submitting — the toolbar's published
/// history grows by exactly the protocol's publication sequence — and the
/// toolbar's other fields are left untouched.
pub fn send_and_confirm(
    payload_ixs: &Vec<Ix>,
    strategy: PriorityFeeStrategy,
    initial_fee: u64,
    skip_confirm: bool,
    is_default_rpc: bool,
    events: &Vec<AttemptEvents>,
    toolbar_state: &mut MinerToolbarState,
) -> (r: Result<u64, GatewayError>)
    requires
        events@.len() >= GATEWAY_RETRIES,
    ensures
        ({
            let outcome = spec_protocol(events@, 0, initial_fee, strategy, skip_confirm);
            &&& r == outcome.result
            &&& final (toolbar_state).status_message == MinerStatusMessage::Submitting(
                outcome.attempt,
                outcome.fee,
            )
            &&& final (toolbar_state).published@ == old(toolbar_state).published@
                + outcome.published
        }),
        final (toolbar_state).status == old(toolbar_state).status,
        final (toolbar_state).display_hash == old(toolbar_state).display_hash,
        final (toolbar_state).escrow_address == old(toolbar_state).escrow_address,
        final (toolbar_state).is_open == old(toolbar_state).is_open,
{
    let tip = tip_amount(is_default_rpc);
    let mut final_ixs = build_final_ixs(payload_ixs, initial_fee, tip);
    let mut fee = initial_fee;
    let mut attempts: u64 = 0;
    let ghost goal = spec_protocol(events@, 0, initial_fee, strategy, skip_confirm);
    while attempts < GATEWAY_RETRIES
        invariant
            events@.len() >= GATEWAY_RETRIES,
            0 <= attempts <= GATEWAY_RETRIES,
            goal == spec_protocol(events@, 0, initial_fee, strategy, skip_confirm),
            attempts < GATEWAY_RETRIES ==> ({
                let cur = spec_protocol(events@, attempts, fee, strategy, skip_confirm);
                &&& goal.result == cur.result
                &&& goal.attempt == cur.attempt
                &&& goal.fee == cur.fee
                &&& old(toolbar_state).published@ + goal.published == toolbar_state.published@
                    + cur.published
            }),
            attempts == GATEWAY_RETRIES ==> goal.result == Err::<u64, GatewayError>(
                GatewayError::TransactionTimeout,
            ) && goal.attempt == attempts - 1 && goal.fee == fee && old(
                toolbar_state,
            ).published@ + goal.published == toolbar_state.published@,
            final_ixs@ == seq![Ix::ComputeUnitPrice(fee)] + payload_ixs@ + seq![Ix::Transfer(tip)],
            toolbar_state.status == old(toolbar_state).status,
            toolbar_state.display_hash == old(toolbar_state).display_hash,
            toolbar_state.escrow_address == old(toolbar_state).escrow_address,
            toolbar_state.is_open == old(toolbar_state).is_open,
            attempts > 0 ==> toolbar_state.status_message == MinerStatusMessage::Submitting(
                (attempts - 1) as u64,
                fee,
            ),
        decreases GATEWAY_RETRIES - attempts,
    {
        let ghost fee_in = fee;
        let ghost pub_in = toolbar_state.published@;
        let ghost cur = spec_protocol(events@, attempts, fee, strategy, skip_confirm);
        toolbar_state.set_status_message(MinerStatusMessage::Submitting(attempts, fee));
        let ev = &events[attempts as usize];
        if attempts % REPRICE_CADENCE == 0 {
            let new_fee = match strategy {
                PriorityFeeStrategy::Estimate => match ev.fee_estimate {
                    Some(f) => f,
                    None => fee,
                },
                PriorityFeeStrategy::Static => fee,
            };
            fee = new_fee;
            set_price_ix(&mut final_ixs, fee);
            proof {
                assert(final_ixs@ =~= seq![Ix::ComputeUnitPrice(fee)] + payload_ixs@ + seq![
                    Ix::Transfer(tip),
                ]);
            }
            toolbar_state.set_status_message(MinerStatusMessage::Submitting(attempts, fee));
        }
        proof {
            assert(fee == spec_attempt_fee(strategy, attempts, fee_in, *ev));
            assert(toolbar_state.published@ =~= pub_in + spec_attempt_publications(
                strategy,
                attempts,
                fee_in,
                *ev,
            ));
        }
        if ev.send_ok {
            if skip_confirm {
                proof {
                    assert(old(toolbar_state).published@ + goal.published =~= toolbar_state
                        .published@);
                }
                return Ok(ev.signature);
            }
            match confirm_scan(&ev.confirm_polls) {
                ConfirmOutcome::TxConfirmed => {
                    proof {
                        assert(old(toolbar_state).published@ + goal.published =~= toolbar_state
                            .published@);
                    }
                    return Ok(ev.signature);
                },
                ConfirmOutcome::TxFatal => {
                    proof {
                        assert(old(toolbar_state).published@ + goal.published =~= toolbar_state
                            .published@);
                    }
                    return Err(GatewayError::Unknown);
                },
                ConfirmOutcome::TxPending => {},
            }
        }
        proof {
            if attempts + 1 < GATEWAY_RETRIES {
                let rest = spec_protocol(
                    events@,
                    (attempts + 1) as u64,
                    fee,
                    strategy,
                    skip_confirm,
                );
                assert(cur.published == spec_attempt_publications(
                    strategy,
                    attempts,
                    fee_in,
                    *ev,
                ) + rest.published);
                assert(pub_in + cur.published =~= toolbar_state.published@ + rest.published);
            } else {
                assert(old(toolbar_state).published@ + goal.published =~= toolbar_state
                    .published@);
            }
        }
        attempts = attempts + 1;
    }
    Err(GatewayError::TransactionTimeout)
}

} // verus!
