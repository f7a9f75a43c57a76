use ore_miner::errors::GatewayError;
use ore_miner::strategy::PriorityFeeStrategy;
use ore_miner::submit::{
    build_final_ixs, confirm_scan, resolve_compute_budget, send_and_confirm, set_price_ix,
    tip_amount, AttemptEvents, ComputeBudget, ConfirmOutcome, Ix, PollStatus,
};
use ore_miner::toolbar::{MinerStatus, MinerStatusMessage, MinerToolbarState};

fn failing_attempt() -> AttemptEvents {
    AttemptEvents {
        fee_estimate: None,
        send_ok: false,
        signature: 0,
        confirm_polls: Vec::new(),
    }
}

fn confirmed_attempt(signature: u64) -> AttemptEvents {
    AttemptEvents {
        fee_estimate: None,
        send_ok: true,
        signature,
        confirm_polls: vec![PollStatus::Processed, PollStatus::Confirmed],
    }
}

fn script(events: Vec<AttemptEvents>) -> Vec<AttemptEvents> {
    let mut s = events;
    while s.len() < 64 {
        s.push(failing_attempt());
    }
    s
}

#[test]
fn sixty_four_failed_attempts_time_out() {
    let events = script(Vec::new());
    let mut toolbar = MinerToolbarState::new();
    let r = send_and_confirm(
        &Vec::new(),
        PriorityFeeStrategy::Static,
        5000,
        false,
        true,
        &events,
        &mut toolbar,
    );
    assert_eq!(r, Err(GatewayError::TransactionTimeout));
    // The last attempt published was the final one, with the static fee.
    assert_eq!(toolbar.status_message, MinerStatusMessage::Submitting(63, 5000));
}

#[test]
fn first_confirmed_attempt_wins() {
    let mut events = script(Vec::new());
    events[2] = confirmed_attempt(99);
    let mut toolbar = MinerToolbarState::new();
    let r = send_and_confirm(
        &Vec::new(),
        PriorityFeeStrategy::Static,
        5000,
        false,
        true,
        &events,
        &mut toolbar,
    );
    assert_eq!(r, Ok(99));
    assert_eq!(toolbar.status_message, MinerStatusMessage::Submitting(2, 5000));
}

#[test]
fn reprice_happens_only_every_tenth_attempt() {
    // A fresh estimate is offered on every attempt, but only the cadence
    // attempts (0, 10, 20, ...) may take one: the attempt that succeeds at
    // index 11 still runs with the fee estimated at attempt 10.
    let mut events = script(Vec::new());
    for (i, ev) in events.iter_mut().enumerate() {
        ev.fee_estimate = Some(1000 + i as u64);
    }
    events[11] = AttemptEvents {
        fee_estimate: Some(1011),
        send_ok: true,
        signature: 7,
        confirm_polls: vec![PollStatus::Finalized],
    };
    let mut toolbar = MinerToolbarState::new();
    let r = send_and_confirm(
        &Vec::new(),
        PriorityFeeStrategy::Estimate,
        5000,
        false,
        true,
        &events,
        &mut toolbar,
    );
    assert_eq!(r, Ok(7));
    assert_eq!(toolbar.status_message, MinerStatusMessage::Submitting(11, 1010));
}

#[test]
fn static_strategy_never_reprices() {
    let mut events = script(Vec::new());
    for ev in events.iter_mut() {
        ev.fee_estimate = Some(777);
    }
    events[12] = AttemptEvents {
        fee_estimate: Some(777),
        send_ok: true,
        signature: 3,
        confirm_polls: vec![PollStatus::Confirmed],
    };
    let mut toolbar = MinerToolbarState::new();
    let r = send_and_confirm(
        &Vec::new(),
        PriorityFeeStrategy::Static,
        5000,
        false,
        true,
        &events,
        &mut toolbar,
    );
    assert_eq!(r, Ok(3));
    assert_eq!(toolbar.status_message, MinerStatusMessage::Submitting(12, 5000));
}

#[test]
fn estimate_failure_keeps_the_current_fee() {
    // The cadence attempt re-estimates but the estimate fails: the fee in
    // use stays what it was.
    let mut events = script(Vec::new());
    events[0].fee_estimate = None;
    events[1] = confirmed_attempt(5);
    let mut toolbar = MinerToolbarState::new();
    let r = send_and_confirm(
        &Vec::new(),
        PriorityFeeStrategy::Estimate,
        4000,
        false,
        true,
        &events,
        &mut toolbar,
    );
    assert_eq!(r, Ok(5));
    assert_eq!(toolbar.status_message, MinerStatusMessage::Submitting(1, 4000));
}

#[test]
fn on_chain_error_is_terminal() {
    let mut events = script(Vec::new());
    events[0] = AttemptEvents {
        fee_estimate: None,
        send_ok: true,
        signature: 1,
        confirm_polls: vec![PollStatus::Processed, PollStatus::StatusError],
    };
    let mut toolbar = MinerToolbarState::new();
    let r = send_and_confirm(
        &Vec::new(),
        PriorityFeeStrategy::Static,
        5000,
        false,
        true,
        &events,
        &mut toolbar,
    );
    assert_eq!(r, Err(GatewayError::Unknown));
}

#[test]
fn skip_confirm_returns_on_first_accepted_send() {
    let mut events = script(Vec::new());
    events[0] = AttemptEvents {
        fee_estimate: None,
        send_ok: true,
        signature: 42,
        // Without confirmation these polls are never consulted.
        confirm_polls: vec![PollStatus::StatusError],
    };
    let mut toolbar = MinerToolbarState::new();
    let r = send_and_confirm(
        &Vec::new(),
        PriorityFeeStrategy::Static,
        5000,
        true,
        true,
        &events,
        &mut toolbar,
    );
    assert_eq!(r, Ok(42));
}

#[test]
fn submission_leaves_other_toolbar_fields_alone() {
    let mut toolbar = MinerToolbarState::new();
    toolbar.status = MinerStatus::Active;
    toolbar.is_open = true;
    toolbar.display_hash = [9u8; 32];
    let events = script(vec![confirmed_attempt(1)]);
    let _ = send_and_confirm(
        &Vec::new(),
        PriorityFeeStrategy::Static,
        1,
        false,
        true,
        &events,
        &mut toolbar,
    );
    assert_eq!(toolbar.status, MinerStatus::Active);
    assert!(toolbar.is_open);
    assert_eq!(toolbar.display_hash, [9u8; 32]);
}

#[test]
fn confirm_scan_orders_decisions() {
    assert_eq!(confirm_scan(&Vec::new()), ConfirmOutcome::TxPending);
    assert_eq!(
        confirm_scan(&vec![PollStatus::Processed, PollStatus::StatusUnavailable]),
        ConfirmOutcome::TxPending
    );
    assert_eq!(
        confirm_scan(&vec![PollStatus::Processed, PollStatus::Finalized]),
        ConfirmOutcome::TxConfirmed
    );
    assert_eq!(
        confirm_scan(&vec![PollStatus::StatusError, PollStatus::Confirmed]),
        ConfirmOutcome::TxFatal
    );
}

#[test]
fn compute_budget_resolution() {
    assert_eq!(
        resolve_compute_budget(&ComputeBudget::DynamicLimitEstimatePrice, Some(10), 99),
        (1_400_000, PriorityFeeStrategy::Estimate, 10)
    );
    assert_eq!(
        resolve_compute_budget(&ComputeBudget::DynamicLimitEstimatePrice, None, 99),
        (1_400_000, PriorityFeeStrategy::Estimate, 99)
    );
    assert_eq!(
        resolve_compute_budget(&ComputeBudget::DynamicLimitStaticPrice(5), None, 99),
        (1_400_000, PriorityFeeStrategy::Static, 5)
    );
    assert_eq!(
        resolve_compute_budget(&ComputeBudget::FixedLimitEstimatePrice(70_000), Some(3), 99),
        (70_000, PriorityFeeStrategy::Estimate, 3)
    );
    assert_eq!(
        resolve_compute_budget(&ComputeBudget::FixedLimitStaticPrice(12_000, 44), None, 99),
        (12_000, PriorityFeeStrategy::Static, 44)
    );
}

#[test]
fn final_instruction_list_wraps_the_payload() {
    let payload = vec![Ix::Auth, Ix::Mine(3)];
    let ixs = build_final_ixs(&payload, 1234, 50_000);
    assert_eq!(
        ixs,
        vec![Ix::ComputeUnitPrice(1234), Ix::Auth, Ix::Mine(3), Ix::Transfer(50_000)]
    );
}

#[test]
fn repricing_replaces_the_price_instruction() {
    let payload = vec![Ix::Auth];
    let mut ixs = build_final_ixs(&payload, 10, 7);
    set_price_ix(&mut ixs, 99);
    assert_eq!(ixs, vec![Ix::ComputeUnitPrice(99), Ix::Auth, Ix::Transfer(7)]);
}

#[test]
fn tip_halves_on_custom_rpc() {
    assert_eq!(tip_amount(true), 100_000);
    assert_eq!(tip_amount(false), 50_000);
}
