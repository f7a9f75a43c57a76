use ore_miner::accounts::{Clock, ProofAccount};
use ore_miner::coordinator::{
    cutoff_time, mine_instructions, needs_reset, pick_bus, reset_draw, resolve_submit_fee,
    should_include_reset, submit_solution, BatchAction, Miner,
};
use ore_miner::errors::GatewayError;
use ore_miner::strategy::PriorityFeeStrategy;
use ore_miner::submit::{AttemptEvents, Ix};
use ore_miner::toolbar::{MinerStatus, MinerStatusMessage, MinerToolbarState};
use ore_miner::worker::{dispatch_jobs, select_best, Solution, WebWorkerResponse, WorkerBatch};

fn response(difficulty: u32, power_level: u64) -> WebWorkerResponse {
    WebWorkerResponse {
        challenge: [7u8; 32],
        nonce: [1u8; 8],
        digest: [2u8; 16],
        difficulty,
        hash: [3u8; 32],
        offset: 5,
        power_level,
    }
}

#[test]
fn dispatch_assigns_min_of_power_and_pool() {
    let jobs = dispatch_jobs(&[7u8; 32], 0, 42, 2, 4);
    assert_eq!(jobs.len(), 2);
    let step = u64::MAX / 4;
    assert_eq!(jobs[0].nonce_start, 0);
    assert_eq!(jobs[1].nonce_start, step);
    for j in &jobs {
        assert_eq!(j.challenge, [7u8; 32]);
        assert_eq!(j.cutoff_time, 42);
        assert_eq!(j.offset, 0);
        // Jobs carry the zero-based power level.
        assert_eq!(j.power_level, 1);
    }
    // With the power level above the pool size every worker gets a job.
    let all = dispatch_jobs(&[7u8; 32], 0, 42, 9, 4);
    assert_eq!(all.len(), 4);
    assert_eq!(all[3].nonce_start, step * 3);
}

#[test]
fn dispatch_offsets_every_range() {
    let jobs = dispatch_jobs(&[0u8; 32], 1000, 0, 2, 2);
    let step = u64::MAX / 2;
    assert_eq!(jobs[0].nonce_start, 1000);
    assert_eq!(jobs[1].nonce_start, step + 1000);
}

#[test]
fn select_best_takes_the_strict_maximum() {
    let msgs = vec![response(3, 1), response(9, 1), response(5, 1)];
    assert_eq!(select_best(&msgs), 1);
}

#[test]
fn select_best_breaks_ties_first_seen() {
    let msgs = vec![response(4, 1), response(9, 1), response(9, 1), response(2, 1)];
    assert_eq!(select_best(&msgs), 1);
    let all_equal = vec![response(0, 1), response(0, 1)];
    assert_eq!(select_best(&all_equal), 0);
}

#[test]
fn batch_completes_at_one_response_per_active_worker() {
    // Two active workers: the responses carry the zero-based level 1.
    let mut batch = WorkerBatch::new();
    assert!(!batch.push(response(1, 1)));
    assert!(batch.push(response(2, 1)));
    let msgs = batch.drain();
    assert_eq!(msgs.len(), 2);
    assert_eq!(batch.messages.len(), 0);
}

#[test]
fn batch_tracks_the_minimum_power_seen() {
    // A mid-round reconfiguration from three workers down to one: the round
    // closes at the smaller count.
    let mut batch = WorkerBatch::new();
    assert!(!batch.push(response(1, 2)));
    assert!(batch.push(response(2, 0)));
}

#[test]
fn low_difficulty_batch_is_redispatched_without_submitting() {
    // The chain wants difficulty 20; the batch's best is 15: search the
    // same challenge again with the cutoff reset to zero.
    let miner = Miner::new(2, 5000, PriorityFeeStrategy::Static, 4);
    let msgs = vec![response(15, 1), response(12, 1)];
    let mut toolbar = MinerToolbarState::new();
    toolbar.status = MinerStatus::Active;
    let before = toolbar;
    let action = miner.process_web_worker_results(
        &msgs,
        MinerStatus::Active,
        Some(20),
        None,
        &mut toolbar,
    );
    match action {
        BatchAction::Redispatch { challenge, offset, cutoff_time } => {
            assert_eq!(challenge, [7u8; 32]);
            assert_eq!(offset, 5);
            assert_eq!(cutoff_time, 0);
        }
        _ => panic!("expected a redispatch"),
    }
    assert_eq!(toolbar.status, before.status);
    assert_eq!(toolbar.status_message, before.status_message);
    assert_eq!(toolbar.display_hash, before.display_hash);
}

#[test]
fn sufficient_batch_is_submitted() {
    let miner = Miner::new(2, 5000, PriorityFeeStrategy::Static, 4);
    let msgs = vec![response(15, 1), response(25, 1)];
    let mut toolbar = MinerToolbarState::new();
    toolbar.status = MinerStatus::Active;
    let action = miner.process_web_worker_results(
        &msgs,
        MinerStatus::Active,
        Some(20),
        None,
        &mut toolbar,
    );
    match action {
        BatchAction::Submit { winner, priority_fee } => {
            assert_eq!(winner, 1);
            assert_eq!(priority_fee, 5000);
        }
        _ => panic!("expected a submission"),
    }
    assert_eq!(toolbar.display_hash, [3u8; 32]);
    assert_eq!(toolbar.status_message, MinerStatusMessage::Submitting(0, 5000));
}

#[test]
fn inactive_miner_drops_the_batch() {
    let miner = Miner::new(2, 5000, PriorityFeeStrategy::Static, 4);
    let msgs = vec![response(25, 1)];
    let mut toolbar = MinerToolbarState::new();
    let action = miner.process_web_worker_results(
        &msgs,
        MinerStatus::NotStarted,
        Some(20),
        None,
        &mut toolbar,
    );
    assert!(matches!(action, BatchAction::Ignore));
}

#[test]
fn estimate_strategy_uses_the_fresh_estimate() {
    assert_eq!(resolve_submit_fee(PriorityFeeStrategy::Estimate, Some(321), 5000), 321);
    // A failed estimate degrades to the configured cap.
    assert_eq!(
        resolve_submit_fee(PriorityFeeStrategy::Estimate, None, 5000),
        1_000_000
    );
    assert_eq!(resolve_submit_fee(PriorityFeeStrategy::Static, Some(321), 5000), 5000);
}

#[test]
fn reset_gate_needs_both_conditions() {
    assert!(should_include_reset(true, 0));
    assert!(!should_include_reset(true, 1));
    assert!(!should_include_reset(true, 99));
    assert!(!should_include_reset(false, 0));
}

#[test]
fn reset_instruction_appears_exactly_once_when_gated_in() {
    let with_reset = mine_instructions(1234, true, 3);
    assert_eq!(
        with_reset,
        vec![
            Ix::ComputeUnitLimit(1_400_000),
            Ix::ComputeUnitPrice(1234),
            Ix::Auth,
            Ix::Reset,
            Ix::Mine(3),
        ]
    );
    let resets = with_reset.iter().filter(|ix| matches!(ix, Ix::Reset)).count();
    assert_eq!(resets, 1);
    let without = mine_instructions(1234, false, 3);
    assert_eq!(
        without,
        vec![
            Ix::ComputeUnitLimit(1_400_000),
            Ix::ComputeUnitPrice(1234),
            Ix::Auth,
            Ix::Mine(3),
        ]
    );
    assert!(without.iter().all(|ix| !matches!(ix, Ix::Reset)));
}

#[test]
fn epoch_reset_becomes_due_inside_the_buffer() {
    // The epoch lasts 300 seconds and the buffer is 5: a reset is due from
    // 295 seconds after the last one.
    assert!(!needs_reset(1000, 1294));
    assert!(needs_reset(1000, 1295));
    assert!(needs_reset(1000, 2000));
}

#[test]
fn cutoff_counts_down_from_the_last_hash() {
    assert_eq!(cutoff_time(100, 130), 30);
    assert_eq!(cutoff_time(100, 100), 60);
    // Once the window has passed the cutoff clamps at zero.
    assert_eq!(cutoff_time(100, 160), 0);
    assert_eq!(cutoff_time(100, 1000), 0);
}

#[test]
fn random_draws_stay_below_their_bounds() {
    for _ in 0..64 {
        assert!(pick_bus() < 8);
        assert!(reset_draw() < 100);
    }
}

#[test]
fn failed_submission_turns_the_toolbar_to_error() {
    let miner = Miner::new(2, 5000, PriorityFeeStrategy::Static, 4);
    let mut toolbar = MinerToolbarState::new();
    toolbar.status = MinerStatus::Active;
    let jobs = miner.on_submit_result(
        &Err(GatewayError::TransactionTimeout),
        MinerStatus::Active,
        None,
        None,
        &mut toolbar,
    );
    assert!(jobs.is_none());
    assert_eq!(toolbar.status, MinerStatus::Error);
    assert_eq!(toolbar.status_message, MinerStatusMessage::Error);
}

#[test]
fn successful_submission_restarts_the_search() {
    let miner = Miner::new(2, 5000, PriorityFeeStrategy::Static, 4);
    let mut toolbar = MinerToolbarState::new();
    toolbar.status = MinerStatus::Active;
    let proof = ProofAccount {
        authority: [0u8; 32],
        balance: 1,
        challenge: [9u8; 32],
        last_hash: [0u8; 32],
        last_hash_at: 100,
        last_stake_at: 0,
        miner: [0u8; 32],
        total_hashes: 10,
        total_rewards: 2,
    };
    let clock = Clock {
        slot: 1,
        epoch_start_timestamp: 0,
        epoch: 1,
        leader_schedule_epoch: 2,
        unix_timestamp: 130,
    };
    let jobs = miner
        .on_submit_result(&Ok(11), MinerStatus::Active, Some(&proof), Some(&clock), &mut toolbar)
        .expect("a new round starts");
    assert_eq!(jobs.len(), 2);
    assert_eq!(jobs[0].challenge, [9u8; 32]);
    assert_eq!(jobs[0].cutoff_time, 30);
    assert_eq!(jobs[0].offset, 0);
    assert_eq!(toolbar.status_message, MinerStatusMessage::Searching);
}

#[test]
fn submit_solution_times_out_like_the_protocol() {
    let mut events = Vec::new();
    for _ in 0..64 {
        events.push(AttemptEvents {
            fee_estimate: None,
            send_ok: false,
            signature: 0,
            confirm_polls: Vec::new(),
        });
    }
    let mut toolbar = MinerToolbarState::new();
    toolbar.status = MinerStatus::Active;
    let r = submit_solution(
        PriorityFeeStrategy::Static,
        5000,
        false,
        true,
        &events,
        &mut toolbar,
    );
    assert_eq!(r, Err(GatewayError::TransactionTimeout));
    assert_eq!(toolbar.status_message, MinerStatusMessage::Submitting(63, 5000));
    // The coordinator surfaces the failure and halts automatic restart.
    let miner = Miner::new(2, 5000, PriorityFeeStrategy::Static, 4);
    let follow_up = miner.on_submit_result(&r, MinerStatus::Active, None, None, &mut toolbar);
    assert!(follow_up.is_none());
    assert_eq!(toolbar.status, MinerStatus::Error);
}

#[test]
fn solution_keeps_its_parts() {
    let s = Solution::new([2u8; 16], [1u8; 8]);
    assert_eq!(s.digest, [2u8; 16]);
    assert_eq!(s.nonce, [1u8; 8]);
}

#[test]
fn activation_starts_the_first_round() {
    let miner = Miner::new(2, 5000, PriorityFeeStrategy::Static, 4);
    let mut toolbar = MinerToolbarState::new();
    toolbar.status = MinerStatus::Active;
    let proof = ProofAccount {
        authority: [0u8; 32],
        balance: 0,
        challenge: [4u8; 32],
        last_hash: [0u8; 32],
        last_hash_at: 500,
        last_stake_at: 0,
        miner: [0u8; 32],
        total_hashes: 0,
        total_rewards: 0,
    };
    let clock = Clock {
        slot: 0,
        epoch_start_timestamp: 0,
        epoch: 0,
        leader_schedule_epoch: 0,
        unix_timestamp: 510,
    };
    let jobs = ore_miner::coordinator::try_start_mining(&miner, &proof, &clock, &mut toolbar);
    assert_eq!(jobs.len(), 2);
    assert_eq!(jobs[0].challenge, [4u8; 32]);
    assert_eq!(jobs[0].cutoff_time, 50);
    assert_eq!(toolbar.status_message, MinerStatusMessage::Searching);
}
