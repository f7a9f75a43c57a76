//! The mining coordinator: dispatch search jobs, evaluate each aggregated
//! batch against the live chain configuration, and either re-issue the
//! search or submit the winning solution.
use vstd::prelude::*;
use rand::Rng;
use crate::accounts::{Clock, ProofAccount};
use crate::errors::GatewayError;
use crate::num::{sat_add_i64, sat_sub_i64, spec_sat_add_i64, spec_sat_sub_i64};
use crate::settings::PRIORITY_FEE_CAP;
use crate::strategy::PriorityFeeStrategy;
use crate::submit::{send_and_confirm, AttemptEvents, Ix, CU_LIMIT_MINE};
use crate::toolbar::{
    MinerStatus, MinerStatusMessage, MinerToolbarState, UpdateMinerToolbarState,
};
use crate::worker::{
    dispatch_jobs, is_first_max, select_best, spec_active_workers, spec_job, WebWorkerRequest,
    WebWorkerResponse,
};

verus! {

/// Number of parallel accumulator buses the program spreads writes across.
pub const BUS_COUNT: u64 = 8;

/// Duration of one program epoch, in seconds.
pub const EPOCH_DURATION: i64 = 300;

/// Seconds of slack before the epoch end at which a reset is considered due.
pub const RESET_BUFFER: i64 = 5;

/// Seconds a challenge stays valid after the proof's last hash.
pub const CUTOFF_WINDOW: i64 = 60;

/// One in this many submissions includes a reset instruction when the epoch
/// has elapsed, so concurrent miners do not all race the same reset window.
pub const RESET_DRAW_BOUND: u64 = 100;

/// Relies on `rand::Rng::gen_range` on `rand::thread_rng`: the draw lies
/// below the bound; nothing more is assumed of it.
#[verifier::external_body]
fn random_below(n: u64) -> (r: u64)
    requires
        1 <= n,
    ensures
        r < n,
{
    rand::thread_rng().gen_range(0..n)
}

/// Draw the bus the next mine instruction writes through.
pub fn pick_bus() -> (r: u64)
    ensures
        r < BUS_COUNT,
{
    random_below(BUS_COUNT)
}

/// Draw the random value that decides whether a reset instruction goes in.
pub fn reset_draw() -> (r: u64)
    ensures
        r < RESET_DRAW_BOUND,
{
    random_below(RESET_DRAW_BOUND)
}

/// The epoch has elapsed (within the buffer), so a reset instruction is due.
pub fn needs_reset(last_reset_at: i64, now: i64) -> (r: bool)
    ensures
        r == (spec_sat_sub_i64(spec_sat_add_i64(last_reset_at, EPOCH_DURATION), RESET_BUFFER)
            <= now),
{
    sat_sub_i64(sat_add_i64(last_reset_at, EPOCH_DURATION), RESET_BUFFER) <= now
}

/// A reset instruction goes in exactly when the epoch has elapsed and the
/// low-probability draw hit.
pub fn should_include_reset(reset_needed: bool, draw: u64) -> (r: bool)
    ensures
        r == (reset_needed && draw == 0),
{
    reset_needed && draw == 0
}

/// Seconds left to search: the challenge window measured from the proof's
/// last hash, clamped at zero once the window has passed.
pub open spec fn spec_cutoff_time(last_hash_at: i64, now: i64) -> u64 {
    let d = spec_sat_sub_i64(spec_sat_add_i64(last_hash_at, CUTOFF_WINDOW), now);
    if d > 0 {
        d as u64
    } else {
        0
    }
}

/// Compute the search cutoff for a fresh challenge.
pub fn cutoff_time(last_hash_at: i64, now: i64) -> (r: u64)
    ensures
        r == spec_cutoff_time(last_hash_at, now),
{
    let d = sat_sub_i64(sat_add_i64(last_hash_at, CUTOFF_WINDOW), now);
    if d > 0 {
        d as u64
    } else {
        0
    }
}

/// The instructions of one mine transaction: compute-unit limit and price,
/// the auth instruction, the reset instruction exactly when gated in, and
/// the mine instruction through the drawn bus.
pub fn mine_instructions(priority_fee: u64, include_reset: bool, bus_id: u64) -> (r: Vec<Ix>)
    ensures
        include_reset ==> r@ == seq![
            Ix::ComputeUnitLimit(CU_LIMIT_MINE),
            Ix::ComputeUnitPrice(priority_fee),
            Ix::Auth,
            Ix::Reset,
            Ix::Mine(bus_id),
        ],
        !include_reset ==> r@ == seq![
            Ix::ComputeUnitLimit(CU_LIMIT_MINE),
            Ix::ComputeUnitPrice(priority_fee),
            Ix::Auth,
            Ix::Mine(bus_id),
        ],
        forall|i: int, j: int|
            0 <= i < j < r@.len() && r@[i] is Reset ==> !(r@[j] is Reset),
        include_reset <==> exists|i: int| 0 <= i < r@.len() && (#[trigger] r@[i]) is Reset,
{
    let mut ixs: Vec<Ix> = Vec::new();
    ixs.push(Ix::ComputeUnitLimit(CU_LIMIT_MINE));
    ixs.push(Ix::ComputeUnitPrice(priority_fee));
    ixs.push(Ix::Auth);
    if include_reset {
        ixs.push(Ix::Reset);
    }
    ixs.push(Ix::Mine(bus_id));
    proof {
        if include_reset {
            assert(ixs@ =~= seq![
                Ix::ComputeUnitLimit(CU_LIMIT_MINE),
                Ix::ComputeUnitPrice(priority_fee),
                Ix::Auth,
                Ix::Reset,
                Ix::Mine(bus_id),
            ]);
            assert(ixs@[3] is Reset);
        } else {
            assert(ixs@ =~= seq![
                Ix::ComputeUnitLimit(CU_LIMIT_MINE),
                Ix::ComputeUnitPrice(priority_fee),
                Ix::Auth,
                Ix::Mine(bus_id),
            ]);
        }
    }
    ixs
}

/// The fee a submission uses: a fresh estimate under the estimate strategy
/// (falling back to the cap when estimation failed), the user-set value
/// under the static strategy.
pub open spec fn spec_resolve_submit_fee(
    strategy: PriorityFeeStrategy,
    fee_estimate: Option<u64>,
    static_fee: u64,
) -> u64 {
    match strategy {
        PriorityFeeStrategy::Estimate => match fee_estimate {
            Some(f) => f,
            None => PRIORITY_FEE_CAP,
        },
        PriorityFeeStrategy::Static => static_fee,
    }
}

/// Resolve the fee of one submission.
pub fn resolve_submit_fee(
    strategy: PriorityFeeStrategy,
    fee_estimate: Option<u64>,
    static_fee: u64,
) -> (r: u64)
    ensures
        r == spec_resolve_submit_fee(strategy, fee_estimate, static_fee),
{
    match strategy {
        PriorityFeeStrategy::Estimate => match fee_estimate {
            Some(f) => f,
            None => PRIORITY_FEE_CAP,
        },
        PriorityFeeStrategy::Static => static_fee,
    }
}

/// The index of the batch winner, where one exists.
pub open spec fn first_max_index(msgs: Seq<WebWorkerResponse>) -> int {
    choose|i: int| is_first_max(msgs, i)
}

/// What the coordinator decides to do with an aggregated batch.
#[derive(Clone, Copy, Debug)]
pub enum BatchAction {
    /// The miner is no longer active: drop the batch.
    Ignore,
    /// The winner is below the chain's minimum difficulty: search the same
    /// challenge again, without time pressure.
    Redispatch { challenge: [u8; 32], offset: u64, cutoff_time: u64 },
    /// Submit the winning response with the resolved fee.
    Submit { winner: usize, priority_fee: u64 },
}

/// The mining coordinator: owns the worker pool configuration and decides
/// what each aggregated batch leads to.
pub struct Miner {
    /// How many workers receive jobs, user-configured, at least one.
    pub power_level: u64,
    /// The user-set priority fee, in microlamports.
    pub priority_fee: u64,
    /// The user-configured fee policy.
    pub priority_fee_strategy: PriorityFeeStrategy,
    /// The size of the worker pool (the hardware thread count).
    pub web_workers: u64,
}

impl Miner {
    pub fn new(
        power_level: u64,
        priority_fee: u64,
        priority_fee_strategy: PriorityFeeStrategy,
        web_workers: u64,
    ) -> (r: Miner)
        ensures
            r == (Miner { power_level, priority_fee, priority_fee_strategy, web_workers }),
    {
        Miner { power_level, priority_fee, priority_fee_strategy, web_workers }
    }

    /// Start a search round: build the jobs of one dispatch.
    pub fn start_mining(&self, challenge: &[u8; 32], offset: u64, cutoff_time: u64) -> (jobs: Vec<
        WebWorkerRequest,
    >)
        requires
            1 <= self.power_level,
            1 <= self.web_workers,
        ensures
            jobs@.len() == spec_active_workers(self.power_level, self.web_workers),
            forall|k: int|
                0 <= k < jobs@.len() ==> jobs@[k] == spec_job(
                    *challenge,
                    offset,
                    cutoff_time,
                    self.power_level,
                    self.web_workers,
                    k as u64,
                ),
    {
        self.start_mining_web(challenge, offset, cutoff_time)
    }

    /// Partition the nonce space and build one job per active worker.
    pub fn start_mining_web(&self, challenge: &[u8; 32], offset: u64, cutoff_time: u64) -> (jobs:
        Vec<WebWorkerRequest>)
        requires
            1 <= self.power_level,
            1 <= self.web_workers,
        ensures
            jobs@.len() == spec_active_workers(self.power_level, self.web_workers),
            forall|k: int|
                0 <= k < jobs@.len() ==> jobs@[k] == spec_job(
                    *challenge,
                    offset,
                    cutoff_time,
                    self.power_level,
                    self.web_workers,
                    k as u64,
                ),
    {
        dispatch_jobs(challenge, offset, cutoff_time, self.power_level, self.web_workers)
    }

    /// Decide what an aggregated batch leads to.
    ///
    /// A batch arriving while the miner is not active is dropped. Otherwise
    /// the first response attaining the maximum difficulty wins; when the
    /// chain's minimum difficulty is known and the winner falls short, the
    /// same challenge is searched again with the cutoff reset to zero and
    /// nothing is submitted. Otherwise the winner is submitted with the fee
    /// the strategy resolves to, and the toolbar shows the winning hash and
    /// a submission just starting.
    pub fn process_web_worker_results(
        &self,
        messages: &Vec<WebWorkerResponse>,
        status: MinerStatus,
        min_difficulty: Option<u64>,
        fee_estimate: Option<u64>,
        toolbar_state: &mut MinerToolbarState,
    ) -> (a: BatchAction)
        requires
            messages@.len() >= 1,
        ensures
            !(status is Active) ==> a is Ignore && *final (toolbar_state) == *old(toolbar_state),
            status is Active ==> ({
                let i = first_max_index(messages@);
                let best = messages@[i];
                &&& is_first_max(messages@, i)
                &&& if min_difficulty is Some && (best.difficulty as u64) < min_difficulty->0 {
                    &&& a == (BatchAction::Redispatch {
                        challenge: best.challenge,
                        offset: best.offset,
                        cutoff_time: 0u64,
                    })
                    &&& *final (toolbar_state) == *old(toolbar_state)
                } else {
                    let fee = spec_resolve_submit_fee(
                        self.priority_fee_strategy,
                        fee_estimate,
                        self.priority_fee,
                    );
                    &&& a == (BatchAction::Submit { winner: i as usize, priority_fee: fee })
                    &&& final (toolbar_state).display_hash == best.hash
                    &&& final (toolbar_state).status_message == MinerStatusMessage::Submitting(
                        0,
                        fee,
                    )
                    &&& final (toolbar_state).published@ == old(
                        toolbar_state,
                    ).published@.push(MinerStatusMessage::Submitting(0, fee))
                    &&& final (toolbar_state).status == old(toolbar_state).status
                    &&& final (toolbar_state).escrow_address == old(toolbar_state).escrow_address
                    &&& final (toolbar_state).is_open == old(toolbar_state).is_open
                }
            }),
    {
        match status {
            MinerStatus::Active => {},
            _ => {
                return BatchAction::Ignore;
            },
        }
        let winner = select_best(messages);
        proof {
            assert(is_first_max(messages@, winner as int));
            assert(is_first_max(messages@, first_max_index(messages@)));
            crate::worker::lemma_first_max_unique(
                messages@,
                winner as int,
                first_max_index(messages@),
            );
        }
        let best_difficulty = messages[winner].difficulty;
        if let Some(md) = min_difficulty {
            if (best_difficulty as u64) < md {
                return BatchAction::Redispatch {
                    challenge: messages[winner].challenge,
                    offset: messages[winner].offset,
                    cutoff_time: 0,
                };
            }
        }
        let fee = resolve_submit_fee(self.priority_fee_strategy, fee_estimate, self.priority_fee);
        toolbar_state.set_display_hash(messages[winner].hash);
        toolbar_state.set_status_message(MinerStatusMessage::Submitting(0, fee));
        BatchAction::Submit { winner, priority_fee: fee }
    }

    /// React to the outcome of a submission.
    ///
    /// On success, when the miner is still active and the refreshed proof
    /// and clock are at hand, show the search message again and start the
    /// next round on the new challenge with a fresh cutoff; without them,
    /// no round starts. On failure the status turns to error and automatic
    /// restart halts.
    pub fn on_submit_result(
        &self,
        submitted: &Result<u64, GatewayError>,
        status: MinerStatus,
        proof_account: Option<&ProofAccount>,
        clock: Option<&Clock>,
        toolbar_state: &mut MinerToolbarState,
    ) -> (jobs: Option<Vec<WebWorkerRequest>>)
        requires
            1 <= self.power_level,
            1 <= self.web_workers,
        ensures
            submitted is Err ==> ({
                &&& jobs is None
                &&& final (toolbar_state).status == MinerStatus::Error
                &&& final (toolbar_state).status_message == MinerStatusMessage::Error
                &&& final (toolbar_state).published@ == old(toolbar_state).published@.push(
                    MinerStatusMessage::Error,
                )
                &&& final (toolbar_state).display_hash == old(toolbar_state).display_hash
                &&& final (toolbar_state).escrow_address == old(toolbar_state).escrow_address
                &&& final (toolbar_state).is_open == old(toolbar_state).is_open
            }),
            submitted is Ok && !(status is Active) ==> jobs is None && *final (toolbar_state)
                == *old(toolbar_state),
            submitted is Ok && status is Active && (proof_account is None || clock is None)
                ==> jobs is None && *final (toolbar_state) == *old(toolbar_state),
            submitted is Ok && status is Active && proof_account is Some && clock is Some ==> ({
                let p = *proof_account->0;
                let c = *clock->0;
                let cutoff = spec_cutoff_time(p.last_hash_at, c.unix_timestamp);
                &&& final (toolbar_state).status_message == MinerStatusMessage::Searching
                &&& final (toolbar_state).published@ == old(toolbar_state).published@.push(
                    MinerStatusMessage::Searching,
                )
                &&& final (toolbar_state).status == old(toolbar_state).status
                &&& final (toolbar_state).display_hash == old(toolbar_state).display_hash
                &&& final (toolbar_state).escrow_address == old(toolbar_state).escrow_address
                &&& final (toolbar_state).is_open == old(toolbar_state).is_open
                &&& jobs matches Some(js) && js@.len() == spec_active_workers(
                    self.power_level,
                    self.web_workers,
                ) && forall|k: int|
                    0 <= k < js@.len() ==> js@[k] == spec_job(
                        p.challenge,
                        0u64,
                        cutoff,
                        self.power_level,
                        self.web_workers,
                        k as u64,
                    )
            }),
    {
        match submitted {
            Ok(_) => {
                match status {
                    MinerStatus::Active => {},
                    _ => {
                        return None;
                    },
                }
                match (proof_account, clock) {
                    (Some(p), Some(c)) => {
                        toolbar_state.set_status_message(MinerStatusMessage::Searching);
                        let cutoff = cutoff_time(p.last_hash_at, c.unix_timestamp);
                        Some(self.start_mining(&p.challenge, 0, cutoff))
                    },
                    _ => None,
                }
            },
            Err(_) => {
                toolbar_state.set_status(MinerStatus::Error);
                toolbar_state.set_status_message(MinerStatusMessage::Error);
                None
            },
        }
    }
}

/// Submit a winning solution: build the mine transaction's instructions
/// (gating the reset instruction on the epoch check and the random draw)
/// and drive the submission protocol over the attempt events.
pub fn submit_solution(
    priority_fee_strategy: PriorityFeeStrategy,
    priority_fee: u64,
    reset_needed: bool,
    is_default_rpc: bool,
    events: &Vec<AttemptEvents>,
    toolbar_state: &mut MinerToolbarState,
) -> (r: Result<u64, GatewayError>)
    requires
        events@.len() >= crate::submit::GATEWAY_RETRIES,
    ensures
        ({
            let outcome = crate::submit::spec_protocol(
                events@,
                0,
                priority_fee,
                priority_fee_strategy,
                false,
            );
            &&& r == outcome.result
            &&& final (toolbar_state).status_message == MinerStatusMessage::Submitting(
                outcome.attempt,
                outcome.fee,
            )
            &&& final (toolbar_state).published@ == old(toolbar_state).published@
                + outcome.published
        }),
        final (toolbar_state).status == old(toolbar_state).status,
        final (toolbar_state).display_hash == old(toolbar_state).display_hash,
        final (toolbar_state).escrow_address == old(toolbar_state).escrow_address,
        final (toolbar_state).is_open == old(toolbar_state).is_open,
{
    let draw = reset_draw();
    let include_reset = should_include_reset(reset_needed, draw);
    let bus_id = pick_bus();
    let ixs = mine_instructions(priority_fee, include_reset, bus_id);
    send_and_confirm(
        &ixs,
        priority_fee_strategy,
        priority_fee,
        false,
        is_default_rpc,
        events,
        toolbar_state,
    )
}

/// Begin a mining session once the proof account is open: publish the
/// search message and build the first round's jobs on the current
/// challenge, with the cutoff measured from the proof's last hash.
pub fn try_start_mining(
    miner: &Miner,
    proof_account: &ProofAccount,
    clock: &Clock,
    toolbar_state: &mut MinerToolbarState,
) -> (jobs: Vec<WebWorkerRequest>)
    requires
        1 <= miner.power_level,
        1 <= miner.web_workers,
    ensures
        final (toolbar_state).status_message == MinerStatusMessage::Searching,
        final (toolbar_state).published@ == old(toolbar_state).published@.push(
            MinerStatusMessage::Searching,
        ),
        final (toolbar_state).status == old(toolbar_state).status,
        final (toolbar_state).display_hash == old(toolbar_state).display_hash,
        final (toolbar_state).escrow_address == old(toolbar_state).escrow_address,
        final (toolbar_state).is_open == old(toolbar_state).is_open,
        jobs@.len() == spec_active_workers(miner.power_level, miner.web_workers),
        forall|k: int|
            0 <= k < jobs@.len() ==> jobs@[k] == spec_job(
                proof_account.challenge,
                0u64,
                spec_cutoff_time(proof_account.last_hash_at, clock.unix_timestamp),
                miner.power_level,
                miner.web_workers,
                k as u64,
            ),
{
    let cutoff = cutoff_time(proof_account.last_hash_at, clock.unix_timestamp);
    toolbar_state.set_status_message(MinerStatusMessage::Searching);
    miner.start_mining(&proof_account.challenge, 0, cutoff)
}

} // verus!
