//! Worker protocol and nonce-space partitioning.
//!
//! The coordinator owns a fixed pool of search workers. Each mining round it
//! partitions the 64-bit nonce space evenly across the pool and sends a job
//! to the first `power_level` workers; the others stay idle. Workers answer
//! with their best candidate, and a round is complete once one response per
//! active worker has arrived.
use vstd::prelude::*;
use vstd::arithmetic::div_mod::{lemma_div_non_zero, lemma_fundamental_div_mod, lemma_mod_bound};
use vstd::arithmetic::mul::lemma_mul_inequality;
use crate::num::{sat_mul_u64, spec_sat_mul_u64};

verus! {

/// A candidate answer: the digest/nonce pair that the on-chain program
/// checks against the current challenge.
#[derive(Clone, Copy, Debug, PartialEq, Eq)]
pub struct Solution {
    pub digest: [u8; 16],
    pub nonce: [u8; 8],
}

impl Solution {
    pub fn new(digest: [u8; 16], nonce: [u8; 8]) -> (r: Solution)
        ensures
            r == (Solution { digest, nonce }),
    {
        Solution { digest, nonce }
    }
}

/// One search job, owned exclusively by the worker it is sent to until the
/// worker replies or a new job overwrites it. `power_level` carries the
/// zero-based index of the last active worker, so each response reports the
/// concurrency that was configured when its job was issued.
#[derive(Clone, Copy, Debug)]
pub struct WebWorkerRequest {
    pub challenge: [u8; 32],
    pub nonce_start: u64,
    pub offset: u64,
    pub cutoff_time: u64,
    pub power_level: u64,
}

/// One worker's best-effort result for its assigned nonce range.
#[derive(Clone, Copy, Debug)]
pub struct WebWorkerResponse {
    pub challenge: [u8; 32],
    pub nonce: [u8; 8],
    pub digest: [u8; 16],
    pub difficulty: u32,
    pub hash: [u8; 32],
    pub offset: u64,
    pub power_level: u64,
}

/// Width of one worker's share of the nonce space.
pub open spec fn nonce_step(worker_count: u64) -> u64
    recommends
        worker_count >= 1,
{
    u64::MAX / worker_count
}

/// Nonce at which worker `k`'s share begins (saturating, shifted by the
/// caller's offset).
pub open spec fn spec_nonce_start(k: u64, worker_count: u64, offset: u64) -> u64
    recommends
        worker_count >= 1,
{
    spec_sat_mul_u64(nonce_step(worker_count), k).saturating_add(offset)
}

/// The number of workers that receive a job: the configured power level,
/// capped by the pool size.
pub open spec fn spec_active_workers(power_level: u64, worker_count: u64) -> int {
    if power_level <= worker_count {
        power_level as int
    } else {
        worker_count as int
    }
}

/// The job sent to worker `k` in a round.
pub open spec fn spec_job(
    challenge: [u8; 32],
    offset: u64,
    cutoff_time: u64,
    power_level: u64,
    worker_count: u64,
    k: u64,
) -> WebWorkerRequest {
    WebWorkerRequest {
        challenge,
        nonce_start: spec_nonce_start(k, worker_count, offset),
        offset,
        cutoff_time,
        power_level: (power_level - 1) as u64,
    }
}

/// Partition the nonce space across the pool and build the jobs of one
/// round: one job for each of the first `min(power_level, worker_count)`
/// workers, all sharing the same challenge and cutoff but each with its own
/// nonce start.
pub fn dispatch_jobs(
    challenge: &[u8; 32],
    offset: u64,
    cutoff_time: u64,
    power_level: u64,
    worker_count: u64,
) -> (jobs: Vec<WebWorkerRequest>)
    requires
        1 <= power_level,
        1 <= worker_count,
    ensures
        jobs@.len() == spec_active_workers(power_level, worker_count),
        forall|k: int|
            0 <= k < jobs@.len() ==> jobs@[k] == spec_job(
                *challenge,
                offset,
                cutoff_time,
                power_level,
                worker_count,
                k as u64,
            ),
{
    let active: u64 = if power_level <= worker_count {
        power_level
    } else {
        worker_count
    };
    let step: u64 = u64::MAX / worker_count;
    let mut jobs: Vec<WebWorkerRequest> = Vec::new();
    let mut i: u64 = 0;
    while i < active
        invariant
            0 <= i <= active,
            active == spec_active_workers(power_level, worker_count),
            step == nonce_step(worker_count),
            power_level >= 1,
            worker_count >= 1,
            jobs@.len() == i,
            forall|k: int|
                0 <= k < i ==> jobs@[k] == spec_job(
                    *challenge,
                    offset,
                    cutoff_time,
                    power_level,
                    worker_count,
                    k as u64,
                ),
        decreases active - i,
    {
        let nonce_start = sat_mul_u64(step, i).saturating_add(offset);
        jobs.push(
            WebWorkerRequest {
                challenge: *challenge,
                nonce_start,
                offset,
                cutoff_time,
                power_level: power_level - 1,
            },
        );
        i = i + 1;
    }
    jobs
}

/// Start (inclusive) of worker `k`'s nonce range, as an unbounded integer.
pub open spec fn range_lo(k: int, worker_count: u64) -> int {
    nonce_step(worker_count) * k
}

/// End (exclusive) of worker `k`'s nonce range. The last worker's range
/// runs to the top of the 64-bit space, so a full-pool dispatch leaves no
/// nonce unassigned.
pub open spec fn range_hi(k: int, worker_count: u64) -> int {
    if k == worker_count - 1 {
        u64::MAX as int + 1
    } else {
        nonce_step(worker_count) * (k + 1)
    }
}

/// The product `nonce_step(w) * k` never overflows for a worker index
/// `k < w`, so the saturating arithmetic in `dispatch_jobs` computes the
/// exact start `nonce_step(w) * k + offset` wherever that sum has a 64-bit
/// value; beyond the top of the space, where the idealized formula has no
/// 64-bit value, the start saturates at the maximum nonce.
pub proof fn lemma_nonce_start_exact(k: u64, worker_count: u64, offset: u64)
    requires
        1 <= worker_count,
        k < worker_count,
    ensures
        range_lo(k as int, worker_count) + offset <= u64::MAX ==> spec_nonce_start(
            k,
            worker_count,
            offset,
        ) == range_lo(k as int, worker_count) + offset,
        range_lo(k as int, worker_count) + offset > u64::MAX ==> spec_nonce_start(
            k,
            worker_count,
            offset,
        ) == u64::MAX,
{
    let step = nonce_step(worker_count) as int;
    lemma_fundamental_div_mod(u64::MAX as int, worker_count as int);
    lemma_mod_bound(u64::MAX as int, worker_count as int);
    lemma_mul_inequality(k as int, worker_count as int - 1, step);
    lemma_mul_inequality(worker_count as int - 1, worker_count as int, step);
    assert(step * k <= step * (worker_count - 1)) by {
        lemma_mul_inequality(k as int, worker_count as int - 1, step);
    }
    assert(step * worker_count <= u64::MAX as int);
    assert(spec_sat_mul_u64(nonce_step(worker_count), k) == step * k);
}

/// Jobs of one round search pairwise disjoint nonce ranges: the ranges of
/// two distinct workers never overlap, whatever the power level.
pub proof fn lemma_dispatch_ranges_disjoint(worker_count: u64)
    requires
        1 <= worker_count,
    ensures
        forall|k1: int, k2: int|
            0 <= k1 < k2 < worker_count ==> range_hi(k1, worker_count) <= range_lo(
                k2,
                worker_count,
            ),
{
    let step = nonce_step(worker_count) as int;
    assert forall|k1: int, k2: int| 0 <= k1 < k2 < worker_count implies range_hi(
        k1,
        worker_count,
    ) <= range_lo(k2, worker_count) by {
        lemma_mul_inequality(k1 + 1, k2, step);
    }
}

/// The worker whose range holds the nonce `n`: its position in the even
/// partition, capped at the last worker.
pub open spec fn covering_worker(n: int, worker_count: u64) -> int
    recommends
        worker_count >= 1,
{
    let q = n / (nonce_step(worker_count) as int);
    if q < worker_count - 1 {
        q
    } else {
        worker_count as int - 1
    }
}

/// With every worker of the pool active, the union of the assigned nonce
/// ranges is the whole 64-bit space: every nonce falls in the range of
/// `covering_worker`, no two ranges overlap, and no range is empty.
pub proof fn lemma_dispatch_partition(worker_count: u64)
    requires
        1 <= worker_count,
    ensures
        forall|k1: int, k2: int|
            0 <= k1 < k2 < worker_count ==> range_hi(k1, worker_count) <= range_lo(
                k2,
                worker_count,
            ),
        forall|n: int|
            0 <= n <= u64::MAX ==> {
                let k = #[trigger] covering_worker(n, worker_count);
                &&& 0 <= k < worker_count
                &&& range_lo(k, worker_count) <= n < range_hi(k, worker_count)
            },
        forall|k: int|
            0 <= k < worker_count ==> range_lo(k, worker_count) < range_hi(k, worker_count),
{
    let w = worker_count as int;
    let step = nonce_step(worker_count) as int;
    lemma_fundamental_div_mod(u64::MAX as int, w);
    lemma_mod_bound(u64::MAX as int, w);
    lemma_div_non_zero(u64::MAX as int, w);
    assert(step >= 1);
    lemma_dispatch_ranges_disjoint(worker_count);
    assert(step == u64::MAX as int / w);
    assert(u64::MAX as int == w * step + u64::MAX as int % w);
    assert(w * step <= u64::MAX as int);
    assert forall|k: int| 0 <= k < worker_count implies range_lo(k, worker_count) < range_hi(
        k,
        worker_count,
    ) by {
        assert(range_lo(k, worker_count) == step * k);
        if k < w - 1 {
            assert(step * (k + 1) == step * k + step) by {
                vstd::arithmetic::mul::lemma_mul_is_distributive_add(step, k, 1);
            }
            assert(range_hi(k, worker_count) == step * (k + 1));
        } else {
            assert(k == w - 1);
            assert(step * k <= step * w) by {
                lemma_mul_inequality(k, w, step);
            }
            assert(step * w == w * step);
            assert(step * k <= u64::MAX as int);
            assert(range_hi(k, worker_count) == u64::MAX as int + 1);
        }
    }
    assert forall|n: int| 0 <= n <= u64::MAX implies {
        let k = #[trigger] covering_worker(n, worker_count);
        &&& 0 <= k < worker_count
        &&& range_lo(k, worker_count) <= n < range_hi(k, worker_count)
    } by {
        lemma_fundamental_div_mod(n, step);
        lemma_mod_bound(n, step);
        let q = n / step;
        let k = covering_worker(n, worker_count);
        if q < w - 1 {
            assert(step * (q + 1) == step * q + step) by {
                vstd::arithmetic::mul::lemma_mul_is_distributive_add(step, q, 1);
            }
            assert(range_lo(k, worker_count) <= n < range_hi(k, worker_count));
        } else {
            lemma_mul_inequality(w - 1, q, step);
            assert(step * q <= n);
            assert(range_lo(k, worker_count) <= n < range_hi(k, worker_count));
        }
    }
}

/// The index of the batch winner: the first response that attains the
/// maximum difficulty of the batch.
pub open spec fn is_first_max(msgs: Seq<WebWorkerResponse>, i: int) -> bool {
    &&& 0 <= i < msgs.len()
    &&& forall|j: int| 0 <= j < msgs.len() ==> msgs[j].difficulty <= msgs[i].difficulty
    &&& forall|j: int| 0 <= j < i ==> msgs[j].difficulty < msgs[i].difficulty
}

/// Select the batch winner: the response with the maximum difficulty, ties
/// broken in favour of the first-seen response.
pub fn select_best(msgs: &Vec<WebWorkerResponse>) -> (best: usize)
    requires
        msgs@.len() >= 1,
    ensures
        is_first_max(msgs@, best as int),
{
    let mut best: usize = 0;
    let mut i: usize = 1;
    while i < msgs.len()
        invariant
            1 <= i <= msgs@.len(),
            0 <= best < i,
            forall|j: int| 0 <= j < i ==> msgs@[j].difficulty <= msgs@[best as int].difficulty,
            forall|j: int| 0 <= j < best ==> msgs@[j].difficulty < msgs@[best as int].difficulty,
        decreases msgs@.len() - i,
    {
        if msgs[i].difficulty > msgs[best].difficulty {
            best = i;
        }
        i = i + 1;
    }
    best
}

/// The winner of a batch is deterministic: there is exactly one first
/// maximum, so the selection depends only on message arrival order.
pub proof fn lemma_first_max_unique(msgs: Seq<WebWorkerResponse>, i: int, j: int)
    requires
        is_first_max(msgs, i),
        is_first_max(msgs, j),
    ensures
        i == j,
{
    if i < j {
        assert(msgs[i].difficulty < msgs[j].difficulty);
        assert(msgs[j].difficulty <= msgs[i].difficulty);
    } else if j < i {
        assert(msgs[j].difficulty < msgs[i].difficulty);
        assert(msgs[i].difficulty <= msgs[j].difficulty);
    }
}

/// Accumulates worker responses until the round boundary. The number of
/// currently active workers is tracked as one plus the minimum zero-based
/// `power_level` seen across responses, which tolerates a mid-round
/// reconfiguration.
pub struct WorkerBatch {
    pub messages: Vec<WebWorkerResponse>,
    pub min_power: u64,
}

impl WorkerBatch {
    /// True once one response per active worker has been collected.
    pub open spec fn round_complete(&self) -> bool {
        self.messages@.len() > self.min_power
    }

    pub fn new() -> (r: WorkerBatch)
        ensures
            r.messages@.len() == 0,
            r.min_power == u64::MAX,
    {
        WorkerBatch { messages: Vec::new(), min_power: u64::MAX }
    }

    /// Record one worker response; reports whether the round is complete.
    pub fn push(&mut self, msg: WebWorkerResponse) -> (complete: bool)
        ensures
            final (self).messages@ == old(self).messages@.push(msg),
            final (self).min_power == if msg.power_level < old(self).min_power {
                msg.power_level
            } else {
                old(self).min_power
            },
            complete == final (self).round_complete(),
    {
        if msg.power_level < self.min_power {
            self.min_power = msg.power_level;
        }
        self.messages.push(msg);
        (self.messages.len() as u64) > self.min_power
    }

    /// Take the aggregated batch and start collecting the next round.
    pub fn drain(&mut self) -> (msgs: Vec<WebWorkerResponse>)
        ensures
            msgs@ == old(self).messages@,
            final (self).messages@.len() == 0,
            final (self).min_power == old(self).min_power,
    {
        let mut taken: Vec<WebWorkerResponse> = Vec::new();
        core::mem::swap(&mut taken, &mut self.messages);
        taken
    }
}

} // verus!
