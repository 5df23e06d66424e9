//! The pruner: decides, segment by segment, up to which height historical data
//! may be deleted. It never reaches above `tip - max_reorg_depth`, nor above the
//! height every live extension has finished.

use crate::exex::FinishedExExHeight;
use vstd::prelude::*;

verus! {

/// A kind of historical data that is pruned on its own.
#[derive(Clone, Copy, Debug, PartialEq, Eq)]
pub enum PruneSegment {
    SenderRecovery,
    TransactionLookup,
    Receipts,
    AccountHistory,
    StorageHistory,
}

/// A segment's retention policy.
#[derive(Clone, Copy, Debug, PartialEq, Eq)]
pub enum PruneMode {
    /// Keep nothing that the floors allow deleting.
    Full,
    /// Keep the last `n` blocks: delete up to `tip - n`.
    Distance(u64),
    /// Delete the blocks below this height.
    Before(u64),
}

/// The retention policy and progress of one segment.
#[derive(Clone, Copy, Debug, PartialEq, Eq)]
pub struct SegmentState {
    pub segment: PruneSegment,
    pub mode: PruneMode,
    /// The highest height deleted so far.
    pub last_pruned: Option<u64>,
}

/// One deletion to run: the segment at `index` from `from` up to `to`, inclusive.
#[derive(Clone, Copy, Debug, PartialEq, Eq)]
pub struct PruneJob {
    pub index: usize,
    pub segment: PruneSegment,
    pub from: u64,
    pub to: u64,
}

/// The highest height a policy alone allows deleting at `tip`.
pub open spec fn mode_limit(mode: PruneMode, tip: u64) -> Option<u64> {
    match mode {
        PruneMode::Full => Some(tip),
        PruneMode::Distance(n) => if tip >= n { Some((tip - n) as u64) } else { None },
        PruneMode::Before(h) => if h > 0 { Some((h - 1) as u64) } else { None },
    }
}

/// The highest height that may be deleted: the lowest of what the policy, the
/// reorg floor and the extensions allow; `None` when one of them allows nothing.
pub open spec fn prune_target_spec(
    mode: PruneMode,
    tip: u64,
    max_reorg_depth: u64,
    exex: FinishedExExHeight,
) -> Option<u64> {
    if tip < max_reorg_depth {
        None
    } else {
        let reorg = (tip - max_reorg_depth) as u64;
        match (mode_limit(mode, tip), exex) {
            (None, _) => None,
            (_, FinishedExExHeight::NotReady) => None,
            (Some(m), FinishedExExHeight::NoExExs) => Some(if m < reorg { m } else { reorg }),
            (Some(m), FinishedExExHeight::Height(h)) => {
                let a = if m < reorg { m } else { reorg };
                Some(if a < h { a } else { h })
            },
        }
    }
}

/// The highest height that may be deleted for a segment under `mode` at `tip`.
pub fn prune_target(mode: PruneMode, tip: u64, max_reorg_depth: u64, exex: FinishedExExHeight) -> (r: Option<u64>)
    ensures
        r == prune_target_spec(mode, tip, max_reorg_depth, exex),
        r matches Some(t) ==> t + max_reorg_depth <= tip,
        r matches Some(t) ==> match exex {
            FinishedExExHeight::Height(h) => t <= h,
            FinishedExExHeight::NotReady => false,
            FinishedExExHeight::NoExExs => true,
        },
{
    if tip < max_reorg_depth {
        return None;
    }
    let reorg = tip - max_reorg_depth;
    let m = match mode {
        PruneMode::Full => tip,
        PruneMode::Distance(n) => {
            if tip >= n {
                tip - n
            } else {
                return None;
            }
        },
        PruneMode::Before(h) => {
            if h > 0 {
                h - 1
            } else {
                return None;
            }
        },
    };
    let a = if m < reorg { m } else { reorg };
    match exex {
        FinishedExExHeight::NotReady => None,
        FinishedExExHeight::NoExExs => Some(a),
        FinishedExExHeight::Height(h) => Some(if a < h { a } else { h }),
    }
}

/// The job for a segment, if its target lies above what it already deleted.
pub open spec fn job_spec(
    index: usize,
    s: SegmentState,
    tip: u64,
    max_reorg_depth: u64,
    exex: FinishedExExHeight,
) -> Option<PruneJob> {
    match prune_target_spec(s.mode, tip, max_reorg_depth, exex) {
        None => None,
        Some(t) => match s.last_pruned {
            None => Some(PruneJob { index, segment: s.segment, from: 0, to: t }),
            Some(l) => if l < t {
                Some(PruneJob { index, segment: s.segment, from: (l + 1) as u64, to: t })
            } else {
                None
            },
        },
    }
}

/// The jobs for the first `n` segments, in segment order.
pub open spec fn jobs_spec(
    segments: Seq<SegmentState>,
    n: int,
    tip: u64,
    max_reorg_depth: u64,
    exex: FinishedExExHeight,
) -> Seq<PruneJob>
    decreases n,
{
    if n <= 0 {
        Seq::empty()
    } else {
        let rest = jobs_spec(segments, n - 1, tip, max_reorg_depth, exex);
        match job_spec((n - 1) as usize, segments[n - 1], tip, max_reorg_depth, exex) {
            Some(j) => rest.push(j),
            None => rest,
        }
    }
}

/// The pruner.
#[derive(Debug)]
pub struct Pruner {
    pub segments: Vec<SegmentState>,
    pub max_reorg_depth: u64,
    /// Blocks between two runs.
    pub block_interval: u64,
    /// The tip of the last run.
    pub previous_tip: Option<u64>,
}

impl Pruner {
    /// A pruner that has not run yet.
    pub fn new(segments: Vec<SegmentState>, max_reorg_depth: u64, block_interval: u64) -> (r: Pruner)
        ensures
            r.segments@ == segments@,
            r.max_reorg_depth == max_reorg_depth,
            r.block_interval == block_interval,
            r.previous_tip is None,
    {
        Pruner { segments, max_reorg_depth, block_interval, previous_tip: None }
    }

    /// Whether a run is due at `tip`: on the first run, and once the tip has
    /// moved `block_interval` blocks past the last run's.
    pub fn is_pruning_needed(&self, tip: u64) -> (r: bool)
        ensures
            r == match self.previous_tip {
                None => true,
                Some(p) => tip >= p && tip - p >= self.block_interval,
            },
    {
        match self.previous_tip {
            None => true,
            Some(p) => tip >= p && tip - p >= self.block_interval,
        }
    }

    /// The jobs of a run at `tip`, one per segment with something to delete,
    /// in segment order; records `tip` as the last run's.
    pub fn run(&mut self, tip: u64, exex: FinishedExExHeight) -> (r: Vec<PruneJob>)
        ensures
            r@ == jobs_spec(old(self).segments@, old(self).segments@.len() as int, tip, old(self).max_reorg_depth, exex),
            final(self).segments == old(self).segments,
            final(self).max_reorg_depth == old(self).max_reorg_depth,
            final(self).block_interval == old(self).block_interval,
            final(self).previous_tip == Some(tip),
    {
        let mut jobs: Vec<PruneJob> = Vec::new();
        let mut i: usize = 0;
        while i < self.segments.len()
            invariant
                i <= self.segments@.len(),
                jobs@ == jobs_spec(self.segments@, i as int, tip, self.max_reorg_depth, exex),
                self.segments == old(self).segments,
                self.max_reorg_depth == old(self).max_reorg_depth,
                self.block_interval == old(self).block_interval,
                self.previous_tip == old(self).previous_tip,
            decreases self.segments@.len() - i,
        {
            let s = self.segments[i];
            match prune_target(s.mode, tip, self.max_reorg_depth, exex) {
                None => {},
                Some(t) => match s.last_pruned {
                    None => {
                        jobs.push(PruneJob { index: i, segment: s.segment, from: 0, to: t });
                    },
                    Some(l) => {
                        if l < t {
                            jobs.push(PruneJob { index: i, segment: s.segment, from: l + 1, to: t });
                        }
                    },
                },
            }
            i = i + 1;
        }
        self.previous_tip = Some(tip);
        jobs
    }

    /// Records how a job ended: on success the segment's progress moves to the
    /// job's end; a failure changes nothing, so the next run tries again.
    pub fn on_job_done(&mut self, job: &PruneJob, succeeded: bool)
        ensures
            final(self).max_reorg_depth == old(self).max_reorg_depth,
            final(self).block_interval == old(self).block_interval,
            final(self).previous_tip == old(self).previous_tip,
            final(self).segments@.len() == old(self).segments@.len(),
            succeeded && job.index < old(self).segments@.len() ==> final(self).segments@
                == old(self).segments@.update(
                job.index as int,
                SegmentState { last_pruned: Some(job.to), ..old(self).segments@[job.index as int] },
            ),
            !succeeded || job.index >= old(self).segments@.len() ==> final(self).segments == old(self).segments,
    {
        if succeeded && job.index < self.segments.len() {
            let s = self.segments[job.index];
            self.segments.set(job.index, SegmentState { last_pruned: Some(job.to), ..s });
        }
    }
}

/// No job of a run deletes data above `tip - max_reorg_depth`, nor above the
/// height every live extension has finished, and none runs while some
/// extension has not finished any height.
pub proof fn lemma_jobs_respect_floors(
    segments: Seq<SegmentState>,
    n: int,
    tip: u64,
    max_reorg_depth: u64,
    exex: FinishedExExHeight,
)
    requires
        0 <= n <= segments.len(),
    ensures
        forall|k: int|
            0 <= k < jobs_spec(segments, n, tip, max_reorg_depth, exex).len() ==> {
                let j = #[trigger] jobs_spec(segments, n, tip, max_reorg_depth, exex)[k];
                &&& j.from <= j.to
                &&& j.to + max_reorg_depth <= tip
                &&& !(exex is NotReady)
                &&& (exex matches FinishedExExHeight::Height(h) ==> j.to <= h)
            },
    decreases n,
{
    if n > 0 {
        lemma_jobs_respect_floors(segments, n - 1, tip, max_reorg_depth, exex);
    }
}

} // verus!
