//! Properties of a launched node: the runtime laws of the pipeline, engine,
//! pruner and extension manager, stated for the components that a launch wires,
//! and the engine's processing step on the node.

use crate::engine::{
    known_hash, lemma_unknown_head_backfill_then_live, on_synced, step, BeaconEngineMessage,
    ChannelError, EngineResponse, EngineState, ExecutionOutcome, ForkchoiceState, PayloadStatus,
};
use crate::exex::{finished_spec, lemma_finished_height_is_minimum, FinishedExExHeight};
use crate::launch::{wired, FullNode, NodeExitFuture};
use crate::pipeline::{
    batch_valid, blocks_after, chain_wf, headers_of, lemma_checkpoint_counts_blocks,
    lemma_unwind_rerun, ExecutedBlock, SealedHeader,
};
use crate::pruner::{jobs_spec, lemma_jobs_respect_floors};
use vstd::prelude::*;

verus! {

/// The block executor the node was built with: gives a verdict on a payload.
pub trait PayloadExecutor {
    fn execute(&mut self, block: &SealedHeader) -> ExecutionOutcome;
}

/// The extensions' finished height as the node's pruner sees it.
pub open spec fn node_exex_height(node: FullNode) -> FinishedExExHeight {
    match node.exex {
        None => FinishedExExHeight::NoExExs,
        Some(m) => finished_spec(m.extensions_spec(), m.extensions_spec().len() as int),
    }
}

impl FullNode {
    /// Hands a directive from the consensus layer to the engine's channel:
    /// `Ok(false)` when the ingress filter drops it, `Ok(true)` when it was
    /// enqueued under the next sequence number.
    pub fn enqueue(&mut self, msg: BeaconEngineMessage) -> (r: Result<bool, ChannelError>)
        requires
            old(self).engine_channel.wf(),
        ensures
            final(self).engine_channel.wf(),
            final(self).engine == old(self).engine,
            !old(self).ingress.admits_spec(msg) ==> r == Ok::<bool, ChannelError>(false)
                && final(self).engine_channel.pending() == old(self).engine_channel.pending(),
            r == Ok::<bool, ChannelError>(true) ==> final(self).engine_channel.pending() == old(self).engine_channel.pending().push(
                crate::engine::EnqueuedMessage { seq: old(self).engine_channel.next_seq_spec(), msg },
            ),
            r is Err ==> final(self).engine_channel.pending() == old(self).engine_channel.pending(),
    {
        if !self.ingress.admits(&msg) {
            return Ok(false);
        }
        match self.engine_channel.send(msg) {
            Ok(_) => Ok(true),
            Err(e) => Err(e),
        }
    }

    /// Processes the directive enqueued first, if any, asking `executor` for a
    /// verdict only when the engine executes it. Whatever the verdict, the
    /// engine takes exactly one step on that directive and answers under its
    /// sequence number.
    pub fn process_next<E: PayloadExecutor>(&mut self, executor: &mut E) -> (r: Option<EngineResponse>)
        requires
            old(self).engine_channel.wf(),
        ensures
            final(self).engine_channel.wf(),
            old(self).engine_channel.pending().len() == 0 <==> r is None,
            r is None ==> final(self).engine == old(self).engine,
            r is Some ==> {
                let m = old(self).engine_channel.pending()[0];
                &&& final(self).engine_channel.pending() == old(self).engine_channel.pending().drop_first()
                &&& exists|o: ExecutionOutcome| {
                    let (e, status, lvh) = #[trigger] step(old(self).engine@, m.msg, o);
                    &&& final(self).engine@ == e
                    &&& r == Some(EngineResponse { seq: m.seq, status, latest_valid_hash: lvh })
                }
            },
    {
        match self.engine_channel.recv() {
            None => None,
            Some(m) => {
                let outcome = match m.msg {
                    BeaconEngineMessage::NewPayload { block } => {
                        if self.engine.needs_execution(&m.msg) {
                            executor.execute(&block)
                        } else {
                            ExecutionOutcome::Valid
                        }
                    },
                    BeaconEngineMessage::ForkchoiceUpdated { .. } => ExecutionOutcome::Valid,
                };
                let resp = self.engine.on_message(&m, outcome);
                assert(step(old(self).engine@, m.msg, outcome).0 == self.engine@);
                Some(resp)
            },
        }
    }
}

/// On a launched node, appending a valid batch of `n` blocks moves the
/// pipeline's checkpoint from 0 to `n`, and the committed heights strictly
/// increase along the chain.
pub proof fn lemma_launched_checkpoint_counts_blocks(
    node: FullNode,
    exit: NodeExitFuture,
    batch: Seq<ExecutedBlock>,
)
    requires
        wired(node, exit),
        batch_valid(node.pipeline.chain@.last(), batch),
    ensures
        node.pipeline.checkpoint_spec() == 0,
        ({
            let c = node.pipeline.chain@ + headers_of(batch);
            &&& chain_wf(c)
            &&& c.len() - 1 == batch.len()
            &&& forall|i: int, j: int| 0 <= i < j < c.len() ==> c[i].number < c[j].number
        }),
{
    let g = node.config.genesis;
    reveal(chain_wf);
    assert(node.pipeline.chain@[0] == g);
    assert(node.pipeline.chain@.last() == g);
    lemma_checkpoint_counts_blocks(g, batch);
}

/// On a launched node, after a valid batch, unwinding to any height `k` and
/// running the same blocks above `k` again is accepted and gives back the same
/// chain: the state root at `k`, and at every height, is the one of the first run.
pub proof fn lemma_launched_unwind_rerun(node: FullNode, exit: NodeExitFuture, batch: Seq<ExecutedBlock>, k: int)
    requires
        wired(node, exit),
        batch_valid(node.pipeline.chain@.last(), batch),
        0 <= k <= batch.len(),
    ensures
        ({
            let c = node.pipeline.chain@ + headers_of(batch);
            &&& c.subrange(0, k + 1)[k].state_root == c[k].state_root
            &&& batch_valid(c.subrange(0, k + 1).last(), blocks_after(c, k))
            &&& c.subrange(0, k + 1) + headers_of(blocks_after(c, k)) == c
        }),
{
    lemma_launched_checkpoint_counts_blocks(node, exit, batch);
    let c = node.pipeline.chain@ + headers_of(batch);
    lemma_unwind_rerun(c, k);
}

/// A launched node's engine starts `Syncing`. A forkchoice update to a head
/// other than genesis sets that head as the pipeline's target; the engine stays
/// `Syncing` while the pipeline commits other blocks and becomes `Live`, with
/// that head, once the pipeline commits it.
pub proof fn lemma_launched_engine_backfills_then_live(
    node: FullNode,
    exit: NodeExitFuture,
    fc: ForkchoiceState,
    outcome: ExecutionOutcome,
    other: SealedHeader,
    tip: SealedHeader,
)
    requires
        wired(node, exit),
        fc.head != node.config.genesis.hash,
        other.hash != fc.head,
        tip.hash == fc.head,
    ensures
        node.engine@.state == EngineState::Syncing,
        ({
            let (m1, status, _) = step(node.engine@, BeaconEngineMessage::ForkchoiceUpdated { state: fc }, outcome);
            let early = on_synced(m1, other);
            &&& status == PayloadStatus::Syncing
            &&& m1.state == EngineState::Syncing
            &&& m1.target == Some(fc.head)
            &&& early.state == EngineState::Syncing
            &&& early.target == Some(fc.head)
            &&& on_synced(m1, tip).state == EngineState::Live
            &&& on_synced(m1, tip).forkchoice.head == fc.head
        }),
{
    let m = node.engine@;
    let g = node.config.genesis;
    assert(!known_hash(m.known, fc.head)) by {
        if known_hash(m.known, fc.head) {
            let i = choose|i: int| 0 <= i < m.known.len() && (#[trigger] m.known[i]).hash == fc.head;
            assert(m.known[i] == g);
        }
    }
    lemma_unknown_head_backfill_then_live(m, fc, outcome, tip);
    let (m1, _, _) = step(m, BeaconEngineMessage::ForkchoiceUpdated { state: fc }, outcome);
    let known = m1.known.push(other);
    assert(!known_hash(known, fc.head)) by {
        if known_hash(known, fc.head) {
            let i = choose|i: int| 0 <= i < known.len() && (#[trigger] known[i]).hash == fc.head;
            if i < m1.known.len() {
                assert(known[i] == m1.known[i]);
            }
        }
    }
}

/// No pruning job of a launched node deletes data above
/// `tip - max_reorg_depth`, nor above the finished height of any live
/// extension; while some extension has finished nothing, no job runs. This holds
/// at every run, whatever the segments' progress.
pub proof fn lemma_launched_pruner_floors(node: FullNode, tip: u64)
    requires
        node.pruner.max_reorg_depth == node.config.max_reorg_depth,
    ensures
        ({
            let jobs = jobs_spec(
                node.pruner.segments@,
                node.pruner.segments@.len() as int,
                tip,
                node.pruner.max_reorg_depth,
                node_exex_height(node),
            );
            forall|k: int|
                0 <= k < jobs.len() ==> {
                    let j = #[trigger] jobs[k];
                    &&& j.to + node.config.max_reorg_depth <= tip
                    &&& (node.exex matches Some(m) ==> forall|i: int|
                        #![trigger m.extensions_spec()[i]]
                        0 <= i < m.extensions_spec().len() && !m.extensions_spec()[i].failed
                            ==> (m.extensions_spec()[i].finished_height matches Some(h) && j.to <= h))
                }
        }),
{
    let x = node_exex_height(node);
    let n = node.pruner.segments@.len() as int;
    lemma_jobs_respect_floors(node.pruner.segments@, n, tip, node.pruner.max_reorg_depth, x);
    let jobs = jobs_spec(node.pruner.segments@, n, tip, node.pruner.max_reorg_depth, x);
    if let Some(m) = node.exex {
        assert forall|k: int, i: int|
            #![trigger jobs[k], m.extensions_spec()[i]]
            0 <= k < jobs.len() && 0 <= i < m.extensions_spec().len() && !m.extensions_spec()[i].failed
            implies (m.extensions_spec()[i].finished_height matches Some(h) && jobs[k].to <= h) by {
            assert(!(x is NotReady));
            if x is NoExExs {
                lemma_live_extension_counts(m.extensions_spec(), m.extensions_spec().len() as int, i);
            }
            lemma_finished_height_is_minimum(m.extensions_spec(), m.extensions_spec().len() as int, i);
        }
    }
}

/// The aggregate of extensions that include a live one is not `NoExExs`.
proof fn lemma_live_extension_counts(exts: Seq<crate::exex::ExExState>, n: int, i: int)
    requires
        0 <= i < n <= exts.len(),
        !exts[i].failed,
    ensures
        !(finished_spec(exts, n) is NoExExs),
    decreases n,
{
    if i < n - 1 {
        lemma_live_extension_counts(exts, n - 1, i);
    }
}

/// Every extension of a launched node is handed the node's commit log in
/// order, each segment exactly once, from the first commit on: what it got is
/// the log's prefix up to its own cursor, whatever the other extensions' pace.
pub proof fn lemma_launched_exex_order(node: FullNode, i: int)
    requires
        node.exex matches Some(m) && m.wf() && 0 <= i < m.extensions_spec().len()
            && m.extensions_spec()[i].start == 0,
    ensures
        node.exex matches Some(m) && m.delivered(i) == m.log_spec().subrange(
            0,
            m.extensions_spec()[i].cursor as int,
        ),
{
    let m = node.exex->Some_0;
    m.lemma_each_extension_sees_log_in_order(i);
}

} // verus!
