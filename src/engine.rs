//! The consensus engine: a state machine between consensus-layer directives and
//! the pipeline, fed through one ordered, bounded inbound channel.

use crate::pipeline::{hash_eq, SealedHeader, B256};
use vstd::prelude::*;

verus! {

/// The engine's sync state.
#[derive(Clone, Copy, Debug, PartialEq, Eq)]
pub enum EngineState {
    /// The pipeline backfills; payloads are not executed.
    Syncing,
    /// The engine executes payloads against its head.
    Live,
}

/// Which component holds write authority over chain state.
#[derive(Clone, Copy, Debug, PartialEq, Eq)]
pub enum Writer {
    Pipeline,
    EngineTree,
}

/// The head, safe and finalized block hashes named by the consensus layer.
#[derive(Clone, Copy, Debug, PartialEq, Eq)]
pub struct ForkchoiceState {
    pub head: B256,
    pub safe: B256,
    pub finalized: B256,
}

/// A directive of the consensus layer.
#[derive(Clone, Copy, Debug, PartialEq, Eq)]
pub enum BeaconEngineMessage {
    ForkchoiceUpdated { state: ForkchoiceState },
    NewPayload { block: SealedHeader },
}

/// A directive with the sequence number it was enqueued under.
#[derive(Clone, Copy, Debug, PartialEq, Eq)]
pub struct EnqueuedMessage {
    pub seq: u64,
    pub msg: BeaconEngineMessage,
}

/// What the block executor found for a payload.
#[derive(Clone, Copy, Debug, PartialEq, Eq)]
pub enum ExecutionOutcome {
    Valid,
    Invalid,
}

/// The status reported for a directive.
#[derive(Clone, Copy, Debug, PartialEq, Eq)]
pub enum PayloadStatus {
    Valid,
    Invalid,
    Syncing,
    Accepted,
}

/// The response to one directive.
#[derive(Clone, Copy, Debug, PartialEq, Eq)]
pub struct EngineResponse {
    pub seq: u64,
    pub status: PayloadStatus,
    pub latest_valid_hash: Option<B256>,
}

/// The mathematical state of the engine.
pub struct EngineModel {
    pub state: EngineState,
    pub forkchoice: ForkchoiceState,
    pub known: Seq<SealedHeader>,
    pub target: Option<B256>,
}

/// Whether a block with hash `h` is known.
pub open spec fn known_hash(known: Seq<SealedHeader>, h: B256) -> bool {
    exists|i: int| 0 <= i < known.len() && (#[trigger] known[i]).hash == h
}

/// One directive processed: the next state, the status and the latest valid hash.
pub open spec fn step(m: EngineModel, msg: BeaconEngineMessage, outcome: ExecutionOutcome) -> (
    EngineModel,
    PayloadStatus,
    Option<B256>,
) {
    match msg {
        BeaconEngineMessage::ForkchoiceUpdated { state: fc } => {
            if known_hash(m.known, fc.head) {
                (EngineModel { forkchoice: fc, ..m }, PayloadStatus::Valid, Some(fc.head))
            } else {
                (
                    EngineModel { state: EngineState::Syncing, target: Some(fc.head), ..m },
                    PayloadStatus::Syncing,
                    None,
                )
            }
        },
        BeaconEngineMessage::NewPayload { block } => {
            match m.state {
                EngineState::Syncing => (m, PayloadStatus::Syncing, None),
                EngineState::Live => {
                    if !known_hash(m.known, block.parent_hash) {
                        (m, PayloadStatus::Accepted, None)
                    } else {
                        match outcome {
                            ExecutionOutcome::Valid => (
                                EngineModel { known: m.known.push(block), ..m },
                                PayloadStatus::Valid,
                                Some(block.hash),
                            ),
                            ExecutionOutcome::Invalid => (
                                m,
                                PayloadStatus::Invalid,
                                Some(block.parent_hash),
                            ),
                        }
                    }
                },
            }
        },
    }
}

/// The state after the pipeline committed up to `tip`: the tip becomes known,
/// and the engine goes live with the target as head once the target is known.
pub open spec fn on_synced(m: EngineModel, tip: SealedHeader) -> EngineModel {
    let known = m.known.push(tip);
    match m.target {
        Some(t) => if known_hash(known, t) {
            EngineModel {
                state: EngineState::Live,
                forkchoice: ForkchoiceState { head: t, ..m.forkchoice },
                known,
                target: None,
            }
        } else {
            EngineModel { known, ..m }
        },
        None => EngineModel { known, ..m },
    }
}

/// The state after the first `n` queued directives, each with its outcome.
pub open spec fn run_spec(
    m: EngineModel,
    msgs: Seq<EnqueuedMessage>,
    outcomes: Seq<ExecutionOutcome>,
    n: int,
) -> EngineModel
    decreases n,
{
    if n <= 0 {
        m
    } else {
        step(run_spec(m, msgs, outcomes, n - 1), msgs[n - 1].msg, outcomes[n - 1]).0
    }
}

/// The consensus engine.
#[derive(Debug)]
pub struct ConsensusEngine {
    pub state: EngineState,
    pub forkchoice: ForkchoiceState,
    /// The blocks the chain view knows.
    pub known: Vec<SealedHeader>,
    /// The block the pipeline backfills to, while syncing to one.
    pub target: Option<B256>,
}

impl View for ConsensusEngine {
    type V = EngineModel;

    open spec fn view(&self) -> EngineModel {
        EngineModel {
            state: self.state,
            forkchoice: self.forkchoice,
            known: self.known@,
            target: self.target,
        }
    }
}

impl ConsensusEngine {
    /// An engine that starts syncing, knowing only `genesis`, with
    /// `initial_target` as the pipeline target if one is given.
    pub fn new(genesis: SealedHeader, initial_target: Option<B256>) -> (r: ConsensusEngine)
        ensures
            r@.state == EngineState::Syncing,
            r@.known == seq![genesis],
            r@.target == initial_target,
            r@.forkchoice == (ForkchoiceState {
                head: genesis.hash,
                safe: genesis.hash,
                finalized: genesis.hash,
            }),
    {
        let mut known: Vec<SealedHeader> = Vec::new();
        known.push(genesis);
        ConsensusEngine {
            state: EngineState::Syncing,
            forkchoice: ForkchoiceState {
                head: genesis.hash,
                safe: genesis.hash,
                finalized: genesis.hash,
            },
            known,
            target: initial_target,
        }
    }

    /// Which component may write chain state: the pipeline while syncing, the
    /// engine's tree while live.
    pub fn write_authority(&self) -> (r: Writer)
        ensures
            r == (match self.state {
                EngineState::Syncing => Writer::Pipeline,
                EngineState::Live => Writer::EngineTree,
            }),
    {
        match self.state {
            EngineState::Syncing => Writer::Pipeline,
            EngineState::Live => Writer::EngineTree,
        }
    }

    /// Whether a block with hash `h` is known.
    pub fn is_known(&self, h: &B256) -> (r: bool)
        ensures
            r == known_hash(self.known@, *h),
    {
        let mut i: usize = 0;
        while i < self.known.len()
            invariant
                i <= self.known@.len(),
                forall|j: int| 0 <= j < i ==> (#[trigger] self.known@[j]).hash != *h,
            decreases self.known@.len() - i,
        {
            if hash_eq(&self.known[i].hash, h) {
                return true;
            }
            i = i + 1;
        }
        false
    }

    /// Whether processing `msg` asks the block executor for a verdict.
    pub fn needs_execution(&self, msg: &BeaconEngineMessage) -> (r: bool)
        ensures
            r == (msg matches BeaconEngineMessage::NewPayload { block } && self.state
                == EngineState::Live && known_hash(self.known@, block.parent_hash)),
    {
        match msg {
            BeaconEngineMessage::NewPayload { block } => {
                match self.state {
                    EngineState::Live => self.is_known(&block.parent_hash),
                    EngineState::Syncing => false,
                }
            },
            BeaconEngineMessage::ForkchoiceUpdated { .. } => false,
        }
    }

    /// Processes one directive; `outcome` is the block executor's verdict on a
    /// payload, read only where [`Self::needs_execution`] holds.
    pub fn on_message(&mut self, msg: &EnqueuedMessage, outcome: ExecutionOutcome) -> (r: EngineResponse)
        ensures
            ({
                let (m, status, lvh) = step(old(self)@, msg.msg, outcome);
                &&& final(self)@ == m
                &&& r == EngineResponse { seq: msg.seq, status, latest_valid_hash: lvh }
            }),
    {
        match msg.msg {
            BeaconEngineMessage::ForkchoiceUpdated { state: fc } => {
                if self.is_known(&fc.head) {
                    self.forkchoice = fc;
                    EngineResponse { seq: msg.seq, status: PayloadStatus::Valid, latest_valid_hash: Some(fc.head) }
                } else {
                    self.state = EngineState::Syncing;
                    self.target = Some(fc.head);
                    EngineResponse { seq: msg.seq, status: PayloadStatus::Syncing, latest_valid_hash: None }
                }
            },
            BeaconEngineMessage::NewPayload { block } => {
                match self.state {
                    EngineState::Syncing => {
                        EngineResponse { seq: msg.seq, status: PayloadStatus::Syncing, latest_valid_hash: None }
                    },
                    EngineState::Live => {
                        if !self.is_known(&block.parent_hash) {
                            EngineResponse { seq: msg.seq, status: PayloadStatus::Accepted, latest_valid_hash: None }
                        } else {
                            match outcome {
                                ExecutionOutcome::Valid => {
                                    self.known.push(block);
                                    EngineResponse {
                                        seq: msg.seq,
                                        status: PayloadStatus::Valid,
                                        latest_valid_hash: Some(block.hash),
                                    }
                                },
                                ExecutionOutcome::Invalid => {
                                    EngineResponse {
                                        seq: msg.seq,
                                        status: PayloadStatus::Invalid,
                                        latest_valid_hash: Some(block.parent_hash),
                                    }
                                },
                            }
                        }
                    },
                }
            },
        }
    }

    /// Takes note that the pipeline committed up to `tip`.
    pub fn on_pipeline_synced(&mut self, tip: SealedHeader)
        ensures
            final(self)@ == on_synced(old(self)@, tip),
    {
        self.known.push(tip);
        match self.target {
            Some(t) => {
                if self.is_known(&t) {
                    self.state = EngineState::Live;
                    self.forkchoice = ForkchoiceState { head: t, ..self.forkchoice };
                    self.target = None;
                }
            },
            None => {},
        }
    }

    /// Processes queued directives in their order, the `i`-th with the `i`-th
    /// outcome, and returns the responses in the same order.
    pub fn process_all(&mut self, msgs: &Vec<EnqueuedMessage>, outcomes: &Vec<ExecutionOutcome>) -> (r: Vec<EngineResponse>)
        requires
            outcomes@.len() == msgs@.len(),
        ensures
            final(self)@ == run_spec(old(self)@, msgs@, outcomes@, msgs@.len() as int),
            r@.len() == msgs@.len(),
            forall|i: int| 0 <= i < r@.len() ==> {
                let (_, status, lvh) = step(run_spec(old(self)@, msgs@, outcomes@, i), msgs@[i].msg, outcomes@[i]);
                #[trigger] r@[i] == EngineResponse { seq: msgs@[i].seq, status, latest_valid_hash: lvh }
            },
    {
        let mut responses: Vec<EngineResponse> = Vec::new();
        let mut i: usize = 0;
        while i < msgs.len()
            invariant
                outcomes@.len() == msgs@.len(),
                i <= msgs@.len(),
                self@ == run_spec(old(self)@, msgs@, outcomes@, i as int),
                responses@.len() == i,
                forall|j: int| 0 <= j < i ==> {
                    let (_, status, lvh) = step(run_spec(old(self)@, msgs@, outcomes@, j), msgs@[j].msg, outcomes@[j]);
                    #[trigger] responses@[j] == EngineResponse { seq: msgs@[j].seq, status, latest_valid_hash: lvh }
                },
            decreases msgs@.len() - i,
        {
            let resp = self.on_message(&msgs[i], outcomes[i]);
            responses.push(resp);
            i = i + 1;
        }
        responses
    }
}

/// Why a directive was not enqueued.
#[derive(Clone, Copy, Debug, PartialEq, Eq)]
pub enum ChannelError {
    /// The channel holds `capacity` directives: the sender has to wait.
    Full,
    /// Every sequence number has been handed out.
    SequenceExhausted,
}

/// The engine's inbound channel: directives leave in the order they were
/// enqueued, each tagged with a sequence number that grows by one per directive.
/// It is bounded: when full, a directive is refused and the sender backs off.
#[derive(Debug)]
pub struct EngineChannel {
    buf: Vec<EnqueuedMessage>,
    capacity: usize,
    next_seq: u64,
}

impl EngineChannel {
    /// The directives waiting, first to leave first.
    pub closed spec fn pending(&self) -> Seq<EnqueuedMessage> {
        self.buf@
    }

    pub closed spec fn capacity_spec(&self) -> nat {
        self.capacity as nat
    }

    /// The sequence number of the next directive enqueued.
    pub closed spec fn next_seq_spec(&self) -> u64 {
        self.next_seq
    }

    pub closed spec fn wf(&self) -> bool {
        &&& self.buf@.len() <= self.capacity
        &&& self.buf@.len() <= self.next_seq
        &&& forall|i: int|
            0 <= i < self.buf@.len() ==> (#[trigger] self.buf@[i]).seq == self.next_seq
                - self.buf@.len() + i
    }

    /// An empty channel holding at most `capacity` directives.
    pub fn new(capacity: usize) -> (r: EngineChannel)
        ensures
            r.wf(),
            r.pending() == Seq::<EnqueuedMessage>::empty(),
            r.capacity_spec() == capacity,
            r.next_seq_spec() == 0,
    {
        EngineChannel { buf: Vec::new(), capacity, next_seq: 0 }
    }

    /// The number of directives waiting.
    pub fn len(&self) -> (r: usize)
        ensures
            r == self.pending().len(),
    {
        self.buf.len()
    }

    /// Enqueues a directive under the next sequence number, unless the channel
    /// is full.
    pub fn send(&mut self, msg: BeaconEngineMessage) -> (r: Result<u64, ChannelError>)
        requires
            old(self).wf(),
        ensures
            final(self).wf(),
            final(self).capacity_spec() == old(self).capacity_spec(),
            old(self).pending().len() >= old(self).capacity_spec() ==> r == Err::<u64, ChannelError>(ChannelError::Full),
            old(self).pending().len() < old(self).capacity_spec() && old(self).next_seq_spec() == u64::MAX
                ==> r == Err::<u64, ChannelError>(ChannelError::SequenceExhausted),
            old(self).pending().len() < old(self).capacity_spec() && old(self).next_seq_spec() < u64::MAX ==> {
                &&& r == Ok::<u64, ChannelError>(old(self).next_seq_spec())
                &&& final(self).pending() == old(self).pending().push(
                    EnqueuedMessage { seq: old(self).next_seq_spec(), msg },
                )
                &&& final(self).next_seq_spec() == old(self).next_seq_spec() + 1
            },
            r is Err ==> final(self).pending() == old(self).pending() && final(self).next_seq_spec()
                == old(self).next_seq_spec(),
    {
        if self.buf.len() >= self.capacity {
            return Err(ChannelError::Full);
        }
        if self.next_seq == u64::MAX {
            return Err(ChannelError::SequenceExhausted);
        }
        let seq = self.next_seq;
        self.buf.push(EnqueuedMessage { seq, msg });
        self.next_seq = seq + 1;
        Ok(seq)
    }

    /// Takes the directive that was enqueued first, if any.
    pub fn recv(&mut self) -> (r: Option<EnqueuedMessage>)
        requires
            old(self).wf(),
        ensures
            final(self).wf(),
            final(self).capacity_spec() == old(self).capacity_spec(),
            final(self).next_seq_spec() == old(self).next_seq_spec(),
            old(self).pending().len() == 0 ==> r is None && final(self).pending() == old(self).pending(),
            old(self).pending().len() > 0 ==> r == Some(old(self).pending()[0])
                && final(self).pending() == old(self).pending().drop_first(),
    {
        if self.buf.len() == 0 {
            None
        } else {
            let m = self.buf.remove(0);
            Some(m)
        }
    }

    /// Takes every waiting directive, in the order they were enqueued.
    pub fn drain(&mut self) -> (r: Vec<EnqueuedMessage>)
        requires
            old(self).wf(),
        ensures
            final(self).wf(),
            r@ == old(self).pending(),
            final(self).pending().len() == 0,
            final(self).capacity_spec() == old(self).capacity_spec(),
            final(self).next_seq_spec() == old(self).next_seq_spec(),
    {
        let mut out: Vec<EnqueuedMessage> = Vec::new();
        while self.buf.len() > 0
            invariant
                self.wf(),
                out@ + self.buf@ == old(self).buf@,
                self.capacity == old(self).capacity,
                self.next_seq == old(self).next_seq,
            decreases self.buf@.len(),
        {
            let ghost before = self.buf@;
            let m = self.buf.remove(0);
            out.push(m);
            proof {
                assert(out@ + self.buf@ =~= old(self).buf@) by {
                    assert(before =~= seq![m] + self.buf@);
                    assert(out@ =~= out@.drop_last().push(m));
                }
            }
        }
        assert(out@ =~= old(self).buf@) by {
            assert(out@ + self.buf@ =~= out@);
        }
        out
    }

    /// Directives leave the channel in the order they were enqueued: their
    /// sequence numbers strictly increase from the first to leave to the last.
    pub proof fn lemma_dequeue_in_enqueue_order(&self)
        requires
            self.wf(),
        ensures
            forall|i: int, j: int|
                0 <= i < j < self.pending().len() ==> #[trigger] self.pending()[i].seq
                    < #[trigger] self.pending()[j].seq,
            forall|i: int|
                0 <= i < self.pending().len() ==> #[trigger] self.pending()[i].seq
                    < self.next_seq_spec(),
    {
    }
}

/// Which directives the ingress drops, from the debug overrides.
#[derive(Clone, Copy, Debug, PartialEq, Eq)]
pub struct IngressFilter {
    pub skip_fcu: bool,
    pub skip_new_payload: bool,
}

impl IngressFilter {
    pub open spec fn admits_spec(&self, msg: BeaconEngineMessage) -> bool {
        match msg {
            BeaconEngineMessage::ForkchoiceUpdated { .. } => !self.skip_fcu,
            BeaconEngineMessage::NewPayload { .. } => !self.skip_new_payload,
        }
    }

    /// Whether `msg` passes the skip filters; only directives that pass are
    /// stored for replay and enqueued.
    pub fn admits(&self, msg: &BeaconEngineMessage) -> (r: bool)
        ensures
            r == self.admits_spec(*msg),
    {
        match msg {
            BeaconEngineMessage::ForkchoiceUpdated { .. } => !self.skip_fcu,
            BeaconEngineMessage::NewPayload { .. } => !self.skip_new_payload,
        }
    }
}

/// A forkchoice update to an unknown head puts the engine in `Syncing` with
/// that head as the pipeline's target; once the pipeline has committed that
/// head, the engine is `Live` with it as head.
pub proof fn lemma_unknown_head_backfill_then_live(
    m: EngineModel,
    fc: ForkchoiceState,
    outcome: ExecutionOutcome,
    tip: SealedHeader,
)
    requires
        !known_hash(m.known, fc.head),
        tip.hash == fc.head,
    ensures
        ({
            let (m1, status, _) = step(m, BeaconEngineMessage::ForkchoiceUpdated { state: fc }, outcome);
            let m2 = on_synced(m1, tip);
            &&& status == PayloadStatus::Syncing
            &&& m1.state == EngineState::Syncing
            &&& m1.target == Some(fc.head)
            &&& m2.state == EngineState::Live
            &&& m2.forkchoice.head == fc.head
            &&& m2.target is None
        }),
{
    let (m1, status, _) = step(m, BeaconEngineMessage::ForkchoiceUpdated { state: fc }, outcome);
    let known = m1.known.push(tip);
    assert(known[known.len() - 1].hash == fc.head);
}

/// What the engine does with a side hook between two directives.
#[derive(Clone, Copy, Debug, PartialEq, Eq)]
pub enum HookAction {
    /// Start the hook's work as a background task.
    Spawn,
    /// Nothing: the hook is not due, or its task is still running.
    Skip,
}

/// How a hook's background task ended, as the engine reports it.
#[derive(Clone, Copy, Debug, PartialEq, Eq)]
pub enum HookEvent {
    Finished,
    /// The task failed; the failure is logged and the hook runs again when due.
    Failed,
}

/// Periodic side hooks (data archival, pruning) of the engine. Their work runs
/// as background tasks; the engine only polls whether a task finished and never
/// waits for one, and starts at most one task per hook at a time.
#[derive(Debug)]
pub struct EngineHooks {
    /// Whether each hook's task is running.
    pub in_flight: Vec<bool>,
}

impl EngineHooks {
    /// `n` hooks, none of them running.
    pub fn new(n: usize) -> (r: EngineHooks)
        ensures
            r.in_flight@ == Seq::new(n as nat, |i: int| false),
    {
        let mut in_flight: Vec<bool> = Vec::new();
        let mut i: usize = 0;
        while i < n
            invariant
                i <= n,
                in_flight@ == Seq::new(i as nat, |j: int| false),
            decreases n - i,
        {
            in_flight.push(false);
            i = i + 1;
            assert(in_flight@ =~= Seq::new(i as nat, |j: int| false));
        }
        EngineHooks { in_flight }
    }

    /// Polls hook `id` between directives: its task starts when the hook is
    /// due and no task of it is running.
    pub fn poll(&mut self, id: usize, due: bool) -> (r: HookAction)
        ensures
            final(self).in_flight@.len() == old(self).in_flight@.len(),
            r == (if id < old(self).in_flight@.len() && due && !old(self).in_flight@[id as int] {
                HookAction::Spawn
            } else {
                HookAction::Skip
            }),
            r == HookAction::Spawn ==> final(self).in_flight@ == old(self).in_flight@.update(id as int, true),
            r == HookAction::Skip ==> final(self).in_flight@ == old(self).in_flight@,
    {
        if id < self.in_flight.len() && due && !self.in_flight[id] {
            self.in_flight.set(id, true);
            HookAction::Spawn
        } else {
            HookAction::Skip
        }
    }

    /// Takes note that the task of hook `id` ended, well or not.
    pub fn on_task_done(&mut self, id: usize, succeeded: bool) -> (r: HookEvent)
        ensures
            r == (if succeeded { HookEvent::Finished } else { HookEvent::Failed }),
            id < old(self).in_flight@.len() ==> final(self).in_flight@ == old(self).in_flight@.update(id as int, false),
            id >= old(self).in_flight@.len() ==> final(self).in_flight@ == old(self).in_flight@,
    {
        if id < self.in_flight.len() {
            self.in_flight.set(id, false);
        }
        if succeeded {
            HookEvent::Finished
        } else {
            HookEvent::Failed
        }
    }
}

} // verus!
