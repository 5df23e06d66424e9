//! The launch orchestrator: runs a fixed, dependency-ordered list of stages and
//! then wires the runtime components into a node handle. Launch is all or
//! nothing: the first failing stage aborts it, every task spawned by earlier
//! stages is cancelled, and no partially initialized node is handed out.

use crate::engine::{ConsensusEngine, EngineChannel, EngineHooks, IngressFilter};
use crate::events::EventHub;
use crate::exex::{ExExManager, FinishedExExHeight};
use crate::pipeline::{Pipeline, SealedHeader, B256};
use crate::pruner::{Pruner, SegmentState};
use vstd::prelude::*;

verus! {

/// The launch stages, in the order they run.
#[derive(Clone, Copy, Debug, PartialEq, Eq, Structural)]
pub enum LaunchStage {
    /// Apply process-wide configuration.
    ConfiguredGlobals,
    /// Load the persisted configuration merged with overrides.
    LoadedTomlConfig,
    /// Resolve the bootstrap peers.
    ResolvedPeers,
    /// Attach the storage backend.
    AttachedDatabase,
    /// Normalize the configuration against the chain specification.
    AdjustedConfigs,
    /// Construct the provider factory over storage.
    ProviderFactory,
    /// Install metrics collection.
    Prometheus,
    /// Ensure genesis is committed.
    Genesis,
    /// Apply default metric tags.
    Metrics,
    /// Construct the live chain view.
    BlockchainDb,
    /// Build pool, EVM configuration, executor, network and payload builder.
    Components,
}

/// The stages in launch order.
pub open spec fn all_stages() -> Seq<LaunchStage> {
    seq![
        LaunchStage::ConfiguredGlobals,
        LaunchStage::LoadedTomlConfig,
        LaunchStage::ResolvedPeers,
        LaunchStage::AttachedDatabase,
        LaunchStage::AdjustedConfigs,
        LaunchStage::ProviderFactory,
        LaunchStage::Prometheus,
        LaunchStage::Genesis,
        LaunchStage::Metrics,
        LaunchStage::BlockchainDb,
        LaunchStage::Components,
    ]
}

/// The stages in launch order.
pub fn launch_stages() -> (r: Vec<LaunchStage>)
    ensures
        r@ == all_stages(),
{
    vec![
        LaunchStage::ConfiguredGlobals,
        LaunchStage::LoadedTomlConfig,
        LaunchStage::ResolvedPeers,
        LaunchStage::AttachedDatabase,
        LaunchStage::AdjustedConfigs,
        LaunchStage::ProviderFactory,
        LaunchStage::Prometheus,
        LaunchStage::Genesis,
        LaunchStage::Metrics,
        LaunchStage::BlockchainDb,
        LaunchStage::Components,
    ]
}

/// Why a stage failed.
#[derive(Clone, Copy, Debug, PartialEq, Eq)]
pub enum LaunchErrorKind {
    /// Storage could not be opened or is corrupted.
    Storage,
    /// The stored genesis differs from the chain specification's.
    GenesisMismatch,
    /// The configuration is invalid.
    InvalidConfig,
    /// No bootstrap peer resolved, outside dev mode.
    NoPeers,
    /// An observer refused the started node.
    NodeStartedHook,
    /// Any other failure of the stage's work.
    Other,
}

/// How a stage's work ended, as reported by whoever ran it.
#[derive(Clone, Copy, Debug, PartialEq, Eq)]
pub enum StageStatus {
    Done,
    /// Peer resolution ran and resolved no peer.
    NoPeers,
    Failed(LaunchErrorKind),
}

/// A stage's report: how it ended and the background tasks it spawned.
#[derive(Debug)]
pub struct StageOutcome {
    pub status: StageStatus,
    pub spawned: Vec<u64>,
}

/// A failed launch: the stage that failed, why, and the tasks to cancel.
#[derive(Debug, PartialEq, Eq)]
pub struct LaunchError {
    pub stage: LaunchStage,
    pub kind: LaunchErrorKind,
    /// Every task spawned before the failure, in spawn order.
    pub cancelled: Vec<u64>,
}

/// Whether a stage's status fails the launch, and with which kind.
pub open spec fn stage_failure(status: StageStatus, dev: bool) -> Option<LaunchErrorKind> {
    match status {
        StageStatus::Done => None,
        StageStatus::NoPeers => if dev { None } else { Some(LaunchErrorKind::NoPeers) },
        StageStatus::Failed(k) => Some(k),
    }
}

/// The debug overrides of the node's configuration.
#[derive(Debug, PartialEq, Eq)]
pub struct DebugOverrides {
    /// Drop forkchoice updates at ingress.
    pub skip_fcu: bool,
    /// Drop new payloads at ingress.
    pub skip_new_payload: bool,
    /// Where to store every directive that passes the skip filters.
    pub engine_api_store: Option<String>,
    /// The sync target instead of the implicit one.
    pub tip: Option<B256>,
    /// Exit once the pipeline reaches the tip.
    pub terminate: bool,
}

/// The resolved configuration of a node.
#[derive(Debug)]
pub struct NodeConfig {
    /// Dev mode: blocks come from a local miner and no peers are needed.
    pub dev: bool,
    pub debug: DebugOverrides,
    /// The genesis header of the chain specification.
    pub genesis: SealedHeader,
    pub max_reorg_depth: u64,
    pub prune_segments: Vec<SegmentState>,
    pub prune_block_interval: u64,
    pub engine_channel_capacity: usize,
    pub exex_buffer_capacity: usize,
    /// The number of installed execution extensions.
    pub installed_exexs: usize,
}

/// The staged builder: the configuration, the stages completed so far and the
/// tasks they spawned.
#[derive(Debug)]
pub struct LaunchContext {
    pub config: NodeConfig,
    pub completed: Vec<LaunchStage>,
    pub spawned: Vec<u64>,
}

impl LaunchContext {
    pub open spec fn wf(&self) -> bool {
        &&& self.completed@.len() <= all_stages().len()
        &&& self.completed@ == all_stages().subrange(0, self.completed@.len() as int)
    }

    /// A context before any stage ran.
    pub fn new(config: NodeConfig) -> (r: LaunchContext)
        ensures
            r.wf(),
            r.config == config,
            r.completed@.len() == 0,
            r.spawned@.len() == 0,
    {
        let r = LaunchContext { config, completed: Vec::new(), spawned: Vec::new() };
        assert(r.completed@ =~= all_stages().subrange(0, 0));
        r
    }

    /// The stage that runs next, if any is left.
    pub fn next_stage(&self) -> (r: Option<LaunchStage>)
        requires
            self.wf(),
        ensures
            self.completed@.len() < all_stages().len() ==> r == Some(all_stages()[self.completed@.len() as int]),
            self.completed@.len() == all_stages().len() ==> r is None,
    {
        let stages = launch_stages();
        let n = self.completed.len();
        if n < stages.len() {
            Some(stages[n])
        } else {
            None
        }
    }

    /// Records the outcome of the next stage: its tasks are kept for
    /// cancellation, and the stage counts as completed unless it failed.
    pub fn record(&mut self, outcome: StageOutcome) -> (r: Result<(), LaunchError>)
        requires
            old(self).wf(),
            old(self).completed@.len() < all_stages().len(),
        ensures
            final(self).wf(),
            final(self).config == old(self).config,
            final(self).spawned@ == old(self).spawned@ + outcome.spawned@,
            ({
                let stage = all_stages()[old(self).completed@.len() as int];
                match stage_failure(outcome.status, old(self).config.dev) {
                    None => r is Ok && final(self).completed@ == old(self).completed@.push(stage),
                    Some(kind) => final(self).completed@ == old(self).completed@ && (r matches Err(e)
                        && e.stage == stage && e.kind == kind && e.cancelled@ == final(self).spawned@),
                }
            }),
    {
        let stages = launch_stages();
        let stage = stages[self.completed.len()];
        let mut outcome = outcome;
        let mut i: usize = 0;
        let ghost before = self.spawned@;
        let ghost new_tasks = outcome.spawned@;
        while i < outcome.spawned.len()
            invariant
                outcome.spawned@ == new_tasks,
                i <= new_tasks.len(),
                self.spawned@ == before + new_tasks.subrange(0, i as int),
                self.completed == old(self).completed,
                self.config == old(self).config,
            decreases new_tasks.len() - i,
        {
            self.spawned.push(outcome.spawned[i]);
            proof {
                assert(before + new_tasks.subrange(0, i + 1) =~= (before + new_tasks.subrange(0, i as int)).push(new_tasks[i as int]));
            }
            i = i + 1;
        }
        assert(new_tasks.subrange(0, i as int) =~= new_tasks);
        let failure = match outcome.status {
            StageStatus::Done => None,
            StageStatus::NoPeers => if self.config.dev {
                None
            } else {
                Some(LaunchErrorKind::NoPeers)
            },
            StageStatus::Failed(k) => Some(k),
        };
        match failure {
            None => {
                self.completed.push(stage);
                proof {
                    assert(self.completed@ =~= all_stages().subrange(0, self.completed@.len() as int));
                }
                Ok(())
            },
            Some(kind) => {
                let cancelled = copy_tasks(&self.spawned);
                Err(LaunchError { stage, kind, cancelled })
            },
        }
    }
}

/// A copy of a list of task ids.
fn copy_tasks(v: &Vec<u64>) -> (r: Vec<u64>)
    ensures
        r@ == v@,
{
    let mut r: Vec<u64> = Vec::new();
    let mut i: usize = 0;
    while i < v.len()
        invariant
            i <= v@.len(),
            r@ == v@.subrange(0, i as int),
        decreases v@.len() - i,
    {
        r.push(v[i]);
        i = i + 1;
    }
    assert(r@ =~= v@);
    r
}

/// Where the pipeline gets its blocks.
#[derive(Clone, Copy, Debug, PartialEq, Eq)]
pub enum ClientKind {
    /// The local block producer of dev mode.
    AutoSeal,
    /// The network.
    Network,
}

/// An event of the node's components, as the event hub carries it.
#[derive(Clone, Copy, Debug, PartialEq, Eq)]
pub enum NodeEvent {
    Network { peers: u64 },
    ConsensusEngine { live: bool },
    Pipeline { checkpoint: u64 },
    ConsensusLayerHealth { seconds_since_last_directive: u64 },
    Pruner { tip: u64 },
    StaticFileProducer { height: u64 },
}

/// The ids of the event hub's sources.
#[derive(Clone, Copy, Debug, PartialEq, Eq)]
pub struct NodeEventSources {
    pub network: usize,
    pub engine: usize,
    pub pipeline: usize,
    /// Present when the node follows a consensus layer: no fixed tip, no dev mode.
    pub health: Option<usize>,
    pub pruner: usize,
    pub static_files: usize,
}

/// Whether the consensus-layer health source is installed.
pub open spec fn wants_health_events(config: NodeConfig) -> bool {
    config.debug.tip is None && !config.dev
}

/// The exit condition of a node: it resolves when the consensus engine's
/// shutdown signal fires, or, with `terminate`, once the pipeline reaches the tip.
#[derive(Clone, Copy, Debug, PartialEq, Eq)]
pub struct NodeExitFuture {
    pub terminate: bool,
}

impl NodeExitFuture {
    /// Whether the node exits, given whether the engine signalled shutdown and
    /// whether the pipeline has reached the tip.
    pub fn is_resolved(&self, engine_shutdown: bool, reached_tip: bool) -> (r: bool)
        ensures
            r == (engine_shutdown || (self.terminate && reached_tip)),
    {
        engine_shutdown || (self.terminate && reached_tip)
    }
}

/// A launched node: its configuration and its wired runtime components.
pub struct FullNode {
    pub config: NodeConfig,
    /// The launch stages that ran, in order.
    pub stages: Vec<LaunchStage>,
    /// The background tasks the stages spawned.
    pub tasks: Vec<u64>,
    pub client: ClientKind,
    pub pipeline: Pipeline,
    pub engine: ConsensusEngine,
    pub engine_channel: EngineChannel,
    pub ingress: IngressFilter,
    /// Whether directives that pass the ingress filter are stored for replay.
    pub store_directives: bool,
    /// The extension manager, present when extensions are installed.
    pub exex: Option<ExExManager>,
    pub pruner: Pruner,
    /// The engine's side hooks: static files at `STATIC_FILE_HOOK`, pruning at `PRUNE_HOOK`.
    pub hooks: EngineHooks,
    pub events: EventHub<NodeEvent>,
    pub event_sources: NodeEventSources,
}

/// The index of the static-file hook among the engine's hooks.
pub const STATIC_FILE_HOOK: usize = 0;

/// The index of the prune hook among the engine's hooks.
pub const PRUNE_HOOK: usize = 1;

impl FullNode {
    /// The height the pruner may not pass on account of the extensions.
    pub fn exex_finished_height(&self) -> (r: FinishedExExHeight)
        ensures
            r == match self.exex {
                None => FinishedExExHeight::NoExExs,
                Some(m) => crate::exex::finished_spec(m.extensions_spec(), m.extensions_spec().len() as int),
            },
    {
        match &self.exex {
            None => FinishedExExHeight::NoExExs,
            Some(m) => m.finished_height(),
        }
    }
}

/// The node handed out by a launch, with its exit condition.
pub struct NodeHandle {
    pub node: FullNode,
    pub node_exit_future: NodeExitFuture,
}

/// The outside work of a launch, implemented by whoever drives it: running a
/// stage's I/O and cancelling a background task.
pub trait LaunchStages {
    /// Runs the work of `stage` and reports how it ended.
    fn run_stage(&mut self, stage: LaunchStage) -> StageOutcome;

    /// Cancels a background task spawned by an earlier stage.
    fn cancel_task(&mut self, task: u64);

    /// Tells the observers that the node's components were built.
    fn on_components_initialized(&mut self);

    /// Tells the observers that the node started; `false` when one of them
    /// refuses it, which fails the launch.
    fn on_node_started(&mut self, node: &FullNode) -> bool;
}

/// A general purpose trait that launches a node of any kind: a node factory.
pub trait LaunchNode<Target> {
    /// The node type that is created.
    type Node;

    /// What a launch asks of the launcher and the target before it starts.
    spec fn launch_ready(&self, target: Target) -> bool;

    /// Creates and returns a new node.
    fn launch_node(self, target: Target) -> (r: Result<Self::Node, LaunchError>)
        requires
            self.launch_ready(target),
    ;
}

/// A function from the target to a node launches it.
impl<F, Target, Node> LaunchNode<Target> for F where F: FnOnce(Target) -> Result<Node, LaunchError> {
    type Node = Node;

    /// The function accepts the target.
    open spec fn launch_ready(&self, target: Target) -> bool {
        call_requires(*self, (target,))
    }

    fn launch_node(self, target: Target) -> Result<Node, LaunchError> {
        self(target)
    }
}

/// The default launcher for a node.
pub struct DefaultNodeLauncher {
    pub ctx: LaunchContext,
}

/// The facts a launched node's wiring satisfies.
pub open spec fn wired(node: FullNode, exit: NodeExitFuture) -> bool {
    let config = node.config;
    &&& node.stages@ == all_stages()
    &&& node.client == if config.dev {
        ClientKind::AutoSeal
    } else {
        ClientKind::Network
    }
    &&& node.pipeline.wf()
    &&& node.pipeline.chain@ == seq![config.genesis]
    &&& node.pipeline.target is None
    &&& node.engine@.state == crate::engine::EngineState::Syncing
    &&& node.engine@.known == seq![config.genesis]
    &&& node.engine@.target == config.debug.tip
    &&& node.engine_channel.wf()
    &&& node.engine_channel.pending().len() == 0
    &&& node.engine_channel.capacity_spec() == config.engine_channel_capacity
    &&& node.ingress == IngressFilter {
        skip_fcu: config.debug.skip_fcu,
        skip_new_payload: config.debug.skip_new_payload,
    }
    &&& node.store_directives == config.debug.engine_api_store is Some
    &&& (config.installed_exexs == 0 <==> node.exex is None)
    &&& (node.exex matches Some(m) ==> {
        &&& m.wf()
        &&& m.capacity_spec() == config.exex_buffer_capacity
        &&& m.log_spec().len() == 0
        &&& m.extensions_spec().len() == config.installed_exexs
        &&& forall|i: int|
            0 <= i < config.installed_exexs ==> #[trigger] m.is_live(i) && m.delivered(i).len() == 0
                && m.extensions_spec()[i].finished_height is None && m.extensions_spec()[i].start == 0
    })
    &&& node.pruner.segments@ == config.prune_segments@
    &&& node.pruner.max_reorg_depth == config.max_reorg_depth
    &&& node.pruner.block_interval == config.prune_block_interval
    &&& node.pruner.previous_tip is None
    &&& node.hooks.in_flight@ == Seq::new(2, |i: int| false)
    &&& node.events.wf()
    &&& (node.event_sources.health is Some <==> wants_health_events(config))
    &&& exit.terminate == config.debug.terminate
}

impl DefaultNodeLauncher {
    /// A launcher for a node with `config`.
    pub fn new(config: NodeConfig) -> (r: Self)
        ensures
            r.ctx.wf(),
            r.ctx.config == config,
            r.ctx.completed@.len() == 0,
            r.ctx.spawned@.len() == 0,
    {
        DefaultNodeLauncher { ctx: LaunchContext::new(config) }
    }

    /// Runs every stage in order through `runner`, then wires the components.
    /// On the first failing stage every task spawned so far is cancelled
    /// through `runner` and the failure is returned.
    pub fn launch<R: LaunchStages>(self, runner: R) -> (r: Result<NodeHandle, LaunchError>)
        requires
            self.ctx.wf(),
            self.ctx.completed@.len() == 0,
            self.ctx.config.genesis.number == 0,
        ensures
            r matches Ok(h) ==> wired(h.node, h.node_exit_future) && h.node.config == self.ctx.config,
            r matches Err(e) ==> all_stages().contains(e.stage),
    {
        let mut runner = runner;
        let mut ctx = self.ctx;
        let stages = launch_stages();
        let mut i: usize = 0;
        while i < stages.len()
            invariant
                stages@ == all_stages(),
                ctx.wf(),
                ctx.config == self.ctx.config,
                ctx.completed@.len() == i,
                i <= stages@.len(),
            decreases stages@.len() - i,
        {
            let outcome = runner.run_stage(stages[i]);
            match ctx.record(outcome) {
                Ok(()) => {},
                Err(e) => {
                    let mut k: usize = 0;
                    while k < e.cancelled.len()
                        invariant
                            k <= e.cancelled@.len(),
                        decreases e.cancelled@.len() - k,
                    {
                        runner.cancel_task(e.cancelled[k]);
                        k = k + 1;
                    }
                    assert(all_stages()[i as int] == e.stage);
                    return Err(e);
                },
            }
            i = i + 1;
        }
        assert(ctx.completed@ =~= all_stages());
        runner.on_components_initialized();
        let handle = wire(ctx);
        if !runner.on_node_started(&handle.node) {
            let cancelled = copy_tasks(&handle.node.tasks);
            let mut k: usize = 0;
            while k < cancelled.len()
                invariant
                    k <= cancelled@.len(),
                decreases cancelled@.len() - k,
            {
                runner.cancel_task(cancelled[k]);
                k = k + 1;
            }
            assert(all_stages()[10] == LaunchStage::Components);
            return Err(LaunchError { stage: LaunchStage::Components, kind: LaunchErrorKind::NodeStartedHook, cancelled });
        }
        Ok(handle)
    }
}

impl<R: LaunchStages> LaunchNode<R> for DefaultNodeLauncher {
    type Node = NodeHandle;

    /// Nothing: a launcher that cannot start is refused with an error.
    open spec fn launch_ready(&self, target: R) -> bool {
        true
    }

    /// Launches through [`DefaultNodeLauncher::launch`]; a launcher whose
    /// context already ran stages, or whose genesis is not at height 0, is
    /// refused before any stage runs.
    fn launch_node(self, target: R) -> (r: Result<NodeHandle, LaunchError>)
        ensures
            r matches Ok(h) ==> wired(h.node, h.node_exit_future) && h.node.config == self.ctx.config,
            r matches Err(e) ==> all_stages().contains(e.stage),
            !(self.ctx.wf() && self.ctx.completed@.len() == 0 && self.ctx.config.genesis.number == 0)
                ==> (r matches Err(e) && e.stage == LaunchStage::ConfiguredGlobals && e.kind
                == LaunchErrorKind::InvalidConfig && e.cancelled@.len() == 0),
    {
        if self.ctx.completed.len() != 0 || self.ctx.config.genesis.number != 0 || !self.ctx.wf_check() {
            let e = LaunchError {
                stage: LaunchStage::ConfiguredGlobals,
                kind: LaunchErrorKind::InvalidConfig,
                cancelled: Vec::new(),
            };
            assert(all_stages()[0] == e.stage);
            return Err(e);
        }
        self.launch(target)
    }
}

impl LaunchContext {
    /// Whether the completed stages are a prefix of the launch order.
    pub fn wf_check(&self) -> (r: bool)
        ensures
            r == self.wf(),
    {
        let stages = launch_stages();
        if self.completed.len() > stages.len() {
            return false;
        }
        let mut i: usize = 0;
        while i < self.completed.len()
            invariant
                stages@ == all_stages(),
                self.completed@.len() <= stages@.len(),
                i <= self.completed@.len(),
                forall|j: int| 0 <= j < i ==> self.completed@[j] == all_stages()[j],
            decreases self.completed@.len() - i,
        {
            if self.completed[i] != stages[i] {
                assert(self.completed@[i as int] != all_stages().subrange(0, self.completed@.len() as int)[i as int]);
                return false;
            }
            i = i + 1;
        }
        assert(self.completed@ =~= all_stages().subrange(0, self.completed@.len() as int));
        true
    }
}

/// A copy of a list of segment states.
fn copy_segments(v: &Vec<SegmentState>) -> (r: Vec<SegmentState>)
    ensures
        r@ == v@,
{
    let mut r: Vec<SegmentState> = Vec::new();
    let mut i: usize = 0;
    while i < v.len()
        invariant
            i <= v@.len(),
            r@ == v@.subrange(0, i as int),
        decreases v@.len() - i,
    {
        r.push(v[i]);
        i = i + 1;
    }
    assert(r@ =~= v@);
    r
}

/// An extension manager with `n` registered extensions, none of which got or
/// finished anything yet.
fn exex_manager_with(n: usize, buffer_capacity: usize) -> (m: ExExManager)
    ensures
        m.wf(),
        m.capacity_spec() == buffer_capacity,
        m.log_spec().len() == 0,
        m.extensions_spec().len() == n,
        forall|i: int|
            0 <= i < n ==> #[trigger] m.is_live(i) && m.delivered(i).len() == 0
                && m.extensions_spec()[i].finished_height is None && m.extensions_spec()[i].start == 0,
{
    let mut m = ExExManager::new(buffer_capacity);
    let mut i: usize = 0;
    while i < n
        invariant
            i <= n,
            m.wf(),
            m.capacity_spec() == buffer_capacity,
            m.log_spec().len() == 0,
            m.extensions_spec().len() == i,
            forall|j: int|
                0 <= j < i ==> #[trigger] m.is_live(j) && m.delivered(j).len() == 0
                    && m.extensions_spec()[j].finished_height is None && m.extensions_spec()[j].start == 0,
        decreases n - i,
    {
        let ghost before = m;
        m.register();
        proof {
            assert forall|j: int| 0 <= j < i + 1 implies #[trigger] m.is_live(j) && m.delivered(j).len() == 0
                && m.extensions_spec()[j].finished_height is None && m.extensions_spec()[j].start == 0 by {
                if j < i {
                    assert(m.extensions_spec()[j] == before.extensions_spec()[j]);
                    assert(before.is_live(j));
                }
            }
        }
        i = i + 1;
    }
    m
}

/// Builds the runtime components of a node whose stages all completed.
fn wire(ctx: LaunchContext) -> (r: NodeHandle)
    requires
        ctx.completed@ == all_stages(),
        ctx.config.genesis.number == 0,
    ensures
        wired(r.node, r.node_exit_future),
        r.node.config == ctx.config,
{
    let LaunchContext { config, completed, spawned } = ctx;
    let client = if config.dev {
        ClientKind::AutoSeal
    } else {
        ClientKind::Network
    };
    let engine_channel = EngineChannel::new(config.engine_channel_capacity);
    let ingress = IngressFilter {
        skip_fcu: config.debug.skip_fcu,
        skip_new_payload: config.debug.skip_new_payload,
    };
    let store_directives = config.debug.engine_api_store.is_some();
    let pipeline = Pipeline::new(config.genesis, Pipeline::default_stages());
    let engine = ConsensusEngine::new(config.genesis, config.debug.tip);

    let exex = if config.installed_exexs == 0 {
        None
    } else {
        Some(exex_manager_with(config.installed_exexs, config.exex_buffer_capacity))
    };

    let pruner = Pruner::new(
        copy_segments(&config.prune_segments),
        config.max_reorg_depth,
        config.prune_block_interval,
    );

    let hooks = EngineHooks::new(2);
    let mut events: EventHub<NodeEvent> = EventHub::new();
    let network = events.add_source();
    let engine_events = events.add_source();
    let pipeline_events = events.add_source();
    let health = if config.debug.tip.is_none() && !config.dev {
        Some(events.add_source())
    } else {
        None
    };
    let pruner_events = events.add_source();
    let static_files = events.add_source();
    let event_sources = NodeEventSources {
        network,
        engine: engine_events,
        pipeline: pipeline_events,
        health,
        pruner: pruner_events,
        static_files,
    };
    let node_exit_future = NodeExitFuture { terminate: config.debug.terminate };
    let node = FullNode {
        config,
        stages: completed,
        tasks: spawned,
        client,
        pipeline,
        engine,
        engine_channel,
        ingress,
        store_directives,
        exex,
        pruner,
        hooks,
        events,
        event_sources,
    };
    NodeHandle { node, node_exit_future }
}

} // verus!
