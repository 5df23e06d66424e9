//! Traits that describe what a node is made of.
//!
//! A node's capability set is the conjunction of required capabilities, given as
//! associated types of [`FullNodeComponents`], and optional ones (tree, pipeline,
//! engine, RPC) that may be absent. An absent optional capability is `Option<()>`,
//! which implements the component traits and hands back itself on every read.

use core::marker::PhantomData;
use vstd::prelude::*;

verus! {

/// The primitive types of a node (blocks, transactions, receipts).
pub trait NodePrimitives {}

/// The types the consensus layer speaks to the node in.
pub trait EngineTypes {}

impl NodePrimitives for () {}

impl EngineTypes for () {}

/// The type that configures the essential types of an ethereum like node.
///
/// It is stateless and only names the node's primitive and engine types.
pub trait NodeTypes: Send + Sync + 'static {
    /// The node's primitive types.
    type Primitives: NodePrimitives;
    /// The node's engine types.
    type EngineTypes: EngineTypes;
}

/// A [`NodeTypes`] builder: each setter swaps one type parameter.
#[derive(Debug)]
pub struct AnyNodeTypes<P = (), E = ()>(pub PhantomData<P>, pub PhantomData<E>);

impl<P, E> AnyNodeTypes<P, E> {
    /// Sets the `Primitives` associated type.
    pub fn primitives<T>(self) -> (r: AnyNodeTypes<T, E>)
        ensures
            r == AnyNodeTypes::<T, E>(PhantomData, PhantomData),
    {
        AnyNodeTypes::<T, E>(PhantomData::<T>, PhantomData::<E>)
    }

    /// Sets the `Engine` associated type.
    pub fn engine<T>(self) -> (r: AnyNodeTypes<P, T>)
        ensures
            r == AnyNodeTypes::<P, T>(PhantomData, PhantomData),
    {
        AnyNodeTypes::<P, T>(PhantomData::<P>, PhantomData::<T>)
    }
}

impl<P, E> Default for AnyNodeTypes<P, E> {
    fn default() -> (r: Self)
        ensures
            r == AnyNodeTypes::<P, E>(PhantomData, PhantomData),
    {
        AnyNodeTypes(PhantomData, PhantomData)
    }
}

impl<P, E> NodeTypes for AnyNodeTypes<P, E> where
    P: NodePrimitives + Send + Sync + 'static,
    E: EngineTypes + Send + Sync + 'static,
 {
    type Primitives = P;

    type EngineTypes = E;
}

/// Adds the stateful storage types to [`NodeTypes`].
pub trait FullNodeTypes: NodeTypes + 'static {
    /// The storage backend.
    type DB: Clone + 'static;
    /// The chain view over the storage backend.
    type Provider: Clone + Send + Sync + 'static;
}

/// An adapter type that adds the storage and provider types to user configured
/// node types.
#[derive(Debug)]
pub struct FullNodeTypesAdapter<Types, DB, Provider> {
    /// An instance of the user configured node types.
    pub types: PhantomData<Types>,
    /// The database type used by the node.
    pub db: PhantomData<DB>,
    /// The provider type used by the node.
    pub provider: PhantomData<Provider>,
}

impl<Types, DB, Provider> FullNodeTypesAdapter<Types, DB, Provider> {
    /// Creates a new adapter with the configured types.
    pub fn new() -> (r: Self)
        ensures
            r == (FullNodeTypesAdapter::<Types, DB, Provider> {
                types: PhantomData,
                db: PhantomData,
                provider: PhantomData,
            }),
    {
        Self { types: PhantomData, db: PhantomData, provider: PhantomData }
    }
}

impl<Types, DB, Provider> Default for FullNodeTypesAdapter<Types, DB, Provider> {
    fn default() -> (r: Self)
        ensures
            r == Self::new_spec(),
    {
        Self::new()
    }
}

impl<Types, DB, Provider> FullNodeTypesAdapter<Types, DB, Provider> {
    /// The only value of the adapter.
    pub open spec fn new_spec() -> Self {
        FullNodeTypesAdapter { types: PhantomData, db: PhantomData, provider: PhantomData }
    }
}

impl<Types, DB, Provider> Clone for FullNodeTypesAdapter<Types, DB, Provider> {
    fn clone(&self) -> (r: Self)
        ensures
            r == *self,
    {
        Self { types: self.types, db: self.db, provider: self.provider }
    }
}

impl<Types, DB, Provider> NodeTypes for FullNodeTypesAdapter<Types, DB, Provider> where
    Types: NodeTypes,
    DB: Send + Sync + 'static,
    Provider: Send + Sync + 'static,
 {
    type Primitives = Types::Primitives;

    type EngineTypes = Types::EngineTypes;
}

impl<Types, DB, Provider> FullNodeTypes for FullNodeTypesAdapter<Types, DB, Provider> where
    Types: NodeTypes,
    DB: Clone + Send + Sync + 'static,
    Provider: Clone + Send + Sync + 'static,
 {
    type DB = DB;

    type Provider = Provider;
}

/// Encapsulates all required types and components of the node.
///
/// A type that lacks one of them does not implement the trait, so a node missing
/// a required capability fails to compose rather than at run time.
pub trait FullNodeComponents: FullNodeTypes + Clone + 'static {
    /// The transaction pool of the node.
    type Pool;
    /// The node's EVM configuration.
    type Evm;
    /// The type that knows how to execute blocks.
    type Executor;
    /// The handle to the network.
    type Network;
    /// The handle to the payload builder service.
    type PayloadBuilder;
    /// The task scheduler.
    type Tasks;

    /// Returns the transaction pool of the node.
    fn pool(&self) -> &Self::Pool;

    /// Returns the node's evm config.
    fn evm_config(&self) -> &Self::Evm;

    /// Returns the node's executor type.
    fn block_executor(&self) -> &Self::Executor;

    /// Returns the provider of the node.
    fn provider(&self) -> &Self::Provider;

    /// Returns the handle to the network.
    fn network(&self) -> &Self::Network;

    /// Returns the handle to the payload builder service.
    fn payload_builder(&self) -> &Self::PayloadBuilder;

    /// Returns the task executor.
    fn task_executor(&self) -> &Self::Tasks;
}

/// Adds the optional components (tree, pipeline, engine, RPC) to a node.
pub trait FullNodeComponentsExt: FullNodeComponents {
    type Core: FullNodeComponents;
    type Tree;
    type Pipeline: PipelineComponent;
    type Engine: EngineComponent<Self::Core> + 'static;
    type Rpc: RpcComponent<Self::Core> + 'static;

    fn from_core(core: Self::Core) -> Self;

    /// Returns reference to blockchain tree component, if installed.
    fn tree(&self) -> Option<&Self::Tree>;

    /// Returns reference to pipeline component, if installed.
    fn pipeline(&self) -> Option<&Self::Pipeline>;

    /// Returns reference to consensus engine component, if installed.
    fn engine(&self) -> Option<&Self::Engine>;

    /// Returns reference to RPC component, if installed.
    fn rpc(&self) -> Option<&Self::Rpc>;
}

/// The blockchain tree component.
pub trait TreeComponent: Send + Sync + Clone + 'static {}

/// The block import pipeline component.
pub trait PipelineComponent: Send + Sync + Clone + 'static {
    /// The client the pipeline downloads blocks with.
    type Client: Send + Sync + Clone;
}

/// The consensus engine component.
pub trait EngineComponent<N: FullNodeComponents>: Send + 'static {
    type Engine: Send + 'static;
    type Handle: Send + Sync + 'static;
    type ShutdownRx: Send + Default + 'static;

    fn engine(&self) -> &Self::Engine;

    fn handle(&self) -> &Self::Handle;

    fn shutdown_rx_mut(&mut self) -> &mut Self::ShutdownRx;
}

/// An absent engine: every read hands back the absent value itself.
impl<N: FullNodeComponents> EngineComponent<N> for Option<()> {
    type Engine = Self;

    type Handle = Self;

    type ShutdownRx = Self;

    fn engine(&self) -> &Self::Engine {
        self
    }

    fn handle(&self) -> &Self::Handle {
        self
    }

    fn shutdown_rx_mut(&mut self) -> &mut Self::ShutdownRx {
        self
    }
}

/// The RPC component.
pub trait RpcComponent<N: FullNodeComponents>: Send + Sync + 'static {
    type ServerHandles: Send + Sync + 'static;
    type Registry: Send + 'static;

    fn handles(&self) -> &Self::ServerHandles;

    fn registry(&self) -> &Self::Registry;
}

/// An absent RPC surface: every read hands back the absent value itself.
impl<N: FullNodeComponents> RpcComponent<N> for Option<()> {
    type ServerHandles = Self;

    type Registry = Self;

    fn handles(&self) -> &Self::ServerHandles {
        self
    }

    fn registry(&self) -> &Self::Registry {
        self
    }
}

} // verus!
