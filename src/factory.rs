//! The factory the block executor is configured through: the chain
//! specification every executor runs under, and an optional inspector stack
//! attached to each of them.

use crate::pipeline::B256;
use vstd::prelude::*;

verus! {

/// The chain specification, as far as executors are configured by it.
#[derive(Clone, Copy, Debug, PartialEq, Eq)]
pub struct ChainSpec {
    pub chain_id: u64,
    pub genesis_hash: B256,
}

/// When the inspectors of a stack run.
#[derive(Clone, Copy, Debug, PartialEq, Eq)]
pub enum Hook {
    /// Never.
    Never,
    /// On the block with this number.
    Block(u64),
    /// On the transaction with this hash.
    Transaction(B256),
    /// On every transaction.
    All,
}

/// The configuration of an inspector stack.
#[derive(Clone, Copy, Debug, PartialEq, Eq)]
pub struct InspectorStackConfig {
    /// Whether the printer tracer is part of the stack.
    pub use_printer_tracer: bool,
    pub hook: Hook,
}

/// A stack of inspectors, attached to executors.
#[derive(Clone, Copy, Debug, PartialEq, Eq)]
pub struct InspectorStack {
    pub config: InspectorStackConfig,
}

impl InspectorStack {
    /// A stack built from `config`.
    pub fn new(config: InspectorStackConfig) -> (r: InspectorStack)
        ensures
            r.config == config,
    {
        InspectorStack { config }
    }

    /// Whether the stack inspects the transaction `tx` of block `block`.
    pub fn should_inspect(&self, block: u64, tx: &B256) -> (r: bool)
        ensures
            r == match self.config.hook {
                Hook::Never => false,
                Hook::Block(b) => b == block,
                Hook::Transaction(h) => h == *tx,
                Hook::All => true,
            },
    {
        match self.config.hook {
            Hook::Never => false,
            Hook::Block(b) => b == block,
            Hook::Transaction(h) => crate::pipeline::hash_eq(&h, tx),
            Hook::All => true,
        }
    }
}

/// Factory that configures block executors.
#[derive(Clone, Copy, Debug, PartialEq, Eq)]
pub struct Factory {
    chain_spec: ChainSpec,
    stack: Option<InspectorStack>,
}

impl Factory {
    pub closed spec fn chain_spec_spec(&self) -> ChainSpec {
        self.chain_spec
    }

    pub closed spec fn stack_spec(&self) -> Option<InspectorStack> {
        self.stack
    }

    /// A factory for executors under `chain_spec`, without inspectors.
    pub fn new(chain_spec: ChainSpec) -> (r: Self)
        ensures
            r.chain_spec_spec() == chain_spec,
            r.stack_spec() is None,
    {
        Factory { chain_spec, stack: None }
    }

    /// Sets the inspector stack for all executors made from now on.
    pub fn with_stack(self, stack: InspectorStack) -> (r: Self)
        ensures
            r.chain_spec_spec() == self.chain_spec_spec(),
            r.stack_spec() == Some(stack),
    {
        Factory { chain_spec: self.chain_spec, stack: Some(stack) }
    }

    /// Sets the inspector stack built from `config` for all executors.
    pub fn with_stack_config(self, config: InspectorStackConfig) -> (r: Self)
        ensures
            r.chain_spec_spec() == self.chain_spec_spec(),
            r.stack_spec() == Some(InspectorStack { config }),
    {
        Factory { chain_spec: self.chain_spec, stack: Some(InspectorStack::new(config)) }
    }

    /// The chain specification executors run under.
    pub fn chain_spec(&self) -> (r: &ChainSpec)
        ensures
            *r == self.chain_spec_spec(),
    {
        &self.chain_spec
    }

    /// The inspector stack attached to executors, if any.
    pub fn stack(&self) -> (r: Option<InspectorStack>)
        ensures
            r == self.stack_spec(),
    {
        self.stack
    }
}

} // verus!
