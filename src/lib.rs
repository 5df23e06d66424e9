//! Runtime core of an execution-layer node: capability composition, the staged
//! launch, the block import pipeline, the consensus engine state machine, the
//! execution extension manager, the pruner, the event hub and the receipt
//! builder, each with its contracts proved.

pub mod engine;
pub mod events;
pub mod exex;
pub mod factory;
pub mod launch;
pub mod launched;
pub mod node;
pub mod pipeline;
pub mod pruner;
pub mod receipt;
