//! Speculative execution and profit search for sandwich bundles.
//!
//! The library holds the cached state overlay, the bundle outcome fold, the
//! bounded search over the attack size and the decisions of the strategy
//! orchestrator. The state-transition engine, the chain reads and the relay
//! are driven from outside; their results come back as plain values.

pub mod types;
pub mod alloy_db;
pub mod overlay;
pub mod codec;
pub mod bundle;
pub mod optimizer;
pub mod strategy;
