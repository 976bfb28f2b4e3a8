//! Consensus-mode selection for a parachain collator.
//!
//! A parachain chooses between two mutually exclusive consensus protocols,
//! depending on whether the chain's runtime has migrated from a minimal shell
//! runtime to a full Aura-based runtime.  Before the migration, blocks are
//! authored and verified by deferring entirely to the relay chain; after it,
//! an Aura slot schedule takes over.  This crate provides the decision layer
//! that inspects the parent block's runtime capability and dispatches block
//! production and block verification to the matching engine, together with a
//! single-assignment cell that defers building the expensive Aura engine
//! until it is first needed.

pub mod block;
pub mod chain_spec;
pub mod engine;
pub mod lazy;
pub mod laws;
pub mod probe;
pub mod selector;
