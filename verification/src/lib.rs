//! Consensus-to-execution adapter for a blockchain sequencer.
//!
//! The crate orchestrates proposal construction and proposal validation
//! against an external block builder: it gates height transitions so the
//! builder is started exactly once per height, drives build and validate
//! pipelines as explicit state machines, keeps a shared store of completed
//! proposals keyed by height and content commitment, and finalizes consensus
//! decisions by pruning every height up to the decided one.

pub mod build_pipeline;
pub mod clock;
pub mod context;
pub mod height;
pub mod store;
pub mod types;
pub mod trie_config;
pub mod validate_pipeline;
