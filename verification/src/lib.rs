//! Effect-to-write-set conversion layer of a smart-contract execution engine.
//!
//! After a contract-call session runs to completion, it holds a raw bundle of
//! side effects: per-account resource and module mutations, emitted events,
//! dynamic-table mutations, and numeric-counter deltas. This crate converts
//! that bundle into the single canonical, deduplicated, metadata-complete
//! write-set that the ledger persists, and it never panics on
//! attacker-influenced input: every invariant violation becomes a typed,
//! propagated error.

pub mod assemble;
pub mod assoc;
pub mod converter;
pub mod group;
pub mod range_proof;
pub mod session;
pub mod session_id;
pub mod state_view;
pub mod types;
pub mod write_set;
