//! Event sourcing: per-entity event logs, state rebuilt by replay, and writes
//! guarded by optimistic concurrency control.

pub mod decider;
pub mod decimal;
pub mod event_store;
pub mod repository;
pub mod strategies;
pub mod test_helpers;
