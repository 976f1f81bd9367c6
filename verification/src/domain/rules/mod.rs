//! The rules that gate actions, classify reflections and bound snapshots.
pub mod commitment_gate;
pub mod conflict;
pub mod reflection_policy;
pub mod snapshot_builder;
