//! The memory model: events, claims, namespaces, snapshots and the rules over them.
pub mod claim;
pub mod episode_projection;
pub mod error;
pub mod event;
pub mod evidence_relation;
pub mod json_tree;
pub mod memory_layer_projection;
pub mod memory_semantics_projection;
pub mod operation_log;
pub mod records;
pub mod rules;
pub mod self_revision;
pub mod snapshot;
pub mod time;
pub mod types;
