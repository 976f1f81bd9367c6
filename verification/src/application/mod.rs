//! The application layer: the decisions of each memory operation.
pub mod auto_reflect_flow;
pub mod auto_reflect_if_needed;
pub mod build_self_snapshot;
pub mod daemon;
pub mod decide_with_snapshot;
pub mod get_evidence_relation;
pub mod get_memory;
pub mod get_reflection_history;
pub mod get_self_model_history;
pub mod identity_governance;
pub mod ingest_interaction;
pub mod reflection_flow;
pub mod run_reflection;
pub mod search_memory;
pub mod supersede_memory;
