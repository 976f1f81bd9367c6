//! A memory ledger for AI agents: scoped events and claims, evidence-gated
//! self-revision, and the rules that govern them.
pub mod adapters;
pub mod application;
pub mod demo;
pub mod domain;
pub mod interfaces;
pub mod ports;
pub mod seqs;
pub mod text;

use vstd::prelude::*;

use crate::interfaces::mcp::server::TransportKind;

verus! {

/// The transport the server starts on by default: standard input and output.
pub fn startup_transport_from_default_config() -> (r: TransportKind)
    ensures
        r == TransportKind::Stdio,
{
    TransportKind::Stdio
}

} // verus!
