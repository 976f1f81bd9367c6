//! Requests to, proposals from, and diagnostics of automatic self-revision.
use vstd::prelude::*;

use crate::domain::snapshot::SelfSnapshot;
use crate::domain::time::Timestamp;
use crate::domain::types::Namespace;
use crate::ports::EvidenceQuery;
use crate::text::owned;

verus! {

/// The only durable write path for identity, commitment and reflection changes.
pub const SELF_REVISION_DURABLE_WRITE_PATH: &'static str = "run_reflection";

/// What set an automatic reflection off.
#[derive(Debug, Clone, Copy, PartialEq, Eq, Hash, Structural)]
pub enum TriggerType {
    Conflict,
    Failure,
    Periodic,
}

/// How an automatic reflection attempt ended.
#[derive(Debug, Clone, Copy, PartialEq, Eq, Structural)]
pub enum AutoReflectOutcome {
    Handled,
    Rejected,
    Suppressed,
    NotTriggered,
    Skipped,
}

/// What an automatic reflection attempt reports about itself.
#[derive(Debug, Clone, PartialEq, Eq)]
pub struct AutoReflectDiagnosticSummary {
    pub trigger_type: TriggerType,
    pub outcome: AutoReflectOutcome,
    pub suppression_reason: Option<String>,
    pub rejection_reason: Option<String>,
    pub cooldown_boundary: Option<Timestamp>,
    pub evidence_window_size: usize,
    pub selected_evidence_event_ids: Vec<String>,
    pub durable_write_path: String,
}

impl AutoReflectDiagnosticSummary {
    /// A summary whose durable write path is `run_reflection`.
    pub fn new(
        trigger_type: TriggerType,
        outcome: AutoReflectOutcome,
        suppression_reason: Option<String>,
        rejection_reason: Option<String>,
        cooldown_boundary: Option<Timestamp>,
        evidence_window_size: usize,
        selected_evidence_event_ids: Vec<String>,
    ) -> (r: AutoReflectDiagnosticSummary)
        ensures
            r.trigger_type == trigger_type,
            r.outcome == outcome,
            r.suppression_reason == suppression_reason,
            r.rejection_reason == rejection_reason,
            r.cooldown_boundary == cooldown_boundary,
            r.evidence_window_size == evidence_window_size,
            r.selected_evidence_event_ids == selected_evidence_event_ids,
            r.durable_write_path@ == "run_reflection"@,
    {
        AutoReflectDiagnosticSummary {
            trigger_type,
            outcome,
            suppression_reason,
            rejection_reason,
            cooldown_boundary,
            evidence_window_size,
            selected_evidence_event_ids,
            durable_write_path: owned("run_reflection"),
        }
    }
}

/// What the model is asked to revise.
#[derive(Debug, Clone, PartialEq, Eq)]
pub struct SelfRevisionRequest {
    pub trigger_type: TriggerType,
    pub namespace: Namespace,
    pub snapshot: SelfSnapshot,
    pub evidence_event_ids: Vec<String>,
    pub trigger_hints: Vec<String>,
}

impl SelfRevisionRequest {
    pub fn new(
        trigger_type: TriggerType,
        namespace: Namespace,
        snapshot: SelfSnapshot,
        evidence_event_ids: Vec<String>,
        trigger_hints: Vec<String>,
    ) -> (r: SelfRevisionRequest)
        ensures
            r.trigger_type == trigger_type,
            r.namespace == namespace,
            r.snapshot == snapshot,
            r.evidence_event_ids == evidence_event_ids,
            r.trigger_hints == trigger_hints,
    {
        SelfRevisionRequest { trigger_type, namespace, snapshot, evidence_event_ids, trigger_hints }
    }
}

/// The identity claims a proposal would write.
#[derive(Debug, Clone, PartialEq, Eq)]
pub struct SelfRevisionIdentityPatch {
    pub canonical_claims: Vec<String>,
}

impl SelfRevisionIdentityPatch {
    pub fn new(canonical_claims: Vec<String>) -> (r: SelfRevisionIdentityPatch)
        ensures
            r.canonical_claims == canonical_claims,
    {
        SelfRevisionIdentityPatch { canonical_claims }
    }
}

/// The commitments a proposal would write.
#[derive(Debug, Clone, PartialEq, Eq)]
pub struct SelfRevisionCommitmentPatch {
    pub commitments: Vec<String>,
}

impl SelfRevisionCommitmentPatch {
    pub fn new(commitments: Vec<String>) -> (r: SelfRevisionCommitmentPatch)
        ensures
            r.commitments == commitments,
    {
        SelfRevisionCommitmentPatch { commitments }
    }
}

/// The machine-readable changes of a proposal.
#[derive(Debug, Clone, PartialEq, Eq)]
pub struct SelfRevisionPatch {
    pub identity_patch: Option<SelfRevisionIdentityPatch>,
    pub commitment_patch: Option<SelfRevisionCommitmentPatch>,
}

impl Default for SelfRevisionPatch {
    fn default() -> (r: SelfRevisionPatch)
        ensures
            r.identity_patch is None,
            r.commitment_patch is None,
    {
        SelfRevisionPatch { identity_patch: None, commitment_patch: None }
    }
}

/// A model's proposal for revising the self model.
#[derive(Debug, Clone, PartialEq, Eq)]
pub struct SelfRevisionProposal {
    pub should_reflect: bool,
    pub rationale: String,
    pub machine_patch: SelfRevisionPatch,
    pub proposed_evidence_event_ids: Vec<String>,
    pub proposed_evidence_query: Option<EvidenceQuery>,
    pub confidence: Option<String>,
}

impl SelfRevisionProposal {
    /// A proposal not to reflect, with its rationale and nothing else.
    pub fn no_revision(rationale: &str) -> (r: SelfRevisionProposal)
        ensures
            !r.should_reflect,
            r.rationale@ == rationale@,
            r.machine_patch.identity_patch is None,
            r.machine_patch.commitment_patch is None,
            r.proposed_evidence_event_ids@.len() == 0,
            r.proposed_evidence_query is None,
            r.confidence is None,
    {
        SelfRevisionProposal {
            should_reflect: false,
            rationale: owned(rationale),
            machine_patch: SelfRevisionPatch::default(),
            proposed_evidence_event_ids: Vec::new(),
            proposed_evidence_query: None,
            confidence: None,
        }
    }
}

} // verus!
