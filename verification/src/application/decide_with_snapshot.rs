//! Deciding with a snapshot: the commitment gate runs on the requested action
//! before the model is asked and on the action the model selects after, and
//! only an action that passes both is returned as a decision.
use vstd::prelude::*;

use crate::domain::rules::commitment_gate::{gate_blocks, gate_decision};
use crate::domain::snapshot::SelfSnapshot;
use crate::ports::ModelDecision;
use crate::seqs::{copy_opt_string, copy_strings, opt_text, texts};
use crate::text::{char_is_whitespace, chars_of, concat_str, is_white_space, owned, string_of};

verus! {

/// The version of the decision envelope.
pub const DECISION_PROTOCOL_VERSION: u32 = 2;

/// The name of the commitment gate in the envelope.
pub const COMMITMENT_GATE_NAME: &'static str = "commitment_gate";

/// Why a requested action was blocked.
pub const COMMITMENT_GATE_BLOCKED_REASON: &'static str = "commitment_gate_blocked_action";

/// Why a selected action was blocked.
pub const COMMITMENT_GATE_BLOCKED_SELECTED_REASON: &'static str =
    "commitment_gate_blocked_selected_action";

/// A request to decide on an action with a snapshot.
#[derive(Debug, Clone, PartialEq, Eq)]
pub struct DecideWithSnapshotInput {
    pub task: String,
    pub action: String,
    pub snapshot: SelfSnapshot,
}

/// What the model is asked to decide.
#[derive(Debug, Clone, PartialEq, Eq)]
pub struct ModelDecisionRequest {
    pub task: String,
    pub action: String,
    pub snapshot: SelfSnapshot,
}

impl ModelDecisionRequest {
    pub fn new(task: String, action: String, snapshot: SelfSnapshot) -> (r: ModelDecisionRequest)
        ensures
            r.task == task,
            r.action == action,
            r.snapshot == snapshot,
    {
        ModelDecisionRequest { task, action, snapshot }
    }
}

/// The verdict of one gate.
#[derive(Debug, Clone, PartialEq, Eq)]
pub struct DecisionGateMetadata {
    pub name: String,
    pub blocked: bool,
    pub reason: Option<String>,
}

impl DecisionGateMetadata {
    /// The commitment gate, blocking for `reason`.
    pub fn blocked(reason: &str) -> (r: DecisionGateMetadata)
        ensures
            r.name@ == COMMITMENT_GATE_NAME@,
            r.blocked,
            opt_text(r.reason) == Some(reason@),
    {
        DecisionGateMetadata {
            name: owned(COMMITMENT_GATE_NAME),
            blocked: true,
            reason: Some(owned(reason)),
        }
    }

    /// The commitment gate, passed.
    pub fn passed() -> (r: DecisionGateMetadata)
        ensures
            r.name@ == COMMITMENT_GATE_NAME@,
            !r.blocked,
            r.reason is None,
    {
        DecisionGateMetadata { name: owned(COMMITMENT_GATE_NAME), blocked: false, reason: None }
    }

    /// A copy of this verdict.
    pub fn duplicate(&self) -> (r: DecisionGateMetadata)
        ensures
            r.name@ == self.name@,
            r.blocked == self.blocked,
            opt_text(r.reason) == opt_text(self.reason),
    {
        DecisionGateMetadata {
            name: self.name.clone(),
            blocked: self.blocked,
            reason: copy_opt_string(&self.reason),
        }
    }
}

/// The decision envelope.
#[derive(Debug, Clone, PartialEq, Eq)]
pub struct DecideWithSnapshotResult {
    pub blocked: bool,
    pub decision: Option<ModelDecision>,
    pub protocol_version: u32,
    pub decision_id: String,
    pub requested_action: String,
    pub selected_action: Option<String>,
    pub confidence: Option<String>,
    pub status: String,
    pub reason: Option<String>,
    pub gate: DecisionGateMetadata,
    pub policy_checks: Vec<DecisionGateMetadata>,
    pub provider_diagnostics_class: String,
    pub non_claims: Vec<String>,
    /// On a returned decision, that it is experimental and not authoritative.
    pub decision_authority: Option<String>,
    /// On a returned decision, that only the server's commitment gate checked it.
    pub policy_scope: Option<String>,
}

/// An action with each white-space character replaced by `_`.
pub open spec fn underscored(s: Seq<char>) -> Seq<char> {
    s.map_values(|c: char| if is_white_space(c) { '_' } else { c })
}

/// The id of a decision on `action`: `decision:` and the action with its white
/// space replaced by `_`.
pub open spec fn decision_id_text(action: Seq<char>) -> Seq<char> {
    "decision:"@ + underscored(action)
}

/// The id of a decision on `action`.
pub fn decision_id_for(action: &str) -> (r: String)
    ensures
        r@ == decision_id_text(action@),
{
    let chars = chars_of(action);
    let mut out: Vec<char> = Vec::new();
    let mut i: usize = 0;
    while i < chars.len()
        invariant
            chars@ == action@,
            i <= chars@.len(),
            out@ == underscored(chars@.take(i as int)),
        decreases chars@.len() - i,
    {
        let c = chars[i];
        let mapped = if char_is_whitespace(c) {
            '_'
        } else {
            c
        };
        out.push(mapped);
        assert(out@ =~= underscored(chars@.take(i + 1)));
        i = i + 1;
    }
    assert(chars@.take(chars@.len() as int) =~= chars@);
    let tail = string_of(out.as_slice());
    concat_str("decision:", tail.as_str())
}

/// What a decision envelope does not claim to be.
pub open spec fn non_claims_text() -> Seq<Seq<char>> {
    seq![
        "not a full planning engine"@,
        "not policy arbitration"@,
        "not provider-native structured decision JSON"@,
        "not confidence scoring beyond bounded local metadata"@,
        "caller snapshot fields outside commitments remain untrusted"@,
        "not a server-created snapshot handle"@,
    ]
}

/// The statements of what a decision envelope does not claim to be.
pub fn decision_non_claims() -> (r: Vec<String>)
    ensures
        texts(r@) == non_claims_text(),
{
    let mut v: Vec<String> = Vec::new();
    v.push(owned("not a full planning engine"));
    v.push(owned("not policy arbitration"));
    v.push(owned("not provider-native structured decision JSON"));
    v.push(owned("not confidence scoring beyond bounded local metadata"));
    v.push(owned("caller snapshot fields outside commitments remain untrusted"));
    v.push(owned("not a server-created snapshot handle"));
    assert(texts(v@) =~= non_claims_text());
    v
}

/// `r` reports the blocking of `requested` (and of `selected`, when the model
/// chose an action) by the commitment gate for `reason`.
pub open spec fn is_blocked_envelope(
    r: DecideWithSnapshotResult,
    requested: Seq<char>,
    selected: Option<Seq<char>>,
    reason: Seq<char>,
    diagnostics_class: Seq<char>,
) -> bool {
    &&& r.blocked
    &&& r.decision is None
    &&& r.protocol_version == DECISION_PROTOCOL_VERSION
    &&& r.decision_id@ == decision_id_text(requested)
    &&& r.requested_action@ == requested
    &&& opt_text(r.selected_action) == selected
    &&& r.confidence is None
    &&& r.status@ == "blocked"@
    &&& opt_text(r.reason) == Some(reason)
    &&& r.gate.name@ == COMMITMENT_GATE_NAME@ && r.gate.blocked && opt_text(r.gate.reason) == Some(
        reason,
    )
    &&& r.policy_checks@.len() == 1
    &&& r.policy_checks@[0].name@ == COMMITMENT_GATE_NAME@ && r.policy_checks@[0].blocked
        && opt_text(r.policy_checks@[0].reason) == Some(reason)
    &&& r.provider_diagnostics_class@ == diagnostics_class
    &&& texts(r.non_claims@) == non_claims_text()
    &&& r.decision_authority is None
    &&& r.policy_scope is None
}

/// `r` returns the model's `decision` on `requested`.
pub open spec fn is_decision_envelope(
    r: DecideWithSnapshotResult,
    requested: Seq<char>,
    decision: ModelDecision,
) -> bool {
    &&& !r.blocked
    &&& r.decision == Some(decision)
    &&& r.protocol_version == DECISION_PROTOCOL_VERSION
    &&& r.decision_id@ == decision_id_text(requested)
    &&& r.requested_action@ == requested
    &&& opt_text(r.selected_action) == Some(decision.action@)
    &&& opt_text(r.confidence) == Some("bounded-local-metadata"@)
    &&& r.status@ == "model_decision"@
    &&& r.reason is None
    &&& r.gate.name@ == COMMITMENT_GATE_NAME@ && !r.gate.blocked && r.gate.reason is None
    &&& r.policy_checks@.len() == 1
    &&& r.policy_checks@[0].name@ == COMMITMENT_GATE_NAME@ && !r.policy_checks@[0].blocked
        && r.policy_checks@[0].reason is None
    &&& r.provider_diagnostics_class@ == "bounded-local-only"@
    &&& texts(r.non_claims@) == non_claims_text()
    &&& opt_text(r.decision_authority) == Some("experimental_non_authoritative"@)
    &&& opt_text(r.policy_scope) == Some("server_commitment_gate_only"@)
}

impl DecideWithSnapshotResult {
    /// The envelope of a requested action that the commitment gate blocked.
    pub fn blocked_by_commitment_gate(action: String) -> (r: DecideWithSnapshotResult)
        ensures
            is_blocked_envelope(
                r,
                action@,
                None,
                COMMITMENT_GATE_BLOCKED_REASON@,
                "not-applicable-gate-blocked"@,
            ),
    {
        let gate = DecisionGateMetadata::blocked(COMMITMENT_GATE_BLOCKED_REASON);
        let mut checks: Vec<DecisionGateMetadata> = Vec::new();
        checks.push(gate.duplicate());
        DecideWithSnapshotResult {
            blocked: true,
            decision: None,
            protocol_version: DECISION_PROTOCOL_VERSION,
            decision_id: decision_id_for(action.as_str()),
            requested_action: action,
            selected_action: None,
            confidence: None,
            status: owned("blocked"),
            reason: Some(owned(COMMITMENT_GATE_BLOCKED_REASON)),
            gate,
            policy_checks: checks,
            provider_diagnostics_class: owned("not-applicable-gate-blocked"),
            non_claims: decision_non_claims(),
            decision_authority: None,
            policy_scope: None,
        }
    }

    /// The envelope of the model's decision.
    pub fn model_decision(requested_action: String, decision: ModelDecision) -> (r:
        DecideWithSnapshotResult)
        ensures
            is_decision_envelope(r, requested_action@, decision),
    {
        let selected_action = decision.action.clone();
        let gate = DecisionGateMetadata::passed();
        let mut checks: Vec<DecisionGateMetadata> = Vec::new();
        checks.push(gate.duplicate());
        DecideWithSnapshotResult {
            blocked: false,
            decision: Some(decision),
            protocol_version: DECISION_PROTOCOL_VERSION,
            decision_id: decision_id_for(requested_action.as_str()),
            requested_action,
            selected_action: Some(selected_action),
            confidence: Some(owned("bounded-local-metadata")),
            status: owned("model_decision"),
            reason: None,
            gate,
            policy_checks: checks,
            provider_diagnostics_class: owned("bounded-local-only"),
            non_claims: decision_non_claims(),
            decision_authority: Some(owned("experimental_non_authoritative")),
            policy_scope: Some(owned("server_commitment_gate_only")),
        }
    }

    /// The envelope of a selected action that the commitment gate blocked.
    pub fn blocked_selected_action(requested_action: String, selected_action: String) -> (r:
        DecideWithSnapshotResult)
        ensures
            is_blocked_envelope(
                r,
                requested_action@,
                Some(selected_action@),
                COMMITMENT_GATE_BLOCKED_SELECTED_REASON@,
                "bounded-local-policy-rejected"@,
            ),
    {
        let gate = DecisionGateMetadata::blocked(COMMITMENT_GATE_BLOCKED_SELECTED_REASON);
        let mut checks: Vec<DecisionGateMetadata> = Vec::new();
        checks.push(gate.duplicate());
        DecideWithSnapshotResult {
            blocked: true,
            decision: None,
            protocol_version: DECISION_PROTOCOL_VERSION,
            decision_id: decision_id_for(requested_action.as_str()),
            requested_action,
            selected_action: Some(selected_action),
            confidence: None,
            status: owned("blocked"),
            reason: Some(owned(COMMITMENT_GATE_BLOCKED_SELECTED_REASON)),
            gate,
            policy_checks: checks,
            provider_diagnostics_class: owned("bounded-local-policy-rejected"),
            non_claims: decision_non_claims(),
            decision_authority: None,
            policy_scope: None,
        }
    }
}

/// The snapshot the model sees: the caller's snapshot with its commitments
/// replaced by the stored ones.
pub fn trusted_snapshot(snapshot: SelfSnapshot, trusted_commitments: &[String]) -> (r: SelfSnapshot)
    ensures
        r.identity == snapshot.identity,
        texts(r.commitments@) == texts(trusted_commitments@),
        r.claims == snapshot.claims,
        r.evidence == snapshot.evidence,
        r.episodes == snapshot.episodes,
{
    SelfSnapshot { commitments: copy_strings(trusted_commitments), ..snapshot }
}

/// The commitment check of the requested action, made before the provider is
/// consulted: the blocked envelope when a stored commitment forbids it, else
/// nothing.
pub fn gate_requested_action(action: &str, trusted_commitments: &[String]) -> (r: Option<
    DecideWithSnapshotResult,
>)
    ensures
        match r {
            Some(env) => gate_blocks(action@, texts(trusted_commitments@)) && is_blocked_envelope(
                env,
                action@,
                None,
                COMMITMENT_GATE_BLOCKED_REASON@,
                "not-applicable-gate-blocked"@,
            ),
            None => !gate_blocks(action@, texts(trusted_commitments@)),
        },
{
    if gate_decision(action, trusted_commitments).blocked {
        Some(DecideWithSnapshotResult::blocked_by_commitment_gate(owned(action)))
    } else {
        None
    }
}

/// The commitment check of the action that the provider selected: its
/// decision when no stored commitment forbids that action, else the blocked
/// envelope.
pub fn gate_selected_action(
    requested_action: String,
    decision: ModelDecision,
    trusted_commitments: &[String],
) -> (r: DecideWithSnapshotResult)
    ensures
        gate_blocks(decision.action@, texts(trusted_commitments@)) ==> is_blocked_envelope(
            r,
            requested_action@,
            Some(decision.action@),
            COMMITMENT_GATE_BLOCKED_SELECTED_REASON@,
            "bounded-local-policy-rejected"@,
        ),
        !gate_blocks(decision.action@, texts(trusted_commitments@)) ==> is_decision_envelope(
            r,
            requested_action@,
            decision,
        ),
{
    if gate_decision(decision.action.as_str(), trusted_commitments).blocked {
        DecideWithSnapshotResult::blocked_selected_action(requested_action, decision.action)
    } else {
        DecideWithSnapshotResult::model_decision(requested_action, decision)
    }
}

/// A decision envelope never carries a forbidden action: when no commitment
/// forbids the requested action, the provider's decision is returned exactly
/// when none forbids the selected action either.
pub proof fn lemma_decision_only_for_permitted_actions(
    r: DecideWithSnapshotResult,
    requested: Seq<char>,
    decision: ModelDecision,
    commitments: Seq<Seq<char>>,
)
    requires
        !gate_blocks(requested, commitments),
        gate_blocks(decision.action@, commitments) ==> is_blocked_envelope(
            r,
            requested,
            Some(decision.action@),
            COMMITMENT_GATE_BLOCKED_SELECTED_REASON@,
            "bounded-local-policy-rejected"@,
        ),
        !gate_blocks(decision.action@, commitments) ==> is_decision_envelope(
            r,
            requested,
            decision,
        ),
    ensures
        r.decision is Some <==> !gate_blocks(decision.action@, commitments),
        r.decision matches Some(d) ==> !gate_blocks(d.action@, commitments),
        r.blocked <==> gate_blocks(decision.action@, commitments),
{
}

} // verus!
