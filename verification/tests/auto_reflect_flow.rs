use memory_ledger::application::auto_reflect_flow::{
    step, AutoReflectAction, AutoReflectEvent, AutoReflectState, Stamp,
};
use memory_ledger::application::auto_reflect_if_needed::{
    handled_trigger_entry, AutoReflectInput, RecursionGuard,
};
use memory_ledger::domain::error::AppError;
use memory_ledger::domain::claim::ClaimDraft;
use memory_ledger::domain::self_revision::{
    SelfRevisionCommitmentPatch, SelfRevisionIdentityPatch, SelfRevisionPatch, SelfRevisionProposal,
};
use memory_ledger::domain::snapshot::SelfSnapshot;
use memory_ledger::domain::time::Timestamp;
use memory_ledger::domain::types::{EventKind, Mode, Namespace, Owner};
use memory_ledger::ports::{ClaimStatus, StoredClaim, TriggerLedgerStatus};

fn s(text: &str) -> String {
    text.to_string()
}

fn stamp(secs: i64, id: &str) -> Stamp {
    Stamp { now: Timestamp { secs, nanos: 0 }, ledger_id: s(id) }
}

fn conflict_input(hints: &[&str]) -> AutoReflectInput {
    AutoReflectInput::for_conflict(Namespace::self_(), hints.iter().map(|h| s(h)).collect())
}

fn empty_snapshot() -> SelfSnapshot {
    SelfSnapshot {
        identity: Vec::new(),
        commitments: Vec::new(),
        claims: Vec::new(),
        evidence: Vec::new(),
        episodes: Vec::new(),
    }
}

/// Runs a considered conflict trigger up to the model's proposal.
fn up_to_proposal() -> AutoReflectState {
    let (state, action) = step(AutoReflectState::Starting(conflict_input(&["conflict"])), AutoReflectEvent::Start);
    match action {
        AutoReflectAction::QueryTriggerWindow(q, scope) => {
            assert_eq!(q.limit, Some(5));
            assert_eq!(q.namespace.as_ref().map(|n| n.as_str()), Some("self"));
            assert_eq!(q.owner, Some(Owner::Self_));
            assert_eq!(q.kind, None);
            assert_eq!(scope.owner(), Some(Owner::Self_));
            assert_eq!(scope.namespace().map(|n| n.as_str()), Some("self"));
        }
        other => panic!("unexpected {other:?}"),
    }
    let (state, action) = step(state, AutoReflectEvent::TriggerWindow(vec![s("e1"), s("e2")], vec![s("ep1")]));
    match action {
        AutoReflectAction::ReadLedger(key) => assert_eq!(key, "self:conflict"),
        other => panic!("unexpected {other:?}"),
    }
    let (state, action) = step(state, AutoReflectEvent::Ledger(None, None, stamp(100, "l1")));
    match action {
        AutoReflectAction::BuildSnapshot(budget) => assert_eq!(budget, 3),
        other => panic!("unexpected {other:?}"),
    }
    let (state, action) = step(state, AutoReflectEvent::Snapshot(empty_snapshot()));
    match action {
        AutoReflectAction::Propose(req) => assert_eq!(req.evidence_event_ids, vec![s("e1"), s("e2")]),
        other => panic!("unexpected {other:?}"),
    }
    state
}

fn commitment_proposal(ids: &[&str]) -> SelfRevisionProposal {
    SelfRevisionProposal {
        should_reflect: true,
        rationale: s("keep promises"),
        machine_patch: SelfRevisionPatch {
            identity_patch: None,
            commitment_patch: Some(SelfRevisionCommitmentPatch { commitments: vec![s("be kind")] }),
        },
        proposed_evidence_event_ids: ids.iter().map(|i| s(i)).collect(),
        proposed_evidence_query: None,
        confidence: None,
    }
}

#[test]
fn closed_recursion_guard_skips_the_run() {
    let input = conflict_input(&["conflict"]).with_recursion_guard(RecursionGuard::SkipAutoReflection);
    let (state, action) = step(AutoReflectState::Starting(input), AutoReflectEvent::Start);
    assert!(matches!(state, AutoReflectState::Done));
    match action {
        AutoReflectAction::Return(Ok(res)) => {
            assert!(!res.triggered);
            assert_eq!(res.reason.as_deref(), Some("recursion guard enabled"));
        }
        other => panic!("unexpected {other:?}"),
    }
}

#[test]
fn conflict_without_hints_is_not_triggered() {
    let (state, _) = step(AutoReflectState::Starting(conflict_input(&[])), AutoReflectEvent::Start);
    let (state, action) = step(state, AutoReflectEvent::TriggerWindow(vec![s("e1")], Vec::new()));
    assert!(matches!(state, AutoReflectState::Done));
    match action {
        AutoReflectAction::Return(Ok(res)) => {
            assert!(!res.triggered);
            assert_eq!(res.ledger_status, None);
            assert_eq!(res.evidence_event_ids, vec![s("e1")]);
        }
        other => panic!("unexpected {other:?}"),
    }
}

#[test]
fn live_cooldown_suppresses_before_the_model_is_asked() {
    let (state, _) = step(AutoReflectState::Starting(conflict_input(&["conflict"])), AutoReflectEvent::Start);
    let (state, _) = step(state, AutoReflectEvent::TriggerWindow(vec![s("e1")], Vec::new()));
    let earlier = match &state {
        AutoReflectState::AwaitingLedger(c) => handled_trigger_entry(s("l0"), c, Timestamp { secs: 0, nanos: 0 }),
        other => panic!("unexpected {other:?}"),
    };
    let (state, action) = step(state, AutoReflectEvent::Ledger(Some(earlier.clone()), Some(earlier.clone()), stamp(60, "l1")));
    assert!(matches!(state, AutoReflectState::Done));
    match action {
        AutoReflectAction::RecordAndReturn(entry, Ok(res)) => {
            assert_eq!(entry.status, TriggerLedgerStatus::Suppressed);
            assert_eq!(entry.ledger_id, "l1");
            assert_eq!(entry.cooldown_until, earlier.cooldown_until);
            assert_eq!(res.suppression_reason.as_deref(), Some("cooldown_active"));
        }
        other => panic!("unexpected {other:?}"),
    }
}

#[test]
fn declined_proposal_is_recorded_as_rejected() {
    let state = up_to_proposal();
    let proposal = SelfRevisionProposal::no_revision("nothing to change");
    let (state, action) = step(state, AutoReflectEvent::Proposal(proposal, stamp(200, "l2")));
    assert!(matches!(state, AutoReflectState::Done));
    match action {
        AutoReflectAction::RecordAndReturn(entry, Ok(res)) => {
            assert_eq!(entry.status, TriggerLedgerStatus::Rejected);
            assert_eq!(entry.cooldown_until, None);
            assert_eq!(res.reason.as_deref(), Some("nothing to change"));
        }
        other => panic!("unexpected {other:?}"),
    }
}

#[test]
fn evidence_outside_the_window_is_rejected_with_an_audit() {
    let state = up_to_proposal();
    let (state, action) = step(state, AutoReflectEvent::Proposal(commitment_proposal(&["e9"]), stamp(200, "l2")));
    assert!(matches!(state, AutoReflectState::Done));
    match action {
        AutoReflectAction::RecordAndReturn(entry, Err(AppError::InvalidParams(message))) => {
            assert_eq!(entry.status, TriggerLedgerStatus::Rejected);
            assert_eq!(entry.ledger_id, "l2");
            assert_eq!(message, "model proposed evidence outside the current trigger window");
        }
        other => panic!("unexpected {other:?}"),
    }
}

#[test]
fn governed_commitment_revision_is_written_and_handled() {
    let state = up_to_proposal();
    let (state, action) = step(state, AutoReflectEvent::Proposal(commitment_proposal(&["e2"]), stamp(200, "l2")));
    match action {
        AutoReflectAction::RunReflection(_) => {}
        other => panic!("unexpected {other:?}"),
    }
    let (state, action) = step(state, AutoReflectEvent::Reflected(Ok(s("r1")), stamp(201, "l3")));
    assert!(matches!(state, AutoReflectState::Done));
    match action {
        AutoReflectAction::Return(Ok(res)) => {
            assert!(res.triggered);
            assert_eq!(res.reflection_id.as_deref(), Some("r1"));
            assert_eq!(res.evidence_event_ids, vec![s("e2")]);
            assert_eq!(res.ledger_status, Some(TriggerLedgerStatus::Handled));
            assert_eq!(res.cooldown_until, Some(Timestamp { secs: 200 + 24 * 3600, nanos: 0 }));
        }
        other => panic!("unexpected {other:?}"),
    }
}

#[test]
fn failed_reflection_is_recorded_as_rejected() {
    let state = up_to_proposal();
    let (state, _) = step(state, AutoReflectEvent::Proposal(commitment_proposal(&[]), stamp(200, "l2")));
    let (state, action) = step(state, AutoReflectEvent::Reflected(Err(AppError::Message(s("disk full"))), stamp(201, "l3")));
    assert!(matches!(state, AutoReflectState::Done));
    match action {
        AutoReflectAction::RecordAndReturn(entry, Err(error)) => {
            assert_eq!(entry.status, TriggerLedgerStatus::Rejected);
            assert_eq!(entry.ledger_id, "l3");
            assert!(matches!(error, AppError::Message(ref m) if m == "disk full"));
        }
        other => panic!("unexpected {other:?}"),
    }
}

#[test]
fn failure_window_reads_actions_of_the_namespace_owner() {
    let input = AutoReflectInput::for_failure(Namespace::for_owner(Owner::User), vec![s("failure")]);
    let (_, action) = step(AutoReflectState::Starting(input), AutoReflectEvent::Start);
    match action {
        AutoReflectAction::QueryTriggerWindow(q, scope) => {
            assert_eq!(q.namespace.as_ref().map(|n| n.as_str()), Some("user/default"));
            assert_eq!(q.owner, Some(Owner::User));
            assert_eq!(q.kind, Some(EventKind::Action));
            assert_eq!(q.limit, Some(5));
            assert_eq!(scope.owner(), Some(Owner::User));
            assert_eq!(scope.namespace().map(|n| n.as_str()), Some("user/default"));
        }
        other => panic!("unexpected {other:?}"),
    }
}

#[test]
fn proposed_event_references_are_governed_by_raw_id() {
    let state = up_to_proposal();
    let (_, action) = step(
        state,
        AutoReflectEvent::Proposal(commitment_proposal(&["event:e2", "e2"]), stamp(200, "l2")),
    );
    match action {
        AutoReflectAction::RunReflection(input) => assert_eq!(input.into_parts().3, vec![s("e2")]),
        other => panic!("unexpected {other:?}"),
    }
}

#[test]
fn malformed_proposed_reference_is_rejected_with_an_audit() {
    let state = up_to_proposal();
    let (state, action) = step(state, AutoReflectEvent::Proposal(commitment_proposal(&["event:"]), stamp(200, "l2")));
    assert!(matches!(state, AutoReflectState::Done));
    match action {
        AutoReflectAction::RecordAndReturn(entry, Err(AppError::InvalidParams(message))) => {
            assert_eq!(entry.status, TriggerLedgerStatus::Rejected);
            assert_eq!(message, "InvalidEventReference");
        }
        other => panic!("unexpected {other:?}"),
    }
}

fn identity_proposal() -> SelfRevisionProposal {
    SelfRevisionProposal {
        should_reflect: true,
        rationale: s("steady"),
        machine_patch: SelfRevisionPatch {
            identity_patch: Some(SelfRevisionIdentityPatch { canonical_claims: vec![s("self.mood=calm")] }),
            commitment_patch: None,
        },
        proposed_evidence_event_ids: Vec::new(),
        proposed_evidence_query: None,
        confidence: None,
    }
}

fn active(id: &str, object: &str) -> StoredClaim {
    StoredClaim::new(s(id), ClaimDraft::new(Owner::Self_, "self", "mood", object, Mode::Observed), ClaimStatus::Active)
}

/// Runs the identity proposal up to the read of the supporting episodes and
/// returns the state and the claim ids asked about.
fn up_to_supporting_episodes() -> (AutoReflectState, Vec<String>) {
    let state = up_to_proposal();
    let (state, action) = step(state, AutoReflectEvent::Proposal(identity_proposal(), stamp(200, "l2")));
    match action {
        AutoReflectAction::ReadIdentityContext(key) => assert_eq!(key, "self:conflict"),
        other => panic!("unexpected {other:?}"),
    }
    let claims = vec![active("c1", "calm"), active("c2", "calm"), active("c3", "calm")];
    let (state, action) = step(state, AutoReflectEvent::IdentityContext(claims, None));
    match action {
        AutoReflectAction::ReadSupportingEpisodes(ids) => (state, ids),
        other => panic!("unexpected {other:?}"),
    }
}

#[test]
fn identity_support_reads_the_episodes_of_supporting_claims() {
    let (_, ids) = up_to_supporting_episodes();
    assert_eq!(ids, vec![s("c1"), s("c2"), s("c3")]);
}

#[test]
fn identity_support_counts_distinct_supporting_episodes() {
    let (state, _) = up_to_supporting_episodes();
    let (state, action) = step(state, AutoReflectEvent::SupportingEpisodes(vec![s("ep1"), s("ep1")], stamp(300, "l3")));
    assert!(matches!(state, AutoReflectState::Done));
    match action {
        AutoReflectAction::RecordAndReturn(entry, Err(AppError::InvalidParams(message))) => {
            assert_eq!(entry.status, TriggerLedgerStatus::Rejected);
            assert_eq!(message, "identity auto-reflection requires support across at least 2 episodes");
        }
        other => panic!("unexpected {other:?}"),
    }
    let (state, _) = up_to_supporting_episodes();
    let (_, action) = step(state, AutoReflectEvent::SupportingEpisodes(vec![s("ep1"), s("ep2")], stamp(300, "l3")));
    assert!(matches!(action, AutoReflectAction::RunReflection(_)));
}

#[test]
fn empty_scoped_window_leaves_the_trigger_unconsidered() {
    let (state, _) = step(AutoReflectState::Starting(conflict_input(&["conflict"])), AutoReflectEvent::Start);
    let (state, action) = step(state, AutoReflectEvent::TriggerWindow(Vec::new(), vec![s("ep1")]));
    assert!(matches!(state, AutoReflectState::Done));
    match action {
        AutoReflectAction::Return(Ok(res)) => {
            assert!(!res.triggered);
            assert!(res.evidence_event_ids.is_empty());
        }
        other => panic!("unexpected {other:?}"),
    }
}
