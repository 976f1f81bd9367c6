use memory_ledger::application::reflection_flow::{
    reflection_step, ReflectionAction, ReflectionEvent, ReflectionState, ReflectionWrite,
};
use memory_ledger::application::ingest_interaction::{ingest_writes, IngestInput, IngestWrite};
use memory_ledger::application::run_reflection::ReflectionInput;
use memory_ledger::domain::event::Event;
use memory_ledger::domain::claim::ClaimDraft;
use memory_ledger::domain::error::AppError;
use memory_ledger::domain::records::{Commitment, Reflection};
use memory_ledger::domain::time::Timestamp;
use memory_ledger::domain::types::{EventKind, Mode, Owner};
use memory_ledger::ports::{ClaimStatus, EvidenceQuery};

fn s(text: &str) -> String {
    text.to_string()
}

fn at() -> Timestamp {
    Timestamp { secs: 1_000, nanos: 0 }
}

fn start(input: ReflectionInput) -> (ReflectionState, ReflectionAction) {
    reflection_step(ReflectionState::Starting(input), ReflectionEvent::Start(s("r1"), at()))
}

fn invalid_message(action: ReflectionAction) -> String {
    match action {
        ReflectionAction::Fail(AppError::InvalidParams(m)) => m,
        other => panic!("unexpected {other:?}"),
    }
}

#[test]
fn record_only_reflection_commits_just_the_record() {
    let (state, action) = start(ReflectionInput::record_only(Reflection::new("noted"), Vec::new()));
    assert!(matches!(state, ReflectionState::Done));
    match action {
        ReflectionAction::Commit(writes, result) => {
            assert_eq!(result.reflection_id, "r1");
            assert_eq!(result.replacement_claim_id, None);
            assert_eq!(writes.len(), 1);
            match &writes[0] {
                ReflectionWrite::AppendReflection(r) => {
                    assert_eq!(r.reflection_id, "r1");
                    assert_eq!(r.recorded_at, at());
                    assert!(r.supporting_evidence_event_ids.is_empty());
                }
                other => panic!("unexpected {other:?}"),
            }
        }
        other => panic!("unexpected {other:?}"),
    }
}

fn superseding_input(evidence: &[&str]) -> ReflectionInput {
    ReflectionInput::new(
        Reflection::new("sky changed"),
        "c1",
        Some(ClaimDraft::new(Owner::World, "sky", "is", "grey", Mode::Observed)),
        evidence.iter().map(|e| s(e)).collect(),
    )
}

#[test]
fn unknown_evidence_refuses_the_reflection() {
    let (state, action) = start(superseding_input(&["e1", "e1", "e2"]));
    match action {
        ReflectionAction::CheckEvidence(ids) => assert_eq!(ids, vec![s("e1"), s("e2")]),
        other => panic!("unexpected {other:?}"),
    }
    let (state, action) = reflection_step(state, ReflectionEvent::EvidenceKnown(vec![true, false]));
    assert!(matches!(state, ReflectionState::Done));
    assert_eq!(invalid_message(action), "unknown replacement evidence event id: e2");
}

#[test]
fn superseding_reflection_writes_claim_links_record_and_status() {
    let (state, _) = start(superseding_input(&["e1", "e2"]));
    let (state, action) = reflection_step(state, ReflectionEvent::EvidenceKnown(vec![true, true]));
    assert!(matches!(state, ReflectionState::Done));
    match action {
        ReflectionAction::Commit(writes, result) => {
            assert_eq!(result.replacement_claim_id.as_deref(), Some("r1:replacement"));
            assert_eq!(writes.len(), 5);
            match &writes[0] {
                ReflectionWrite::UpsertClaim(c) => {
                    assert_eq!(c.claim_id, "r1:replacement");
                    assert_eq!(c.status, ClaimStatus::Active);
                }
                other => panic!("unexpected {other:?}"),
            }
            match (&writes[1], &writes[2]) {
                (ReflectionWrite::LinkEvidence(a, e1), ReflectionWrite::LinkEvidence(b, e2)) => {
                    assert_eq!((a.as_str(), e1.as_str()), ("r1:replacement", "e1"));
                    assert_eq!((b.as_str(), e2.as_str()), ("r1:replacement", "e2"));
                }
                other => panic!("unexpected {other:?}"),
            }
            match &writes[3] {
                ReflectionWrite::AppendReflection(r) => {
                    assert_eq!(r.superseded_claim_id.as_deref(), Some("c1"));
                    assert_eq!(r.replacement_claim_id.as_deref(), Some("r1:replacement"));
                    assert_eq!(r.supporting_evidence_event_ids, vec![s("e1"), s("e2")]);
                }
                other => panic!("unexpected {other:?}"),
            }
            match &writes[4] {
                ReflectionWrite::UpdateClaimStatus(id, status) => {
                    assert_eq!(id, "c1");
                    assert_eq!(*status, ClaimStatus::Superseded);
                }
                other => panic!("unexpected {other:?}"),
            }
        }
        other => panic!("unexpected {other:?}"),
    }
}

#[test]
fn target_without_replacement_disputes_the_claim() {
    let input = ReflectionInput::new(Reflection::new("x"), "c1", None, Vec::new());
    let (state, action) = start(input);
    // A target without a replacement disputes the claim and needs no evidence.
    assert!(matches!(state, ReflectionState::Done));
    match action {
        ReflectionAction::Commit(writes, _) => match writes.last() {
            Some(ReflectionWrite::UpdateClaimStatus(id, status)) => {
                assert_eq!(id, "c1");
                assert_eq!(*status, ClaimStatus::Disputed);
            }
            other => panic!("unexpected {other:?}"),
        },
        other => panic!("unexpected {other:?}"),
    }
}

#[test]
fn self_model_updates_need_evidence() {
    let input = ReflectionInput::record_only(Reflection::new("x"), Vec::new())
        .with_identity_update(vec![s("name=mm")]);
    let (state, action) = start(input);
    assert!(matches!(state, ReflectionState::Done));
    assert_eq!(
        invalid_message(action),
        "identity or commitment reflection updates require at least one resolved evidence event id"
    );
}

#[test]
fn empty_query_without_explicit_evidence_is_refused() {
    let query = EvidenceQuery {
        namespace: None,
        owner: None,
        kind: None,
        limit: Some(3),
        recorded_after: None,
        recorded_before: None,
        event_id_prefix: None,
    };
    let input = ReflectionInput::record_only(Reflection::new("x"), Vec::new())
        .with_identity_update(vec![s("name=mm")])
        .with_replacement_evidence_query(query);
    let (state, action) = start(input);
    assert!(matches!(action, ReflectionAction::QueryEvidence(_)));
    let (state, action) = reflection_step(state, ReflectionEvent::QueriedEvidence(Vec::new()));
    assert!(matches!(state, ReflectionState::Done));
    assert_eq!(invalid_message(action), "no replacement evidence found for the provided query");
}

#[test]
fn commitment_update_keeps_the_baseline_commitment() {
    let input = ReflectionInput::record_only(Reflection::new("x"), vec![s("e1")])
        .with_commitment_updates(vec![Commitment::new(Owner::Self_, "be kind")]);
    let (state, _) = start(input);
    let (state, action) = reflection_step(state, ReflectionEvent::EvidenceKnown(vec![true]));
    assert!(matches!(action, ReflectionAction::LoadCommitments));
    let existing = vec![
        Commitment::new(Owner::Self_, "forbid:write_identity_core_directly"),
        Commitment::new(Owner::Self_, "old rule"),
    ];
    let (_, action) = reflection_step(state, ReflectionEvent::Commitments(existing));
    match action {
        ReflectionAction::Commit(writes, _) => match &writes[0] {
            ReflectionWrite::ReplaceCommitments(cs) => {
                let descriptions: Vec<&str> = cs.iter().map(|c| c.description()).collect();
                assert_eq!(descriptions, vec!["be kind", "forbid:write_identity_core_directly"]);
            }
            other => panic!("unexpected {other:?}"),
        },
        other => panic!("unexpected {other:?}"),
    }
}

#[test]
fn ingest_writes_event_episode_then_claims_with_links() {
    let event = Event::new(Owner::World, EventKind::Observation, "the sky is grey");
    let drafts = vec![
        ClaimDraft::new(Owner::World, "sky", "is", "grey", Mode::Observed),
        ClaimDraft::new(Owner::World, "sun", "is", "hidden", Mode::Observed),
    ];
    let input = IngestInput::new(event, drafts, Some(s("ep-1")));
    let (writes, result) = ingest_writes(s("ev-1"), at(), input).unwrap();
    assert_eq!(result.event_id, "ev-1");
    assert_eq!(writes.len(), 6);
    assert!(matches!(&writes[0], IngestWrite::AppendEvent(e) if e.event_id == "ev-1" && e.recorded_at == at()));
    assert!(matches!(&writes[1], IngestWrite::RecordEventInEpisode(ep, ev) if ep == "ep-1" && ev == "ev-1"));
    assert!(matches!(&writes[2], IngestWrite::UpsertClaim(c) if c.claim_id == "ev-1:claim:0" && c.status == ClaimStatus::Active));
    assert!(matches!(&writes[3], IngestWrite::LinkEvidence(c, e) if c == "ev-1:claim:0" && e == "ev-1"));
    assert!(matches!(&writes[4], IngestWrite::UpsertClaim(c) if c.claim_id == "ev-1:claim:1"));
    assert!(matches!(&writes[5], IngestWrite::LinkEvidence(c, e) if c == "ev-1:claim:1" && e == "ev-1"));
}

#[test]
fn ingest_refuses_a_claim_of_an_unknown_owner() {
    let event = Event::new(Owner::World, EventKind::Observation, "x");
    let drafts = vec![ClaimDraft::new(Owner::Unknown, "a", "b", "c", Mode::Observed)];
    let input = IngestInput::new(event, drafts, None);
    match ingest_writes(s("ev-2"), at(), input) {
        Err(AppError::Message(m)) => assert_eq!(m, "UnknownOwnerNotWritable"),
        other => panic!("unexpected {other:?}"),
    }
}
