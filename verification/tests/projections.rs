use memory_ledger::domain::episode_projection::{build_episode_summary_projection, EpisodeProjectionInput};
use memory_ledger::domain::error::{AppError, DomainError};
use memory_ledger::domain::evidence_relation::{build_evidence_relation_report, EvidenceRelationInput};
use memory_ledger::domain::rules::snapshot_builder::build_snapshot;
use memory_ledger::domain::snapshot::SnapshotRequest;

fn ids(items: &[&str]) -> Vec<String> {
    items.iter().map(|s| s.to_string()).collect()
}

fn episode(events: &[&str], linked: &[&str]) -> EpisodeProjectionInput {
    EpisodeProjectionInput {
        episode_reference: "episode:e".to_string(),
        episode_event_ids: ids(events),
        objective: None,
        outcome: None,
        lesson: None,
        linked_evidence_ids: ids(linked),
    }
}

#[test]
fn linked_reference_matches_a_raw_episode_event() {
    let p = build_episode_summary_projection(episode(&["e1", "event:e2", "e1"], &["event:e1", "e1"])).unwrap();
    assert_eq!(p.event_count, 2);
    assert_eq!(p.linked_evidence_ids, ids(&["e1"]));
    assert!(!p.writes_performed);
    assert_eq!(p.durable_self_model_write_path, "run_reflection");
}

#[test]
fn episode_projection_refuses_malformed_and_outside_links() {
    match build_episode_summary_projection(episode(&["e1"], &["event:"])) {
        Err(AppError::InvalidParams(m)) => assert_eq!(m, "InvalidEventReference"),
        other => panic!("unexpected {other:?}"),
    }
    match build_episode_summary_projection(episode(&["e1"], &["event:e9"])) {
        Err(AppError::InvalidParams(m)) => assert_eq!(m, "linked evidence e9 is outside the episode event set"),
        other => panic!("unexpected {other:?}"),
    }
}

#[test]
fn evidence_relation_compares_raw_ids() {
    let report = build_evidence_relation_report(EvidenceRelationInput {
        trigger_window_event_ids: ids(&["e1", "event:e2"]),
        selected_evidence_event_ids: ids(&["event:e1", "e1"]),
        selection_basis: None,
    })
    .unwrap();
    assert_eq!(report.trigger_window_size, 2);
    assert_eq!(report.selected_count, 1);
    assert_eq!(report.relations[0].event_id, "e1");
    assert!(report.relations[0].selected);
    assert_eq!(report.relations[1].event_id, "e2");
    assert!(!report.relations[1].selected);
}

#[test]
fn empty_scoped_evidence_stays_empty() {
    let mut request = SnapshotRequest::fixture_minimal();
    request.evidence = Vec::new();
    request.allow_empty_evidence = true;
    let snapshot = build_snapshot(request).unwrap();
    assert!(snapshot.evidence.is_empty());
    assert_eq!(snapshot.identity, ids(&["identity:self=architect"]));
    let mut strict = SnapshotRequest::fixture_minimal();
    strict.evidence = Vec::new();
    assert_eq!(build_snapshot(strict), Err(DomainError::InsufficientEvidence));
}

use memory_ledger::application::auto_reflect_if_needed::AutoReflectInput;
use memory_ledger::domain::self_revision::TriggerType;
use memory_ledger::interfaces::mcp::dto::{
    ClaimDraftDto, EventDto, EventKindDto, IngestInteractionParams, ModeDto, OwnerDto,
};

fn draft(namespace: &str) -> ClaimDraftDto {
    ClaimDraftDto {
        owner: OwnerDto::User,
        namespace: Some(namespace.to_string()),
        subject: "user".to_string(),
        predicate: "likes".to_string(),
        object: "tea".to_string(),
        mode: ModeDto::Said,
    }
}

fn ingest(drafts: Vec<ClaimDraftDto>, hints: &[&str]) -> IngestInteractionParams {
    IngestInteractionParams {
        event: EventDto {
            owner: OwnerDto::User,
            namespace: None,
            kind: EventKindDto::Conversation,
            summary: "hello".to_string(),
        },
        claim_drafts: drafts,
        episode_reference: None,
        trigger_hints: ids(hints),
    }
}

#[test]
fn ingest_reflection_runs_in_the_drafts_namespace() {
    let input = AutoReflectInput::from_ingest(&ingest(vec![draft("user/alice")], &["Identity"])).unwrap();
    assert_eq!(input.namespace.as_str(), "user/alice");
    assert_eq!(input.trigger_type, TriggerType::Conflict);
    let plain = AutoReflectInput::from_ingest(&ingest(Vec::new(), &["failure"])).unwrap();
    assert_eq!(plain.namespace.as_str(), "user/default");
    assert_eq!(plain.trigger_type, TriggerType::Failure);
}

#[test]
fn ingest_reflection_refuses_several_draft_namespaces() {
    match AutoReflectInput::from_ingest(&ingest(vec![draft("user/bob"), draft("user/alice")], &[])) {
        Err(AppError::InvalidParams(m)) => assert_eq!(
            m,
            "ambiguous auto-reflection namespace derived from claim drafts: user/alice, user/bob"
        ),
        other => panic!("unexpected {other:?}"),
    }
}
