use memory_ledger::adapters::sqlite::codec::{
    mode_as_str, owner_as_str, parse_mode, parse_owner, parse_trigger_type, trigger_type_as_str,
};
use memory_ledger::application::auto_reflect_if_needed::{
    evaluate_trigger_suppression, handled_trigger_entry, is_cooldown_live, rejected_trigger_entry,
    suppressed_trigger_entry, SuppressionReason, TriggerCandidate,
};
use memory_ledger::application::decide_with_snapshot::{gate_requested_action, gate_selected_action};
use memory_ledger::application::identity_governance::{
    ensure_cross_episode_support, ensure_identity_cooldown_elapsed, ensure_identity_patch_limit,
    ensure_min_supporting_claims, ensure_no_high_conflict, IdentityRevisionContext,
};
use memory_ledger::application::run_reflection::preserve_baseline_commitments;
use memory_ledger::domain::claim::ClaimReference;
use memory_ledger::domain::event::EventReference;
use memory_ledger::domain::records::Commitment;
use memory_ledger::domain::self_revision::TriggerType;
use memory_ledger::domain::time::Timestamp;
use memory_ledger::domain::types::{Mode, Namespace, Owner};
use memory_ledger::ports::{ModelDecision, TriggerLedgerStatus};

const DAY: i64 = 24 * 3600;

fn s(text: &str) -> String {
    text.to_string()
}

fn at(secs: i64) -> Timestamp {
    Timestamp { secs, nanos: 0 }
}

fn candidate(evidence: &[&str], watermark: Option<u64>, trigger_type: TriggerType) -> TriggerCandidate {
    TriggerCandidate {
        trigger_type,
        namespace: Namespace::self_(),
        trigger_hints: Vec::new(),
        trigger_key: s("self:conflict"),
        evidence_event_ids: evidence.iter().map(|e| s(e)).collect(),
        should_consider: true,
        episode_watermark: watermark,
    }
}

#[test]
fn handled_trigger_suppresses_its_key_for_a_day() {
    let first = candidate(&["e1"], Some(1), TriggerType::Conflict);
    let entry = handled_trigger_entry(s("l1"), &first, at(1_000));
    assert_eq!(entry.status, TriggerLedgerStatus::Handled);
    assert_eq!(entry.cooldown_until, Some(at(1_000 + DAY)));
    let later = candidate(&["e9"], Some(5), TriggerType::Conflict);
    let during = evaluate_trigger_suppression(&later, &Some(entry.clone()), &Some(entry.clone()), at(1_000 + DAY - 1));
    assert_eq!(during, Some(SuppressionReason::CooldownActive));
    assert!(!is_cooldown_live(&entry, at(1_000 + DAY)));
    let after = evaluate_trigger_suppression(&later, &Some(entry.clone()), &Some(entry), at(1_000 + DAY));
    assert_eq!(after, None);
}

#[test]
fn rejected_trigger_starts_no_cooldown() {
    let c = candidate(&["e1"], None, TriggerType::Failure);
    let entry = rejected_trigger_entry(s("l2"), &c, at(50));
    assert_eq!(entry.status, TriggerLedgerStatus::Rejected);
    assert_eq!(entry.cooldown_until, None);
    assert!(!is_cooldown_live(&entry, at(50)));
}

#[test]
fn suppression_keeps_the_cooldown_end() {
    let c = candidate(&["e1"], Some(1), TriggerType::Conflict);
    let handled = handled_trigger_entry(s("l1"), &c, at(0));
    let suppressed = suppressed_trigger_entry(s("l3"), &c, &Some(handled.clone()), &Some(handled.clone()), at(10));
    assert_eq!(suppressed.status, TriggerLedgerStatus::Suppressed);
    assert_eq!(suppressed.cooldown_until, handled.cooldown_until);
}

#[test]
fn handled_window_is_not_reflected_again() {
    let c = candidate(&["e1", "e2"], Some(3), TriggerType::Conflict);
    let handled = handled_trigger_entry(s("l1"), &c, at(0));
    let same = candidate(&["e1", "e2"], Some(9), TriggerType::Conflict);
    let verdict = evaluate_trigger_suppression(&same, &Some(handled.clone()), &Some(handled.clone()), at(2 * DAY));
    assert_eq!(verdict, Some(SuppressionReason::EvidenceWindowUnchanged));
    let periodic = candidate(&[], Some(3), TriggerType::Periodic);
    let verdict = evaluate_trigger_suppression(&periodic, &Some(handled.clone()), &Some(handled), at(2 * DAY));
    assert_eq!(verdict, Some(SuppressionReason::EpisodeWatermarkUnchanged));
}

fn context() -> IdentityRevisionContext {
    IdentityRevisionContext {
        proposed_values: vec![s("calm")],
        supporting_claim_count: 3,
        cross_episode_support_count: 2,
        has_high_conflict: false,
        now: at(10 * DAY),
        latest_handled_at: None,
        cooldown_until: None,
        patch_size: 1,
    }
}

#[test]
fn identity_revision_governance_checks() {
    let ok = context();
    assert!(ensure_min_supporting_claims(&ok, 3).is_ok());
    assert!(ensure_cross_episode_support(&ok, 2).is_ok());
    assert!(ensure_no_high_conflict(&ok).is_ok());
    assert!(ensure_identity_cooldown_elapsed(&ok).is_ok());
    assert!(ensure_identity_patch_limit(&ok, 2).is_ok());
    let mut thin = context();
    thin.supporting_claim_count = 2;
    assert!(ensure_min_supporting_claims(&thin, 3).is_err());
    let mut conflicted = context();
    conflicted.has_high_conflict = true;
    assert!(ensure_no_high_conflict(&conflicted).is_err());
    let mut cooling = context();
    cooling.cooldown_until = Some(at(11 * DAY));
    assert!(ensure_identity_cooldown_elapsed(&cooling).is_err());
    let mut large = context();
    large.patch_size = 3;
    assert!(ensure_identity_patch_limit(&large, 2).is_err());
}

#[test]
fn commitment_gate_blocks_direct_identity_writes() {
    let commitments = vec![s("forbid:write_identity_core_directly")];
    let blocked = gate_requested_action("write_identity_core_directly", &commitments).unwrap();
    assert!(blocked.blocked);
    assert!(blocked.decision.is_none());
    assert!(gate_requested_action("summarize_memory_state", &commitments).is_none());
    let selected = gate_selected_action(
        s("summarize_memory_state"),
        ModelDecision::new("write_identity_core_directly"),
        &commitments,
    );
    assert!(selected.blocked);
    assert!(selected.decision.is_none());
    let passed = gate_selected_action(
        s("summarize_memory_state"),
        ModelDecision::new("summarize_memory_state"),
        &commitments,
    );
    assert!(!passed.blocked);
    assert_eq!(passed.decision_authority.as_deref(), Some("experimental_non_authoritative"));
    assert_eq!(passed.policy_scope.as_deref(), Some("server_commitment_gate_only"));
    assert_eq!(passed.decision.unwrap().action, "summarize_memory_state");
    assert_eq!(selected.decision_authority, None);
    assert_eq!(blocked.policy_scope, None);
}

#[test]
fn baseline_commitment_survives_a_commitment_update() {
    let existing = vec![
        Commitment::new(Owner::Self_, "forbid:write_identity_core_directly"),
        Commitment::new(Owner::Self_, "prefer:old"),
    ];
    let requested = vec![Commitment::new(Owner::Self_, "prefer:new")];
    let kept = preserve_baseline_commitments(requested, existing);
    assert_eq!(
        kept,
        vec![
            Commitment::new(Owner::Self_, "prefer:new"),
            Commitment::new(Owner::Self_, "forbid:write_identity_core_directly"),
        ]
    );
}

#[test]
fn labels_read_back_as_written() {
    for owner in [Owner::Self_, Owner::User, Owner::World, Owner::Unknown] {
        assert_eq!(parse_owner(owner_as_str(owner)).unwrap(), owner);
    }
    for mode in [Mode::Observed, Mode::Said, Mode::Acted, Mode::Inferred, Mode::Draft] {
        assert_eq!(parse_mode(mode_as_str(mode)).unwrap(), mode);
    }
    for t in [TriggerType::Conflict, TriggerType::Failure, TriggerType::Periodic] {
        assert_eq!(parse_trigger_type(trigger_type_as_str(t)).unwrap(), t);
    }
}

#[test]
fn references_read_back_from_their_canonical_form() {
    let event = EventReference::parse("evt-1").unwrap();
    assert_eq!(event.canonical(), "event:evt-1");
    assert_eq!(EventReference::parse(&event.canonical()).unwrap().event_id(), "evt-1");
    let claim = ClaimReference::parse("c-1").unwrap();
    assert_eq!(ClaimReference::parse(&claim.canonical()).unwrap().claim_id(), "c-1");
    assert!(EventReference::parse("event:event:x").is_err());
    assert!(EventReference::parse("has space").is_err());
}
