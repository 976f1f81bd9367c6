use memory_ledger::adapters::sqlite::assembly::{
    claim_read_records, distinct_evidence_ids, event_read_records, parse_evidence_rows,
    references_for_key, revision_links_for, scoped_history_record, split_page,
    unfiltered_history_record, values_for_key, HistoryRow, RevisionRow, TransactionState,
    UnfilteredHistoryRecord,
};
use memory_ledger::adapters::sqlite::queries::SqlValue;
use memory_ledger::adapters::sqlite::rows::{
    episode_watermark_from_stored, operation_entry_from_row, parse_stored_namespace,
    serialize_episode_watermark, stored_claim_from_row, stored_event_from_row,
    stored_trigger_ledger_entry_from_row, string_list_json, strings_from_json, ClaimRow, EventRow,
    OperationLogRow, TriggerLedgerRow,
};
use memory_ledger::adapters::sqlite::writes::{
    check_claim_updated, claims_copy_sql, commitment_inserts, commitments_from_rows,
    identity_claim_inserts, identity_from_rows, insert_event_plan, insert_evidence_link_plan,
    insert_trigger_ledger_plan, needs_namespace_rebuild, reflection_audit_column_statements,
    seed_baseline_commitment_plan, update_claim_status_plan, upsert_claim_plan,
};
use memory_ledger::domain::claim::ClaimDraft;
use memory_ledger::domain::error::AppError;
use memory_ledger::domain::event::Event;
use memory_ledger::domain::operation_log::{ActorKind, OperationLogKind, OperationLogStatus};
use memory_ledger::domain::records::{Commitment, IdentityCore};
use memory_ledger::domain::self_revision::TriggerType;
use memory_ledger::domain::time::Timestamp;
use memory_ledger::domain::types::{EventKind, Mode, Namespace, Owner};
use memory_ledger::ports::{
    ClaimStatus, StoredClaim, StoredEvent, StoredTriggerLedgerEntry, TriggerLedgerStatus,
};

fn s(text: &str) -> String {
    text.to_string()
}

fn claim_row(owner: &str, namespace: &str, mode: &str, status: &str) -> ClaimRow {
    ClaimRow {
        claim_id: s("c1"),
        owner: s(owner),
        namespace: s(namespace),
        subject: s("user"),
        predicate: s("likes"),
        object: s("tea"),
        mode: s(mode),
        status: s(status),
    }
}

fn pair(a: &str, b: &str) -> (String, String) {
    (s(a), s(b))
}

#[test]
fn claim_rows_read_back_or_name_their_fault() {
    let claim = stored_claim_from_row(&claim_row("user", "user/alice", "said", "active")).unwrap();
    assert_eq!(claim.claim_id, "c1");
    assert_eq!(claim.claim.owner(), Owner::User);
    assert_eq!(claim.claim.namespace().as_str(), "user/alice");
    assert_eq!(claim.claim.mode(), Mode::Said);
    assert_eq!(claim.status, ClaimStatus::Active);
    let owner = stored_claim_from_row(&claim_row("robot", "world", "said", "active")).unwrap_err();
    assert_eq!(owner.message(), "unknown owner: robot");
    let mode = stored_claim_from_row(&claim_row("user", "user/a", "guessed", "active")).unwrap_err();
    assert_eq!(mode.message(), "unknown mode: guessed");
    let ns = stored_claim_from_row(&claim_row("user", "nowhere", "said", "active")).unwrap_err();
    assert_eq!(ns.message(), "invalid stored namespace `nowhere`: InvalidNamespace");
    let mapping = stored_claim_from_row(&claim_row("user", "world", "said", "active")).unwrap_err();
    assert_eq!(mapping.message(), "invalid stored claim namespace mapping: NamespaceOwnerMismatch");
    let status = stored_claim_from_row(&claim_row("user", "user/a", "said", "gone")).unwrap_err();
    assert_eq!(status.message(), "unknown claim status: gone");
}

#[test]
fn event_rows_read_back() {
    let row = EventRow {
        event_id: s("e1"),
        recorded_at: s("1970-01-01T00:01:00Z"),
        owner: s("world"),
        namespace: s("project/x"),
        kind: s("action"),
        summary: s("did it"),
    };
    let event = stored_event_from_row(&row).unwrap();
    assert_eq!(event.event_id, "e1");
    assert_eq!(event.recorded_at, Timestamp { secs: 60, nanos: 0 });
    assert_eq!(event.event.kind(), EventKind::Action);
    assert_eq!(event.event.summary(), "did it");
    let mut bad_time = row.clone();
    bad_time.recorded_at = s("yesterday");
    assert!(matches!(stored_event_from_row(&bad_time), Err(AppError::Message(_))));
    let mut bad_kind = row.clone();
    bad_kind.kind = s("dream");
    assert_eq!(stored_event_from_row(&bad_kind).unwrap_err().message(), "unknown event kind: dream");
    let mut mismatch = row.clone();
    mismatch.namespace = s("self");
    assert_eq!(
        stored_event_from_row(&mismatch).unwrap_err().message(),
        "invalid stored event namespace mapping: NamespaceOwnerMismatch"
    );
}

#[test]
fn ledger_rows_read_back_with_watermark_checks() {
    let row = TriggerLedgerRow {
        ledger_id: s("l1"),
        trigger_type: s("conflict"),
        namespace: s("self"),
        trigger_key: s("self:conflict"),
        status: s("handled"),
        evidence_window: s("[\"e1\",\"e2\"]"),
        handled_at: Some(s("1970-01-01T00:00:00Z")),
        cooldown_until: None,
        episode_watermark: Some(4),
        reflection_id: Some(s("r1")),
    };
    let entry = stored_trigger_ledger_entry_from_row(&row).unwrap();
    assert_eq!(entry.trigger_type, TriggerType::Conflict);
    assert_eq!(entry.status, TriggerLedgerStatus::Handled);
    assert_eq!(entry.evidence_window, vec![s("e1"), s("e2")]);
    assert_eq!(entry.handled_at, Some(Timestamp { secs: 0, nanos: 0 }));
    assert_eq!(entry.episode_watermark, Some(4));
    let mut negative = row.clone();
    negative.episode_watermark = Some(-3);
    assert_eq!(
        stored_trigger_ledger_entry_from_row(&negative).unwrap_err().message(),
        "invalid negative episode watermark: -3"
    );
    let mut bad_json = row.clone();
    bad_json.evidence_window = s("not json");
    assert!(stored_trigger_ledger_entry_from_row(&bad_json).is_err());
    let mut bad_status = row.clone();
    bad_status.status = s("lost");
    assert_eq!(
        stored_trigger_ledger_entry_from_row(&bad_status).unwrap_err().message(),
        "unknown trigger ledger status: lost"
    );
}

#[test]
fn watermarks_and_json_lists() {
    assert_eq!(serialize_episode_watermark(None).unwrap(), None);
    assert_eq!(serialize_episode_watermark(Some(7)).unwrap(), Some(7));
    let err = serialize_episode_watermark(Some(u64::MAX)).unwrap_err();
    assert!(matches!(err, AppError::InvalidParams(_)));
    assert_eq!(
        err.message(),
        format!("episode watermark {} exceeds sqlite INTEGER range", u64::MAX)
    );
    assert_eq!(episode_watermark_from_stored(Some(0)).unwrap(), Some(0));
    assert_eq!(string_list_json(&vec![s("a"), s("b\"")]), "[\"a\",\"b\\\"\"]");
    assert_eq!(strings_from_json("[\"x\"]").unwrap(), vec![s("x")]);
    assert!(strings_from_json("[1]").is_err());
    assert_eq!(parse_stored_namespace("world").unwrap(), Namespace::world());
}

#[test]
fn operation_rows_read_back() {
    let row = OperationLogRow {
        operation_id: s("op1"),
        occurred_at: s("1970-01-01T00:00:10Z"),
        namespace: Some(s("self")),
        actor_kind: s("model"),
        actor_id: s("m"),
        entrypoint: s("mcp"),
        operation_kind: s("decision"),
        status: s("ok"),
        correlation_id: None,
        request_summary_json: Some(s("{}")),
        response_summary_json: None,
        diagnostic_summary_json: None,
        redaction_version: 1,
    };
    let entry = operation_entry_from_row(&row).unwrap();
    assert_eq!(entry.occurred_at, Timestamp { secs: 10, nanos: 0 });
    assert_eq!(entry.actor_kind, ActorKind::Model);
    assert_eq!(entry.operation_kind, OperationLogKind::Decision);
    assert_eq!(entry.status, OperationLogStatus::Ok_);
    let mut bad = row.clone();
    bad.actor_kind = s("ghost");
    assert_eq!(operation_entry_from_row(&bad).unwrap_err().message(), "unknown actor kind: ghost");
}

#[test]
fn write_statements_bind_the_record() {
    let event = StoredEvent::new(
        s("e1"),
        Timestamp { secs: 0, nanos: 0 },
        Event::new(Owner::Self_, EventKind::Observation, "saw"),
    );
    let plan = insert_event_plan(&event).unwrap();
    assert!(plan.sql.contains("INSERT INTO events (event_id, recorded_at, owner, namespace, kind, summary)"));
    assert_eq!(
        plan.binds,
        vec![
            SqlValue::Text(s("e1")),
            SqlValue::Text(s("1970-01-01T00:00:00+00:00")),
            SqlValue::Text(s("self")),
            SqlValue::Text(s("self")),
            SqlValue::Text(s("observation")),
            SqlValue::Text(s("saw")),
        ]
    );
    let good = StoredClaim::new(
        s("c1"),
        ClaimDraft::new(Owner::World, "sky", "is", "blue", Mode::Observed),
        ClaimStatus::Active,
    );
    assert_eq!(upsert_claim_plan(&good).unwrap().binds.len(), 8);
    let misplaced = StoredClaim::new(
        s("c2"),
        ClaimDraft::new(Owner::World, "sky", "is", "blue", Mode::Observed)
            .with_namespace(Namespace::self_()),
        ClaimStatus::Active,
    );
    assert_eq!(
        upsert_claim_plan(&misplaced).unwrap_err().message(),
        "invalid claim namespace mapping: NamespaceOwnerMismatch"
    );
    let link = insert_evidence_link_plan("c1", "e1");
    assert_eq!(link.binds, vec![SqlValue::Text(s("c1")), SqlValue::Text(s("e1"))]);
    let update = update_claim_status_plan("c1", ClaimStatus::Superseded);
    assert_eq!(update.binds, vec![SqlValue::Text(s("superseded")), SqlValue::Text(s("c1"))]);
    assert_eq!(check_claim_updated("c9", 0).unwrap_err().message(), "cannot update missing claim: c9");
    assert!(check_claim_updated("c1", 1).is_ok());
    let seed = seed_baseline_commitment_plan();
    assert_eq!(
        seed.binds,
        vec![SqlValue::Text(s("forbid:write_identity_core_directly")), SqlValue::Text(s("self"))]
    );
}

#[test]
fn trigger_ledger_insert_binds_nulls_and_checks_the_watermark() {
    let entry = StoredTriggerLedgerEntry {
        ledger_id: s("l1"),
        trigger_type: TriggerType::Failure,
        namespace: Namespace::self_(),
        trigger_key: s("self:failure"),
        status: TriggerLedgerStatus::Rejected,
        evidence_window: vec![s("e1")],
        handled_at: None,
        cooldown_until: None,
        episode_watermark: None,
        reflection_id: None,
    };
    let plan = insert_trigger_ledger_plan(&entry).unwrap();
    assert_eq!(plan.binds.len(), 10);
    assert_eq!(plan.binds[5], SqlValue::Text(s("[\"e1\"]")));
    assert_eq!(plan.binds[6], SqlValue::Null);
    assert_eq!(plan.binds[9], SqlValue::Null);
    let mut huge = entry.clone();
    huge.episode_watermark = Some(u64::MAX);
    assert!(matches!(insert_trigger_ledger_plan(&huge), Err(AppError::InvalidParams(_))));
}

#[test]
fn identity_and_commitment_rows() {
    assert_eq!(identity_from_rows(Vec::new()).unwrap_err().message(), "missing identity");
    let identity = identity_from_rows(vec![s("identity:self=agent_llm_mm")]).unwrap();
    let inserts = identity_claim_inserts(&identity);
    assert_eq!(inserts.len(), 1);
    assert_eq!(
        inserts[0].binds,
        vec![SqlValue::Integer(0), SqlValue::Text(s("identity:self=agent_llm_mm"))]
    );
    let commitments = commitments_from_rows(&[pair("self", "forbid:x")]).unwrap();
    assert_eq!(commitments, vec![Commitment::new(Owner::Self_, "forbid:x")]);
    assert_eq!(
        commitments_from_rows(&[pair("self", "a"), pair("nobody", "b")]).unwrap_err().message(),
        "unknown owner: nobody"
    );
    let stmts = commitment_inserts(&commitments);
    assert_eq!(stmts[0].binds, vec![SqlValue::Text(s("forbid:x")), SqlValue::Text(s("self"))]);
    let _ = IdentityCore::new(Vec::new());
}

#[test]
fn legacy_table_rebuild_decisions() {
    assert!(needs_namespace_rebuild(false, false, ""));
    assert!(needs_namespace_rebuild(true, false, "CONSTRAINT owner_namespace_scope"));
    assert!(needs_namespace_rebuild(true, true, "CREATE TABLE claims (x)"));
    assert!(!needs_namespace_rebuild(true, true, "... CONSTRAINT owner_namespace_scope CHECK ..."));
    assert!(claims_copy_sql("'world'").contains("SELECT claim_id, owner, 'world', subject"));
    let all = reflection_audit_column_statements(&[]);
    assert_eq!(all.len(), 3);
    let some = reflection_audit_column_statements(&[s("supporting_evidence_event_ids")]);
    assert_eq!(
        some,
        vec![
            s("ALTER TABLE reflections ADD COLUMN requested_identity_update TEXT"),
            s("ALTER TABLE reflections ADD COLUMN requested_commitment_updates TEXT"),
        ]
    );
}

#[test]
fn grouped_values_keep_row_order() {
    let rows = vec![pair("e1", "c1"), pair("e2", "c9"), pair("e1", "c2")];
    assert_eq!(values_for_key(&rows, "e1"), vec![s("c1"), s("c2")]);
    assert!(values_for_key(&rows, "e3").is_empty());
    let events = vec![
        StoredEvent::new(s("e1"), Timestamp { secs: 0, nanos: 0 }, Event::new(Owner::User, EventKind::Conversation, "hi")),
        StoredEvent::new(s("e3"), Timestamp { secs: 0, nanos: 0 }, Event::new(Owner::User, EventKind::Conversation, "yo")),
    ];
    let records = event_read_records(events, &rows, &[pair("e3", "ep1")]);
    assert_eq!(records.len(), 2);
    assert_eq!(records[0].claim_ids, vec![s("c1"), s("c2")]);
    assert!(records[0].episode_references.is_empty());
    assert_eq!(records[1].episode_references, vec![s("ep1")]);
}

#[test]
fn evidence_rows_must_hold_event_references() {
    let parsed = parse_evidence_rows(&[pair("c1", "event:e1"), pair("c1", "e2")]).unwrap();
    let refs = references_for_key(&parsed, "c1");
    assert_eq!(refs.len(), 2);
    assert_eq!(refs[0].event_id(), "e1");
    let err = parse_evidence_rows(&[pair("c1", "bad id")]).unwrap_err();
    assert_eq!(err.message(), "InvalidEventReference");
}

fn revision(id: &str, superseded: Option<&str>, replacement: Option<&str>, scoped_sup: Option<&str>, scoped_rep: Option<&str>) -> RevisionRow {
    RevisionRow {
        reflection_id: s(id),
        superseded_claim_id: superseded.map(s),
        replacement_claim_id: replacement.map(s),
        scoped_superseded_claim_id: scoped_sup.map(s),
        scoped_replacement_claim_id: scoped_rep.map(s),
    }
}

#[test]
fn revision_links_take_the_latest_reflection_each_way() {
    let rows = vec![
        revision("r2", Some("c1"), Some("c2"), Some("c1"), None),
        revision("r1", Some("c0"), Some("c1"), Some("c0"), Some("c1")),
    ];
    let links = revision_links_for(&rows, "c1");
    assert_eq!(links.source_reflection_id, Some(s("r1")));
    assert_eq!(links.supersedes_claim_reference.unwrap().claim_id(), "c0");
    assert_eq!(links.superseded_by_reflection_id, Some(s("r2")));
    assert!(links.replacement_claim_reference.is_none());
    let claims = vec![StoredClaim::new(
        s("c1"),
        ClaimDraft::new(Owner::World, "a", "b", "c", Mode::Observed),
        ClaimStatus::Superseded,
    )];
    let records = claim_read_records(claims, &[], &[pair("c1", "ep")], &rows);
    assert_eq!(records[0].episode_references, vec![s("ep")]);
    assert_eq!(records[0].revision.source_reflection_id, Some(s("r1")));
}

#[test]
fn history_pages_and_scoped_evidence() {
    let (page, more) = split_page(vec![1, 2, 3], 2);
    assert_eq!(page, vec![1, 2]);
    assert!(more);
    let (page, more) = split_page(vec![1, 2], 2);
    assert_eq!(page, vec![1, 2]);
    assert!(!more);
    let row = HistoryRow {
        reflection_id: s("r1"),
        recorded_at: s("1970-01-01T00:00:00Z"),
        summary: s("why"),
        superseded_claim_id: Some(s("c1")),
        replacement_claim_id: None,
        supporting_evidence_event_ids: s("[\"e2\",\"e1\",\"e2\",\"x\"]"),
    };
    let record: UnfilteredHistoryRecord = unfiltered_history_record(&row).unwrap();
    assert_eq!(distinct_evidence_ids(&[record.clone()]), vec![s("e1"), s("e2"), s("x")]);
    let scoped = scoped_history_record(record, &[s("e1"), s("e2")]);
    let ids: Vec<&str> = scoped.supporting_evidence_event_references.iter().map(|r| r.event_id()).collect();
    assert_eq!(ids, vec!["e2", "e1"]);
    assert_eq!(scoped.superseded_claim_reference.unwrap().claim_id(), "c1");
}

#[test]
fn poisoned_transaction_refuses_writes_and_commit() {
    let mut tx = TransactionState::begin();
    assert!(tx.check_write().is_ok());
    tx.record_write(false);
    assert_eq!(
        tx.check_write().unwrap_err().message(),
        "transaction is poisoned and cannot accept more writes"
    );
    assert_eq!(tx.commit().unwrap_err().message(), "transaction is poisoned and cannot be committed");
    let mut ok = TransactionState::begin();
    ok.record_write(true);
    assert!(ok.commit().is_ok());
    assert_eq!(ok.check_write().unwrap_err().message(), "transaction already closed");
    assert_eq!(ok.commit().unwrap_err().message(), "transaction already closed");
}
