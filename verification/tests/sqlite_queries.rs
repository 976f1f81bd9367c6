use memory_ledger::adapters::sqlite::queries::{
    claim_evidence_plan, claim_record_query_plan, claim_reflection_history_plan,
    claim_revision_links_plan, event_claim_ids_plan, event_episode_references_plan,
    event_record_query_plan, evidence_query_plan, in_list_plan, manifest_times_plan,
    operation_log_query_plan, scoped_event_ids_plan, snapshot_episodes_plan, snapshot_events_plan,
    sqlite_rfc3339_sort_key, supporting_episodes_plan, validate_record_query, SnapshotEventPlan,
    SqlValue,
};
use memory_ledger::domain::claim::ClaimReference;
use memory_ledger::domain::error::AppError;
use memory_ledger::domain::event::EventReference;
use memory_ledger::domain::snapshot::SnapshotTimeWindow;
use memory_ledger::domain::time::{timestamp_rfc3339, timestamp_sort_key, Timestamp};
use memory_ledger::domain::types::{EventKind, MemoryScope, Mode, Namespace, Owner};
use memory_ledger::ports::{
    ClaimRecordQuery, ClaimReflectionHistoryQuery, ClaimStatus, EventRecordQuery, EvidenceQuery,
    OperationLogQuery,
};

fn expected_sort_key(column: &str) -> String {
    format!(
        "strftime('%Y-%m-%dT%H:%M:%S', \
         substr({column}, 1, 19) || \
         CASE WHEN upper(substr({column}, -1)) = 'Z' THEN 'Z' ELSE substr({column}, -6) END) || \
         '.' || \
         CASE WHEN substr({column}, 20, 1) = '.' \
         THEN substr(substr({column}, 21, length({column}) - 20 - \
              CASE WHEN upper(substr({column}, -1)) = 'Z' THEN 1 ELSE 6 END) || \
              '000000000', 1, 9) \
         ELSE '000000000' END"
    )
}

fn text(s: &str) -> SqlValue {
    SqlValue::Text(s.to_string())
}

fn world_scope() -> MemoryScope {
    MemoryScope::for_namespace(Namespace::world())
}

fn empty_evidence_query() -> EvidenceQuery {
    EvidenceQuery {
        namespace: None,
        owner: None,
        kind: None,
        limit: None,
        recorded_after: None,
        recorded_before: None,
        event_id_prefix: None,
    }
}

fn ts(secs: i64) -> Timestamp {
    Timestamp { secs, nanos: 0 }
}

#[test]
fn sort_key_expression_matches_the_store_text() {
    assert_eq!(sqlite_rfc3339_sort_key("recorded_at"), expected_sort_key("recorded_at"));
    assert_eq!(sqlite_rfc3339_sort_key("e.recorded_at"), expected_sort_key("e.recorded_at"));
}

#[test]
fn timestamp_sort_key_pads_nanoseconds_to_nine_digits() {
    let key = timestamp_sort_key(&Timestamp { secs: 0, nanos: 5 }).unwrap();
    assert_eq!(key, "1970-01-01T00:00:00.000000005");
    let key = timestamp_sort_key(&Timestamp { secs: 86_400 + 61, nanos: 123_456_789 }).unwrap();
    assert_eq!(key, "1970-01-02T00:01:01.123456789");
    let far = timestamp_sort_key(&Timestamp { secs: i64::MAX, nanos: 0 }).unwrap_err();
    assert_eq!(far.message(), "timestamp is outside the supported range");
}

#[test]
fn rfc3339_text_of_an_instant() {
    assert_eq!(timestamp_rfc3339(&ts(0)).unwrap(), "1970-01-01T00:00:00+00:00");
}

#[test]
fn evidence_query_without_filters_has_no_where_clause() {
    let plan = evidence_query_plan(&empty_evidence_query(), None).unwrap();
    assert_eq!(
        plan.sql,
        format!(
            "SELECT event_id, recorded_at, owner, kind, summary FROM events ORDER BY {} DESC, rowid DESC",
            expected_sort_key("recorded_at")
        )
    );
    assert!(plan.binds.is_empty());
}

#[test]
fn evidence_query_filters_and_default_limit() {
    let query = EvidenceQuery {
        namespace: Some(Namespace::world()),
        owner: Some(Owner::World),
        kind: Some(EventKind::Action),
        limit: None,
        recorded_after: Some(ts(0)),
        recorded_before: None,
        event_id_prefix: Some("evt".to_string()),
    };
    let plan = evidence_query_plan(&query, Some(10)).unwrap();
    let key = expected_sort_key("recorded_at");
    assert_eq!(
        plan.sql,
        format!(
            "SELECT event_id, recorded_at, owner, kind, summary FROM events WHERE namespace = ? AND owner = ? AND kind = ? AND {key} >= ? AND event_id LIKE ? || '%' ORDER BY {key} DESC, rowid DESC LIMIT ?"
        )
    );
    assert_eq!(
        plan.binds,
        vec![
            text("world"),
            text("world"),
            text("action"),
            text("1970-01-01T00:00:00.000000000"),
            text("evt"),
            SqlValue::Integer(10),
        ]
    );
}

#[test]
fn evidence_query_rejects_a_zero_limit() {
    let mut query = empty_evidence_query();
    query.limit = Some(0);
    let err = evidence_query_plan(&query, Some(10)).unwrap_err();
    assert!(matches!(err, AppError::InvalidParams(_)));
    assert_eq!(err.message(), "evidence query limit must be at least 1");
}

#[test]
fn operation_log_query_plan_binds_in_filter_order() {
    let query = OperationLogQuery {
        operation_id: None,
        namespace: Some("self".to_string()),
        operation_kind: Some("tool".to_string()),
        status: None,
        correlation_id: None,
        after: Some(ts(0)),
        before: None,
        limit: Some(5),
    };
    let plan = operation_log_query_plan(&query).unwrap();
    assert_eq!(
        plan.sql,
        "SELECT operation_id, occurred_at, namespace, actor_kind, actor_id, entrypoint, operation_kind, status, correlation_id, request_summary_json, response_summary_json, diagnostic_summary_json, redaction_version FROM operation_log WHERE namespace = ? AND operation_kind = ? AND occurred_at > ? ORDER BY occurred_at DESC, operation_id DESC LIMIT ?"
    );
    assert_eq!(
        plan.binds,
        vec![
            text("self"),
            text("tool"),
            text("1970-01-01T00:00:00+00:00"),
            SqlValue::Integer(5),
        ]
    );
}

#[test]
fn record_queries_need_scope_and_a_bounded_limit() {
    let legacy = MemoryScope::legacy_unscoped();
    assert_eq!(
        validate_record_query(&legacy, 5, "event record query").unwrap_err().message(),
        "event record query requires an explicit namespace"
    );
    assert_eq!(
        validate_record_query(&world_scope(), 0, "event record query").unwrap_err().message(),
        "event record query limit must be at least 1"
    );
    assert_eq!(
        validate_record_query(&world_scope(), 101, "claim record query").unwrap_err().message(),
        "claim record query limit must be at most 100"
    );
    assert!(validate_record_query(&world_scope(), 100, "claim record query").is_ok());
}

#[test]
fn event_record_query_plan_and_inverted_window() {
    let query = EventRecordQuery {
        scope: world_scope(),
        event_reference: Some(EventReference::parse("event:e1").unwrap()),
        kind: None,
        recorded_after: None,
        recorded_before: Some(ts(60)),
        limit: 3,
    };
    let plan = event_record_query_plan(&query).unwrap();
    let key = expected_sort_key("recorded_at");
    assert_eq!(
        plan.sql,
        format!(
            "SELECT event_id, recorded_at, owner, namespace, kind, summary FROM events WHERE owner = ? AND namespace = ? AND event_id = ? AND {key} <= ? ORDER BY {key} DESC, rowid DESC LIMIT ?"
        )
    );
    assert_eq!(
        plan.binds,
        vec![
            text("world"),
            text("world"),
            text("e1"),
            text("1970-01-01T00:01:00.000000000"),
            SqlValue::Integer(3),
        ]
    );
    let inverted = EventRecordQuery {
        scope: world_scope(),
        event_reference: None,
        kind: None,
        recorded_after: Some(ts(60)),
        recorded_before: Some(ts(0)),
        limit: 3,
    };
    assert_eq!(
        event_record_query_plan(&inverted).unwrap_err().message(),
        "recorded_after must be less than or equal to recorded_before"
    );
}

#[test]
fn claim_record_query_plan_text() {
    let query = ClaimRecordQuery {
        scope: MemoryScope::self_(),
        claim_reference: None,
        status: Some(ClaimStatus::Active),
        mode: Some(Mode::Observed),
        limit: 10,
    };
    let plan = claim_record_query_plan(&query).unwrap();
    assert_eq!(
        plan.sql,
        "SELECT claim_id, owner, namespace, subject, predicate, object, mode, status FROM claims WHERE owner = ? AND namespace = ? AND status = ? AND mode = ? ORDER BY claim_id ASC LIMIT ?"
    );
    assert_eq!(
        plan.binds,
        vec![text("self"), text("self"), text("active"), text("observed"), SqlValue::Integer(10)]
    );
}

#[test]
fn reflection_history_plan_fetches_one_more_than_the_page() {
    let query = ClaimReflectionHistoryQuery {
        scope: world_scope(),
        claim_reference: ClaimReference::parse("claim:c1").unwrap(),
        limit: 20,
    };
    let plan = claim_reflection_history_plan(&query).unwrap();
    assert!(plan.sql.starts_with("WITH RECURSIVE scoped_edges AS (SELECT r.rowid AS reflection_rowid"));
    assert!(plan.sql.ends_with(&format!(
        "ORDER BY {} DESC, edge.reflection_rowid DESC LIMIT ?",
        expected_sort_key("edge.recorded_at")
    )));
    assert_eq!(plan.binds.len(), 8);
    assert_eq!(plan.binds[4], text("c1"));
    assert_eq!(plan.binds[7], SqlValue::Integer(21));
    let unscoped = ClaimReflectionHistoryQuery {
        scope: MemoryScope::legacy_unscoped(),
        claim_reference: ClaimReference::parse("claim:c1").unwrap(),
        limit: 20,
    };
    assert_eq!(
        claim_reflection_history_plan(&unscoped).unwrap_err().message(),
        "claim reflection history query requires an explicit namespace"
    );
}

#[test]
fn snapshot_events_without_manifest_use_the_evidence_query() {
    let window = SnapshotTimeWindow { recorded_after: Some(ts(0)), recorded_before: None };
    match snapshot_events_plan(&world_scope(), None, &window).unwrap() {
        SnapshotEventPlan::Evidence(q) => {
            assert_eq!(q.namespace, Some(Namespace::world()));
            assert_eq!(q.owner, Some(Owner::World));
            assert_eq!(q.limit, None);
            assert_eq!(q.recorded_after, Some(ts(0)));
        }
        _ => panic!("expected an evidence query"),
    }
}

#[test]
fn snapshot_events_with_manifest_and_checks() {
    let manifest = vec![
        EventReference::parse("event:a").unwrap(),
        EventReference::parse("b").unwrap(),
    ];
    let unbounded = SnapshotTimeWindow::unbounded();
    match snapshot_events_plan(&world_scope(), Some(&manifest), &unbounded).unwrap() {
        SnapshotEventPlan::Manifest(plan) => {
            let key = expected_sort_key("recorded_at");
            assert_eq!(
                plan.sql,
                format!(
                    "SELECT event_id FROM events WHERE owner = ? AND namespace = ? AND event_id IN (?, ?) ORDER BY {key} DESC, rowid DESC"
                )
            );
            assert_eq!(plan.binds, vec![text("world"), text("world"), text("a"), text("b")]);
        }
        _ => panic!("expected a manifest statement"),
    }
    assert!(matches!(
        snapshot_events_plan(&world_scope(), Some(&[]), &unbounded).unwrap(),
        SnapshotEventPlan::NoEvents
    ));
    let legacy = MemoryScope::legacy_unscoped();
    assert_eq!(
        snapshot_events_plan(&legacy, Some(&manifest), &unbounded).err().unwrap().message(),
        "evidence_manifest requires an explicit namespace"
    );
    let bounded = SnapshotTimeWindow { recorded_after: None, recorded_before: Some(ts(1)) };
    assert_eq!(
        snapshot_events_plan(&legacy, None, &bounded).err().unwrap().message(),
        "snapshot time window requires an explicit namespace"
    );
    let inverted = SnapshotTimeWindow { recorded_after: Some(ts(9)), recorded_before: Some(ts(1)) };
    assert_eq!(
        snapshot_events_plan(&world_scope(), None, &inverted).err().unwrap().message(),
        "recorded_after must be less than or equal to recorded_before"
    );
    let long: Vec<EventReference> =
        (0..257).map(|i| EventReference::parse(&format!("e{i}")).unwrap()).collect();
    assert_eq!(
        snapshot_events_plan(&world_scope(), Some(&long), &unbounded).err().unwrap().message(),
        "evidence_manifest must contain at most 256 entries"
    );
}

#[test]
fn snapshot_episode_listing_filters_scope_and_window() {
    let window = SnapshotTimeWindow { recorded_after: Some(ts(0)), recorded_before: Some(ts(60)) };
    let plan = snapshot_episodes_plan(&world_scope(), &window).unwrap();
    assert!(plan.sql.contains(" AND events.owner = ? AND events.namespace = ?"));
    assert_eq!(plan.binds.len(), 4);
    let legacy = snapshot_episodes_plan(&MemoryScope::legacy_unscoped(), &SnapshotTimeWindow::unbounded())
        .unwrap();
    assert!(!legacy.sql.contains("events.owner = ?"));
    assert!(legacy.binds.is_empty());
}

#[test]
fn manifest_times_plan_cases() {
    assert!(manifest_times_plan(&world_scope(), &[]).unwrap().is_none());
    let manifest = vec![EventReference::parse("a").unwrap()];
    let plan = manifest_times_plan(&world_scope(), &manifest).unwrap().unwrap();
    assert_eq!(
        plan.sql,
        "SELECT recorded_at FROM events WHERE owner = ? AND namespace = ? AND event_id IN (?)"
    );
    assert_eq!(
        manifest_times_plan(&MemoryScope::legacy_unscoped(), &manifest).unwrap_err().message(),
        "evidence_manifest requires an explicit namespace"
    );
}

#[test]
fn in_list_statements() {
    let ids = vec!["a".to_string(), "b".to_string(), "c".to_string()];
    let plan = in_list_plan("SELECT x WHERE id IN (", &ids, ")");
    assert_eq!(plan.sql, "SELECT x WHERE id IN (?, ?, ?)");
    assert_eq!(plan.binds, vec![text("a"), text("b"), text("c")]);
    let ns = Namespace::world();
    let claims = event_claim_ids_plan(&ids[..1], Owner::World, &ns);
    assert_eq!(
        claims.sql,
        "SELECT el.event_id, el.claim_id FROM evidence_links el JOIN claims c ON c.claim_id = el.claim_id WHERE el.event_id IN (?) AND c.owner = ? AND c.namespace = ? ORDER BY el.event_id, el.claim_id"
    );
    assert_eq!(claims.binds, vec![text("a"), text("world"), text("world")]);
    let episodes = event_episode_references_plan(&ids[..2]);
    assert_eq!(
        episodes.sql,
        "SELECT event_id, episode_reference FROM episode_events WHERE event_id IN (?, ?) ORDER BY event_id, episode_reference"
    );
    let evidence = claim_evidence_plan(&ids[..1], Owner::World, &ns);
    assert!(evidence.sql.ends_with(&format!(
        " ORDER BY el.claim_id, {} DESC, e.rowid DESC",
        expected_sort_key("e.recorded_at")
    )));
    let scoped = scoped_event_ids_plan(&ids[..2], Owner::World, &ns);
    assert_eq!(
        scoped.sql,
        "SELECT event_id FROM events WHERE owner = ? AND namespace = ? AND event_id IN (?, ?)"
    );
    assert!(supporting_episodes_plan(&[]).is_none());
    assert_eq!(supporting_episodes_plan(&ids[..1]).unwrap().binds, vec![text("a")]);
    let revisions = claim_revision_links_plan(&ids[..2], Owner::World, &ns);
    assert_eq!(revisions.binds.len(), 8);
    assert!(revisions.sql.contains("WHERE r.superseded_claim_id IN (?, ?) OR r.replacement_claim_id IN (?, ?) ORDER BY "));
}
