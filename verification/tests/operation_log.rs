use memory_ledger::adapters::sqlite::queries::SqlValue;
use memory_ledger::adapters::sqlite::writes::{insert_operation_plan, INSERT_OPERATION_SQL};
use memory_ledger::domain::operation_log::{
    redact_secrets, secret_key, ActorKind, OperationLogEntry, OperationLogKind, OperationLogStatus,
};
use memory_ledger::domain::time::Timestamp;

#[test]
fn redact_secrets_replaces_strings_under_secret_keys_at_any_depth() {
    let input = r#"{"api_key":"abc","list":[{"password":"p","x":"y"}],"nested":{"Token":"t","n":1},"secret_count":3}"#;
    let expected = r#"{"api_key":"[REDACTED]","list":[{"password":"[REDACTED]","x":"y"}],"nested":{"Token":"[REDACTED]","n":1},"secret_count":3}"#;
    assert_eq!(redact_secrets(input), expected);
}

#[test]
fn redact_secrets_does_not_look_inside_values_under_secret_keys() {
    let input = r#"{"auth_token":{"inner":"keep"},"bearer":null}"#;
    assert_eq!(redact_secrets(input), input);
}

#[test]
fn redact_secrets_returns_text_that_is_not_json_unchanged() {
    assert_eq!(redact_secrets("not json {"), "not json {");
    assert_eq!(redact_secrets(""), "");
}

#[test]
fn redact_secrets_is_idempotent_on_examples() {
    let input = r#"{"Authorization_Bearer":"xyz","client":{"secretName":"s","ok":"fine"}}"#;
    let once = redact_secrets(input);
    assert_eq!(
        once,
        r#"{"Authorization_Bearer":"[REDACTED]","client":{"ok":"fine","secretName":"[REDACTED]"}}"#
    );
    assert_eq!(redact_secrets(&once), once);
}

#[test]
fn secret_key_matches_patterns_case_insensitively() {
    assert!(secret_key("API_KEY"));
    assert!(secret_key("my_Password_hash"));
    assert!(secret_key("refreshToken"));
    assert!(!secret_key("apikey"));
    assert!(!secret_key("summary"));
}

fn entry(request: Option<&str>) -> OperationLogEntry {
    OperationLogEntry {
        operation_id: "op-1".to_string(),
        occurred_at: Timestamp { secs: 0, nanos: 0 },
        namespace: Some("self".to_string()),
        actor_kind: ActorKind::System,
        actor_id: "runtime".to_string(),
        entrypoint: "mcp".to_string(),
        operation_kind: OperationLogKind::Tool,
        status: OperationLogStatus::Ok_,
        correlation_id: None,
        request_summary_json: request.map(|s| s.to_string()),
        response_summary_json: None,
        diagnostic_summary_json: Some("plain".to_string()),
        redaction_version: 1,
    }
}

#[test]
fn insert_operation_plan_redacts_summaries() {
    let plan = insert_operation_plan(&entry(Some(r#"{"token":"abc"}"#))).unwrap();
    assert_eq!(plan.sql, INSERT_OPERATION_SQL);
    assert_eq!(
        plan.binds,
        vec![
            SqlValue::Text("op-1".to_string()),
            SqlValue::Text("1970-01-01T00:00:00+00:00".to_string()),
            SqlValue::Text("self".to_string()),
            SqlValue::Text("system".to_string()),
            SqlValue::Text("runtime".to_string()),
            SqlValue::Text("mcp".to_string()),
            SqlValue::Text("tool".to_string()),
            SqlValue::Text("ok".to_string()),
            SqlValue::Null,
            SqlValue::Text(r#"{"token":"[REDACTED]"}"#.to_string()),
            SqlValue::Null,
            SqlValue::Text("plain".to_string()),
            SqlValue::Integer(1),
        ]
    );
}

#[test]
fn insert_operation_plan_rejects_unwritable_time() {
    let mut e = entry(None);
    e.occurred_at = Timestamp { secs: i64::MAX, nanos: 0 };
    let err = insert_operation_plan(&e).unwrap_err();
    assert_eq!(err.message(), "timestamp is outside the supported range");
}
