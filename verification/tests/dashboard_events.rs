use memory_ledger::domain::json_tree::JsonTree;
use memory_ledger::interfaces::dashboard::event::{
    dashboard_started, tool_completed, tool_failed, tool_started, EventQuery, OperationKind,
    OperationStatus,
};
use memory_ledger::interfaces::dashboard::recorder::RecentEvents;

fn s(text: &str) -> String {
    text.to_string()
}

fn object(members: Vec<(&str, JsonTree)>) -> JsonTree {
    JsonTree::Object(members.into_iter().map(|(k, v)| (s(k), v)).collect())
}

#[test]
fn failed_tool_keeps_the_error_in_the_payload() {
    let event = tool_failed("search_memory", Some(s("self")), 7, s("search_memory failed"), s("disk full"));
    assert_eq!(event.kind, OperationKind::Error);
    assert_eq!(event.status, OperationStatus::Failed);
    assert_eq!(event.summary, "search_memory failed");
    assert_eq!(event.payload, object(vec![("error", JsonTree::Text(s("disk full")))]));
}

#[test]
fn startup_payload_names_the_url_and_read_only() {
    let event = dashboard_started("http://127.0.0.1:8787", 1);
    assert_eq!(event.summary, "dashboard serving http://127.0.0.1:8787");
    assert_eq!(
        event.payload,
        object(vec![
            ("base_url", JsonTree::Text(s("http://127.0.0.1:8787"))),
            ("read_only", JsonTree::Bool(true)),
        ])
    );
}

#[test]
fn started_tool_payload_names_the_operation() {
    let event = tool_started("get_memory", None, 2);
    assert_eq!(event.summary, "get_memory started");
    assert_eq!(event.payload, object(vec![("operation", JsonTree::Text(s("get_memory")))]));
}

#[test]
fn recent_events_keep_each_payload_with_its_event() {
    let mut recent = RecentEvents::new(2);
    recent.append(tool_failed("a", None, 1, s("a failed"), s("x")));
    recent.append(tool_completed(s("op-2"), "b", None, 2, s("b done"), JsonTree::Array(vec![JsonTree::Null])));
    recent.append(tool_failed("c", None, 3, s("c failed"), s("z")));
    let all = recent.recent(&EventQuery::default());
    assert_eq!(all.len(), 2);
    assert_eq!(all[0].operation, "b");
    assert_eq!(all[0].payload, JsonTree::Array(vec![JsonTree::Null]));
    assert_eq!(all[1].operation, "c");
    assert_eq!(all[1].payload, object(vec![("error", JsonTree::Text(s("z")))]));
}
