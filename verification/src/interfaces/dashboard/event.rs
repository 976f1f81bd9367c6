//! Dashboard events: what kind of operation, how it ended, and their
//! constructors.
use vstd::prelude::*;

use crate::domain::time::Timestamp;
use crate::domain::json_tree::{tree_view, JsonTree, JsonView};
use crate::seqs::opt_text;
use crate::text::{concat_str, owned};

verus! {

/// The kinds of operation the dashboard shows.
#[derive(Debug, Clone, Copy, PartialEq, Eq, Structural)]
pub enum OperationKind {
    Startup,
    Tool,
    Trigger,
    Reflection,
    Decision,
    Snapshot,
    Doctor,
    Error,
}

/// How an operation the dashboard shows ended (`Ok_` is success).
#[derive(Debug, Clone, Copy, PartialEq, Eq, Structural)]
pub enum OperationStatus {
    Started,
    Ok_,
    Handled,
    Suppressed,
    Rejected,
    Failed,
}

/// One operation as the dashboard shows it.
#[derive(Debug, Clone, PartialEq)]
pub struct OperationEvent {
    pub id: String,
    pub sequence: u64,
    pub timestamp: Timestamp,
    pub kind: OperationKind,
    pub status: OperationStatus,
    pub operation: String,
    pub namespace: Option<String>,
    pub summary: String,
    pub correlation_id: Option<String>,
    pub payload: JsonTree,
}

/// A filter of recent events: at most `limit` (every buffered one by
/// default), of a kind, a status, a namespace.
#[derive(Debug, Clone, PartialEq, Eq)]
pub struct EventQuery {
    pub limit: Option<usize>,
    pub kind: Option<OperationKind>,
    pub status: Option<OperationStatus>,
    pub namespace: Option<String>,
}

impl Default for EventQuery {
    fn default() -> (r: EventQuery)
        ensures
            r.limit is None,
            r.kind is None,
            r.status is None,
            r.namespace is None,
    {
        EventQuery { limit: None, kind: None, status: None, namespace: None }
    }
}

/// A fresh random operation id (`uuid::Uuid::new_v4`, hyphenated). The id is
/// random: nothing is stated of it.
#[verifier::external_body]
pub(crate) fn new_operation_id() -> (r: String) {
    uuid::Uuid::new_v4().to_string()
}

/// The current time (`chrono::Utc::now`), as seconds and nanoseconds since the
/// epoch. It depends on the clock: nothing is stated of it.
#[verifier::external_body]
pub(crate) fn current_time() -> (r: Timestamp) {
    let now = chrono::Utc::now();
    Timestamp { secs: now.timestamp(), nanos: now.timestamp_subsec_nanos() }
}

/// `e` is an event with the given visible fields.
pub open spec fn event_is(
    e: OperationEvent,
    sequence: u64,
    kind: OperationKind,
    status: OperationStatus,
    operation: Seq<char>,
    namespace: Option<Seq<char>>,
    summary: Seq<char>,
) -> bool {
    &&& e.sequence == sequence
    &&& e.kind == kind
    &&& e.status == status
    &&& e.operation@ == operation
    &&& opt_text(e.namespace) == namespace
    &&& e.summary@ == summary
    &&& e.correlation_id is None
}

/// The event of the dashboard starting at `base_url`.
pub fn dashboard_started(base_url: &str, sequence: u64) -> (r: OperationEvent)
    ensures
        event_is(
            r,
            sequence,
            OperationKind::Startup,
            OperationStatus::Ok_,
            "dashboard_startup"@,
            None,
            "dashboard serving "@ + base_url@,
        ),
        tree_view(r.payload) == JsonView::Object(
            seq![("base_url"@, JsonView::Text(base_url@)), ("read_only"@, JsonView::Bool(true))],
        ),
{
    let mut members: Vec<(String, JsonTree)> = Vec::new();
    members.push((owned("base_url"), JsonTree::Text(owned(base_url))));
    members.push((owned("read_only"), JsonTree::Bool(true)));
    let payload = JsonTree::Object(members);
    proof {
        assert(tree_view(members@[0].1) == JsonView::Text(base_url@));
        assert(tree_view(members@[1].1) == JsonView::Bool(true));
        assert(tree_view(payload)->Object_0 =~= seq![
            ("base_url"@, JsonView::Text(base_url@)),
            ("read_only"@, JsonView::Bool(true)),
        ]);
    }
    OperationEvent {
        id: new_operation_id(),
        sequence,
        timestamp: current_time(),
        kind: OperationKind::Startup,
        status: OperationStatus::Ok_,
        operation: owned("dashboard_startup"),
        namespace: None,
        summary: concat_str("dashboard serving ", base_url),
        correlation_id: None,
        payload,
    }
}

/// The event of a tool call starting.
pub fn tool_started(operation: &str, namespace: Option<String>, sequence: u64) -> (r: OperationEvent)
    ensures
        event_is(
            r,
            sequence,
            OperationKind::Tool,
            OperationStatus::Started,
            operation@,
            opt_text(namespace),
            operation@ + " started"@,
        ),
        tree_view(r.payload) == JsonView::Object(seq![("operation"@, JsonView::Text(operation@))]),
{
    let mut members: Vec<(String, JsonTree)> = Vec::new();
    members.push((owned("operation"), JsonTree::Text(owned(operation))));
    let payload = JsonTree::Object(members);
    proof {
        assert(tree_view(members@[0].1) == JsonView::Text(operation@));
        assert(tree_view(payload)->Object_0 =~= seq![("operation"@, JsonView::Text(operation@))]);
    }
    OperationEvent {
        id: new_operation_id(),
        sequence,
        timestamp: current_time(),
        kind: OperationKind::Tool,
        status: OperationStatus::Started,
        operation: owned(operation),
        namespace,
        summary: concat_str(operation, " started"),
        correlation_id: None,
        payload,
    }
}

/// The event of a tool call completing, under the id it started with.
pub fn tool_completed(
    operation_id: String,
    operation: &str,
    namespace: Option<String>,
    sequence: u64,
    summary: String,
    payload: JsonTree,
) -> (r: OperationEvent)
    ensures
        r.id == operation_id,
        event_is(
            r,
            sequence,
            OperationKind::Tool,
            OperationStatus::Ok_,
            operation@,
            opt_text(namespace),
            summary@,
        ),
        r.payload == payload,
{
    OperationEvent {
        id: operation_id,
        sequence,
        timestamp: current_time(),
        kind: OperationKind::Tool,
        status: OperationStatus::Ok_,
        operation: owned(operation),
        namespace,
        summary,
        correlation_id: None,
        payload,
    }
}

/// The event of a tool call failing with `error`: the summary is the
/// caller's, the error stands in the payload.
pub fn tool_failed(
    operation: &str,
    namespace: Option<String>,
    sequence: u64,
    summary: String,
    error: String,
) -> (r: OperationEvent)
    ensures
        event_is(
            r,
            sequence,
            OperationKind::Error,
            OperationStatus::Failed,
            operation@,
            opt_text(namespace),
            summary@,
        ),
        tree_view(r.payload) == JsonView::Object(seq![("error"@, JsonView::Text(error@))]),
{
    let ghost error_text = error@;
    let mut members: Vec<(String, JsonTree)> = Vec::new();
    members.push((owned("error"), JsonTree::Text(error)));
    let payload = JsonTree::Object(members);
    proof {
        assert(tree_view(members@[0].1) == JsonView::Text(error_text));
        assert(tree_view(payload)->Object_0 =~= seq![("error"@, JsonView::Text(error_text))]);
    }
    OperationEvent {
        id: new_operation_id(),
        sequence,
        timestamp: current_time(),
        kind: OperationKind::Error,
        status: OperationStatus::Failed,
        operation: owned(operation),
        namespace,
        summary,
        correlation_id: None,
        payload,
    }
}

/// The event of an automatic reflection.
pub fn auto_reflection_event(
    operation: &str,
    namespace: Option<String>,
    sequence: u64,
    status: OperationStatus,
    summary: String,
    payload: JsonTree,
) -> (r: OperationEvent)
    ensures
        event_is(
            r,
            sequence,
            OperationKind::Reflection,
            status,
            operation@,
            opt_text(namespace),
            summary@,
        ),
        r.payload == payload,
{
    OperationEvent {
        id: new_operation_id(),
        sequence,
        timestamp: current_time(),
        kind: OperationKind::Reflection,
        status,
        operation: owned(operation),
        namespace,
        summary,
        correlation_id: None,
        payload,
    }
}

} // verus!
