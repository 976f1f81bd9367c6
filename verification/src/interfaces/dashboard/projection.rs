//! What the dashboard shows of its events: a summary of counts, and the
//! detail of one event or operation-log entry.
use vstd::prelude::*;

use crate::domain::operation_log::{OperationLogEntry, OperationLogKind, OperationLogStatus};
use crate::interfaces::dashboard::event::{OperationEvent, OperationKind, OperationStatus};
use crate::domain::json_tree::{copy_tree, tree_view, JsonTree, JsonView};
use crate::seqs::{copy_opt_string, opt_text};


verus! {

/// What the dashboard reports about the running service.
#[derive(Debug, Clone, PartialEq, Eq)]
pub struct DashboardRuntimeInfo {
    pub service_name: String,
    pub transport: String,
    pub provider: String,
    pub dashboard_enabled: bool,
    pub read_only: bool,
}

impl DashboardRuntimeInfo {
    /// A copy of the runtime information.
    pub fn duplicate(&self) -> (r: DashboardRuntimeInfo)
        ensures
            r.service_name@ == self.service_name@,
            r.transport@ == self.transport@,
            r.provider@ == self.provider@,
            r.dashboard_enabled == self.dashboard_enabled,
            r.read_only == self.read_only,
    {
        DashboardRuntimeInfo {
            service_name: self.service_name.clone(),
            transport: self.transport.clone(),
            provider: self.provider.clone(),
            dashboard_enabled: self.dashboard_enabled,
            read_only: self.read_only,
        }
    }
}

/// Counts of the events the dashboard holds.
#[derive(Debug, Clone, PartialEq, Eq)]
pub struct DashboardSummary {
    pub runtime: DashboardRuntimeInfo,
    pub total_events: usize,
    pub tool_events: usize,
    pub reflection_events: usize,
    pub decision_events: usize,
    pub snapshot_events: usize,
    pub failed_events: usize,
}

/// The detail of one operation.
#[derive(Debug, Clone, PartialEq)]
pub struct OperationDetail {
    pub id: String,
    pub operation: String,
    pub kind: OperationKind,
    pub status: OperationStatus,
    pub namespace: Option<String>,
    pub summary: String,
    pub payload: JsonTree,
    pub read_only: bool,
}

/// The number of events of `kind`.
pub open spec fn kind_count(events: Seq<OperationEvent>, kind: OperationKind) -> nat
    decreases events.len(),
{
    if events.len() == 0 {
        0
    } else {
        kind_count(events.drop_last(), kind) + if events.last().kind == kind {
            1nat
        } else {
            0nat
        }
    }
}

/// The number of events with `status`.
pub open spec fn status_count(events: Seq<OperationEvent>, status: OperationStatus) -> nat
    decreases events.len(),
{
    if events.len() == 0 {
        0
    } else {
        status_count(events.drop_last(), status) + if events.last().status == status {
            1nat
        } else {
            0nat
        }
    }
}

/// The number of events of `kind`.
pub fn count_kind(events: &[OperationEvent], kind: OperationKind) -> (r: usize)
    ensures
        r == kind_count(events@, kind),
{
    let mut count: usize = 0;
    let mut i: usize = 0;
    while i < events.len()
        invariant
            i <= events@.len(),
            count <= i,
            count == kind_count(events@.take(i as int), kind),
        decreases events@.len() - i,
    {
        assert(events@.take(i + 1).drop_last() =~= events@.take(i as int));
        if events[i].kind == kind {
            count = count + 1;
        }
        i = i + 1;
    }
    assert(events@.take(events@.len() as int) =~= events@);
    count
}

/// The number of events with `status`.
pub fn count_status(events: &[OperationEvent], status: OperationStatus) -> (r: usize)
    ensures
        r == status_count(events@, status),
{
    let mut count: usize = 0;
    let mut i: usize = 0;
    while i < events.len()
        invariant
            i <= events@.len(),
            count <= i,
            count == status_count(events@.take(i as int), status),
        decreases events@.len() - i,
    {
        assert(events@.take(i + 1).drop_last() =~= events@.take(i as int));
        if events[i].status == status {
            count = count + 1;
        }
        i = i + 1;
    }
    assert(events@.take(events@.len() as int) =~= events@);
    count
}

/// The summary of the given events: all of them, those of each kind shown,
/// and the failed ones.
pub fn build_summary(events: &[OperationEvent], runtime: &DashboardRuntimeInfo) -> (r:
    DashboardSummary)
    ensures
        r.runtime.service_name@ == runtime.service_name@,
        r.runtime.transport@ == runtime.transport@,
        r.runtime.provider@ == runtime.provider@,
        r.runtime.dashboard_enabled == runtime.dashboard_enabled,
        r.runtime.read_only == runtime.read_only,
        r.total_events == events@.len(),
        r.tool_events == kind_count(events@, OperationKind::Tool),
        r.reflection_events == kind_count(events@, OperationKind::Reflection),
        r.decision_events == kind_count(events@, OperationKind::Decision),
        r.snapshot_events == kind_count(events@, OperationKind::Snapshot),
        r.failed_events == status_count(events@, OperationStatus::Failed),
{
    DashboardSummary {
        runtime: runtime.duplicate(),
        total_events: events.len(),
        tool_events: count_kind(events, OperationKind::Tool),
        reflection_events: count_kind(events, OperationKind::Reflection),
        decision_events: count_kind(events, OperationKind::Decision),
        snapshot_events: count_kind(events, OperationKind::Snapshot),
        failed_events: count_status(events, OperationStatus::Failed),
    }
}

/// The read-only detail of an event.
pub fn project_event_detail(event: &OperationEvent) -> (r: OperationDetail)
    ensures
        r.id@ == event.id@,
        r.operation@ == event.operation@,
        r.kind == event.kind,
        r.status == event.status,
        opt_text(r.namespace) == opt_text(event.namespace),
        r.summary@ == event.summary@,
        tree_view(r.payload) == tree_view(event.payload),
        r.read_only,
{
    OperationDetail {
        id: event.id.clone(),
        operation: event.operation.clone(),
        kind: event.kind,
        status: event.status,
        namespace: copy_opt_string(&event.namespace),
        summary: event.summary.clone(),
        payload: copy_tree(&event.payload),
        read_only: true,
    }
}

/// The dashboard kind of an operation-log kind.
pub open spec fn kind_of_log(kind: OperationLogKind) -> OperationKind {
    match kind {
        OperationLogKind::Startup => OperationKind::Startup,
        OperationLogKind::Tool => OperationKind::Tool,
        OperationLogKind::Trigger => OperationKind::Trigger,
        OperationLogKind::Reflection => OperationKind::Reflection,
        OperationLogKind::Decision => OperationKind::Decision,
        OperationLogKind::Snapshot => OperationKind::Snapshot,
        OperationLogKind::Doctor => OperationKind::Doctor,
        OperationLogKind::Error => OperationKind::Error,
    }
}

/// The dashboard status of an operation-log status.
pub open spec fn status_of_log(status: OperationLogStatus) -> OperationStatus {
    match status {
        OperationLogStatus::Started => OperationStatus::Started,
        OperationLogStatus::Ok_ => OperationStatus::Ok_,
        OperationLogStatus::Handled => OperationStatus::Handled,
        OperationLogStatus::Suppressed => OperationStatus::Suppressed,
        OperationLogStatus::Rejected => OperationStatus::Rejected,
        OperationLogStatus::Failed => OperationStatus::Failed,
    }
}

/// The read-only detail of an operation-log entry: its response summary as
/// the summary (empty when it has none) and an empty payload.
pub fn project_from_log_entry(entry: &OperationLogEntry) -> (r: OperationDetail)
    ensures
        r.id@ == entry.operation_id@,
        r.operation@ == entry.entrypoint@,
        r.kind == kind_of_log(entry.operation_kind),
        r.status == status_of_log(entry.status),
        opt_text(r.namespace) == opt_text(entry.namespace),
        r.summary@ == match entry.response_summary_json {
            Some(s) => s@,
            None => Seq::<char>::empty(),
        },
        tree_view(r.payload) == JsonView::Object(Seq::empty()),
        r.read_only,
{
    let kind = match entry.operation_kind {
        OperationLogKind::Startup => OperationKind::Startup,
        OperationLogKind::Tool => OperationKind::Tool,
        OperationLogKind::Trigger => OperationKind::Trigger,
        OperationLogKind::Reflection => OperationKind::Reflection,
        OperationLogKind::Decision => OperationKind::Decision,
        OperationLogKind::Snapshot => OperationKind::Snapshot,
        OperationLogKind::Doctor => OperationKind::Doctor,
        OperationLogKind::Error => OperationKind::Error,
    };
    let status = match entry.status {
        OperationLogStatus::Started => OperationStatus::Started,
        OperationLogStatus::Ok_ => OperationStatus::Ok_,
        OperationLogStatus::Handled => OperationStatus::Handled,
        OperationLogStatus::Suppressed => OperationStatus::Suppressed,
        OperationLogStatus::Rejected => OperationStatus::Rejected,
        OperationLogStatus::Failed => OperationStatus::Failed,
    };
    let summary = match &entry.response_summary_json {
        Some(s) => s.clone(),
        None => String::new(),
    };
    let r = OperationDetail {
        id: entry.operation_id.clone(),
        operation: entry.entrypoint.clone(),
        kind,
        status,
        namespace: copy_opt_string(&entry.namespace),
        summary,
        payload: JsonTree::Object(Vec::new()),
        read_only: true,
    };
    assert(tree_view(r.payload)->Object_0 =~= Seq::<(Seq<char>, JsonView)>::empty());
    r
}

} // verus!
