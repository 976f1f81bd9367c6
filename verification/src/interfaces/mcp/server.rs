//! The MCP server's decisions around each tool call: how an error is
//! classified and described, which hook an automatic reflection runs under, how
//! its outcome is reported, and what the operation log records.
use vstd::prelude::*;

use crate::application::auto_reflect_if_needed::AutoReflectResult;
use crate::domain::error::AppError;
use crate::domain::operation_log::{
    ActorKind, OperationLogEntry, OperationLogKind, OperationLogStatus,
};
use crate::domain::self_revision::TriggerType;
use crate::domain::time::Timestamp;
use crate::interfaces::dashboard::event::{new_operation_id, OperationStatus};
use crate::ports::TriggerLedgerStatus;
use crate::seqs::opt_text;
use crate::text::{concat_str, owned, same_text, seq_contains_seq, str_contains};

verus! {

/// The hook of an automatic reflection after a failure-tagged ingestion.
pub const INGEST_FAILURE_HOOK: &'static str = "ingest_interaction:failure";

/// The hook of an automatic reflection after a conflict-tagged ingestion.
pub const INGEST_CONFLICT_HOOK: &'static str = "ingest_interaction:conflict";

/// The hook of an automatic reflection after a decision.
pub const DECIDE_CONFLICT_HOOK: &'static str = "decide_with_snapshot:conflict";

/// The hook of an automatic reflection after a snapshot.
pub const SNAPSHOT_PERIODIC_HOOK: &'static str = "build_self_snapshot:periodic";

/// The durable write path the server reports.
pub const SELF_REVISION_WRITE_PATH: &'static str = "run_reflection";

/// The actor the server records operations under.
pub const MCP_ACTOR_ID: &'static str = "mcp-stdio";

/// The runtime hooks of automatic reflection, in order.
pub fn auto_reflection_runtime_hooks() -> (r: [&'static str; 4])
    ensures
        r@[0]@ == INGEST_FAILURE_HOOK@,
        r@[1]@ == INGEST_CONFLICT_HOOK@,
        r@[2]@ == DECIDE_CONFLICT_HOOK@,
        r@[3]@ == SNAPSHOT_PERIODIC_HOOK@,
{
    [INGEST_FAILURE_HOOK, INGEST_CONFLICT_HOOK, DECIDE_CONFLICT_HOOK, SNAPSHOT_PERIODIC_HOOK]
}

/// The hook an automatic reflection runs under, by the tool that set it off
/// and its trigger type.
pub open spec fn spec_runtime_hook(source: Seq<char>, trigger_type: TriggerType) -> Seq<char> {
    if source == "ingest_interaction"@ && trigger_type is Failure {
        INGEST_FAILURE_HOOK@
    } else if source == "ingest_interaction"@ && trigger_type is Conflict {
        INGEST_CONFLICT_HOOK@
    } else if source == "decide_with_snapshot"@ && trigger_type is Conflict {
        DECIDE_CONFLICT_HOOK@
    } else if source == "build_self_snapshot"@ && trigger_type is Periodic {
        SNAPSHOT_PERIODIC_HOOK@
    } else {
        "auto_reflection:unknown"@
    }
}

/// The hook an automatic reflection runs under.
pub fn runtime_hook_for(source: &str, trigger_type: TriggerType) -> (r: &'static str)
    ensures
        r@ == spec_runtime_hook(source@, trigger_type),
{
    if same_text(source, "ingest_interaction") {
        match trigger_type {
            TriggerType::Failure => {
                return INGEST_FAILURE_HOOK;
            },
            TriggerType::Conflict => {
                return INGEST_CONFLICT_HOOK;
            },
            _ => {},
        }
    }
    if same_text(source, "decide_with_snapshot") && trigger_type == TriggerType::Conflict {
        return DECIDE_CONFLICT_HOOK;
    }
    if same_text(source, "build_self_snapshot") && trigger_type == TriggerType::Periodic {
        return SNAPSHOT_PERIODIC_HOOK;
    }
    "auto_reflection:unknown"
}

/// The transports the server can serve on.
#[derive(Debug, Clone, Copy, PartialEq, Eq, Structural)]
pub enum TransportKind {
    Stdio,
}

/// The model providers the server can use.
#[derive(Debug, Clone, Copy, PartialEq, Eq, Structural)]
pub enum ModelProviderKind {
    Mock,
    OpenAiCompatible,
    OpenRouter,
}

/// The label of a transport.
pub fn transport_label(transport: TransportKind) -> (r: &'static str)
    ensures
        r@ == "stdio"@,
{
    match transport {
        TransportKind::Stdio => "stdio",
    }
}

/// The label of a model provider.
pub fn provider_label(provider: ModelProviderKind) -> (r: &'static str)
    ensures
        r@ == match provider {
            ModelProviderKind::Mock => "mock"@,
            ModelProviderKind::OpenAiCompatible => "openai-compatible"@,
            ModelProviderKind::OpenRouter => "openrouter"@,
        },
{
    match provider {
        ModelProviderKind::Mock => "mock",
        ModelProviderKind::OpenAiCompatible => "openai-compatible",
        ModelProviderKind::OpenRouter => "openrouter",
    }
}

/// How an MCP error is classified.
#[derive(Debug, Clone, Copy, PartialEq, Eq, Structural)]
pub enum McpErrorClass {
    InvalidParams,
    InternalError,
}

impl McpErrorClass {
    /// The label of the class.
    pub fn label(self) -> (r: &'static str)
        ensures
            r@ == match self {
                McpErrorClass::InvalidParams => "invalid params"@,
                McpErrorClass::InternalError => "internal error"@,
            },
    {
        match self {
            McpErrorClass::InvalidParams => "invalid params",
            McpErrorClass::InternalError => "internal error",
        }
    }

    /// The JSON-RPC error code of the class.
    pub fn code(self) -> (r: i64)
        ensures
            r == match self {
                McpErrorClass::InvalidParams => -32602i64,
                McpErrorClass::InternalError => -32603i64,
            },
    {
        match self {
            McpErrorClass::InvalidParams => -32602,
            McpErrorClass::InternalError => -32603,
        }
    }
}

/// The class of an application error: a rejected request is invalid
/// parameters, anything else an internal error.
pub fn mcp_error_class(error: &AppError) -> (r: McpErrorClass)
    ensures
        r == if error is InvalidParams {
            McpErrorClass::InvalidParams
        } else {
            McpErrorClass::InternalError
        },
{
    match error {
        AppError::InvalidParams(_) => McpErrorClass::InvalidParams,
        AppError::Message(_) => McpErrorClass::InternalError,
    }
}

/// The detail of an error that is safe to record: a missing field or an
/// invalid type when the rejection says so, otherwise only its class.
pub open spec fn spec_safe_detail(error: AppError) -> Seq<char> {
    match error {
        AppError::InvalidParams(m) => if seq_contains_seq(m@, "missing field"@) {
            "missing field"@
        } else if seq_contains_seq(m@, "invalid type"@) {
            "invalid type"@
        } else {
            "invalid params"@
        },
        AppError::Message(_) => "internal error"@,
    }
}

/// The detail of an error that is safe to record.
pub fn safe_diagnostic_detail(error: &AppError) -> (r: &'static str)
    ensures
        r@ == spec_safe_detail(*error),
{
    match error {
        AppError::InvalidParams(m) => {
            if str_contains(m.as_str(), "missing field") {
                "missing field"
            } else if str_contains(m.as_str(), "invalid type") {
                "invalid type"
            } else {
                "invalid params"
            }
        },
        AppError::Message(_) => "internal error",
    }
}

/// A failed automatic reflection that rejected its request is a governance
/// rejection.
pub fn is_auto_reflection_policy_rejection(error: &AppError) -> (r: bool)
    ensures
        r == error is InvalidParams,
{
    match error {
        AppError::InvalidParams(_) => true,
        AppError::Message(_) => false,
    }
}

/// The logged status of a failed automatic reflection: rejected for a
/// governance rejection, failed otherwise.
pub fn auto_reflection_failure_operation_status(error: &AppError) -> (r: OperationLogStatus)
    ensures
        r == if error is InvalidParams {
            OperationLogStatus::Rejected
        } else {
            OperationLogStatus::Failed
        },
{
    if is_auto_reflection_policy_rejection(error) {
        OperationLogStatus::Rejected
    } else {
        OperationLogStatus::Failed
    }
}

/// The dashboard status of an automatic reflection's result: that of its
/// ledger entry, else handled when it triggered, else ok.
pub fn auto_reflection_status(result: &AutoReflectResult) -> (r: OperationStatus)
    ensures
        r == match result.ledger_status {
            Some(TriggerLedgerStatus::Handled) => OperationStatus::Handled,
            Some(TriggerLedgerStatus::Rejected) => OperationStatus::Rejected,
            Some(TriggerLedgerStatus::Suppressed) => OperationStatus::Suppressed,
            Some(TriggerLedgerStatus::Pending) => OperationStatus::Started,
            None => if result.triggered {
                OperationStatus::Handled
            } else {
                OperationStatus::Ok_
            },
        },
{
    match result.ledger_status {
        Some(TriggerLedgerStatus::Handled) => OperationStatus::Handled,
        Some(TriggerLedgerStatus::Rejected) => OperationStatus::Rejected,
        Some(TriggerLedgerStatus::Suppressed) => OperationStatus::Suppressed,
        Some(TriggerLedgerStatus::Pending) => OperationStatus::Started,
        None => if result.triggered {
            OperationStatus::Handled
        } else {
            OperationStatus::Ok_
        },
    }
}

/// The logged status of an automatic reflection's result: that of its ledger
/// entry, else handled when it triggered, else ok.
pub fn auto_reflection_operation_status(result: &AutoReflectResult) -> (r: OperationLogStatus)
    ensures
        r == match result.ledger_status {
            Some(TriggerLedgerStatus::Handled) => OperationLogStatus::Handled,
            Some(TriggerLedgerStatus::Rejected) => OperationLogStatus::Rejected,
            Some(TriggerLedgerStatus::Suppressed) => OperationLogStatus::Suppressed,
            Some(TriggerLedgerStatus::Pending) => OperationLogStatus::Started,
            None => if result.triggered {
                OperationLogStatus::Handled
            } else {
                OperationLogStatus::Ok_
            },
        },
{
    match result.ledger_status {
        Some(TriggerLedgerStatus::Handled) => OperationLogStatus::Handled,
        Some(TriggerLedgerStatus::Rejected) => OperationLogStatus::Rejected,
        Some(TriggerLedgerStatus::Suppressed) => OperationLogStatus::Suppressed,
        Some(TriggerLedgerStatus::Pending) => OperationLogStatus::Started,
        None => if result.triggered {
            OperationLogStatus::Handled
        } else {
            OperationLogStatus::Ok_
        },
    }
}

/// Whether an automatic reflection's result is worth a trigger entry in the
/// operation log: every outcome but a plain ok (nothing triggered or skipped).
pub fn should_log_auto_reflection(status: OperationLogStatus) -> (r: bool)
    ensures
        r == !(status is Ok_),
{
    match status {
        OperationLogStatus::Ok_ => false,
        _ => true,
    }
}

/// The one-line summary of an automatic reflection's result.
pub open spec fn spec_auto_reflection_summary(result: AutoReflectResult) -> Seq<char> {
    match (opt_text(result.reflection_id), opt_text(result.suppression_reason)) {
        (Some(id), _) => "auto-reflection linked reflection "@ + id,
        (None, Some(reason)) => "auto-reflection suppressed: "@ + reason,
        (None, None) => if result.ledger_status == Some(TriggerLedgerStatus::Rejected) {
            "auto-reflection rejected model proposal"@
        } else {
            "auto-reflection checked runtime evidence"@
        },
    }
}

/// The one-line summary of an automatic reflection's result.
pub fn auto_reflection_summary(result: &AutoReflectResult) -> (r: String)
    ensures
        r@ == spec_auto_reflection_summary(*result),
{
    if let Some(id) = &result.reflection_id {
        return concat_str("auto-reflection linked reflection ", id.as_str());
    }
    if let Some(reason) = &result.suppression_reason {
        return concat_str("auto-reflection suppressed: ", reason.as_str());
    }
    if result.ledger_status == Some(TriggerLedgerStatus::Rejected) {
        return owned("auto-reflection rejected model proposal");
    }
    owned("auto-reflection checked runtime evidence")
}

/// A fresh correlation id for one tool call: `mcp-tool-call-` and a random id.
pub fn generated_mcp_correlation_id() -> (r: String)
    ensures
        crate::text::seq_starts_with(r@, "mcp-tool-call-"@),
{
    let id = new_operation_id();
    let r = concat_str("mcp-tool-call-", id.as_str());
    assert(r@.subrange(0, "mcp-tool-call-"@.len() as int) =~= "mcp-tool-call-"@);
    r
}

/// The operation-log entry the server records for one operation, by the
/// system actor `mcp-stdio`, under redaction version 1.
pub fn server_operation_entry(
    operation_id: String,
    occurred_at: Timestamp,
    namespace: Option<String>,
    entrypoint: &str,
    operation_kind: OperationLogKind,
    status: OperationLogStatus,
    correlation_id: Option<String>,
    request_summary_json: Option<String>,
    response_summary_json: Option<String>,
    diagnostic_summary_json: Option<String>,
) -> (r: OperationLogEntry)
    ensures
        r.operation_id == operation_id,
        r.occurred_at == occurred_at,
        r.namespace == namespace,
        r.actor_kind == ActorKind::System,
        r.actor_id@ == MCP_ACTOR_ID@,
        r.entrypoint@ == entrypoint@,
        r.operation_kind == operation_kind,
        r.status == status,
        r.correlation_id == correlation_id,
        r.request_summary_json == request_summary_json,
        r.response_summary_json == response_summary_json,
        r.diagnostic_summary_json == diagnostic_summary_json,
        r.redaction_version == 1,
{
    OperationLogEntry {
        operation_id,
        occurred_at,
        namespace,
        actor_kind: ActorKind::System,
        actor_id: owned(MCP_ACTOR_ID),
        entrypoint: owned(entrypoint),
        operation_kind,
        status,
        correlation_id,
        request_summary_json,
        response_summary_json,
        diagnostic_summary_json,
        redaction_version: 1,
    }
}

} // verus!
