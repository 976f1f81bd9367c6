//! The labels that the SQLite store writes for the model's enumerations, and
//! their parsers. Every label parses back to the value it was written for.
use vstd::prelude::*;

use crate::domain::error::AppError;
use crate::domain::operation_log::{
    actor_kind_label, operation_kind_label, operation_status_label, ActorKind, OperationLogKind,
    OperationLogStatus,
};
use crate::domain::self_revision::TriggerType;
use crate::domain::types::{EventKind, Mode, Owner};
use crate::ports::{claim_status_label, trigger_ledger_status_label, ClaimStatus, TriggerLedgerStatus};
use crate::text::{concat_str, same_text};

verus! {
/// The stored label of a owner.
pub open spec fn owner_label(x: Owner) -> Seq<char> {
    match x {
        Owner::Self_ => "self"@,
        Owner::User => "user"@,
        Owner::World => "world"@,
        Owner::Unknown => "unknown"@,
    }
}

/// The owner that a stored label names, if any.
pub open spec fn owner_from_label(s: Seq<char>) -> Option<Owner> {
    if s == "self"@ {
        Some(Owner::Self_)
    } else if s == "user"@ {
        Some(Owner::User)
    } else if s == "world"@ {
        Some(Owner::World)
    } else if s == "unknown"@ {
        Some(Owner::Unknown)
    } else {
        None
    }
}

/// The stored label of a owner.
pub fn owner_as_str(x: Owner) -> (r: &'static str)
    ensures
        r@ == owner_label(x),
{
    match x {
        Owner::Self_ => "self",
        Owner::User => "user",
        Owner::World => "world",
        Owner::Unknown => "unknown",
    }
}

/// Parses a stored owner label; any other text is an internal error
/// naming it.
pub fn parse_owner(value: &str) -> (r: Result<Owner, AppError>)
    ensures
        match owner_from_label(value@) {
            Some(x) => r == Ok::<Owner, AppError>(x),
            None => r matches Err(e) && e is Message && e.message_view() == "unknown owner: "@ + value@,
        },
{
    if same_text(value, "self") {
        return Ok(Owner::Self_);
    }
    if same_text(value, "user") {
        return Ok(Owner::User);
    }
    if same_text(value, "world") {
        return Ok(Owner::World);
    }
    if same_text(value, "unknown") {
        return Ok(Owner::Unknown);
    }
    Err(AppError::Message(concat_str("unknown owner: ", value)))
}

/// Every owner parses back from its stored label.
pub proof fn lemma_owner_label_roundtrip(x: Owner)
    ensures
        owner_from_label(owner_label(x)) == Some(x),
{
    reveal_strlit("self");
    reveal_strlit("user");
    reveal_strlit("world");
    reveal_strlit("unknown");
    assert("user"@[0] != "self"@[0]);
    assert("world"@.len() != "self"@.len());
    assert("world"@.len() != "user"@.len());
    assert("unknown"@.len() != "self"@.len());
    assert("unknown"@.len() != "user"@.len());
    assert("unknown"@.len() != "world"@.len());
}

/// The stored label of a mode.
pub open spec fn mode_label(x: Mode) -> Seq<char> {
    match x {
        Mode::Observed => "observed"@,
        Mode::Said => "said"@,
        Mode::Acted => "acted"@,
        Mode::Inferred => "inferred"@,
        Mode::Draft => "draft"@,
    }
}

/// The mode that a stored label names, if any.
pub open spec fn mode_from_label(s: Seq<char>) -> Option<Mode> {
    if s == "observed"@ {
        Some(Mode::Observed)
    } else if s == "said"@ {
        Some(Mode::Said)
    } else if s == "acted"@ {
        Some(Mode::Acted)
    } else if s == "inferred"@ {
        Some(Mode::Inferred)
    } else if s == "draft"@ {
        Some(Mode::Draft)
    } else {
        None
    }
}

/// The stored label of a mode.
pub fn mode_as_str(x: Mode) -> (r: &'static str)
    ensures
        r@ == mode_label(x),
{
    match x {
        Mode::Observed => "observed",
        Mode::Said => "said",
        Mode::Acted => "acted",
        Mode::Inferred => "inferred",
        Mode::Draft => "draft",
    }
}

/// Parses a stored mode label; any other text is an internal error
/// naming it.
pub fn parse_mode(value: &str) -> (r: Result<Mode, AppError>)
    ensures
        match mode_from_label(value@) {
            Some(x) => r == Ok::<Mode, AppError>(x),
            None => r matches Err(e) && e is Message && e.message_view() == "unknown mode: "@ + value@,
        },
{
    if same_text(value, "observed") {
        return Ok(Mode::Observed);
    }
    if same_text(value, "said") {
        return Ok(Mode::Said);
    }
    if same_text(value, "acted") {
        return Ok(Mode::Acted);
    }
    if same_text(value, "inferred") {
        return Ok(Mode::Inferred);
    }
    if same_text(value, "draft") {
        return Ok(Mode::Draft);
    }
    Err(AppError::Message(concat_str("unknown mode: ", value)))
}

/// Every mode parses back from its stored label.
pub proof fn lemma_mode_label_roundtrip(x: Mode)
    ensures
        mode_from_label(mode_label(x)) == Some(x),
{
    reveal_strlit("observed");
    reveal_strlit("said");
    reveal_strlit("acted");
    reveal_strlit("inferred");
    reveal_strlit("draft");
    assert("said"@.len() != "observed"@.len());
    assert("acted"@.len() != "observed"@.len());
    assert("acted"@.len() != "said"@.len());
    assert("inferred"@[0] != "observed"@[0]);
    assert("inferred"@.len() != "said"@.len());
    assert("inferred"@.len() != "acted"@.len());
    assert("draft"@.len() != "observed"@.len());
    assert("draft"@.len() != "said"@.len());
    assert("draft"@[0] != "acted"@[0]);
    assert("draft"@.len() != "inferred"@.len());
}

/// The stored label of a trigger type.
pub open spec fn trigger_type_label(x: TriggerType) -> Seq<char> {
    match x {
        TriggerType::Conflict => "conflict"@,
        TriggerType::Failure => "failure"@,
        TriggerType::Periodic => "periodic"@,
    }
}

/// The trigger type that a stored label names, if any.
pub open spec fn trigger_type_from_label(s: Seq<char>) -> Option<TriggerType> {
    if s == "conflict"@ {
        Some(TriggerType::Conflict)
    } else if s == "failure"@ {
        Some(TriggerType::Failure)
    } else if s == "periodic"@ {
        Some(TriggerType::Periodic)
    } else {
        None
    }
}

/// The stored label of a trigger type.
pub fn trigger_type_as_str(x: TriggerType) -> (r: &'static str)
    ensures
        r@ == trigger_type_label(x),
{
    match x {
        TriggerType::Conflict => "conflict",
        TriggerType::Failure => "failure",
        TriggerType::Periodic => "periodic",
    }
}

/// Parses a stored trigger type label; any other text is an internal error
/// naming it.
pub fn parse_trigger_type(value: &str) -> (r: Result<TriggerType, AppError>)
    ensures
        match trigger_type_from_label(value@) {
            Some(x) => r == Ok::<TriggerType, AppError>(x),
            None => r matches Err(e) && e is Message && e.message_view() == "unknown trigger type: "@ + value@,
        },
{
    if same_text(value, "conflict") {
        return Ok(TriggerType::Conflict);
    }
    if same_text(value, "failure") {
        return Ok(TriggerType::Failure);
    }
    if same_text(value, "periodic") {
        return Ok(TriggerType::Periodic);
    }
    Err(AppError::Message(concat_str("unknown trigger type: ", value)))
}

/// Every trigger type parses back from its stored label.
pub proof fn lemma_trigger_type_label_roundtrip(x: TriggerType)
    ensures
        trigger_type_from_label(trigger_type_label(x)) == Some(x),
{
    reveal_strlit("conflict");
    reveal_strlit("failure");
    reveal_strlit("periodic");
    assert("failure"@.len() != "conflict"@.len());
    assert("periodic"@[0] != "conflict"@[0]);
    assert("periodic"@.len() != "failure"@.len());
}

/// The stored label of a event kind.
pub open spec fn event_kind_label(x: EventKind) -> Seq<char> {
    match x {
        EventKind::Observation => "observation"@,
        EventKind::Conversation => "conversation"@,
        EventKind::Action => "action"@,
        EventKind::Reflection => "reflection"@,
    }
}

/// The event kind that a stored label names, if any.
pub open spec fn event_kind_from_label(s: Seq<char>) -> Option<EventKind> {
    if s == "observation"@ {
        Some(EventKind::Observation)
    } else if s == "conversation"@ {
        Some(EventKind::Conversation)
    } else if s == "action"@ {
        Some(EventKind::Action)
    } else if s == "reflection"@ {
        Some(EventKind::Reflection)
    } else {
        None
    }
}

/// The stored label of a event kind.
pub fn event_kind_as_str(x: EventKind) -> (r: &'static str)
    ensures
        r@ == event_kind_label(x),
{
    match x {
        EventKind::Observation => "observation",
        EventKind::Conversation => "conversation",
        EventKind::Action => "action",
        EventKind::Reflection => "reflection",
    }
}

/// Parses a stored event kind label; any other text is an internal error
/// naming it.
pub fn parse_event_kind(value: &str) -> (r: Result<EventKind, AppError>)
    ensures
        match event_kind_from_label(value@) {
            Some(x) => r == Ok::<EventKind, AppError>(x),
            None => r matches Err(e) && e is Message && e.message_view() == "unknown event kind: "@ + value@,
        },
{
    if same_text(value, "observation") {
        return Ok(EventKind::Observation);
    }
    if same_text(value, "conversation") {
        return Ok(EventKind::Conversation);
    }
    if same_text(value, "action") {
        return Ok(EventKind::Action);
    }
    if same_text(value, "reflection") {
        return Ok(EventKind::Reflection);
    }
    Err(AppError::Message(concat_str("unknown event kind: ", value)))
}

/// Every event kind parses back from its stored label.
pub proof fn lemma_event_kind_label_roundtrip(x: EventKind)
    ensures
        event_kind_from_label(event_kind_label(x)) == Some(x),
{
    reveal_strlit("observation");
    reveal_strlit("conversation");
    reveal_strlit("action");
    reveal_strlit("reflection");
    assert("conversation"@.len() != "observation"@.len());
    assert("action"@.len() != "observation"@.len());
    assert("action"@.len() != "conversation"@.len());
    assert("reflection"@.len() != "observation"@.len());
    assert("reflection"@.len() != "conversation"@.len());
    assert("reflection"@.len() != "action"@.len());
}

/// The claim status that a stored label names, if any.
pub open spec fn claim_status_from_label(s: Seq<char>) -> Option<ClaimStatus> {
    if s == "active"@ {
        Some(ClaimStatus::Active)
    } else if s == "disputed"@ {
        Some(ClaimStatus::Disputed)
    } else if s == "superseded"@ {
        Some(ClaimStatus::Superseded)
    } else {
        None
    }
}

/// Parses a stored claim status label; any other text is an internal error
/// naming it.
pub fn parse_claim_status(value: &str) -> (r: Result<ClaimStatus, AppError>)
    ensures
        match claim_status_from_label(value@) {
            Some(x) => r == Ok::<ClaimStatus, AppError>(x),
            None => r matches Err(e) && e is Message && e.message_view() == "unknown claim status: "@ + value@,
        },
{
    if same_text(value, "active") {
        return Ok(ClaimStatus::Active);
    }
    if same_text(value, "disputed") {
        return Ok(ClaimStatus::Disputed);
    }
    if same_text(value, "superseded") {
        return Ok(ClaimStatus::Superseded);
    }
    Err(AppError::Message(concat_str("unknown claim status: ", value)))
}

/// Every claim status parses back from its stored label.
pub proof fn lemma_claim_status_label_roundtrip(x: ClaimStatus)
    ensures
        claim_status_from_label(claim_status_label(x)) == Some(x),
{
    reveal_strlit("active");
    reveal_strlit("disputed");
    reveal_strlit("superseded");
    assert("disputed"@.len() != "active"@.len());
    assert("superseded"@.len() != "active"@.len());
    assert("superseded"@.len() != "disputed"@.len());
}

/// The trigger ledger status that a stored label names, if any.
pub open spec fn trigger_ledger_status_from_label(s: Seq<char>) -> Option<TriggerLedgerStatus> {
    if s == "pending"@ {
        Some(TriggerLedgerStatus::Pending)
    } else if s == "handled"@ {
        Some(TriggerLedgerStatus::Handled)
    } else if s == "rejected"@ {
        Some(TriggerLedgerStatus::Rejected)
    } else if s == "suppressed"@ {
        Some(TriggerLedgerStatus::Suppressed)
    } else {
        None
    }
}

/// Parses a stored trigger ledger status label; any other text is an internal error
/// naming it.
pub fn parse_trigger_ledger_status(value: &str) -> (r: Result<TriggerLedgerStatus, AppError>)
    ensures
        match trigger_ledger_status_from_label(value@) {
            Some(x) => r == Ok::<TriggerLedgerStatus, AppError>(x),
            None => r matches Err(e) && e is Message && e.message_view() == "unknown trigger ledger status: "@ + value@,
        },
{
    if same_text(value, "pending") {
        return Ok(TriggerLedgerStatus::Pending);
    }
    if same_text(value, "handled") {
        return Ok(TriggerLedgerStatus::Handled);
    }
    if same_text(value, "rejected") {
        return Ok(TriggerLedgerStatus::Rejected);
    }
    if same_text(value, "suppressed") {
        return Ok(TriggerLedgerStatus::Suppressed);
    }
    Err(AppError::Message(concat_str("unknown trigger ledger status: ", value)))
}

/// Every trigger ledger status parses back from its stored label.
pub proof fn lemma_trigger_ledger_status_label_roundtrip(x: TriggerLedgerStatus)
    ensures
        trigger_ledger_status_from_label(trigger_ledger_status_label(x)) == Some(x),
{
    reveal_strlit("pending");
    reveal_strlit("handled");
    reveal_strlit("rejected");
    reveal_strlit("suppressed");
    assert("handled"@[0] != "pending"@[0]);
    assert("rejected"@.len() != "pending"@.len());
    assert("rejected"@.len() != "handled"@.len());
    assert("suppressed"@.len() != "pending"@.len());
    assert("suppressed"@.len() != "handled"@.len());
    assert("suppressed"@.len() != "rejected"@.len());
}

/// The actor kind that a stored label names, if any.
pub open spec fn actor_kind_from_label(s: Seq<char>) -> Option<ActorKind> {
    if s == "system"@ {
        Some(ActorKind::System)
    } else if s == "user"@ {
        Some(ActorKind::User)
    } else if s == "model"@ {
        Some(ActorKind::Model)
    } else if s == "hook"@ {
        Some(ActorKind::Hook)
    } else {
        None
    }
}

/// Parses a stored actor kind label; any other text is an internal error
/// naming it.
pub fn parse_actor_kind(value: &str) -> (r: Result<ActorKind, AppError>)
    ensures
        match actor_kind_from_label(value@) {
            Some(x) => r == Ok::<ActorKind, AppError>(x),
            None => r matches Err(e) && e is Message && e.message_view() == "unknown actor kind: "@ + value@,
        },
{
    if same_text(value, "system") {
        return Ok(ActorKind::System);
    }
    if same_text(value, "user") {
        return Ok(ActorKind::User);
    }
    if same_text(value, "model") {
        return Ok(ActorKind::Model);
    }
    if same_text(value, "hook") {
        return Ok(ActorKind::Hook);
    }
    Err(AppError::Message(concat_str("unknown actor kind: ", value)))
}

/// Every actor kind parses back from its stored label.
pub proof fn lemma_actor_kind_label_roundtrip(x: ActorKind)
    ensures
        actor_kind_from_label(actor_kind_label(x)) == Some(x),
{
    reveal_strlit("system");
    reveal_strlit("user");
    reveal_strlit("model");
    reveal_strlit("hook");
    assert("user"@.len() != "system"@.len());
    assert("model"@.len() != "system"@.len());
    assert("model"@.len() != "user"@.len());
    assert("hook"@.len() != "system"@.len());
    assert("hook"@[0] != "user"@[0]);
    assert("hook"@.len() != "model"@.len());
}

/// The operation log kind that a stored label names, if any.
pub open spec fn operation_log_kind_from_label(s: Seq<char>) -> Option<OperationLogKind> {
    if s == "startup"@ {
        Some(OperationLogKind::Startup)
    } else if s == "tool"@ {
        Some(OperationLogKind::Tool)
    } else if s == "trigger"@ {
        Some(OperationLogKind::Trigger)
    } else if s == "reflection"@ {
        Some(OperationLogKind::Reflection)
    } else if s == "decision"@ {
        Some(OperationLogKind::Decision)
    } else if s == "snapshot"@ {
        Some(OperationLogKind::Snapshot)
    } else if s == "doctor"@ {
        Some(OperationLogKind::Doctor)
    } else if s == "error"@ {
        Some(OperationLogKind::Error)
    } else {
        None
    }
}

/// Parses a stored operation log kind label; any other text is an internal error
/// naming it.
pub fn parse_operation_log_kind(value: &str) -> (r: Result<OperationLogKind, AppError>)
    ensures
        match operation_log_kind_from_label(value@) {
            Some(x) => r == Ok::<OperationLogKind, AppError>(x),
            None => r matches Err(e) && e is Message && e.message_view() == "unknown operation log kind: "@ + value@,
        },
{
    if same_text(value, "startup") {
        return Ok(OperationLogKind::Startup);
    }
    if same_text(value, "tool") {
        return Ok(OperationLogKind::Tool);
    }
    if same_text(value, "trigger") {
        return Ok(OperationLogKind::Trigger);
    }
    if same_text(value, "reflection") {
        return Ok(OperationLogKind::Reflection);
    }
    if same_text(value, "decision") {
        return Ok(OperationLogKind::Decision);
    }
    if same_text(value, "snapshot") {
        return Ok(OperationLogKind::Snapshot);
    }
    if same_text(value, "doctor") {
        return Ok(OperationLogKind::Doctor);
    }
    if same_text(value, "error") {
        return Ok(OperationLogKind::Error);
    }
    Err(AppError::Message(concat_str("unknown operation log kind: ", value)))
}

/// Every operation log kind parses back from its stored label.
pub proof fn lemma_operation_log_kind_label_roundtrip(x: OperationLogKind)
    ensures
        operation_log_kind_from_label(operation_kind_label(x)) == Some(x),
{
    reveal_strlit("startup");
    reveal_strlit("tool");
    reveal_strlit("trigger");
    reveal_strlit("reflection");
    reveal_strlit("decision");
    reveal_strlit("snapshot");
    reveal_strlit("doctor");
    reveal_strlit("error");
    assert("tool"@.len() != "startup"@.len());
    assert("trigger"@[0] != "startup"@[0]);
    assert("trigger"@.len() != "tool"@.len());
    assert("reflection"@.len() != "startup"@.len());
    assert("reflection"@.len() != "tool"@.len());
    assert("reflection"@.len() != "trigger"@.len());
    assert("decision"@.len() != "startup"@.len());
    assert("decision"@.len() != "tool"@.len());
    assert("decision"@.len() != "trigger"@.len());
    assert("decision"@.len() != "reflection"@.len());
    assert("snapshot"@.len() != "startup"@.len());
    assert("snapshot"@.len() != "tool"@.len());
    assert("snapshot"@.len() != "trigger"@.len());
    assert("snapshot"@.len() != "reflection"@.len());
    assert("snapshot"@[0] != "decision"@[0]);
    assert("doctor"@.len() != "startup"@.len());
    assert("doctor"@.len() != "tool"@.len());
    assert("doctor"@.len() != "trigger"@.len());
    assert("doctor"@.len() != "reflection"@.len());
    assert("doctor"@.len() != "decision"@.len());
    assert("doctor"@.len() != "snapshot"@.len());
    assert("error"@.len() != "startup"@.len());
    assert("error"@.len() != "tool"@.len());
    assert("error"@.len() != "trigger"@.len());
    assert("error"@.len() != "reflection"@.len());
    assert("error"@.len() != "decision"@.len());
    assert("error"@.len() != "snapshot"@.len());
    assert("error"@.len() != "doctor"@.len());
}

/// The operation log status that a stored label names, if any.
pub open spec fn operation_log_status_from_label(s: Seq<char>) -> Option<OperationLogStatus> {
    if s == "started"@ {
        Some(OperationLogStatus::Started)
    } else if s == "ok"@ {
        Some(OperationLogStatus::Ok_)
    } else if s == "handled"@ {
        Some(OperationLogStatus::Handled)
    } else if s == "suppressed"@ {
        Some(OperationLogStatus::Suppressed)
    } else if s == "rejected"@ {
        Some(OperationLogStatus::Rejected)
    } else if s == "failed"@ {
        Some(OperationLogStatus::Failed)
    } else {
        None
    }
}

/// Parses a stored operation log status label; any other text is an internal error
/// naming it.
pub fn parse_operation_log_status(value: &str) -> (r: Result<OperationLogStatus, AppError>)
    ensures
        match operation_log_status_from_label(value@) {
            Some(x) => r == Ok::<OperationLogStatus, AppError>(x),
            None => r matches Err(e) && e is Message && e.message_view() == "unknown operation log status: "@ + value@,
        },
{
    if same_text(value, "started") {
        return Ok(OperationLogStatus::Started);
    }
    if same_text(value, "ok") {
        return Ok(OperationLogStatus::Ok_);
    }
    if same_text(value, "handled") {
        return Ok(OperationLogStatus::Handled);
    }
    if same_text(value, "suppressed") {
        return Ok(OperationLogStatus::Suppressed);
    }
    if same_text(value, "rejected") {
        return Ok(OperationLogStatus::Rejected);
    }
    if same_text(value, "failed") {
        return Ok(OperationLogStatus::Failed);
    }
    Err(AppError::Message(concat_str("unknown operation log status: ", value)))
}

/// Every operation log status parses back from its stored label.
pub proof fn lemma_operation_log_status_label_roundtrip(x: OperationLogStatus)
    ensures
        operation_log_status_from_label(operation_status_label(x)) == Some(x),
{
    reveal_strlit("started");
    reveal_strlit("ok");
    reveal_strlit("handled");
    reveal_strlit("suppressed");
    reveal_strlit("rejected");
    reveal_strlit("failed");
    assert("ok"@.len() != "started"@.len());
    assert("handled"@[0] != "started"@[0]);
    assert("handled"@.len() != "ok"@.len());
    assert("suppressed"@.len() != "started"@.len());
    assert("suppressed"@.len() != "ok"@.len());
    assert("suppressed"@.len() != "handled"@.len());
    assert("rejected"@.len() != "started"@.len());
    assert("rejected"@.len() != "ok"@.len());
    assert("rejected"@.len() != "handled"@.len());
    assert("rejected"@.len() != "suppressed"@.len());
    assert("failed"@.len() != "started"@.len());
    assert("failed"@.len() != "ok"@.len());
    assert("failed"@.len() != "handled"@.len());
    assert("failed"@.len() != "suppressed"@.len());
    assert("failed"@.len() != "rejected"@.len());
}

} // verus!
