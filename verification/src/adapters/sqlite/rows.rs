//! How the SQLite store reads its rows back into records, and the values it
//! writes for them. A row is handed over as the plain texts and integers that
//! its columns hold.
use vstd::prelude::*;

use crate::adapters::sqlite::codec::{
    actor_kind_from_label, claim_status_from_label, event_kind_from_label,
    mode_from_label, trigger_ledger_status_from_label, operation_log_kind_from_label,
    operation_log_status_from_label, owner_from_label, parse_actor_kind, parse_claim_status,
    parse_event_kind, parse_mode, parse_operation_log_kind, parse_operation_log_status,
    parse_owner, parse_trigger_ledger_status, parse_trigger_type, trigger_type_from_label,
};
use crate::domain::claim::ClaimDraft;
use crate::domain::error::{domain_error_name, AppError, DomainError};
use crate::domain::event::Event;
use crate::domain::operation_log::OperationLogEntry;
use crate::domain::time::{parse_rfc3339_detailed, rfc3339_timestamp, Timestamp};
use crate::domain::types::{is_valid_namespace_text, namespace_matches_owner, Namespace};
use crate::ports::{StoredClaim, StoredEvent, StoredTriggerLedgerEntry};
use crate::seqs::{opt_text, texts};
use crate::text::{decimal, decimal_i64, decimal_u64, owned, signed_decimal};

verus! {

/// What `serde_json::from_str::<Vec<String>>` makes of a text: the strings of
/// a JSON array of strings, or the text of the parse error.
pub uninterp spec fn json_string_list(text: Seq<char>) -> Result<Seq<Seq<char>>, Seq<char>>;

/// What `serde_json::to_string` writes for a list of strings.
pub uninterp spec fn json_of_strings(items: Seq<Seq<char>>) -> Seq<char>;

/// `serde_json::from_str::<Vec<String>>`, with a failure as the error's
/// `to_string()`. The contract claims only that the outcome is a function of
/// the text.
#[verifier::external_body]
fn parse_json_string_list(text: &str) -> (r: Result<Vec<String>, String>)
    ensures
        match r {
            Ok(v) => json_string_list(text@) == Ok::<Seq<Seq<char>>, Seq<char>>(texts(v@)),
            Err(m) => json_string_list(text@) == Err::<Seq<Seq<char>>, Seq<char>>(m@),
        },
{
    match serde_json::from_str::<Vec<String>>(text) {
        Ok(v) => Ok(v),
        Err(e) => Err(e.to_string()),
    }
}

/// `serde_json::to_string` on a list of strings, which its documentation
/// lets fail only for maps with non-string keys and failing `Serialize`
/// impls, neither of which a list of strings has. The contract claims only
/// that the text is a function of the strings.
#[verifier::external_body]
fn write_json_string_list(items: &Vec<String>) -> (r: String)
    ensures
        r@ == json_of_strings(texts(items@)),
{
    match serde_json::to_string(items) {
        Ok(text) => text,
        Err(_) => String::new(),
    }
}

/// The JSON array text of a list of strings, as the store writes it.
pub fn string_list_json(items: &Vec<String>) -> (r: String)
    ensures
        r@ == json_of_strings(texts(items@)),
{
    write_json_string_list(items)
}

/// The strings of a stored JSON array of strings, or the parse error as an
/// internal error.
pub fn strings_from_json(text: &str) -> (r: Result<Vec<String>, AppError>)
    ensures
        match json_string_list(text@) {
            Ok(v) => (r matches Ok(items) && texts(items@) == v),
            Err(m) => (r matches Err(e) && e is Message && e.message_view() == m),
        },
{
    match parse_json_string_list(text) {
        Ok(v) => Ok(v),
        Err(m) => Err(AppError::Message(m)),
    }
}

/// The stored form of an episode watermark: the same number as a signed
/// integer, refused where it exceeds SQLite's integers.
pub fn serialize_episode_watermark(value: Option<u64>) -> (r: Result<Option<i64>, AppError>)
    ensures
        match value {
            None => r == Ok::<Option<i64>, AppError>(None),
            Some(v) => if v <= i64::MAX {
                r == Ok::<Option<i64>, AppError>(Some(v as i64))
            } else {
                (r matches Err(e) && e is InvalidParams && e.message_view() == "episode watermark "@
                    + decimal(v as nat) + " exceeds sqlite INTEGER range"@)
            },
        },
{
    match value {
        None => Ok(None),
        Some(v) => {
            if v <= i64::MAX as u64 {
                Ok(Some(v as i64))
            } else {
                let mut m = owned("episode watermark ");
                m.append(decimal_u64(v).as_str());
                m.append(" exceeds sqlite INTEGER range");
                Err(AppError::InvalidParams(m))
            }
        },
    }
}

/// A stored episode watermark read back: refused where it is negative.
pub fn episode_watermark_from_stored(value: Option<i64>) -> (r: Result<Option<u64>, AppError>)
    ensures
        match value {
            None => r == Ok::<Option<u64>, AppError>(None),
            Some(v) => if v >= 0 {
                r == Ok::<Option<u64>, AppError>(Some(v as u64))
            } else {
                (r matches Err(e) && e is Message && e.message_view()
                    == "invalid negative episode watermark: "@ + signed_decimal(v as int))
            },
        },
{
    match value {
        None => Ok(None),
        Some(v) => {
            if v >= 0 {
                Ok(Some(v as u64))
            } else {
                let mut m = owned("invalid negative episode watermark: ");
                m.append(decimal_i64(v).as_str());
                Err(AppError::Message(m))
            }
        },
    }
}

/// The message for a stored namespace that does not parse.
pub open spec fn bad_namespace_message(value: Seq<char>) -> Seq<char> {
    "invalid stored namespace `"@ + value + "`: "@ + domain_error_name(
        DomainError::InvalidNamespace,
    )
}

/// A stored namespace read back; a text that is no namespace is an internal
/// error that quotes it.
pub fn parse_stored_namespace(value: &str) -> (r: Result<Namespace, AppError>)
    ensures
        is_valid_namespace_text(value@) ==> (r matches Ok(ns) && ns@ == value@),
        !is_valid_namespace_text(value@) ==> (r matches Err(e) && e is Message && e.message_view()
            == bad_namespace_message(value@)),
{
    match Namespace::parse(value) {
        Ok(ns) => Ok(ns),
        Err(error) => {
            let mut m = owned("invalid stored namespace `");
            m.append(value);
            m.append("`: ");
            m.append(error.name());
            Err(AppError::Message(m))
        },
    }
}

/// A stored RFC 3339 time read back; a text that does not parse is an
/// internal error with the parser's message.
pub fn parse_stored_timestamp(value: &str) -> (r: Result<Timestamp, AppError>)
    ensures
        match rfc3339_timestamp(value@) {
            Ok(t) => r == Ok::<Timestamp, AppError>(t),
            Err(m) => (r matches Err(e) && e is Message && e.message_view() == m),
        },
{
    match parse_rfc3339_detailed(value) {
        Ok(t) => Ok(t),
        Err(m) => Err(AppError::Message(m)),
    }
}

/// An optional stored time read back.
pub fn parse_optional_stored_timestamp(value: &Option<String>) -> (r: Result<
    Option<Timestamp>,
    AppError,
>)
    ensures
        match value {
            None => r == Ok::<Option<Timestamp>, AppError>(None),
            Some(text) => match rfc3339_timestamp(text@) {
                Ok(t) => r == Ok::<Option<Timestamp>, AppError>(Some(t)),
                Err(m) => (r matches Err(e) && e is Message && e.message_view() == m),
            },
        },
{
    match value {
        None => Ok(None),
        Some(text) => match parse_stored_timestamp(text.as_str()) {
            Ok(t) => Ok(Some(t)),
            Err(e) => Err(e),
        },
    }
}

/// A row of the claims table.
#[derive(Debug, Clone, PartialEq, Eq)]
pub struct ClaimRow {
    pub claim_id: String,
    pub owner: String,
    pub namespace: String,
    pub subject: String,
    pub predicate: String,
    pub object: String,
    pub mode: String,
    pub status: String,
}

/// Why a claim row does not read back as a stored claim, if it does not:
/// checked in the order owner, mode, namespace, namespace against owner,
/// status.
pub open spec fn claim_row_error(row: ClaimRow) -> Option<Seq<char>> {
    if owner_from_label(row.owner@) is None {
        Some("unknown owner: "@ + row.owner@)
    } else if mode_from_label(row.mode@) is None {
        Some("unknown mode: "@ + row.mode@)
    } else if !is_valid_namespace_text(row.namespace@) {
        Some(bad_namespace_message(row.namespace@))
    } else if !namespace_matches_owner(row.namespace@, owner_from_label(row.owner@)->0) {
        Some(
            "invalid stored claim namespace mapping: "@ + domain_error_name(
                DomainError::NamespaceOwnerMismatch,
            ),
        )
    } else if claim_status_from_label(row.status@) is None {
        Some("unknown claim status: "@ + row.status@)
    } else {
        None
    }
}

/// A claim row read back as a stored claim.
pub fn stored_claim_from_row(row: &ClaimRow) -> (r: Result<StoredClaim, AppError>)
    ensures
        match claim_row_error(*row) {
            Some(m) => (r matches Err(e) && e is Message && e.message_view() == m),
            None => (r matches Ok(c) && c.claim_id@ == row.claim_id@ && c.claim.spec_owner()
                == owner_from_label(row.owner@)->0 && c.claim.spec_namespace() == row.namespace@
                && c.claim.spec_subject() == row.subject@ && c.claim.spec_predicate()
                == row.predicate@ && c.claim.spec_object() == row.object@ && c.claim.spec_mode()
                == mode_from_label(row.mode@)->0 && c.status == claim_status_from_label(
                row.status@,
            )->0),
        },
{
    let owner = match parse_owner(row.owner.as_str()) {
        Ok(o) => o,
        Err(e) => {
            return Err(e);
        },
    };
    let mode = match parse_mode(row.mode.as_str()) {
        Ok(m) => m,
        Err(e) => {
            return Err(e);
        },
    };
    let namespace = match parse_stored_namespace(row.namespace.as_str()) {
        Ok(ns) => ns,
        Err(e) => {
            return Err(e);
        },
    };
    let claim = ClaimDraft::new(
        owner,
        row.subject.as_str(),
        row.predicate.as_str(),
        row.object.as_str(),
        mode,
    ).with_namespace(namespace);
    match claim.validate_namespace_owner() {
        Ok(()) => {},
        Err(error) => {
            let mut m = owned("invalid stored claim namespace mapping: ");
            m.append(error.name());
            return Err(AppError::Message(m));
        },
    }
    let status = match parse_claim_status(row.status.as_str()) {
        Ok(s) => s,
        Err(e) => {
            return Err(e);
        },
    };
    Ok(StoredClaim::new(row.claim_id.clone(), claim, status))
}

/// A row of the events table.
#[derive(Debug, Clone, PartialEq, Eq)]
pub struct EventRow {
    pub event_id: String,
    pub recorded_at: String,
    pub owner: String,
    pub namespace: String,
    pub kind: String,
    pub summary: String,
}

/// Why an event row does not read back as a stored event, if it does not:
/// checked in the order time, owner, namespace, kind, namespace against
/// owner.
pub open spec fn event_row_error(row: EventRow) -> Option<Seq<char>> {
    if rfc3339_timestamp(row.recorded_at@) is Err {
        Some(rfc3339_timestamp(row.recorded_at@)->Err_0)
    } else if owner_from_label(row.owner@) is None {
        Some("unknown owner: "@ + row.owner@)
    } else if !is_valid_namespace_text(row.namespace@) {
        Some(bad_namespace_message(row.namespace@))
    } else if event_kind_from_label(row.kind@) is None {
        Some("unknown event kind: "@ + row.kind@)
    } else if !namespace_matches_owner(row.namespace@, owner_from_label(row.owner@)->0) {
        Some(
            "invalid stored event namespace mapping: "@ + domain_error_name(
                DomainError::NamespaceOwnerMismatch,
            ),
        )
    } else {
        None
    }
}

/// An event row read back as a stored event.
pub fn stored_event_from_row(row: &EventRow) -> (r: Result<StoredEvent, AppError>)
    ensures
        match event_row_error(*row) {
            Some(m) => (r matches Err(e) && e is Message && e.message_view() == m),
            None => (r matches Ok(ev) && ev.event_id@ == row.event_id@ && rfc3339_timestamp(
                row.recorded_at@,
            ) == Ok::<Timestamp, Seq<char>>(ev.recorded_at) && ev.event.spec_owner()
                == owner_from_label(row.owner@)->0 && ev.event.spec_namespace() == row.namespace@
                && ev.event.spec_kind() == event_kind_from_label(row.kind@)->0
                && ev.event.spec_summary() == row.summary@),
        },
{
    let recorded_at = match parse_stored_timestamp(row.recorded_at.as_str()) {
        Ok(t) => t,
        Err(e) => {
            return Err(e);
        },
    };
    let owner = match parse_owner(row.owner.as_str()) {
        Ok(o) => o,
        Err(e) => {
            return Err(e);
        },
    };
    let namespace = match parse_stored_namespace(row.namespace.as_str()) {
        Ok(ns) => ns,
        Err(e) => {
            return Err(e);
        },
    };
    let kind = match parse_event_kind(row.kind.as_str()) {
        Ok(k) => k,
        Err(e) => {
            return Err(e);
        },
    };
    match Event::new_with_namespace(owner, namespace, kind, row.summary.as_str()) {
        Ok(event) => Ok(StoredEvent::new(row.event_id.clone(), recorded_at, event)),
        Err(error) => {
            let mut m = owned("invalid stored event namespace mapping: ");
            m.append(error.name());
            Err(AppError::Message(m))
        },
    }
}


/// The parse error of an optional stored time, if it has one.
pub open spec fn optional_time_error(value: Option<String>) -> Option<Seq<char>> {
    match value {
        Some(text) => match rfc3339_timestamp(text@) {
            Err(m) => Some(m),
            Ok(_) => None,
        },
        None => None,
    }
}

/// An optional stored time as read back, where it parses.
pub open spec fn optional_time(value: Option<String>) -> Option<Timestamp> {
    match value {
        Some(text) => match rfc3339_timestamp(text@) {
            Ok(t) => Some(t),
            Err(_) => None,
        },
        None => None,
    }
}

/// A row of the trigger ledger.
#[derive(Debug, Clone, PartialEq, Eq)]
pub struct TriggerLedgerRow {
    pub ledger_id: String,
    pub trigger_type: String,
    pub namespace: String,
    pub trigger_key: String,
    pub status: String,
    pub evidence_window: String,
    pub handled_at: Option<String>,
    pub cooldown_until: Option<String>,
    pub episode_watermark: Option<i64>,
    pub reflection_id: Option<String>,
}

/// Why a ledger row does not read back as a ledger entry, if it does not:
/// checked in the order evidence window, handled time, cooldown, watermark,
/// trigger type, namespace, status.
pub open spec fn ledger_row_error(row: TriggerLedgerRow) -> Option<Seq<char>> {
    if json_string_list(row.evidence_window@) is Err {
        Some(json_string_list(row.evidence_window@)->Err_0)
    } else if optional_time_error(row.handled_at) is Some {
        optional_time_error(row.handled_at)
    } else if optional_time_error(row.cooldown_until) is Some {
        optional_time_error(row.cooldown_until)
    } else if row.episode_watermark matches Some(v) && v < 0 {
        Some("invalid negative episode watermark: "@ + signed_decimal(row.episode_watermark->0 as int))
    } else if trigger_type_from_label(row.trigger_type@) is None {
        Some("unknown trigger type: "@ + row.trigger_type@)
    } else if !is_valid_namespace_text(row.namespace@) {
        Some(bad_namespace_message(row.namespace@))
    } else if trigger_ledger_status_from_label(row.status@) is None {
        Some("unknown trigger ledger status: "@ + row.status@)
    } else {
        None
    }
}

/// A ledger row read back as a ledger entry.
pub fn stored_trigger_ledger_entry_from_row(row: &TriggerLedgerRow) -> (r: Result<
    StoredTriggerLedgerEntry,
    AppError,
>)
    ensures
        match ledger_row_error(*row) {
            Some(m) => (r matches Err(e) && e is Message && e.message_view() == m),
            None => (r matches Ok(entry) && entry.ledger_id@ == row.ledger_id@ && Some(
                entry.trigger_type,
            ) == trigger_type_from_label(row.trigger_type@) && entry.namespace@
                == row.namespace@ && entry.trigger_key@ == row.trigger_key@ && Some(entry.status)
                == trigger_ledger_status_from_label(row.status@) && json_string_list(
                row.evidence_window@,
            ) == Ok::<Seq<Seq<char>>, Seq<char>>(texts(entry.evidence_window@))
                && entry.handled_at == optional_time(row.handled_at) && entry.cooldown_until
                == optional_time(row.cooldown_until) && entry.episode_watermark == match row.episode_watermark {
                Some(v) => Some(v as u64),
                None => None::<u64>,
            } && opt_text(entry.reflection_id) == opt_text(row.reflection_id)),
        },
{
    let evidence_window = match strings_from_json(row.evidence_window.as_str()) {
        Ok(v) => v,
        Err(e) => {
            return Err(e);
        },
    };
    let handled_at = match parse_optional_stored_timestamp(&row.handled_at) {
        Ok(t) => t,
        Err(e) => {
            return Err(e);
        },
    };
    let cooldown_until = match parse_optional_stored_timestamp(&row.cooldown_until) {
        Ok(t) => t,
        Err(e) => {
            return Err(e);
        },
    };
    let episode_watermark = match episode_watermark_from_stored(row.episode_watermark) {
        Ok(w) => w,
        Err(e) => {
            return Err(e);
        },
    };
    let trigger_type = match parse_trigger_type(row.trigger_type.as_str()) {
        Ok(t) => t,
        Err(e) => {
            return Err(e);
        },
    };
    let namespace = match parse_stored_namespace(row.namespace.as_str()) {
        Ok(ns) => ns,
        Err(e) => {
            return Err(e);
        },
    };
    let status = match parse_trigger_ledger_status(row.status.as_str()) {
        Ok(s) => s,
        Err(e) => {
            return Err(e);
        },
    };
    let reflection_id = match &row.reflection_id {
        Some(id) => Some(id.clone()),
        None => None,
    };
    Ok(
        StoredTriggerLedgerEntry {
            ledger_id: row.ledger_id.clone(),
            trigger_type,
            namespace,
            trigger_key: row.trigger_key.clone(),
            status,
            evidence_window,
            handled_at,
            cooldown_until,
            episode_watermark,
            reflection_id,
        },
    )
}

/// A row of the operation log.
#[derive(Debug, Clone, PartialEq, Eq)]
pub struct OperationLogRow {
    pub operation_id: String,
    pub occurred_at: String,
    pub namespace: Option<String>,
    pub actor_kind: String,
    pub actor_id: String,
    pub entrypoint: String,
    pub operation_kind: String,
    pub status: String,
    pub correlation_id: Option<String>,
    pub request_summary_json: Option<String>,
    pub response_summary_json: Option<String>,
    pub diagnostic_summary_json: Option<String>,
    pub redaction_version: i64,
}

/// Why an operation-log row does not read back as an entry, if it does not:
/// checked in the order time, actor kind, operation kind, status.
pub open spec fn operation_row_error(row: OperationLogRow) -> Option<Seq<char>> {
    if rfc3339_timestamp(row.occurred_at@) is Err {
        Some(rfc3339_timestamp(row.occurred_at@)->Err_0)
    } else if actor_kind_from_label(row.actor_kind@) is None {
        Some("unknown actor kind: "@ + row.actor_kind@)
    } else if operation_log_kind_from_label(row.operation_kind@) is None {
        Some("unknown operation log kind: "@ + row.operation_kind@)
    } else if operation_log_status_from_label(row.status@) is None {
        Some("unknown operation log status: "@ + row.status@)
    } else {
        None
    }
}

/// An operation-log row read back as an entry.
pub fn operation_entry_from_row(row: &OperationLogRow) -> (r: Result<OperationLogEntry, AppError>)
    ensures
        match operation_row_error(*row) {
            Some(m) => (r matches Err(e) && e is Message && e.message_view() == m),
            None => (r matches Ok(entry) && entry.operation_id@ == row.operation_id@ && rfc3339_timestamp(
                row.occurred_at@,
            ) == Ok::<Timestamp, Seq<char>>(entry.occurred_at) && opt_text(entry.namespace)
                == opt_text(row.namespace) && Some(entry.actor_kind) == actor_kind_from_label(
                row.actor_kind@,
            ) && entry.actor_id@ == row.actor_id@ && entry.entrypoint@ == row.entrypoint@ && Some(
                entry.operation_kind,
            ) == operation_log_kind_from_label(row.operation_kind@) && Some(entry.status)
                == operation_log_status_from_label(row.status@) && opt_text(entry.correlation_id)
                == opt_text(row.correlation_id) && opt_text(entry.request_summary_json) == opt_text(
                row.request_summary_json,
            ) && opt_text(entry.response_summary_json) == opt_text(row.response_summary_json)
                && opt_text(entry.diagnostic_summary_json) == opt_text(row.diagnostic_summary_json)
                && entry.redaction_version == row.redaction_version),
        },
{
    let occurred_at = match parse_stored_timestamp(row.occurred_at.as_str()) {
        Ok(t) => t,
        Err(e) => {
            return Err(e);
        },
    };
    let actor_kind = match parse_actor_kind(row.actor_kind.as_str()) {
        Ok(k) => k,
        Err(e) => {
            return Err(e);
        },
    };
    let operation_kind = match parse_operation_log_kind(row.operation_kind.as_str()) {
        Ok(k) => k,
        Err(e) => {
            return Err(e);
        },
    };
    let status = match parse_operation_log_status(row.status.as_str()) {
        Ok(s) => s,
        Err(e) => {
            return Err(e);
        },
    };
    Ok(
        OperationLogEntry {
            operation_id: row.operation_id.clone(),
            occurred_at,
            namespace: copy_opt(&row.namespace),
            actor_kind,
            actor_id: row.actor_id.clone(),
            entrypoint: row.entrypoint.clone(),
            operation_kind,
            status,
            correlation_id: copy_opt(&row.correlation_id),
            request_summary_json: copy_opt(&row.request_summary_json),
            response_summary_json: copy_opt(&row.response_summary_json),
            diagnostic_summary_json: copy_opt(&row.diagnostic_summary_json),
            redaction_version: row.redaction_version,
        },
    )
}

/// A copy of an optional text.
fn copy_opt(value: &Option<String>) -> (r: Option<String>)
    ensures
        opt_text(r) == opt_text(*value),
{
    match value {
        Some(s) => Some(s.clone()),
        None => None,
    }
}

} // verus!
