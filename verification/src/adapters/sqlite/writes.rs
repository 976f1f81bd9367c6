//! The statements by which the SQLite store writes its records, with the
//! values they bind, and the checks that a write passes first.
use vstd::prelude::*;

use crate::adapters::sqlite::codec::{
    event_kind_as_str, event_kind_label, mode_as_str, mode_label, owner_as_str, owner_from_label,
    owner_label, parse_owner, trigger_type_as_str, trigger_type_label,
};
use crate::adapters::sqlite::queries::{bind_view, binds_view, BindView, SqlQuery, SqlValue};
use crate::adapters::sqlite::rows::{json_of_strings, string_list_json};
use crate::adapters::sqlite::schema::{claims_table_sql, claims_table_sql_text, OWNER_NAMESPACE_SCOPE_CONSTRAINT_NAME};
use crate::domain::error::{domain_error_name, AppError, DomainError};
use crate::domain::json_tree::{parsed_json, written_json};
use crate::domain::operation_log::{
    actor_kind_label, operation_kind_label, operation_status_label, redact_secrets, redact_view,
    OperationLogEntry,
};
use crate::domain::records::{Commitment, IdentityCore};
use crate::domain::time::{out_of_range_message, timestamp_rfc3339, utc_rfc3339_text, Timestamp};
use crate::domain::types::namespace_matches_owner;
use crate::ports::{
    claim_status_label, trigger_ledger_status_label, ClaimStatus, StoredClaim, StoredEvent,
    StoredReflection, StoredTriggerLedgerEntry,
};
use crate::seqs::{contains_text, opt_text, texts};
use crate::text::{decimal, owned, seq_contains_seq, str_contains};

verus! {

/// The statement that records an event.
pub const INSERT_EVENT_SQL: &'static str = "\n            INSERT INTO events (event_id, recorded_at, owner, namespace, kind, summary)\n            VALUES (?, ?, ?, ?, ?, ?)\n            ";

/// The statement that writes a claim, replacing every column of a claim
/// with the same id.
pub const UPSERT_CLAIM_SQL: &'static str = "\n            INSERT INTO claims (claim_id, owner, namespace, subject, predicate, object, mode, status)\n            VALUES (?, ?, ?, ?, ?, ?, ?, ?)\n            ON CONFLICT(claim_id) DO UPDATE SET\n                owner = excluded.owner,\n                namespace = excluded.namespace,\n                subject = excluded.subject,\n                predicate = excluded.predicate,\n                object = excluded.object,\n                mode = excluded.mode,\n                status = excluded.status\n            ";

/// The statement that links a claim to an event that supports it.
pub const INSERT_EVIDENCE_LINK_SQL: &'static str = "\n            INSERT INTO evidence_links (claim_id, event_id)\n            VALUES (?, ?)\n            ";

/// The statement that puts an event into an episode.
pub const INSERT_EPISODE_EVENT_SQL: &'static str = "\n            INSERT INTO episode_events (episode_reference, event_id)\n            VALUES (?, ?)\n            ";

/// The statement that records a reflection.
pub const INSERT_REFLECTION_SQL: &'static str = "\n            INSERT INTO reflections (\n                reflection_id,\n                recorded_at,\n                summary,\n                superseded_claim_id,\n                replacement_claim_id,\n                supporting_evidence_event_ids,\n                requested_identity_update,\n                requested_commitment_updates\n            )\n            VALUES (?, ?, ?, ?, ?, ?, ?, ?)\n            ";

/// The statement that records an attempt in the trigger ledger.
pub const INSERT_TRIGGER_LEDGER_SQL: &'static str = "\n            INSERT INTO reflection_trigger_ledger (\n                ledger_id, trigger_type, namespace, trigger_key, status,\n                evidence_window, handled_at, cooldown_until, episode_watermark, reflection_id\n            ) VALUES (?, ?, ?, ?, ?, ?, ?, ?, ?, ?)\n            ";

/// The statement that appends an entry to the operation log.
pub const INSERT_OPERATION_SQL: &'static str = "INSERT INTO operation_log (operation_id, occurred_at, namespace, actor_kind, actor_id, entrypoint, operation_kind, status, correlation_id, request_summary_json, response_summary_json, diagnostic_summary_json, redaction_version) VALUES (?, ?, ?, ?, ?, ?, ?, ?, ?, ?, ?, ?, ?)";

/// The statement that sets the status of a claim.
pub const UPDATE_CLAIM_STATUS_SQL: &'static str = "\n            UPDATE claims\n            SET status = ?\n            WHERE claim_id = ?\n            ";

/// The statement that adds the baseline commitment where it is missing.
pub const SEED_BASELINE_COMMITMENT_SQL: &'static str = "\n            INSERT OR IGNORE INTO commitments (description, owner)\n            VALUES (?, ?)\n            ";

/// The statement that adds a commitment.
pub const INSERT_COMMITMENT_SQL: &'static str = "\n                INSERT INTO commitments (description, owner)\n                VALUES (?, ?)\n                ";

/// The statement that adds one identity claim at its position.
pub const INSERT_IDENTITY_CLAIM_SQL: &'static str = "INSERT INTO identity_claims (position, claim) VALUES (?, ?)";

/// A text value.
fn text_value(s: &str) -> (r: SqlValue)
    ensures
        bind_view(r) == BindView::Text(s@),
{
    SqlValue::Text(owned(s))
}

/// An optional text: its text where present, SQL `NULL` otherwise.
fn optional_text_value(o: &Option<String>) -> (r: SqlValue)
    ensures
        bind_view(r) == match o {
            Some(s) => BindView::Text(s@),
            None => BindView::Null,
        },
{
    match o {
        Some(s) => SqlValue::Text(s.clone()),
        None => SqlValue::Null,
    }
}

/// The value bound for an optional text view.
pub open spec fn optional_text_bind(o: Option<Seq<char>>) -> BindView {
    match o {
        Some(s) => BindView::Text(s),
        None => BindView::Null,
    }
}

/// A statement with the given values, in order.
fn statement(sql: &str, values: Vec<SqlValue>) -> (r: SqlQuery)
    ensures
        r.sql@ == sql@,
        r.binds@ == values@,
{
    SqlQuery { sql: owned(sql), binds: values }
}

/// The statement that records a stored event; an event whose time chrono
/// cannot write is refused.
pub fn insert_event_plan(event: &StoredEvent) -> (r: Result<SqlQuery, AppError>)
    ensures
        match utc_rfc3339_text(event.recorded_at.secs, event.recorded_at.nanos) {
            None => (r matches Err(e) && e is InvalidParams && e.message_view()
                == out_of_range_message()),
            Some(time) => (r matches Ok(p) && p.sql@ == INSERT_EVENT_SQL@ && binds_view(p.binds@)
                == seq![
                BindView::Text(event.event_id@),
                BindView::Text(time),
                BindView::Text(owner_label(event.event.spec_owner())),
                BindView::Text(event.event.spec_namespace()),
                BindView::Text(event_kind_label(event.event.spec_kind())),
                BindView::Text(event.event.spec_summary()),
            ]),
        },
{
    let time = match timestamp_rfc3339(&event.recorded_at) {
        Ok(t) => t,
        Err(e) => {
            return Err(e);
        },
    };
    let mut values: Vec<SqlValue> = Vec::new();
    values.push(SqlValue::Text(event.event_id.clone()));
    values.push(SqlValue::Text(time));
    values.push(text_value(owner_as_str(event.event.owner())));
    values.push(text_value(event.event.namespace().as_str()));
    values.push(text_value(event_kind_as_str(event.event.kind())));
    values.push(text_value(event.event.summary()));
    let p = statement(INSERT_EVENT_SQL, values);
    proof {
        assert(binds_view(p.binds@) =~= seq![
            BindView::Text(event.event_id@),
            BindView::Text(utc_rfc3339_text(event.recorded_at.secs, event.recorded_at.nanos)->0),
            BindView::Text(owner_label(event.event.spec_owner())),
            BindView::Text(event.event.spec_namespace()),
            BindView::Text(event_kind_label(event.event.spec_kind())),
            BindView::Text(event.event.spec_summary()),
        ]);
    }
    Ok(p)
}

/// The statement that writes a stored claim; a claim whose namespace cannot
/// hold its owner's memories is refused.
pub fn upsert_claim_plan(claim: &StoredClaim) -> (r: Result<SqlQuery, AppError>)
    ensures
        !namespace_matches_owner(claim.claim.spec_namespace(), claim.claim.spec_owner()) ==> (r matches Err(
            e,
        ) && e is Message && e.message_view() == "invalid claim namespace mapping: "@
            + domain_error_name(DomainError::NamespaceOwnerMismatch)),
        namespace_matches_owner(claim.claim.spec_namespace(), claim.claim.spec_owner()) ==> (r matches Ok(
            p,
        ) && p.sql@ == UPSERT_CLAIM_SQL@ && binds_view(p.binds@) == seq![
            BindView::Text(claim.claim_id@),
            BindView::Text(owner_label(claim.claim.spec_owner())),
            BindView::Text(claim.claim.spec_namespace()),
            BindView::Text(claim.claim.spec_subject()),
            BindView::Text(claim.claim.spec_predicate()),
            BindView::Text(claim.claim.spec_object()),
            BindView::Text(mode_label(claim.claim.spec_mode())),
            BindView::Text(claim_status_label(claim.status)),
        ]),
{
    match claim.claim.validate_namespace_owner() {
        Ok(()) => {},
        Err(error) => {
            let mut m = owned("invalid claim namespace mapping: ");
            m.append(error.name());
            return Err(AppError::Message(m));
        },
    }
    let mut values: Vec<SqlValue> = Vec::new();
    values.push(SqlValue::Text(claim.claim_id.clone()));
    values.push(text_value(owner_as_str(claim.claim.owner())));
    values.push(text_value(claim.claim.namespace().as_str()));
    values.push(text_value(claim.claim.subject()));
    values.push(text_value(claim.claim.predicate()));
    values.push(text_value(claim.claim.object()));
    values.push(text_value(mode_as_str(claim.claim.mode())));
    values.push(text_value(claim.status.as_str()));
    let p = statement(UPSERT_CLAIM_SQL, values);
    proof {
        assert(binds_view(p.binds@) =~= seq![
            BindView::Text(claim.claim_id@),
            BindView::Text(owner_label(claim.claim.spec_owner())),
            BindView::Text(claim.claim.spec_namespace()),
            BindView::Text(claim.claim.spec_subject()),
            BindView::Text(claim.claim.spec_predicate()),
            BindView::Text(claim.claim.spec_object()),
            BindView::Text(mode_label(claim.claim.spec_mode())),
            BindView::Text(claim_status_label(claim.status)),
        ]);
    }
    Ok(p)
}

/// The statement that links a claim to a supporting event.
pub fn insert_evidence_link_plan(claim_id: &str, event_id: &str) -> (r: SqlQuery)
    ensures
        r.sql@ == INSERT_EVIDENCE_LINK_SQL@,
        binds_view(r.binds@) == seq![BindView::Text(claim_id@), BindView::Text(event_id@)],
{
    let mut values: Vec<SqlValue> = Vec::new();
    values.push(text_value(claim_id));
    values.push(text_value(event_id));
    let p = statement(INSERT_EVIDENCE_LINK_SQL, values);
    assert(binds_view(p.binds@) =~= seq![BindView::Text(claim_id@), BindView::Text(event_id@)]);
    p
}

/// The statement that puts an event into an episode.
pub fn insert_episode_event_plan(episode_reference: &str, event_id: &str) -> (r: SqlQuery)
    ensures
        r.sql@ == INSERT_EPISODE_EVENT_SQL@,
        binds_view(r.binds@) == seq![
            BindView::Text(episode_reference@),
            BindView::Text(event_id@),
        ],
{
    let mut values: Vec<SqlValue> = Vec::new();
    values.push(text_value(episode_reference));
    values.push(text_value(event_id));
    let p = statement(INSERT_EPISODE_EVENT_SQL, values);
    assert(binds_view(p.binds@) =~= seq![
        BindView::Text(episode_reference@),
        BindView::Text(event_id@),
    ]);
    p
}

/// The statement that records a reflection, with the JSON texts of its
/// requested identity and commitment updates as written by the caller.
pub fn insert_reflection_plan(
    reflection: &StoredReflection,
    identity_update_json: &Option<String>,
    commitment_updates_json: &Option<String>,
) -> (r: Result<SqlQuery, AppError>)
    ensures
        match utc_rfc3339_text(reflection.recorded_at.secs, reflection.recorded_at.nanos) {
            None => (r matches Err(e) && e is InvalidParams && e.message_view()
                == out_of_range_message()),
            Some(time) => (r matches Ok(p) && p.sql@ == INSERT_REFLECTION_SQL@ && binds_view(
                p.binds@,
            ) == seq![
                BindView::Text(reflection.reflection_id@),
                BindView::Text(time),
                BindView::Text(reflection.reflection.spec_summary()),
                optional_text_bind(opt_text(reflection.superseded_claim_id)),
                optional_text_bind(opt_text(reflection.replacement_claim_id)),
                BindView::Text(json_of_strings(texts(reflection.supporting_evidence_event_ids@))),
                optional_text_bind(opt_text(*identity_update_json)),
                optional_text_bind(opt_text(*commitment_updates_json)),
            ]),
        },
{
    let time = match timestamp_rfc3339(&reflection.recorded_at) {
        Ok(t) => t,
        Err(e) => {
            return Err(e);
        },
    };
    let mut values: Vec<SqlValue> = Vec::new();
    values.push(SqlValue::Text(reflection.reflection_id.clone()));
    values.push(SqlValue::Text(time));
    values.push(text_value(reflection.reflection.summary()));
    values.push(optional_text_value(&reflection.superseded_claim_id));
    values.push(optional_text_value(&reflection.replacement_claim_id));
    values.push(SqlValue::Text(string_list_json(&reflection.supporting_evidence_event_ids)));
    values.push(optional_text_value(identity_update_json));
    values.push(optional_text_value(commitment_updates_json));
    let p = statement(INSERT_REFLECTION_SQL, values);
    proof {
        assert(binds_view(p.binds@) =~= seq![
            BindView::Text(reflection.reflection_id@),
            BindView::Text(
                utc_rfc3339_text(reflection.recorded_at.secs, reflection.recorded_at.nanos)->0,
            ),
            BindView::Text(reflection.reflection.spec_summary()),
            optional_text_bind(opt_text(reflection.superseded_claim_id)),
            optional_text_bind(opt_text(reflection.replacement_claim_id)),
            BindView::Text(json_of_strings(texts(reflection.supporting_evidence_event_ids@))),
            optional_text_bind(opt_text(*identity_update_json)),
            optional_text_bind(opt_text(*commitment_updates_json)),
        ]);
    }
    Ok(p)
}

/// The RFC 3339 text of an optional instant, or `NULL`.
fn optional_time_value(t: Option<Timestamp>) -> (r: Result<SqlValue, AppError>)
    ensures
        match t {
            None => (r matches Ok(v) && bind_view(v) == BindView::Null),
            Some(x) => match utc_rfc3339_text(x.secs, x.nanos) {
                Some(k) => (r matches Ok(v) && bind_view(v) == BindView::Text(k)),
                None => (r matches Err(e) && e is InvalidParams && e.message_view()
                    == out_of_range_message()),
            },
        },
{
    match t {
        Some(x) => match timestamp_rfc3339(&x) {
            Ok(k) => Ok(SqlValue::Text(k)),
            Err(e) => Err(e),
        },
        None => Ok(SqlValue::Null),
    }
}

/// The value bound for an optional instant that chrono can write.
pub open spec fn optional_time_bind(t: Option<Timestamp>) -> BindView {
    match t {
        Some(x) => BindView::Text(utc_rfc3339_text(x.secs, x.nanos)->0),
        None => BindView::Null,
    }
}

/// chrono can write the instant, where there is one.
pub open spec fn writable_time(t: Option<Timestamp>) -> bool {
    t matches Some(x) ==> utc_rfc3339_text(x.secs, x.nanos) is Some
}

/// The statement that records a trigger-ledger entry. Its times must be
/// writable, and its episode watermark must fit SQLite's integers.
pub fn insert_trigger_ledger_plan(entry: &StoredTriggerLedgerEntry) -> (r: Result<
    SqlQuery,
    AppError,
>)
    ensures
        r is Ok <==> (writable_time(entry.handled_at) && writable_time(entry.cooldown_until) && (
        entry.episode_watermark matches Some(w) ==> w <= i64::MAX)),
        match r {
            Ok(p) => p.sql@ == INSERT_TRIGGER_LEDGER_SQL@ && binds_view(p.binds@) == seq![
                BindView::Text(entry.ledger_id@),
                BindView::Text(trigger_type_label(entry.trigger_type)),
                BindView::Text(entry.namespace@),
                BindView::Text(entry.trigger_key@),
                BindView::Text(trigger_ledger_status_label(entry.status)),
                BindView::Text(json_of_strings(texts(entry.evidence_window@))),
                optional_time_bind(entry.handled_at),
                optional_time_bind(entry.cooldown_until),
                match entry.episode_watermark {
                    Some(w) => BindView::Integer(w as i64),
                    None => BindView::Null,
                },
                optional_text_bind(opt_text(entry.reflection_id)),
            ],
            Err(e) => e is InvalidParams && e.message_view() == (if !writable_time(
                entry.handled_at,
            ) || !writable_time(entry.cooldown_until) {
                out_of_range_message()
            } else {
                "episode watermark "@ + decimal(entry.episode_watermark->0 as nat)
                    + " exceeds sqlite INTEGER range"@
            }),
        },
{
    let handled_at = match optional_time_value(entry.handled_at) {
        Ok(v) => v,
        Err(e) => {
            return Err(e);
        },
    };
    let cooldown_until = match optional_time_value(entry.cooldown_until) {
        Ok(v) => v,
        Err(e) => {
            return Err(e);
        },
    };
    let watermark = match entry.episode_watermark {
        Some(w) => {
            if w > i64::MAX as u64 {
                let mut m = owned("episode watermark ");
                m.append(crate::text::decimal_u64(w).as_str());
                m.append(" exceeds sqlite INTEGER range");
                return Err(AppError::InvalidParams(m));
            }
            SqlValue::Integer(w as i64)
        },
        None => SqlValue::Null,
    };
    let mut values: Vec<SqlValue> = Vec::new();
    values.push(SqlValue::Text(entry.ledger_id.clone()));
    values.push(text_value(trigger_type_as_str(entry.trigger_type)));
    values.push(text_value(entry.namespace.as_str()));
    values.push(SqlValue::Text(entry.trigger_key.clone()));
    values.push(text_value(entry.status.as_str()));
    values.push(SqlValue::Text(string_list_json(&entry.evidence_window)));
    values.push(handled_at);
    values.push(cooldown_until);
    values.push(watermark);
    values.push(optional_text_value(&entry.reflection_id));
    let p = statement(INSERT_TRIGGER_LEDGER_SQL, values);
    proof {
        assert(binds_view(p.binds@) =~= seq![
            BindView::Text(entry.ledger_id@),
            BindView::Text(trigger_type_label(entry.trigger_type)),
            BindView::Text(entry.namespace@),
            BindView::Text(entry.trigger_key@),
            BindView::Text(trigger_ledger_status_label(entry.status)),
            BindView::Text(json_of_strings(texts(entry.evidence_window@))),
            optional_time_bind(entry.handled_at),
            optional_time_bind(entry.cooldown_until),
            match entry.episode_watermark {
                Some(w) => BindView::Integer(w as i64),
                None => BindView::Null,
            },
            optional_text_bind(opt_text(entry.reflection_id)),
        ]);
    }
    Ok(p)
}

/// The statement that sets the status of a claim.
pub fn update_claim_status_plan(claim_id: &str, status: ClaimStatus) -> (r: SqlQuery)
    ensures
        r.sql@ == UPDATE_CLAIM_STATUS_SQL@,
        binds_view(r.binds@) == seq![
            BindView::Text(claim_status_label(status)),
            BindView::Text(claim_id@),
        ],
{
    let mut values: Vec<SqlValue> = Vec::new();
    values.push(text_value(status.as_str()));
    values.push(text_value(claim_id));
    let p = statement(UPDATE_CLAIM_STATUS_SQL, values);
    assert(binds_view(p.binds@) =~= seq![
        BindView::Text(claim_status_label(status)),
        BindView::Text(claim_id@),
    ]);
    p
}

/// A status update that changed no row names a claim that does not exist.
pub fn check_claim_updated(claim_id: &str, rows_affected: u64) -> (r: Result<(), AppError>)
    ensures
        r is Ok <==> rows_affected != 0,
        match r {
            Err(e) => e is Message && e.message_view() == "cannot update missing claim: "@
                + claim_id@,
            Ok(_) => true,
        },
{
    if rows_affected == 0 {
        let mut m = owned("cannot update missing claim: ");
        m.append(claim_id);
        return Err(AppError::Message(m));
    }
    Ok(())
}

/// The statement that adds the baseline commitment of the self, that the
/// identity core is never written directly, where it is missing.
pub fn seed_baseline_commitment_plan() -> (r: SqlQuery)
    ensures
        r.sql@ == SEED_BASELINE_COMMITMENT_SQL@,
        binds_view(r.binds@) == seq![
            BindView::Text("forbid:write_identity_core_directly"@),
            BindView::Text("self"@),
        ],
{
    let mut values: Vec<SqlValue> = Vec::new();
    values.push(text_value("forbid:write_identity_core_directly"));
    values.push(text_value("self"));
    let p = statement(SEED_BASELINE_COMMITMENT_SQL, values);
    assert(binds_view(p.binds@) =~= seq![
        BindView::Text("forbid:write_identity_core_directly"@),
        BindView::Text("self"@),
    ]);
    p
}

/// The identity read back from its claims in position order; an identity
/// without claims is missing.
pub fn identity_from_rows(claims: Vec<String>) -> (r: Result<IdentityCore, AppError>)
    ensures
        claims@.len() == 0 ==> (r matches Err(e) && e is Message && e.message_view()
            == "missing identity"@),
        claims@.len() > 0 ==> (r matches Ok(identity) && identity.canonical_claims@ == claims@),
{
    if claims.len() == 0 {
        return Err(AppError::internal("missing identity"));
    }
    Ok(IdentityCore::new(claims))
}

/// The statements that store an identity's claims, each at its position,
/// after the old ones are deleted.
pub fn identity_claim_inserts(identity: &IdentityCore) -> (r: Vec<SqlQuery>)
    ensures
        r@.len() == identity.canonical_claims@.len(),
        forall|i: int|
            0 <= i < r@.len() ==> (#[trigger] r@[i]).sql@ == INSERT_IDENTITY_CLAIM_SQL@
                && binds_view(r@[i].binds@) == seq![
                BindView::Integer(i as i64),
                BindView::Text(identity.canonical_claims@[i]@),
            ],
{
    let claims = identity.canonical_claims();
    let mut r: Vec<SqlQuery> = Vec::new();
    let mut i: usize = 0;
    while i < claims.len()
        invariant
            claims@ == identity.canonical_claims@,
            i <= claims@.len(),
            r@.len() == i,
            forall|j: int|
                0 <= j < i ==> (#[trigger] r@[j]).sql@ == INSERT_IDENTITY_CLAIM_SQL@ && binds_view(
                    r@[j].binds@,
                ) == seq![BindView::Integer(j as i64), BindView::Text(claims@[j]@)],
        decreases claims@.len() - i,
    {
        let mut values: Vec<SqlValue> = Vec::new();
        values.push(SqlValue::Integer(i as i64));
        values.push(SqlValue::Text(claims[i].clone()));
        let p = statement(INSERT_IDENTITY_CLAIM_SQL, values);
        assert(binds_view(p.binds@) =~= seq![
            BindView::Integer(i as i64),
            BindView::Text(claims@[i as int]@),
        ]);
        r.push(p);
        i = i + 1;
    }
    r
}

/// A stored commitment row read back: its owner label and its description.
pub fn commitments_from_rows(rows: &[(String, String)]) -> (r: Result<Vec<Commitment>, AppError>)
    ensures
        match r {
            Ok(v) => v@.len() == rows@.len() && forall|i: int|
                0 <= i < v@.len() ==> Some((#[trigger] v@[i]).owner) == owner_from_label(
                    rows@[i].0@,
                ) && v@[i].description@ == rows@[i].1@,
            Err(e) => exists|i: int|
                0 <= i < rows@.len() && owner_from_label(#[trigger] rows@[i].0@) is None
                    && e.message_view() == "unknown owner: "@ + rows@[i].0@ && forall|j: int|
                    0 <= j < i ==> owner_from_label(#[trigger] rows@[j].0@) is Some,
        },
{
    let mut r: Vec<Commitment> = Vec::new();
    let mut i: usize = 0;
    while i < rows.len()
        invariant
            i <= rows@.len(),
            r@.len() == i,
            forall|j: int|
                0 <= j < i ==> Some((#[trigger] r@[j]).owner) == owner_from_label(rows@[j].0@)
                    && r@[j].description@ == rows@[j].1@,
        decreases rows@.len() - i,
    {
        let owner = match parse_owner(rows[i].0.as_str()) {
            Ok(o) => o,
            Err(e) => {
                assert(owner_from_label(rows@[i as int].0@) is None);
                assert forall|j: int| 0 <= j < i implies owner_from_label(
                    #[trigger] rows@[j].0@,
                ) is Some by {
                    assert(Some(r@[j].owner) == owner_from_label(rows@[j].0@));
                }
                return Err(e);
            },
        };
        r.push(Commitment::new(owner, rows[i].1.as_str()));
        i = i + 1;
    }
    Ok(r)
}

/// The statements that store commitments, in order, after the old ones are
/// deleted.
pub fn commitment_inserts(commitments: &[Commitment]) -> (r: Vec<SqlQuery>)
    ensures
        r@.len() == commitments@.len(),
        forall|i: int|
            0 <= i < r@.len() ==> (#[trigger] r@[i]).sql@ == INSERT_COMMITMENT_SQL@ && binds_view(
                r@[i].binds@,
            ) == seq![
                BindView::Text(commitments@[i].description@),
                BindView::Text(owner_label(commitments@[i].owner)),
            ],
{
    let mut r: Vec<SqlQuery> = Vec::new();
    let mut i: usize = 0;
    while i < commitments.len()
        invariant
            i <= commitments@.len(),
            r@.len() == i,
            forall|j: int|
                0 <= j < i ==> (#[trigger] r@[j]).sql@ == INSERT_COMMITMENT_SQL@ && binds_view(
                    r@[j].binds@,
                ) == seq![
                    BindView::Text(commitments@[j].description@),
                    BindView::Text(owner_label(commitments@[j].owner)),
                ],
        decreases commitments@.len() - i,
    {
        let mut values: Vec<SqlValue> = Vec::new();
        values.push(text_value(commitments[i].description()));
        values.push(text_value(owner_as_str(commitments[i].owner)));
        let p = statement(INSERT_COMMITMENT_SQL, values);
        assert(binds_view(p.binds@) =~= seq![
            BindView::Text(commitments@[i as int].description@),
            BindView::Text(owner_label(commitments@[i as int].owner)),
        ]);
        r.push(p);
        i = i + 1;
    }
    r
}

/// A table that lacks a namespace column, a `NOT NULL` one, or the
/// owner-namespace check (`table_sql` is its `CREATE` statement, read where
/// the column exists) is rebuilt.
pub fn needs_namespace_rebuild(
    namespace_column_exists: bool,
    namespace_is_not_null: bool,
    table_sql: &str,
) -> (r: bool)
    ensures
        r == (!namespace_column_exists || !namespace_is_not_null || !seq_contains_seq(
            table_sql@,
            OWNER_NAMESPACE_SCOPE_CONSTRAINT_NAME@,
        )),
{
    !namespace_column_exists || !namespace_is_not_null || !str_contains(
        table_sql,
        OWNER_NAMESPACE_SCOPE_CONSTRAINT_NAME,
    )
}

/// The statement that copies legacy claim rows into the rebuilt table,
/// backfilling each namespace with `namespace_expression`.
pub fn claims_copy_sql(namespace_expression: &str) -> (r: String)
    ensures
        r@ == "\n        INSERT INTO claims (claim_id, owner, namespace, subject, predicate, object, mode, status)\n        SELECT claim_id, owner, "@
            + namespace_expression@
            + ", subject, predicate, object, mode, status\n        FROM claims_legacy\n        "@,
{
    let mut r = owned(
        "\n        INSERT INTO claims (claim_id, owner, namespace, subject, predicate, object, mode, status)\n        SELECT claim_id, owner, ",
    );
    r.append(namespace_expression);
    r.append(", subject, predicate, object, mode, status\n        FROM claims_legacy\n        ");
    r
}

/// The statement that copies legacy event rows into the rebuilt table,
/// backfilling each namespace with `namespace_expression`.
pub fn events_copy_sql(namespace_expression: &str) -> (r: String)
    ensures
        r@ == "\n        INSERT INTO events (event_id, recorded_at, owner, namespace, kind, summary)\n        SELECT event_id, recorded_at, owner, "@
            + namespace_expression@ + ", kind, summary\n        FROM events_legacy\n        "@,
{
    let mut r = owned(
        "\n        INSERT INTO events (event_id, recorded_at, owner, namespace, kind, summary)\n        SELECT event_id, recorded_at, owner, ",
    );
    r.append(namespace_expression);
    r.append(", kind, summary\n        FROM events_legacy\n        ");
    r
}

/// The statements that add the audit columns that the reflections table
/// lacks, given the columns it has, in a fixed order.
pub fn reflection_audit_column_statements(columns: &[String]) -> (r: Vec<String>)
    ensures
        texts(r@) == (if texts(columns@).contains("supporting_evidence_event_ids"@) {
            Seq::<Seq<char>>::empty()
        } else {
            seq![
                "ALTER TABLE reflections ADD COLUMN supporting_evidence_event_ids TEXT NOT NULL DEFAULT '[]'"@,
            ]
        }) + (if texts(columns@).contains("requested_identity_update"@) {
            Seq::<Seq<char>>::empty()
        } else {
            seq!["ALTER TABLE reflections ADD COLUMN requested_identity_update TEXT"@]
        }) + (if texts(columns@).contains("requested_commitment_updates"@) {
            Seq::<Seq<char>>::empty()
        } else {
            seq!["ALTER TABLE reflections ADD COLUMN requested_commitment_updates TEXT"@]
        }),
{
    let mut r: Vec<String> = Vec::new();
    let ghost s0 = texts(r@);
    if !contains_text(columns, "supporting_evidence_event_ids") {
        r.push(
            owned(
                "ALTER TABLE reflections ADD COLUMN supporting_evidence_event_ids TEXT NOT NULL DEFAULT '[]'",
            ),
        );
    }
    let ghost s1 = texts(r@);
    if !contains_text(columns, "requested_identity_update") {
        r.push(owned("ALTER TABLE reflections ADD COLUMN requested_identity_update TEXT"));
    }
    let ghost s2 = texts(r@);
    if !contains_text(columns, "requested_commitment_updates") {
        r.push(owned("ALTER TABLE reflections ADD COLUMN requested_commitment_updates TEXT"));
    }
    proof {
        assert(s0 =~= Seq::<Seq<char>>::empty());
        assert(texts(r@) =~= (if texts(columns@).contains("supporting_evidence_event_ids"@) {
            Seq::<Seq<char>>::empty()
        } else {
            seq![
                "ALTER TABLE reflections ADD COLUMN supporting_evidence_event_ids TEXT NOT NULL DEFAULT '[]'"@,
            ]
        }) + (if texts(columns@).contains("requested_identity_update"@) {
            Seq::<Seq<char>>::empty()
        } else {
            seq!["ALTER TABLE reflections ADD COLUMN requested_identity_update TEXT"@]
        }) + (if texts(columns@).contains("requested_commitment_updates"@) {
            Seq::<Seq<char>>::empty()
        } else {
            seq!["ALTER TABLE reflections ADD COLUMN requested_commitment_updates TEXT"@]
        }));
    }
    r
}

/// The statement that recreates the claims table when it is rebuilt, without
/// `IF NOT EXISTS`.
pub fn rebuilt_claims_table_sql() -> (r: String)
    ensures
        r@ == claims_table_sql_text(false),
{
    claims_table_sql(false)
}

/// A JSON summary as it is stored: its secrets redacted.
pub open spec fn stored_summary(text: Seq<char>) -> Seq<char> {
    match parsed_json(text) {
        Some(doc) => match written_json(redact_view(doc)) {
            Some(t) => t,
            None => text,
        },
        None => text,
    }
}

/// The bound value of an optional summary, redacted where present.
pub open spec fn summary_bind(o: Option<String>) -> BindView {
    match o {
        Some(s) => BindView::Text(stored_summary(s@)),
        None => BindView::Null,
    }
}

/// An optional summary with its secrets redacted; SQL `NULL` where absent.
fn redacted_summary_value(o: &Option<String>) -> (r: SqlValue)
    ensures
        bind_view(r) == summary_bind(*o),
{
    match o {
        Some(s) => SqlValue::Text(redact_secrets(s.as_str())),
        None => SqlValue::Null,
    }
}

/// The statement that appends an operation-log entry. Its time must be one
/// that chrono can write; the three summaries are stored with their secrets
/// redacted.
pub fn insert_operation_plan(entry: &OperationLogEntry) -> (r: Result<SqlQuery, AppError>)
    ensures
        r is Ok <==> utc_rfc3339_text(entry.occurred_at.secs, entry.occurred_at.nanos) is Some,
        match r {
            Ok(p) => p.sql@ == INSERT_OPERATION_SQL@ && binds_view(p.binds@) == seq![
                BindView::Text(entry.operation_id@),
                BindView::Text(
                    utc_rfc3339_text(entry.occurred_at.secs, entry.occurred_at.nanos)->0,
                ),
                optional_text_bind(opt_text(entry.namespace)),
                BindView::Text(actor_kind_label(entry.actor_kind)),
                BindView::Text(entry.actor_id@),
                BindView::Text(entry.entrypoint@),
                BindView::Text(operation_kind_label(entry.operation_kind)),
                BindView::Text(operation_status_label(entry.status)),
                optional_text_bind(opt_text(entry.correlation_id)),
                summary_bind(entry.request_summary_json),
                summary_bind(entry.response_summary_json),
                summary_bind(entry.diagnostic_summary_json),
                BindView::Integer(entry.redaction_version),
            ],
            Err(e) => e is InvalidParams && e.message_view() == out_of_range_message(),
        },
{
    let occurred_at = match timestamp_rfc3339(&entry.occurred_at) {
        Ok(t) => t,
        Err(e) => {
            return Err(e);
        },
    };
    let mut values: Vec<SqlValue> = Vec::new();
    values.push(SqlValue::Text(entry.operation_id.clone()));
    values.push(SqlValue::Text(occurred_at));
    values.push(optional_text_value(&entry.namespace));
    values.push(text_value(entry.actor_kind.as_str()));
    values.push(SqlValue::Text(entry.actor_id.clone()));
    values.push(SqlValue::Text(entry.entrypoint.clone()));
    values.push(text_value(entry.operation_kind.as_str()));
    values.push(text_value(entry.status.as_str()));
    values.push(optional_text_value(&entry.correlation_id));
    values.push(redacted_summary_value(&entry.request_summary_json));
    values.push(redacted_summary_value(&entry.response_summary_json));
    values.push(redacted_summary_value(&entry.diagnostic_summary_json));
    values.push(SqlValue::Integer(entry.redaction_version));
    let p = statement(INSERT_OPERATION_SQL, values);
    proof {
        assert(binds_view(p.binds@) =~= seq![
            BindView::Text(entry.operation_id@),
            BindView::Text(utc_rfc3339_text(entry.occurred_at.secs, entry.occurred_at.nanos)->0),
            optional_text_bind(opt_text(entry.namespace)),
            BindView::Text(actor_kind_label(entry.actor_kind)),
            BindView::Text(entry.actor_id@),
            BindView::Text(entry.entrypoint@),
            BindView::Text(operation_kind_label(entry.operation_kind)),
            BindView::Text(operation_status_label(entry.status)),
            optional_text_bind(opt_text(entry.correlation_id)),
            summary_bind(entry.request_summary_json),
            summary_bind(entry.response_summary_json),
            summary_bind(entry.diagnostic_summary_json),
            BindView::Integer(entry.redaction_version),
        ]);
    }
    Ok(p)
}

} // verus!
