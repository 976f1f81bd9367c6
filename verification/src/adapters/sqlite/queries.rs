//! The statements that the SQLite store sends, with their bound values, and
//! the checks that a query passes before it is sent. Each plan is the exact
//! SQL text and the values bound to its `?` placeholders, in order.
use vstd::prelude::*;

use crate::adapters::sqlite::codec::{event_kind_as_str, event_kind_label, owner_as_str, owner_label};
use crate::domain::error::AppError;
use crate::domain::time::{
    out_of_range_message, sort_key_text, timestamp_rfc3339, timestamp_sort_key, utc_rfc3339_text,
    Timestamp,
};
use crate::adapters::sqlite::codec::{mode_as_str, mode_label};
use crate::domain::time::ts_before;
use crate::domain::event::{EventReference, MAX_EVIDENCE_MANIFEST_ITEMS};
use crate::domain::snapshot::{is_valid_window, SnapshotTimeWindow};
use crate::domain::types::{opt_namespace, MemoryScope, Namespace, Owner};
use crate::ports::{
    claim_status_label, ClaimRecordQuery, ClaimReflectionHistoryQuery, EventRecordQuery, EvidenceQuery,
    OperationLogQuery, MAX_EVENT_RECORD_QUERY_LIMIT,
};
use crate::text::decimal_string;
use crate::text::decimal;
use crate::seqs::texts;
use crate::text::{join_strings, join_texts, owned};

verus! {

/// A value bound to a placeholder.
#[derive(Debug, Clone, PartialEq, Eq)]
pub enum SqlValue {
    Text(String),
    Integer(i64),
    Null,
}

/// A bound value as a plain value.
pub enum BindView {
    Text(Seq<char>),
    Integer(i64),
    Null,
}

/// The plain value of a bound value.
pub open spec fn bind_view(v: SqlValue) -> BindView {
    match v {
        SqlValue::Text(s) => BindView::Text(s@),
        SqlValue::Integer(i) => BindView::Integer(i),
        SqlValue::Null => BindView::Null,
    }
}

/// The plain values of a list of bound values.
pub open spec fn binds_view(s: Seq<SqlValue>) -> Seq<BindView> {
    s.map_values(|v: SqlValue| bind_view(v))
}

/// A statement and the values bound to its placeholders, in order.
#[derive(Debug, Clone, PartialEq, Eq)]
pub struct SqlQuery {
    pub sql: String,
    pub binds: Vec<SqlValue>,
}

/// A statement under construction.
pub struct SqlBuilder {
    pub sql: String,
    pub binds: Vec<SqlValue>,
}

impl SqlBuilder {
    /// A statement that starts with `head` and binds nothing yet.
    pub fn new(head: &str) -> (r: SqlBuilder)
        ensures
            r.sql@ == head@,
            r.binds@.len() == 0,
    {
        SqlBuilder { sql: owned(head), binds: Vec::new() }
    }

    /// Appends SQL text.
    pub fn push(&mut self, text: &str)
        ensures
            final(self).sql@ == old(self).sql@ + text@,
            final(self).binds@ == old(self).binds@,
    {
        self.sql.append(text);
    }

    /// Appends a placeholder bound to `value`.
    pub fn push_bind(&mut self, value: SqlValue)
        ensures
            final(self).sql@ == old(self).sql@ + "?"@,
            final(self).binds@ == old(self).binds@.push(value),
    {
        self.sql.append("?");
        self.binds.push(value);
    }

    /// The finished statement.
    pub fn build(self) -> (r: SqlQuery)
        ensures
            r.sql == self.sql,
            r.binds == self.binds,
    {
        SqlQuery { sql: self.sql, binds: self.binds }
    }
}

/// The SQL expression that turns the RFC 3339 text in `column` into a key
/// that orders instants: the UTC date and time to the second, a `.`, and the
/// fraction of the second padded or cut to nine digits.
pub open spec fn sort_key_expr(column: Seq<char>) -> Seq<char> {
    "strftime('%Y-%m-%dT%H:%M:%S', substr("@ + column + ", 1, 19) || CASE WHEN upper(substr("@
        + column + ", -1)) = 'Z' THEN 'Z' ELSE substr("@ + column
        + ", -6) END) || '.' || CASE WHEN substr("@ + column + ", 20, 1) = '.' THEN substr(substr("@
        + column + ", 21, length("@ + column + ") - 20 - CASE WHEN upper(substr("@ + column
        + ", -1)) = 'Z' THEN 1 ELSE 6 END) || '000000000', 1, 9) ELSE '000000000' END"@
}

/// The SQL expression that orders the instants stored in `column`.
pub fn sqlite_rfc3339_sort_key(column: &str) -> (r: String)
    ensures
        r@ == sort_key_expr(column@),
{
    let mut r = owned("strftime('%Y-%m-%dT%H:%M:%S', substr(");
    r.append(column);
    r.append(", 1, 19) || CASE WHEN upper(substr(");
    r.append(column);
    r.append(", -1)) = 'Z' THEN 'Z' ELSE substr(");
    r.append(column);
    r.append(", -6) END) || '.' || CASE WHEN substr(");
    r.append(column);
    r.append(", 20, 1) = '.' THEN substr(substr(");
    r.append(column);
    r.append(", 21, length(");
    r.append(column);
    r.append(") - 20 - CASE WHEN upper(substr(");
    r.append(column);
    r.append(", -1)) = 'Z' THEN 1 ELSE 6 END) || '000000000', 1, 9) ELSE '000000000' END");
    r
}

/// Every instant that a window names has a sort key.
pub open spec fn keys_exist(after: Option<Timestamp>, before: Option<Timestamp>) -> bool {
    &&& (after matches Some(t) ==> sort_key_text(t) is Some)
    &&& (before matches Some(t) ==> sort_key_text(t) is Some)
}

/// The sort key of an instant that has one.
pub open spec fn key_of(t: Timestamp) -> Seq<char> {
    sort_key_text(t)->0
}

/// `items` where `present` holds, nothing otherwise.
pub open spec fn when<A>(present: bool, items: Seq<A>) -> Seq<A> {
    if present {
        items
    } else {
        Seq::empty()
    }
}

/// The filters of an evidence query, in the order that they are written.
pub open spec fn evidence_predicates(q: EvidenceQuery) -> Seq<Seq<char>> {
    let key = sort_key_expr("recorded_at"@);
    when(q.namespace is Some, seq!["namespace = ?"@]) + when(q.owner is Some, seq!["owner = ?"@])
        + when(q.kind is Some, seq!["kind = ?"@]) + when(
        q.recorded_after is Some,
        seq![key + " >= ?"@],
    ) + when(q.recorded_before is Some, seq![key + " <= ?"@]) + when(
        q.event_id_prefix is Some,
        seq!["event_id LIKE ? || '%'"@],
    )
}

/// The limit that an evidence query applies: its own, else the default.
pub open spec fn effective_limit(q: EvidenceQuery, default_limit: Option<usize>) -> Option<usize> {
    match q.limit {
        Some(l) => Some(l),
        None => default_limit,
    }
}

/// The statement of an evidence query: the ids of the events that pass its
/// filters, latest first.
pub open spec fn evidence_sql(q: EvidenceQuery, default_limit: Option<usize>) -> Seq<char> {
    let preds = evidence_predicates(q);
    "SELECT event_id, recorded_at, owner, kind, summary FROM events"@ + (if preds.len() > 0 {
        " WHERE "@ + join_texts(preds, " AND "@)
    } else {
        ""@
    }) + " ORDER BY "@ + sort_key_expr("recorded_at"@) + " DESC, rowid DESC"@ + (if effective_limit(
        q,
        default_limit,
    ) is Some {
        " LIMIT ?"@
    } else {
        ""@
    })
}

/// The values that an evidence query binds, in the order of its filters.
pub open spec fn evidence_binds(q: EvidenceQuery, default_limit: Option<usize>) -> Seq<BindView> {
    when(q.namespace is Some, seq![BindView::Text(q.namespace->0@)]) + when(
        q.owner is Some,
        seq![BindView::Text(owner_label(q.owner->0))],
    ) + when(q.kind is Some, seq![BindView::Text(event_kind_label(q.kind->0))]) + when(
        q.recorded_after is Some,
        seq![BindView::Text(key_of(q.recorded_after->0))],
    ) + when(q.recorded_before is Some, seq![BindView::Text(key_of(q.recorded_before->0))])
        + when(q.event_id_prefix is Some, seq![BindView::Text(q.event_id_prefix->0@)]) + when(
        effective_limit(q, default_limit) is Some,
        seq![BindView::Integer(effective_limit(q, default_limit)->0 as i64)],
    )
}

/// The limit fits the store's integers.
pub open spec fn limit_fits(limit: Option<usize>) -> bool {
    limit matches Some(l) ==> l <= i64::MAX
}

/// Appends `item` where `present` holds.
fn push_when(items: &mut Vec<String>, present: bool, item: &str)
    ensures
        texts(final(items)@) == texts(old(items)@) + when(present, seq![item@]),
{
    let ghost before = items@;
    if present {
        items.push(owned(item));
        assert(texts(items@) =~= texts(before) + seq![item@]);
    } else {
        assert(texts(items@) =~= texts(before) + Seq::<Seq<char>>::empty());
    }
}

/// Appends a bound value where there is one.
fn push_bind_when(binds: &mut Vec<SqlValue>, value: Option<SqlValue>)
    ensures
        binds_view(final(binds)@) == binds_view(old(binds)@) + match value {
            Some(v) => seq![bind_view(v)],
            None => Seq::empty(),
        },
{
    let ghost before = binds@;
    match value {
        Some(v) => {
            binds.push(v);
            assert(binds_view(binds@) =~= binds_view(before) + seq![bind_view(v)]);
        },
        None => {
            assert(binds_view(binds@) =~= binds_view(before) + Seq::<BindView>::empty());
        },
    }
}

/// The sort key of an optional instant, bound as text.
fn optional_sort_key(t: Option<Timestamp>) -> (r: Result<Option<SqlValue>, AppError>)
    ensures
        match t {
            None => r == Ok::<Option<SqlValue>, AppError>(None),
            Some(x) => match sort_key_text(x) {
                Some(k) => (r matches Ok(Some(v)) && bind_view(v) == BindView::Text(k)),
                None => (r matches Err(e) && e is InvalidParams && e.message_view()
                    == out_of_range_message()),
            },
        },
{
    match t {
        Some(x) => match timestamp_sort_key(&x) {
            Ok(k) => Ok(Some(SqlValue::Text(k))),
            Err(e) => Err(e),
        },
        None => Ok(None),
    }
}

/// The bound values of an evidence query, around the sort keys and the limit
/// that were computed for it.
pub open spec fn evidence_values_view(
    q: EvidenceQuery,
    after: Option<SqlValue>,
    before: Option<SqlValue>,
    limit: Option<SqlValue>,
) -> Seq<BindView> {
    when(q.namespace is Some, seq![BindView::Text(q.namespace->0@)]) + when(
        q.owner is Some,
        seq![BindView::Text(owner_label(q.owner->0))],
    ) + when(q.kind is Some, seq![BindView::Text(event_kind_label(q.kind->0))]) + when(
        after is Some,
        seq![bind_view(after->0)],
    ) + when(before is Some, seq![bind_view(before->0)]) + when(
        q.event_id_prefix is Some,
        seq![BindView::Text(q.event_id_prefix->0@)],
    ) + when(limit is Some, seq![bind_view(limit->0)])
}

/// The statement of an evidence query, with or without a limit.
fn evidence_statement(query: &EvidenceQuery, has_limit: bool) -> (r: String)
    ensures
        r@ == "SELECT event_id, recorded_at, owner, kind, summary FROM events"@ + (if evidence_predicates(
            *query,
        ).len() > 0 {
            " WHERE "@ + join_texts(evidence_predicates(*query), " AND "@)
        } else {
            ""@
        }) + " ORDER BY "@ + sort_key_expr("recorded_at"@) + " DESC, rowid DESC"@ + (if has_limit {
            " LIMIT ?"@
        } else {
            ""@
        }),
{
    let key = sqlite_rfc3339_sort_key("recorded_at");
    let mut after_pred = key.clone();
    after_pred.append(" >= ?");
    let mut before_pred = key.clone();
    before_pred.append(" <= ?");
    let mut preds: Vec<String> = Vec::new();
    proof {
        assert(texts(preds@) =~= Seq::<Seq<char>>::empty());
    }
    push_when(&mut preds, query.namespace.is_some(), "namespace = ?");
    push_when(&mut preds, query.owner.is_some(), "owner = ?");
    push_when(&mut preds, query.kind.is_some(), "kind = ?");
    push_when(&mut preds, query.recorded_after.is_some(), after_pred.as_str());
    push_when(&mut preds, query.recorded_before.is_some(), before_pred.as_str());
    push_when(&mut preds, query.event_id_prefix.is_some(), "event_id LIKE ? || '%'");
    proof {
        assert(texts(preds@) =~= evidence_predicates(*query));
        reveal_strlit("");
    }
    let mut sql = owned("SELECT event_id, recorded_at, owner, kind, summary FROM events");
    if preds.len() > 0 {
        sql.append(" WHERE ");
        sql.append(join_strings(&preds, " AND ").as_str());
    } else {
        assert(sql@ + ""@ =~= sql@);
    }
    sql.append(" ORDER BY ");
    sql.append(key.as_str());
    sql.append(" DESC, rowid DESC");
    if has_limit {
        sql.append(" LIMIT ?");
    } else {
        assert(sql@ + ""@ =~= sql@);
    }
    sql
}

/// The bound values of an evidence query.
fn evidence_values(
    query: &EvidenceQuery,
    after: Option<SqlValue>,
    before: Option<SqlValue>,
    limit: Option<SqlValue>,
) -> (r: Vec<SqlValue>)
    ensures
        binds_view(r@) == evidence_values_view(*query, after, before, limit),
{
    let mut binds: Vec<SqlValue> = Vec::new();
    proof {
        assert(binds_view(binds@) =~= Seq::<BindView>::empty());
    }
    push_bind_when(
        &mut binds,
        match &query.namespace {
            Some(ns) => Some(SqlValue::Text(owned(ns.as_str()))),
            None => None,
        },
    );
    push_bind_when(
        &mut binds,
        match query.owner {
            Some(o) => Some(SqlValue::Text(owned(owner_as_str(o)))),
            None => None,
        },
    );
    push_bind_when(
        &mut binds,
        match query.kind {
            Some(k) => Some(SqlValue::Text(owned(event_kind_as_str(k)))),
            None => None,
        },
    );
    push_bind_when(&mut binds, after);
    push_bind_when(&mut binds, before);
    push_bind_when(
        &mut binds,
        match &query.event_id_prefix {
            Some(p) => Some(SqlValue::Text(p.clone())),
            None => None,
        },
    );
    push_bind_when(&mut binds, limit);
    proof {
        assert(binds_view(binds@) =~= evidence_values_view(*query, after, before, limit));
    }
    binds
}

/// How many events an evidence query reads when it names no limit and the
/// caller asks for a bounded read.
pub const DEFAULT_EVIDENCE_QUERY_LIMIT: usize = 10;

/// The statement of an evidence query and its bound values. A limit of 0 is
/// refused; where the query sets no limit, `default_limit` applies.
pub fn evidence_query_plan(query: &EvidenceQuery, default_limit: Option<usize>) -> (r: Result<
    SqlQuery,
    AppError,
>)
    ensures
        r is Ok <==> (query.limit != Some(0usize) && keys_exist(
            query.recorded_after,
            query.recorded_before,
        ) && limit_fits(effective_limit(*query, default_limit))),
        match r {
            Ok(p) => p.sql@ == evidence_sql(*query, default_limit) && binds_view(p.binds@)
                == evidence_binds(*query, default_limit),
            Err(e) => e is InvalidParams && e.message_view() == (if query.limit == Some(0usize) {
                "evidence query limit must be at least 1"@
            } else if !keys_exist(query.recorded_after, query.recorded_before) {
                out_of_range_message()
            } else {
                "evidence query limit exceeds the supported maximum"@
            }),
        },
{
    if query.limit == Some(0usize) {
        return Err(AppError::invalid("evidence query limit must be at least 1"));
    }
    let after = match optional_sort_key(query.recorded_after) {
        Ok(v) => v,
        Err(e) => {
            return Err(e);
        },
    };
    let before = match optional_sort_key(query.recorded_before) {
        Ok(v) => v,
        Err(e) => {
            return Err(e);
        },
    };
    let limit: Option<usize> = match query.limit {
        Some(l) => Some(l),
        None => default_limit,
    };
    let limit_value: Option<SqlValue> = match limit {
        Some(l) => {
            if l as u64 > i64::MAX as u64 {
                return Err(AppError::invalid("evidence query limit exceeds the supported maximum"));
            }
            Some(SqlValue::Integer(l as i64))
        },
        None => None,
    };
    let sql = evidence_statement(query, limit.is_some());
    let binds = evidence_values(query, after, before, limit_value);
    proof {
        assert(evidence_values_view(*query, after, before, limit_value) =~= evidence_binds(
            *query,
            default_limit,
        ));
    }
    Ok(SqlQuery { sql, binds })
}


/// The filters of an operation-log query, in the order that they are
/// written.
pub open spec fn operation_predicates(q: OperationLogQuery) -> Seq<Seq<char>> {
    when(q.operation_id is Some, seq!["operation_id = ?"@]) + when(
        q.namespace is Some,
        seq!["namespace = ?"@],
    ) + when(q.operation_kind is Some, seq!["operation_kind = ?"@]) + when(
        q.status is Some,
        seq!["status = ?"@],
    ) + when(q.correlation_id is Some, seq!["correlation_id = ?"@]) + when(
        q.after is Some,
        seq!["occurred_at > ?"@],
    ) + when(q.before is Some, seq!["occurred_at < ?"@])
}

/// The statement of an operation-log query: the entries that pass its
/// filters, latest first, ties broken by operation id.
pub open spec fn operation_sql(q: OperationLogQuery) -> Seq<char> {
    let preds = operation_predicates(q);
    "SELECT operation_id, occurred_at, namespace, actor_kind, actor_id, entrypoint, operation_kind, status, correlation_id, request_summary_json, response_summary_json, diagnostic_summary_json, redaction_version FROM operation_log"@
        + (if preds.len() > 0 {
        " WHERE "@ + join_texts(preds, " AND "@)
    } else {
        ""@
    }) + " ORDER BY occurred_at DESC, operation_id DESC"@ + (if q.limit is Some {
        " LIMIT ?"@
    } else {
        ""@
    })
}

/// Every instant that an operation-log query names has an RFC 3339 text.
pub open spec fn operation_times_exist(q: OperationLogQuery) -> bool {
    &&& (q.after matches Some(t) ==> utc_rfc3339_text(t.secs, t.nanos) is Some)
    &&& (q.before matches Some(t) ==> utc_rfc3339_text(t.secs, t.nanos) is Some)
}

/// The values that an operation-log query binds, in the order of its
/// filters; instants are bound as their RFC 3339 text.
pub open spec fn operation_binds(q: OperationLogQuery) -> Seq<BindView> {
    when(q.operation_id is Some, seq![BindView::Text(q.operation_id->0@)]) + when(
        q.namespace is Some,
        seq![BindView::Text(q.namespace->0@)],
    ) + when(q.operation_kind is Some, seq![BindView::Text(q.operation_kind->0@)]) + when(
        q.status is Some,
        seq![BindView::Text(q.status->0@)],
    ) + when(q.correlation_id is Some, seq![BindView::Text(q.correlation_id->0@)]) + when(
        q.after is Some,
        seq![BindView::Text(utc_rfc3339_text(q.after->0.secs, q.after->0.nanos)->0)],
    ) + when(
        q.before is Some,
        seq![BindView::Text(utc_rfc3339_text(q.before->0.secs, q.before->0.nanos)->0)],
    ) + when(q.limit is Some, seq![BindView::Integer(q.limit->0 as i64)])
}

/// The statement of an operation-log query.
fn operation_statement(query: &OperationLogQuery) -> (r: String)
    ensures
        r@ == operation_sql(*query),
{
    let mut preds: Vec<String> = Vec::new();
    proof {
        assert(texts(preds@) =~= Seq::<Seq<char>>::empty());
    }
    push_when(&mut preds, query.operation_id.is_some(), "operation_id = ?");
    push_when(&mut preds, query.namespace.is_some(), "namespace = ?");
    push_when(&mut preds, query.operation_kind.is_some(), "operation_kind = ?");
    push_when(&mut preds, query.status.is_some(), "status = ?");
    push_when(&mut preds, query.correlation_id.is_some(), "correlation_id = ?");
    push_when(&mut preds, query.after.is_some(), "occurred_at > ?");
    push_when(&mut preds, query.before.is_some(), "occurred_at < ?");
    proof {
        assert(texts(preds@) =~= operation_predicates(*query));
        reveal_strlit("");
    }
    let mut sql = owned(
        "SELECT operation_id, occurred_at, namespace, actor_kind, actor_id, entrypoint, operation_kind, status, correlation_id, request_summary_json, response_summary_json, diagnostic_summary_json, redaction_version FROM operation_log",
    );
    if preds.len() > 0 {
        sql.append(" WHERE ");
        sql.append(join_strings(&preds, " AND ").as_str());
    } else {
        assert(sql@ + ""@ =~= sql@);
    }
    sql.append(" ORDER BY occurred_at DESC, operation_id DESC");
    if query.limit.is_some() {
        sql.append(" LIMIT ?");
    } else {
        assert(sql@ + ""@ =~= sql@);
    }
    sql
}

/// An optional text, bound as text where present.
fn optional_text(t: &Option<String>) -> (r: Option<SqlValue>)
    ensures
        match t {
            Some(s) => (r matches Some(v) && bind_view(v) == BindView::Text(s@)),
            None => r is None,
        },
{
    match t {
        Some(s) => Some(SqlValue::Text(s.clone())),
        None => None,
    }
}

/// The RFC 3339 text of an optional instant, bound as text.
fn optional_rfc3339(t: Option<Timestamp>) -> (r: Result<Option<SqlValue>, AppError>)
    ensures
        match t {
            None => r == Ok::<Option<SqlValue>, AppError>(None),
            Some(x) => match utc_rfc3339_text(x.secs, x.nanos) {
                Some(k) => (r matches Ok(Some(v)) && bind_view(v) == BindView::Text(k)),
                None => (r matches Err(e) && e is InvalidParams && e.message_view()
                    == out_of_range_message()),
            },
        },
{
    match t {
        Some(x) => match timestamp_rfc3339(&x) {
            Ok(k) => Ok(Some(SqlValue::Text(k))),
            Err(e) => Err(e),
        },
        None => Ok(None),
    }
}

/// The statement of an operation-log query and its bound values.
pub fn operation_log_query_plan(query: &OperationLogQuery) -> (r: Result<SqlQuery, AppError>)
    ensures
        r is Ok <==> (operation_times_exist(*query) && limit_fits(query.limit)),
        match r {
            Ok(p) => p.sql@ == operation_sql(*query) && binds_view(p.binds@) == operation_binds(
                *query,
            ),
            Err(e) => e is InvalidParams && e.message_view() == (if !operation_times_exist(
                *query,
            ) {
                out_of_range_message()
            } else {
                "operation log query limit exceeds the supported maximum"@
            }),
        },
{
    let after = match optional_rfc3339(query.after) {
        Ok(v) => v,
        Err(e) => {
            return Err(e);
        },
    };
    let before = match optional_rfc3339(query.before) {
        Ok(v) => v,
        Err(e) => {
            return Err(e);
        },
    };
    let limit_value: Option<SqlValue> = match query.limit {
        Some(l) => {
            if l as u64 > i64::MAX as u64 {
                return Err(
                    AppError::invalid("operation log query limit exceeds the supported maximum"),
                );
            }
            Some(SqlValue::Integer(l as i64))
        },
        None => None,
    };
    let sql = operation_statement(query);
    let mut binds: Vec<SqlValue> = Vec::new();
    let ghost b0 = binds_view(binds@);
    push_bind_when(&mut binds, optional_text(&query.operation_id));
    push_bind_when(&mut binds, optional_text(&query.namespace));
    push_bind_when(&mut binds, optional_text(&query.operation_kind));
    push_bind_when(&mut binds, optional_text(&query.status));
    push_bind_when(&mut binds, optional_text(&query.correlation_id));
    push_bind_when(&mut binds, after);
    push_bind_when(&mut binds, before);
    push_bind_when(&mut binds, limit_value);
    proof {
        assert(b0 =~= Seq::<BindView>::empty());
        assert(binds_view(binds@) =~= operation_binds(*query));
    }
    Ok(SqlQuery { sql, binds })
}


/// Why a scoped record query is refused, naming the query as `what`: it
/// needs an explicit scope and a limit from 1 to the maximum.
pub open spec fn record_query_rejection(
    scope: MemoryScope,
    limit: usize,
    what: Seq<char>,
) -> Option<Seq<char>> {
    if !(scope.spec_owner() is Some && scope.spec_namespace() is Some) {
        Some(what + " requires an explicit namespace"@)
    } else if limit == 0 {
        Some(what + " limit must be at least 1"@)
    } else if limit > MAX_EVENT_RECORD_QUERY_LIMIT {
        Some(what + " limit must be at most "@ + decimal(MAX_EVENT_RECORD_QUERY_LIMIT as nat))
    } else {
        None
    }
}

/// Checks the scope and the limit of a scoped record query.
pub fn validate_record_query(scope: &MemoryScope, limit: usize, what: &str) -> (r: Result<
    (),
    AppError,
>)
    ensures
        match record_query_rejection(*scope, limit, what@) {
            None => r is Ok,
            Some(m) => (r matches Err(e) && e is InvalidParams && e.message_view() == m),
        },
{
    if !scope.is_explicitly_scoped() {
        let mut m = owned(what);
        m.append(" requires an explicit namespace");
        return Err(AppError::InvalidParams(m));
    }
    if limit == 0 {
        let mut m = owned(what);
        m.append(" limit must be at least 1");
        return Err(AppError::InvalidParams(m));
    }
    if limit > MAX_EVENT_RECORD_QUERY_LIMIT {
        let mut m = owned(what);
        m.append(" limit must be at most ");
        m.append(decimal_string(MAX_EVENT_RECORD_QUERY_LIMIT).as_str());
        return Err(AppError::InvalidParams(m));
    }
    Ok(())
}

/// The message for a time window whose lower bound is later than its upper.
pub open spec fn inverted_window_message() -> Seq<char> {
    "recorded_after must be less than or equal to recorded_before"@
}

/// Why an event record query is refused, if it is.
pub open spec fn event_record_rejection(q: EventRecordQuery) -> Option<Seq<char>> {
    match record_query_rejection(q.scope, q.limit, "event record query"@) {
        Some(m) => Some(m),
        None => if q.recorded_after is Some && q.recorded_before is Some && ts_before(
            q.recorded_before->0,
            q.recorded_after->0,
        ) {
            Some(inverted_window_message())
        } else if !keys_exist(q.recorded_after, q.recorded_before) {
            Some(out_of_range_message())
        } else {
            None
        },
    }
}

/// The statement of an event record query: the events of its scope that
/// pass its filters, latest first, up to its limit.
pub open spec fn event_record_sql(q: EventRecordQuery) -> Seq<char> {
    let key = sort_key_expr("recorded_at"@);
    "SELECT event_id, recorded_at, owner, namespace, kind, summary FROM events WHERE owner = "@
        + "?"@ + " AND namespace = "@ + "?"@ + (if q.event_reference is Some {
        " AND event_id = "@ + "?"@
    } else {
        ""@
    }) + (if q.kind is Some {
        " AND kind = "@ + "?"@
    } else {
        ""@
    }) + (if q.recorded_after is Some {
        " AND "@ + key + " >= "@ + "?"@
    } else {
        ""@
    }) + (if q.recorded_before is Some {
        " AND "@ + key + " <= "@ + "?"@
    } else {
        ""@
    }) + " ORDER BY "@ + key + " DESC, rowid DESC LIMIT "@ + "?"@
}

/// The values that an event record query binds.
pub open spec fn event_record_binds(q: EventRecordQuery) -> Seq<BindView> {
    seq![
        BindView::Text(owner_label(q.scope.spec_owner()->0)),
        BindView::Text(q.scope.spec_namespace()->0),
    ] + when(q.event_reference is Some, seq![BindView::Text(q.event_reference->0@)]) + when(
        q.kind is Some,
        seq![BindView::Text(event_kind_label(q.kind->0))],
    ) + when(q.recorded_after is Some, seq![BindView::Text(key_of(q.recorded_after->0))]) + when(
        q.recorded_before is Some,
        seq![BindView::Text(key_of(q.recorded_before->0))],
    ) + seq![BindView::Integer(q.limit as i64)]
}

/// Appends ` AND <text>` and a bound value where there is one.
fn push_filter(b: &mut SqlBuilder, text: &str, value: Option<SqlValue>)
    ensures
        final(b).sql@ == old(b).sql@ + (if value is Some {
            text@ + "?"@
        } else {
            ""@
        }),
        binds_view(final(b).binds@) == binds_view(old(b).binds@) + when(
            value is Some,
            seq![bind_view(value->0)],
        ),
{
    let ghost before = b.binds@;
    proof {
        reveal_strlit("");
    }
    match value {
        Some(v) => {
            b.push(text);
            b.push_bind(v);
            assert(binds_view(b.binds@) =~= binds_view(before) + seq![bind_view(v)]);
        },
        None => {
            assert(b.sql@ + ""@ =~= b.sql@);
            assert(binds_view(b.binds@) =~= binds_view(before) + Seq::<BindView>::empty());
        },
    }
}

/// The statement of an event record query and its bound values, after the
/// query's checks.
pub fn event_record_query_plan(query: &EventRecordQuery) -> (r: Result<SqlQuery, AppError>)
    ensures
        match event_record_rejection(*query) {
            None => (r matches Ok(p) && p.sql@ == event_record_sql(*query) && binds_view(p.binds@)
                == event_record_binds(*query)),
            Some(m) => (r matches Err(e) && e is InvalidParams && e.message_view() == m),
        },
{
    match validate_record_query(&query.scope, query.limit, "event record query") {
        Ok(()) => {},
        Err(e) => {
            return Err(e);
        },
    }
    match (&query.recorded_after, &query.recorded_before) {
        (Some(after), Some(before)) => {
            if before.is_before(after) {
                return Err(
                    AppError::invalid(
                        "recorded_after must be less than or equal to recorded_before",
                    ),
                );
            }
        },
        _ => {},
    }
    let after = match optional_sort_key(query.recorded_after) {
        Ok(v) => v,
        Err(e) => {
            return Err(e);
        },
    };
    let before = match optional_sort_key(query.recorded_before) {
        Ok(v) => v,
        Err(e) => {
            return Err(e);
        },
    };
    let (owner, namespace) = match (query.scope.owner(), query.scope.namespace()) {
        (Some(o), Some(n)) => (o, n),
        _ => {
            return Err(AppError::invalid("event record query requires an explicit namespace"));
        },
    };
    let key = sqlite_rfc3339_sort_key("recorded_at");
    let mut after_filter = owned(" AND ");
    after_filter.append(key.as_str());
    after_filter.append(" >= ");
    let mut before_filter = owned(" AND ");
    before_filter.append(key.as_str());
    before_filter.append(" <= ");
    let mut b = SqlBuilder::new(
        "SELECT event_id, recorded_at, owner, namespace, kind, summary FROM events WHERE owner = ",
    );
    b.push_bind(SqlValue::Text(owned(owner_as_str(owner))));
    b.push(" AND namespace = ");
    b.push_bind(SqlValue::Text(owned(namespace.as_str())));
    let ghost head_binds = binds_view(b.binds@);
    push_filter(
        &mut b,
        " AND event_id = ",
        match &query.event_reference {
            Some(reference) => Some(SqlValue::Text(owned(reference.event_id()))),
            None => None,
        },
    );
    push_filter(
        &mut b,
        " AND kind = ",
        match query.kind {
            Some(k) => Some(SqlValue::Text(owned(event_kind_as_str(k)))),
            None => None,
        },
    );
    push_filter(&mut b, after_filter.as_str(), after);
    push_filter(&mut b, before_filter.as_str(), before);
    b.push(" ORDER BY ");
    b.push(key.as_str());
    b.push(" DESC, rowid DESC LIMIT ");
    let ghost before_limit = b.binds@;
    b.push_bind(SqlValue::Integer(query.limit as i64));
    proof {
        assert(binds_view(b.binds@) =~= binds_view(before_limit).push(
            BindView::Integer(query.limit as i64),
        ));
        assert(head_binds =~= seq![
            BindView::Text(owner_label(query.scope.spec_owner()->0)),
            BindView::Text(query.scope.spec_namespace()->0),
        ]);
        assert(binds_view(b.binds@) =~= event_record_binds(*query));
        assert(b.sql@ =~= event_record_sql(*query));
    }
    Ok(b.build())
}


/// The statement of a claim record query: the claims of its scope that pass
/// its filters, by claim id, up to its limit.
pub open spec fn claim_record_sql(q: ClaimRecordQuery) -> Seq<char> {
    "SELECT claim_id, owner, namespace, subject, predicate, object, mode, status FROM claims WHERE owner = "@
        + "?"@ + " AND namespace = "@ + "?"@ + (if q.claim_reference is Some {
        " AND claim_id = "@ + "?"@
    } else {
        ""@
    }) + (if q.status is Some {
        " AND status = "@ + "?"@
    } else {
        ""@
    }) + (if q.mode is Some {
        " AND mode = "@ + "?"@
    } else {
        ""@
    }) + " ORDER BY claim_id ASC LIMIT "@ + "?"@
}

/// The values that a claim record query binds.
pub open spec fn claim_record_binds(q: ClaimRecordQuery) -> Seq<BindView> {
    seq![
        BindView::Text(owner_label(q.scope.spec_owner()->0)),
        BindView::Text(q.scope.spec_namespace()->0),
    ] + when(q.claim_reference is Some, seq![BindView::Text(q.claim_reference->0@)]) + when(
        q.status is Some,
        seq![BindView::Text(claim_status_label(q.status->0))],
    ) + when(q.mode is Some, seq![BindView::Text(mode_label(q.mode->0))]) + seq![
        BindView::Integer(q.limit as i64),
    ]
}

/// The statement of a claim record query and its bound values, after the
/// query's checks.
pub fn claim_record_query_plan(query: &ClaimRecordQuery) -> (r: Result<SqlQuery, AppError>)
    ensures
        match record_query_rejection(query.scope, query.limit, "claim record query"@) {
            None => (r matches Ok(p) && p.sql@ == claim_record_sql(*query) && binds_view(p.binds@)
                == claim_record_binds(*query)),
            Some(m) => (r matches Err(e) && e is InvalidParams && e.message_view() == m),
        },
{
    match validate_record_query(&query.scope, query.limit, "claim record query") {
        Ok(()) => {},
        Err(e) => {
            return Err(e);
        },
    }
    let (owner, namespace) = match (query.scope.owner(), query.scope.namespace()) {
        (Some(o), Some(n)) => (o, n),
        _ => {
            return Err(AppError::invalid("claim record query requires an explicit namespace"));
        },
    };
    let mut b = SqlBuilder::new(
        "SELECT claim_id, owner, namespace, subject, predicate, object, mode, status FROM claims WHERE owner = ",
    );
    b.push_bind(SqlValue::Text(owned(owner_as_str(owner))));
    b.push(" AND namespace = ");
    b.push_bind(SqlValue::Text(owned(namespace.as_str())));
    let ghost head_binds = binds_view(b.binds@);
    push_filter(
        &mut b,
        " AND claim_id = ",
        match &query.claim_reference {
            Some(reference) => Some(SqlValue::Text(owned(reference.claim_id()))),
            None => None,
        },
    );
    push_filter(
        &mut b,
        " AND status = ",
        match query.status {
            Some(st) => Some(SqlValue::Text(owned(st.as_str()))),
            None => None,
        },
    );
    push_filter(
        &mut b,
        " AND mode = ",
        match query.mode {
            Some(m) => Some(SqlValue::Text(owned(mode_as_str(m)))),
            None => None,
        },
    );
    b.push(" ORDER BY claim_id ASC LIMIT ");
    let ghost before_limit = b.binds@;
    b.push_bind(SqlValue::Integer(query.limit as i64));
    proof {
        assert(binds_view(b.binds@) =~= binds_view(before_limit).push(
            BindView::Integer(query.limit as i64),
        ));
        assert(head_binds =~= seq![
            BindView::Text(owner_label(query.scope.spec_owner()->0)),
            BindView::Text(query.scope.spec_namespace()->0),
        ]);
        assert(binds_view(b.binds@) =~= claim_record_binds(*query));
        assert(b.sql@ =~= claim_record_sql(*query));
    }
    Ok(b.build())
}

/// The text of the reflection-history statement before its first bound
/// value: the reflections whose superseded claim lies in the scope.
pub open spec fn history_head() -> Seq<char> {
    "WITH RECURSIVE scoped_edges AS (SELECT r.rowid AS reflection_rowid, r.reflection_id, r.recorded_at, r.summary, r.superseded_claim_id, r.replacement_claim_id, r.supporting_evidence_event_ids FROM reflections r JOIN claims superseded ON superseded.claim_id = r.superseded_claim_id LEFT JOIN claims replacement ON replacement.claim_id = r.replacement_claim_id WHERE superseded.owner = "@
}

/// The part of the reflection-history statement that walks from the claim
/// to every claim that a scoped reflection links to it, and selects the
/// reflections on that walk.
pub open spec fn history_walk() -> Seq<char> {
    " UNION SELECT edge.replacement_claim_id FROM scoped_edges edge JOIN reachable_claims reachable ON edge.superseded_claim_id = reachable.claim_id WHERE edge.replacement_claim_id IS NOT NULL UNION SELECT edge.superseded_claim_id FROM scoped_edges edge JOIN reachable_claims reachable ON edge.replacement_claim_id = reachable.claim_id) SELECT edge.reflection_rowid, edge.reflection_id, edge.recorded_at, edge.summary, edge.superseded_claim_id, edge.replacement_claim_id, edge.supporting_evidence_event_ids FROM scoped_edges edge WHERE edge.superseded_claim_id IN (SELECT claim_id FROM reachable_claims) OR edge.replacement_claim_id IN (SELECT claim_id FROM reachable_claims) ORDER BY "@
}

/// The statement of a claim's reflection history: the reflections of the
/// scope that supersede or introduce a claim connected to it, latest first,
/// one more than the page so that the caller learns whether more follow.
/// A reflection whose replacement claim lies outside the scope is left out
/// entirely.
pub open spec fn history_sql() -> Seq<char> {
    history_head() + "?"@ + " AND superseded.namespace = "@ + "?"@
        + " AND (r.replacement_claim_id IS NULL OR (replacement.owner = "@ + "?"@
        + " AND replacement.namespace = "@ + "?"@
        + "))), reachable_claims(claim_id) AS (SELECT claim_id FROM claims WHERE claim_id = "@
        + "?"@ + " AND owner = "@ + "?"@ + " AND namespace = "@ + "?"@ + history_walk()
        + sort_key_expr("edge.recorded_at"@) + " DESC, edge.reflection_rowid DESC LIMIT "@ + "?"@
}

/// The values that the reflection-history statement binds.
pub open spec fn history_binds(q: ClaimReflectionHistoryQuery) -> Seq<BindView> {
    let owner = BindView::Text(owner_label(q.scope.spec_owner()->0));
    let ns = BindView::Text(q.scope.spec_namespace()->0);
    seq![
        owner,
        ns,
        owner,
        ns,
        BindView::Text(q.claim_reference@),
        owner,
        ns,
        BindView::Integer((q.limit + 1) as i64),
    ]
}

/// The statement of a claim's reflection history and its bound values, after
/// the query's checks.
pub fn claim_reflection_history_plan(query: &ClaimReflectionHistoryQuery) -> (r: Result<
    SqlQuery,
    AppError,
>)
    ensures
        match record_query_rejection(
            query.scope,
            query.limit,
            "claim reflection history query"@,
        ) {
            None => (r matches Ok(p) && p.sql@ == history_sql() && binds_view(p.binds@)
                == history_binds(*query)),
            Some(m) => (r matches Err(e) && e is InvalidParams && e.message_view() == m),
        },
{
    match validate_record_query(&query.scope, query.limit, "claim reflection history query") {
        Ok(()) => {},
        Err(e) => {
            return Err(e);
        },
    }
    let (owner, namespace) = match (query.scope.owner(), query.scope.namespace()) {
        (Some(o), Some(n)) => (o, n),
        _ => {
            return Err(
                AppError::invalid("claim reflection history query requires an explicit namespace"),
            );
        },
    };
    let owner_text = owner_as_str(owner);
    let ns_text = namespace.as_str();
    let mut b = SqlBuilder::new(
        "WITH RECURSIVE scoped_edges AS (SELECT r.rowid AS reflection_rowid, r.reflection_id, r.recorded_at, r.summary, r.superseded_claim_id, r.replacement_claim_id, r.supporting_evidence_event_ids FROM reflections r JOIN claims superseded ON superseded.claim_id = r.superseded_claim_id LEFT JOIN claims replacement ON replacement.claim_id = r.replacement_claim_id WHERE superseded.owner = ",
    );
    b.push_bind(SqlValue::Text(owned(owner_text)));
    b.push(" AND superseded.namespace = ");
    b.push_bind(SqlValue::Text(owned(ns_text)));
    b.push(" AND (r.replacement_claim_id IS NULL OR (replacement.owner = ");
    b.push_bind(SqlValue::Text(owned(owner_text)));
    b.push(" AND replacement.namespace = ");
    b.push_bind(SqlValue::Text(owned(ns_text)));
    b.push("))), reachable_claims(claim_id) AS (SELECT claim_id FROM claims WHERE claim_id = ");
    b.push_bind(SqlValue::Text(owned(query.claim_reference.claim_id())));
    b.push(" AND owner = ");
    b.push_bind(SqlValue::Text(owned(owner_text)));
    b.push(" AND namespace = ");
    b.push_bind(SqlValue::Text(owned(ns_text)));
    b.push(
        " UNION SELECT edge.replacement_claim_id FROM scoped_edges edge JOIN reachable_claims reachable ON edge.superseded_claim_id = reachable.claim_id WHERE edge.replacement_claim_id IS NOT NULL UNION SELECT edge.superseded_claim_id FROM scoped_edges edge JOIN reachable_claims reachable ON edge.replacement_claim_id = reachable.claim_id) SELECT edge.reflection_rowid, edge.reflection_id, edge.recorded_at, edge.summary, edge.superseded_claim_id, edge.replacement_claim_id, edge.supporting_evidence_event_ids FROM scoped_edges edge WHERE edge.superseded_claim_id IN (SELECT claim_id FROM reachable_claims) OR edge.replacement_claim_id IN (SELECT claim_id FROM reachable_claims) ORDER BY ",
    );
    b.push(sqlite_rfc3339_sort_key("edge.recorded_at").as_str());
    b.push(" DESC, edge.reflection_rowid DESC LIMIT ");
    b.push_bind(SqlValue::Integer((query.limit + 1) as i64));
    proof {
        assert(binds_view(b.binds@) =~= history_binds(*query));
        assert(b.sql@ =~= history_sql());
    }
    Ok(b.build())
}


/// `n` placeholders separated by `, `.
pub open spec fn placeholders(n: nat) -> Seq<char>
    decreases n,
{
    if n == 0 {
        ""@
    } else if n == 1 {
        "?"@
    } else {
        placeholders((n - 1) as nat) + ", "@ + "?"@
    }
}

/// Texts bound one by one.
pub open spec fn text_binds(s: Seq<Seq<char>>) -> Seq<BindView> {
    s.map_values(|t: Seq<char>| BindView::Text(t))
}

/// Appends one placeholder for each text, separated by `, `, each bound to
/// its text.
pub fn push_bind_list(b: &mut SqlBuilder, values: &[String])
    ensures
        final(b).sql@ == old(b).sql@ + placeholders(values@.len()),
        binds_view(final(b).binds@) == binds_view(old(b).binds@) + text_binds(texts(values@)),
{
    let ghost sql0 = b.sql@;
    let ghost binds0 = binds_view(b.binds@);
    proof {
        reveal_strlit("");
        assert(sql0 + ""@ =~= sql0);
        assert(binds0 + text_binds(texts(values@).take(0)) =~= binds0);
    }
    let mut i: usize = 0;
    while i < values.len()
        invariant
            i <= values@.len(),
            b.sql@ == sql0 + placeholders(i as nat),
            binds_view(b.binds@) == binds0 + text_binds(texts(values@).take(i as int)),
        decreases values@.len() - i,
    {
        let ghost old_binds = b.binds@;
        if i > 0 {
            b.push(", ");
        }
        b.push_bind(SqlValue::Text(values[i].clone()));
        proof {
            reveal_strlit("");
            if i > 0 {
                assert(b.sql@ =~= sql0 + placeholders((i + 1) as nat));
            } else {
                assert(b.sql@ =~= sql0 + placeholders(1));
            }
            assert(texts(values@).take(i + 1) =~= texts(values@).take(i as int).push(
                values@[i as int]@,
            ));
            assert(binds_view(b.binds@) =~= binds_view(old_binds).push(
                BindView::Text(values@[i as int]@),
            ));
            assert(text_binds(texts(values@).take(i + 1)) =~= text_binds(
                texts(values@).take(i as int),
            ).push(BindView::Text(values@[i as int]@)));
        }
        i = i + 1;
    }
    proof {
        assert(texts(values@).take(values@.len() as int) =~= texts(values@));
    }
}

/// The ids of a manifest's event references.
pub open spec fn reference_ids(manifest: Seq<EventReference>) -> Seq<Seq<char>> {
    manifest.map_values(|r: EventReference| r@)
}

/// The raw event ids of a manifest, as strings.
fn manifest_ids(manifest: &[EventReference]) -> (r: Vec<String>)
    ensures
        texts(r@) == reference_ids(manifest@),
{
    let mut r: Vec<String> = Vec::new();
    let mut i: usize = 0;
    while i < manifest.len()
        invariant
            i <= manifest@.len(),
            texts(r@) == reference_ids(manifest@).take(i as int),
        decreases manifest@.len() - i,
    {
        let ghost before = r@;
        r.push(owned(manifest[i].event_id()));
        i = i + 1;
        assert(texts(r@) =~= texts(before).push(manifest@[i - 1]@));
        assert(reference_ids(manifest@).take(i as int) =~= reference_ids(manifest@).take(
            i - 1,
        ).push(manifest@[i - 1]@));
    }
    assert(reference_ids(manifest@).take(manifest@.len() as int) =~= reference_ids(manifest@));
    r
}

/// The canonical references `event:<id>` of event ids.
pub open spec fn canonical_refs(ids: Seq<Seq<char>>) -> Seq<Seq<char>> {
    ids.map_values(|id: Seq<char>| "event:"@ + id)
}

/// The canonical references of the event ids that a query returned.
pub fn canonical_event_references(ids: &[String]) -> (r: Vec<String>)
    ensures
        texts(r@) == canonical_refs(texts(ids@)),
{
    let mut r: Vec<String> = Vec::new();
    let mut i: usize = 0;
    while i < ids.len()
        invariant
            i <= ids@.len(),
            texts(r@) == canonical_refs(texts(ids@)).take(i as int),
        decreases ids@.len() - i,
    {
        let ghost before = r@;
        let reference = EventReference::from_event_id(ids[i].as_str());
        r.push(reference.canonical());
        i = i + 1;
        assert(texts(r@) =~= texts(before).push("event:"@ + ids@[i - 1]@));
        assert(canonical_refs(texts(ids@)).take(i as int) =~= canonical_refs(texts(ids@)).take(
            i - 1,
        ).push("event:"@ + ids@[i - 1]@));
    }
    assert(canonical_refs(texts(ids@)).take(ids@.len() as int) =~= canonical_refs(texts(ids@)));
    r
}

/// The scope is explicit: it names both an owner and a namespace.
pub open spec fn explicit(scope: MemoryScope) -> bool {
    scope.spec_owner() is Some && scope.spec_namespace() is Some
}

/// The message for a manifest over the item limit.
pub open spec fn manifest_too_long_message() -> Seq<char> {
    "evidence_manifest must contain at most "@ + decimal(MAX_EVIDENCE_MANIFEST_ITEMS as nat)
        + " entries"@
}

/// Why listing the events of a snapshot is refused, if it is: an inverted
/// window, a manifest over the limit, or a manifest or a bounded window
/// without an explicit scope.
pub open spec fn snapshot_events_rejection(
    scope: MemoryScope,
    manifest: Option<Seq<EventReference>>,
    window: SnapshotTimeWindow,
) -> Option<Seq<char>> {
    if !is_valid_window(window.recorded_after, window.recorded_before) {
        Some(inverted_window_message())
    } else if manifest matches Some(m) && m.len() > MAX_EVIDENCE_MANIFEST_ITEMS {
        Some(manifest_too_long_message())
    } else if manifest is Some && !explicit(scope) {
        Some("evidence_manifest requires an explicit namespace"@)
    } else if !(window.recorded_after is None && window.recorded_before is None) && !explicit(
        scope,
    ) {
        Some("snapshot time window requires an explicit namespace"@)
    } else if manifest matches Some(m) && m.len() > 0 && !keys_exist(
        window.recorded_after,
        window.recorded_before,
    ) {
        Some(out_of_range_message())
    } else {
        None
    }
}

/// How the events of a snapshot are listed.
pub enum SnapshotEventPlan {
    /// Every event of the scope within the window, latest first: an
    /// evidence query without a limit.
    Evidence(EvidenceQuery),
    /// No event: the manifest is empty.
    NoEvents,
    /// The manifest's events that lie in the scope and the window.
    Manifest(SqlQuery),
}

/// The statement that lists the manifest's events of a snapshot.
pub open spec fn manifest_events_sql(window: SnapshotTimeWindow, n: nat) -> Seq<char> {
    let key = sort_key_expr("recorded_at"@);
    "SELECT event_id FROM events WHERE "@ + "owner = "@ + "?"@ + " AND namespace = "@ + "?"@
        + (if window.recorded_after is Some {
        " AND "@ + key + " >= "@ + "?"@
    } else {
        ""@
    }) + (if window.recorded_before is Some {
        " AND "@ + key + " <= "@ + "?"@
    } else {
        ""@
    }) + " AND event_id IN ("@ + placeholders(n) + ") ORDER BY "@ + key + " DESC, rowid DESC"@
}

/// The values that the manifest statement binds.
pub open spec fn manifest_events_binds(
    scope: MemoryScope,
    window: SnapshotTimeWindow,
    ids: Seq<Seq<char>>,
) -> Seq<BindView> {
    seq![
        BindView::Text(owner_label(scope.spec_owner()->0)),
        BindView::Text(scope.spec_namespace()->0),
    ] + when(window.recorded_after is Some, seq![BindView::Text(key_of(window.recorded_after->0))])
        + when(
        window.recorded_before is Some,
        seq![BindView::Text(key_of(window.recorded_before->0))],
    ) + text_binds(ids)
}

/// How to list the events of a snapshot of `scope`, limited to `manifest`
/// where one is given and to `window`, after the listing's checks.
pub fn snapshot_events_plan(
    scope: &MemoryScope,
    manifest: Option<&[EventReference]>,
    window: &SnapshotTimeWindow,
) -> (r: Result<SnapshotEventPlan, AppError>)
    ensures
        ({
            let m = match manifest {
                Some(m) => Some(m@),
                None => None::<Seq<EventReference>>,
            };
            match snapshot_events_rejection(*scope, m, *window) {
                Some(msg) => (r matches Err(e) && e is InvalidParams && e.message_view() == msg),
                None => match manifest {
                    None => (r matches Ok(SnapshotEventPlan::Evidence(q)) && opt_namespace(q.namespace)
                        == scope.spec_namespace() && q.owner == scope.spec_owner() && q.kind is None
                        && q.limit is None && q.recorded_after == window.recorded_after
                        && q.recorded_before == window.recorded_before
                        && q.event_id_prefix is None),
                    Some(m) => if m@.len() == 0 {
                        r matches Ok(SnapshotEventPlan::NoEvents)
                    } else {
                        (r matches Ok(SnapshotEventPlan::Manifest(p)) && p.sql@
                            == manifest_events_sql(*window, m@.len()) && binds_view(p.binds@)
                            == manifest_events_binds(*scope, *window, reference_ids(m@)))
                    },
                },
            }
        }),
{
    match window.validate() {
        Ok(()) => {},
        Err(_) => {
            return Err(
                AppError::invalid("recorded_after must be less than or equal to recorded_before"),
            );
        },
    }
    match manifest {
        Some(m) => {
            if m.len() > MAX_EVIDENCE_MANIFEST_ITEMS {
                let mut msg = owned("evidence_manifest must contain at most ");
                msg.append(decimal_string(MAX_EVIDENCE_MANIFEST_ITEMS).as_str());
                msg.append(" entries");
                return Err(AppError::InvalidParams(msg));
            }
            if !scope.is_explicitly_scoped() {
                return Err(AppError::invalid("evidence_manifest requires an explicit namespace"));
            }
        },
        None => {},
    }
    if !window.is_unbounded() && !scope.is_explicitly_scoped() {
        return Err(AppError::invalid("snapshot time window requires an explicit namespace"));
    }
    let m = match manifest {
        None => {
            let namespace = match scope.namespace() {
                Some(ns) => Some(ns.duplicate()),
                None => None,
            };
            return Ok(
                SnapshotEventPlan::Evidence(
                    EvidenceQuery {
                        namespace,
                        owner: scope.owner(),
                        kind: None,
                        limit: None,
                        recorded_after: window.recorded_after,
                        recorded_before: window.recorded_before,
                        event_id_prefix: None,
                    },
                ),
            );
        },
        Some(m) => m,
    };
    if m.len() == 0 {
        return Ok(SnapshotEventPlan::NoEvents);
    }
    let after = match optional_sort_key(window.recorded_after) {
        Ok(v) => v,
        Err(e) => {
            return Err(e);
        },
    };
    let before = match optional_sort_key(window.recorded_before) {
        Ok(v) => v,
        Err(e) => {
            return Err(e);
        },
    };
    let (owner, namespace) = match (scope.owner(), scope.namespace()) {
        (Some(o), Some(n)) => (o, n),
        _ => {
            return Err(AppError::invalid("evidence_manifest requires an explicit namespace"));
        },
    };
    let key = sqlite_rfc3339_sort_key("recorded_at");
    let mut after_filter = owned(" AND ");
    after_filter.append(key.as_str());
    after_filter.append(" >= ");
    let mut before_filter = owned(" AND ");
    before_filter.append(key.as_str());
    before_filter.append(" <= ");
    let mut b = SqlBuilder::new("SELECT event_id FROM events WHERE ");
    b.push("owner = ");
    b.push_bind(SqlValue::Text(owned(owner_as_str(owner))));
    b.push(" AND namespace = ");
    b.push_bind(SqlValue::Text(owned(namespace.as_str())));
    let ghost head_binds = binds_view(b.binds@);
    push_filter(&mut b, after_filter.as_str(), after);
    push_filter(&mut b, before_filter.as_str(), before);
    b.push(" AND event_id IN (");
    let ids = manifest_ids(m);
    push_bind_list(&mut b, &ids);
    b.push(") ORDER BY ");
    b.push(key.as_str());
    b.push(" DESC, rowid DESC");
    proof {
        assert(head_binds =~= seq![
            BindView::Text(owner_label(scope.spec_owner()->0)),
            BindView::Text(scope.spec_namespace()->0),
        ]);
        assert(binds_view(b.binds@) =~= manifest_events_binds(*scope, *window, reference_ids(m@)));
        assert(b.sql@ =~= manifest_events_sql(*window, m@.len()));
    }
    Ok(SnapshotEventPlan::Manifest(b.build()))
}


/// The start of the statement that lists the episodes of a snapshot.
pub const EPISODE_SNAPSHOT_HEAD_SQL: &'static str = "\n            WITH ranked_episode_events AS (\n                SELECT\n                    episode_events.episode_reference,\n            ";

/// The ranking of each episode's events, latest first.
pub const EPISODE_SNAPSHOT_RANK_SQL: &'static str = " AS recorded_at_sort_key,\n                    events.rowid AS event_rowid,\n                    ROW_NUMBER() OVER (\n                        PARTITION BY episode_events.episode_reference\n                        ORDER BY ";

/// The joins and the filters' start of the episode listing.
pub const EPISODE_SNAPSHOT_FROM_SQL: &'static str = " DESC, events.rowid DESC, episode_events.rowid DESC\n                    ) AS episode_rank\n                FROM episode_events\n                INNER JOIN events ON events.event_id = episode_events.event_id\n                WHERE 1 = 1\n            ";

/// The end of the episode listing: each episode once, by its latest event,
/// latest first.
pub const EPISODE_SNAPSHOT_TAIL_SQL: &'static str = "\n            )\n            SELECT episode_reference\n            FROM ranked_episode_events\n            WHERE episode_rank = 1\n            ORDER BY recorded_at_sort_key DESC, event_rowid DESC, episode_reference ASC\n            ";

/// Why listing the episodes of a snapshot is refused, if it is.
pub open spec fn snapshot_episodes_rejection(
    scope: MemoryScope,
    window: SnapshotTimeWindow,
) -> Option<Seq<char>> {
    if !is_valid_window(window.recorded_after, window.recorded_before) {
        Some(inverted_window_message())
    } else if !(window.recorded_after is None && window.recorded_before is None) && !explicit(
        scope,
    ) {
        Some("snapshot time window requires an explicit namespace"@)
    } else if !keys_exist(window.recorded_after, window.recorded_before) {
        Some(out_of_range_message())
    } else {
        None
    }
}

/// The statement that lists the episodes of a snapshot: each episode once,
/// ranked by its latest event in the scope and the window, latest first.
pub open spec fn snapshot_episodes_sql(scope: MemoryScope, window: SnapshotTimeWindow) -> Seq<
    char,
> {
    let key = sort_key_expr("events.recorded_at"@);
    EPISODE_SNAPSHOT_HEAD_SQL@ + key + EPISODE_SNAPSHOT_RANK_SQL@ + key
        + EPISODE_SNAPSHOT_FROM_SQL@ + (if explicit(scope) {
        " AND events.owner = "@ + "?"@ + " AND events.namespace = "@ + "?"@
    } else {
        ""@
    }) + (if window.recorded_after is Some {
        " AND "@ + key + " >= "@ + "?"@
    } else {
        ""@
    }) + (if window.recorded_before is Some {
        " AND "@ + key + " <= "@ + "?"@
    } else {
        ""@
    }) + EPISODE_SNAPSHOT_TAIL_SQL@
}

/// The values that the episode listing binds.
pub open spec fn snapshot_episodes_binds(scope: MemoryScope, window: SnapshotTimeWindow) -> Seq<
    BindView,
> {
    when(
        explicit(scope),
        seq![
            BindView::Text(owner_label(scope.spec_owner()->0)),
            BindView::Text(scope.spec_namespace()->0),
        ],
    ) + when(window.recorded_after is Some, seq![BindView::Text(key_of(window.recorded_after->0))])
        + when(
        window.recorded_before is Some,
        seq![BindView::Text(key_of(window.recorded_before->0))],
    )
}

/// The statement that lists the episodes of a snapshot and its bound values,
/// after the listing's checks.
pub fn snapshot_episodes_plan(scope: &MemoryScope, window: &SnapshotTimeWindow) -> (r: Result<
    SqlQuery,
    AppError,
>)
    ensures
        match snapshot_episodes_rejection(*scope, *window) {
            Some(msg) => (r matches Err(e) && e is InvalidParams && e.message_view() == msg),
            None => (r matches Ok(p) && p.sql@ == snapshot_episodes_sql(*scope, *window)
                && binds_view(p.binds@) == snapshot_episodes_binds(*scope, *window)),
        },
{
    match window.validate() {
        Ok(()) => {},
        Err(_) => {
            return Err(
                AppError::invalid("recorded_after must be less than or equal to recorded_before"),
            );
        },
    }
    if !window.is_unbounded() && !scope.is_explicitly_scoped() {
        return Err(AppError::invalid("snapshot time window requires an explicit namespace"));
    }
    let after = match optional_sort_key(window.recorded_after) {
        Ok(v) => v,
        Err(e) => {
            return Err(e);
        },
    };
    let before = match optional_sort_key(window.recorded_before) {
        Ok(v) => v,
        Err(e) => {
            return Err(e);
        },
    };
    let key = sqlite_rfc3339_sort_key("events.recorded_at");
    let mut after_filter = owned(" AND ");
    after_filter.append(key.as_str());
    after_filter.append(" >= ");
    let mut before_filter = owned(" AND ");
    before_filter.append(key.as_str());
    before_filter.append(" <= ");
    let mut b = SqlBuilder::new(EPISODE_SNAPSHOT_HEAD_SQL);
    b.push(key.as_str());
    b.push(EPISODE_SNAPSHOT_RANK_SQL);
    b.push(key.as_str());
    b.push(EPISODE_SNAPSHOT_FROM_SQL);
    let ghost sql0 = b.sql@;
    proof {
        reveal_strlit("");
        assert(binds_view(b.binds@) =~= Seq::<BindView>::empty());
    }
    match (scope.owner(), scope.namespace()) {
        (Some(owner), Some(namespace)) => {
            b.push(" AND events.owner = ");
            b.push_bind(SqlValue::Text(owned(owner_as_str(owner))));
            b.push(" AND events.namespace = ");
            b.push_bind(SqlValue::Text(owned(namespace.as_str())));
        },
        _ => {
            assert(b.sql@ =~= sql0 + ""@);
        },
    }
    let ghost scoped_binds = binds_view(b.binds@);
    assert(scoped_binds =~= when(
        explicit(*scope),
        seq![
            BindView::Text(owner_label(scope.spec_owner()->0)),
            BindView::Text(scope.spec_namespace()->0),
        ],
    ));
    push_filter(&mut b, after_filter.as_str(), after);
    push_filter(&mut b, before_filter.as_str(), before);
    b.push(EPISODE_SNAPSHOT_TAIL_SQL);
    proof {
        assert(binds_view(b.binds@) =~= snapshot_episodes_binds(*scope, *window));
        assert(b.sql@ =~= snapshot_episodes_sql(*scope, *window));
    }
    Ok(b.build())
}

/// Why reading the recording times of a manifest's events is refused, if it
/// is.
pub open spec fn manifest_times_rejection(scope: MemoryScope, n: nat) -> Option<Seq<char>> {
    if n == 0 {
        None
    } else if n > MAX_EVIDENCE_MANIFEST_ITEMS {
        Some(manifest_too_long_message())
    } else if !explicit(scope) {
        Some("evidence_manifest requires an explicit namespace"@)
    } else {
        None
    }
}

/// The statement that reads the recording times of a manifest's events in
/// the scope, and its bound values; `None` for an empty manifest, which has
/// no times to read.
pub fn manifest_times_plan(scope: &MemoryScope, manifest: &[EventReference]) -> (r: Result<
    Option<SqlQuery>,
    AppError,
>)
    ensures
        match manifest_times_rejection(*scope, manifest@.len()) {
            Some(msg) => (r matches Err(e) && e is InvalidParams && e.message_view() == msg),
            None => if manifest@.len() == 0 {
                r matches Ok(None)
            } else {
                (r matches Ok(Some(p)) && p.sql@ == "SELECT recorded_at FROM events WHERE owner = "@
                    + "?"@ + " AND namespace = "@ + "?"@ + " AND event_id IN ("@ + placeholders(
                    manifest@.len(),
                ) + ")"@ && binds_view(p.binds@) == seq![
                    BindView::Text(owner_label(scope.spec_owner()->0)),
                    BindView::Text(scope.spec_namespace()->0),
                ] + text_binds(reference_ids(manifest@)))
            },
        },
{
    if manifest.len() == 0 {
        return Ok(None);
    }
    if manifest.len() > MAX_EVIDENCE_MANIFEST_ITEMS {
        let mut msg = owned("evidence_manifest must contain at most ");
        msg.append(decimal_string(MAX_EVIDENCE_MANIFEST_ITEMS).as_str());
        msg.append(" entries");
        return Err(AppError::InvalidParams(msg));
    }
    let (owner, namespace) = match (scope.owner(), scope.namespace()) {
        (Some(o), Some(n)) => (o, n),
        _ => {
            return Err(AppError::invalid("evidence_manifest requires an explicit namespace"));
        },
    };
    let mut b = SqlBuilder::new("SELECT recorded_at FROM events WHERE owner = ");
    b.push_bind(SqlValue::Text(owned(owner_as_str(owner))));
    b.push(" AND namespace = ");
    b.push_bind(SqlValue::Text(owned(namespace.as_str())));
    let ghost head = binds_view(b.binds@);
    b.push(" AND event_id IN (");
    let ids = manifest_ids(manifest);
    push_bind_list(&mut b, &ids);
    b.push(")");
    proof {
        assert(head =~= seq![
            BindView::Text(owner_label(scope.spec_owner()->0)),
            BindView::Text(scope.spec_namespace()->0),
        ]);
    }
    Ok(Some(b.build()))
}

/// A statement `head`, a list of placeholders for `ids`, then `tail`.
pub fn in_list_plan(head: &str, ids: &[String], tail: &str) -> (r: SqlQuery)
    ensures
        r.sql@ == head@ + placeholders(ids@.len()) + tail@,
        binds_view(r.binds@) == text_binds(texts(ids@)),
{
    let mut b = SqlBuilder::new(head);
    proof {
        assert(binds_view(b.binds@) =~= Seq::<BindView>::empty());
    }
    push_bind_list(&mut b, ids);
    b.push(tail);
    proof {
        assert(binds_view(b.binds@) =~= text_binds(texts(ids@)));
    }
    b.build()
}

/// A statement `head`, a list of placeholders for `ids`, `middle`, an owner
/// and namespace bound in turn with `between` in between, then `tail`.
pub fn scoped_in_list_plan(
    head: &str,
    ids: &[String],
    middle: &str,
    owner: Owner,
    between: &str,
    namespace: &Namespace,
    tail: &str,
) -> (r: SqlQuery)
    ensures
        r.sql@ == head@ + placeholders(ids@.len()) + middle@ + "?"@ + between@ + "?"@ + tail@,
        binds_view(r.binds@) == text_binds(texts(ids@)) + seq![
            BindView::Text(owner_label(owner)),
            BindView::Text(namespace@),
        ],
{
    let mut b = SqlBuilder::new(head);
    proof {
        assert(binds_view(b.binds@) =~= Seq::<BindView>::empty());
    }
    push_bind_list(&mut b, ids);
    b.push(middle);
    b.push_bind(SqlValue::Text(owned(owner_as_str(owner))));
    b.push(between);
    b.push_bind(SqlValue::Text(owned(namespace.as_str())));
    b.push(tail);
    proof {
        assert(binds_view(b.binds@) =~= text_binds(texts(ids@)) + seq![
            BindView::Text(owner_label(owner)),
            BindView::Text(namespace@),
        ]);
    }
    b.build()
}

/// The claims in the scope that the given events support, by event then
/// claim id.
pub fn event_claim_ids_plan(event_ids: &[String], owner: Owner, namespace: &Namespace) -> (r:
    SqlQuery)
    ensures
        r.sql@ == "SELECT el.event_id, el.claim_id FROM evidence_links el JOIN claims c ON c.claim_id = el.claim_id WHERE el.event_id IN ("@
            + placeholders(event_ids@.len()) + ") AND c.owner = "@ + "?"@ + " AND c.namespace = "@
            + "?"@ + " ORDER BY el.event_id, el.claim_id"@,
        binds_view(r.binds@) == text_binds(texts(event_ids@)) + seq![
            BindView::Text(owner_label(owner)),
            BindView::Text(namespace@),
        ],
{
    scoped_in_list_plan(
        "SELECT el.event_id, el.claim_id FROM evidence_links el JOIN claims c ON c.claim_id = el.claim_id WHERE el.event_id IN (",
        event_ids,
        ") AND c.owner = ",
        owner,
        " AND c.namespace = ",
        namespace,
        " ORDER BY el.event_id, el.claim_id",
    )
}

/// The episodes of the given events, by event then episode.
pub fn event_episode_references_plan(event_ids: &[String]) -> (r: SqlQuery)
    ensures
        r.sql@ == "SELECT event_id, episode_reference FROM episode_events WHERE event_id IN ("@
            + placeholders(event_ids@.len()) + ") ORDER BY event_id, episode_reference"@,
        binds_view(r.binds@) == text_binds(texts(event_ids@)),
{
    in_list_plan(
        "SELECT event_id, episode_reference FROM episode_events WHERE event_id IN (",
        event_ids,
        ") ORDER BY event_id, episode_reference",
    )
}

/// The evidence events in the scope of the given claims, by claim, latest
/// first.
pub fn claim_evidence_plan(claim_ids: &[String], owner: Owner, namespace: &Namespace) -> (r:
    SqlQuery)
    ensures
        r.sql@ == "SELECT el.claim_id, e.event_id FROM evidence_links el JOIN events e ON e.event_id = el.event_id WHERE el.claim_id IN ("@
            + placeholders(claim_ids@.len()) + ") AND e.owner = "@ + "?"@ + " AND e.namespace = "@
            + "?"@ + (" ORDER BY el.claim_id, "@ + sort_key_expr("e.recorded_at"@)
            + " DESC, e.rowid DESC"@),
        binds_view(r.binds@) == text_binds(texts(claim_ids@)) + seq![
            BindView::Text(owner_label(owner)),
            BindView::Text(namespace@),
        ],
{
    let mut tail = owned(" ORDER BY el.claim_id, ");
    tail.append(sqlite_rfc3339_sort_key("e.recorded_at").as_str());
    tail.append(" DESC, e.rowid DESC");
    scoped_in_list_plan(
        "SELECT el.claim_id, e.event_id FROM evidence_links el JOIN events e ON e.event_id = el.event_id WHERE el.claim_id IN (",
        claim_ids,
        ") AND e.owner = ",
        owner,
        " AND e.namespace = ",
        namespace,
        tail.as_str(),
    )
}

/// The episodes of the evidence in the scope of the given claims, by claim
/// then episode, each pair once.
pub fn claim_episodes_plan(claim_ids: &[String], owner: Owner, namespace: &Namespace) -> (r:
    SqlQuery)
    ensures
        r.sql@ == "SELECT DISTINCT el.claim_id, ee.episode_reference FROM evidence_links el JOIN events e ON e.event_id = el.event_id JOIN episode_events ee ON ee.event_id = e.event_id WHERE el.claim_id IN ("@
            + placeholders(claim_ids@.len()) + ") AND e.owner = "@ + "?"@ + " AND e.namespace = "@
            + "?"@ + " ORDER BY el.claim_id, ee.episode_reference"@,
        binds_view(r.binds@) == text_binds(texts(claim_ids@)) + seq![
            BindView::Text(owner_label(owner)),
            BindView::Text(namespace@),
        ],
{
    scoped_in_list_plan(
        "SELECT DISTINCT el.claim_id, ee.episode_reference FROM evidence_links el JOIN events e ON e.event_id = el.event_id JOIN episode_events ee ON ee.event_id = e.event_id WHERE el.claim_id IN (",
        claim_ids,
        ") AND e.owner = ",
        owner,
        " AND e.namespace = ",
        namespace,
        " ORDER BY el.claim_id, ee.episode_reference",
    )
}

/// The events of the scope among the given ids.
pub fn scoped_event_ids_plan(event_ids: &[String], owner: Owner, namespace: &Namespace) -> (r:
    SqlQuery)
    ensures
        r.sql@ == "SELECT event_id FROM events WHERE owner = "@ + "?"@ + " AND namespace = "@
            + "?"@ + " AND event_id IN ("@ + placeholders(event_ids@.len()) + ")"@,
        binds_view(r.binds@) == seq![
            BindView::Text(owner_label(owner)),
            BindView::Text(namespace@),
        ] + text_binds(texts(event_ids@)),
{
    let mut b = SqlBuilder::new("SELECT event_id FROM events WHERE owner = ");
    b.push_bind(SqlValue::Text(owned(owner_as_str(owner))));
    b.push(" AND namespace = ");
    b.push_bind(SqlValue::Text(owned(namespace.as_str())));
    let ghost head = binds_view(b.binds@);
    b.push(" AND event_id IN (");
    push_bind_list(&mut b, event_ids);
    b.push(")");
    proof {
        assert(head =~= seq![BindView::Text(owner_label(owner)), BindView::Text(namespace@)]);
    }
    b.build()
}

/// The start of the listing of the episodes that support claims.
pub const SUPPORTING_EPISODES_HEAD_SQL: &'static str = "\n            SELECT\n                episode_events.episode_reference,\n                MIN(episode_events.rowid) AS first_episode_event_rowid\n            FROM evidence_links\n            INNER JOIN episode_events\n                ON episode_events.event_id = evidence_links.event_id\n            WHERE evidence_links.claim_id IN (\n            ";

/// The end of the listing of the episodes that support claims: each episode
/// once, in the order of its first linked event.
pub const SUPPORTING_EPISODES_TAIL_SQL: &'static str = "\n            GROUP BY episode_events.episode_reference\n            ORDER BY first_episode_event_rowid ASC, episode_events.episode_reference ASC\n            ";

/// The episodes that hold evidence of the given claims, in the order of
/// their first linked event; `None` for no claims, which have no episodes.
pub fn supporting_episodes_plan(claim_ids: &[String]) -> (r: Option<SqlQuery>)
    ensures
        claim_ids@.len() == 0 ==> r is None,
        claim_ids@.len() > 0 ==> (r matches Some(p) && p.sql@ == SUPPORTING_EPISODES_HEAD_SQL@
            + placeholders(claim_ids@.len()) + (")"@ + SUPPORTING_EPISODES_TAIL_SQL@)
            && binds_view(p.binds@) == text_binds(texts(claim_ids@))),
{
    if claim_ids.len() == 0 {
        return None;
    }
    let mut tail = owned(")");
    tail.append(SUPPORTING_EPISODES_TAIL_SQL);
    Some(in_list_plan(SUPPORTING_EPISODES_HEAD_SQL, claim_ids, tail.as_str()))
}

/// The reflections that supersede or introduce any of the given claims,
/// with each side's claim id kept only where that claim lies in the scope,
/// latest first.
pub fn claim_revision_links_plan(claim_ids: &[String], owner: Owner, namespace: &Namespace) -> (r:
    SqlQuery)
    ensures
        r.sql@ == "SELECT r.reflection_id, r.superseded_claim_id, r.replacement_claim_id, CASE WHEN superseded.owner = "@
            + "?"@ + " AND superseded.namespace = "@ + "?"@
            + " THEN r.superseded_claim_id END AS scoped_superseded_claim_id, CASE WHEN replacement.owner = "@
            + "?"@ + " AND replacement.namespace = "@ + "?"@
            + " THEN r.replacement_claim_id END AS scoped_replacement_claim_id FROM reflections r LEFT JOIN claims superseded ON superseded.claim_id = r.superseded_claim_id LEFT JOIN claims replacement ON replacement.claim_id = r.replacement_claim_id WHERE r.superseded_claim_id IN ("@
            + placeholders(claim_ids@.len()) + ") OR r.replacement_claim_id IN ("@ + placeholders(
            claim_ids@.len(),
        ) + ") ORDER BY "@ + sort_key_expr("r.recorded_at"@) + " DESC, r.rowid DESC"@,
        binds_view(r.binds@) == seq![
            BindView::Text(owner_label(owner)),
            BindView::Text(namespace@),
            BindView::Text(owner_label(owner)),
            BindView::Text(namespace@),
        ] + text_binds(texts(claim_ids@)) + text_binds(texts(claim_ids@)),
{
    let owner_text = owner_as_str(owner);
    let mut b = SqlBuilder::new(
        "SELECT r.reflection_id, r.superseded_claim_id, r.replacement_claim_id, CASE WHEN superseded.owner = ",
    );
    b.push_bind(SqlValue::Text(owned(owner_text)));
    b.push(" AND superseded.namespace = ");
    b.push_bind(SqlValue::Text(owned(namespace.as_str())));
    b.push(" THEN r.superseded_claim_id END AS scoped_superseded_claim_id, CASE WHEN replacement.owner = ");
    b.push_bind(SqlValue::Text(owned(owner_text)));
    b.push(" AND replacement.namespace = ");
    b.push_bind(SqlValue::Text(owned(namespace.as_str())));
    b.push(
        " THEN r.replacement_claim_id END AS scoped_replacement_claim_id FROM reflections r LEFT JOIN claims superseded ON superseded.claim_id = r.superseded_claim_id LEFT JOIN claims replacement ON replacement.claim_id = r.replacement_claim_id WHERE r.superseded_claim_id IN (",
    );
    let ghost head = binds_view(b.binds@);
    push_bind_list(&mut b, claim_ids);
    b.push(") OR r.replacement_claim_id IN (");
    push_bind_list(&mut b, claim_ids);
    b.push(") ORDER BY ");
    b.push(sqlite_rfc3339_sort_key("r.recorded_at").as_str());
    b.push(" DESC, r.rowid DESC");
    proof {
        assert(head =~= seq![
            BindView::Text(owner_label(owner)),
            BindView::Text(namespace@),
            BindView::Text(owner_label(owner)),
            BindView::Text(namespace@),
        ]);
    }
    b.build()
}

} // verus!
