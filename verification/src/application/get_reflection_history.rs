//! Reading the reflections that revised one claim of a namespace.
use vstd::prelude::*;

use crate::application::search_memory::{
    canonical_event_references, canonical_opt_claim, event_canonicals, opt_claim_canonical,
};
use crate::domain::claim::ClaimReference;
use crate::domain::error::AppError;
use crate::domain::time::Timestamp;
use crate::domain::types::{owner_of_namespace, MemoryScope, Namespace, Owner};
use crate::ports::{
    ClaimReflectionHistoryPage, ClaimReflectionHistoryQuery, ClaimReflectionHistoryRecord,
    MAX_EVENT_RECORD_QUERY_LIMIT,
};
use crate::seqs::{opt_text, texts};
use crate::text::{concat_str, decimal, decimal_string, owned};

verus! {

/// The number of reflections read when no limit is given.
pub const DEFAULT_REFLECTION_HISTORY_LIMIT: usize = 20;

/// A request for a claim's reflection history.
#[derive(Debug, Clone, PartialEq, Eq)]
pub struct GetReflectionHistoryInput {
    pub namespace: Namespace,
    pub claim_reference: ClaimReference,
    pub limit: usize,
}

/// Why a history limit is refused, if it is: it must be from 1 to 100.
pub open spec fn limit_rejection(operation: Seq<char>, limit: usize) -> Option<Seq<char>> {
    if limit == 0 {
        Some(operation + " limit must be at least 1"@)
    } else if limit > MAX_EVENT_RECORD_QUERY_LIMIT {
        Some(operation + " limit must be at most "@ + decimal(MAX_EVENT_RECORD_QUERY_LIMIT as nat))
    } else {
        None
    }
}

/// Checks a history limit; see `limit_rejection`.
pub fn validate_history_limit(operation: &str, limit: usize) -> (r: Result<(), AppError>)
    ensures
        match r {
            Ok(_) => limit_rejection(operation@, limit) is None,
            Err(e) => e is InvalidParams && limit_rejection(operation@, limit) == Some(
                e.message_view(),
            ),
        },
{
    if limit == 0 {
        return Err(AppError::InvalidParams(concat_str(operation, " limit must be at least 1")));
    }
    if limit > MAX_EVENT_RECORD_QUERY_LIMIT {
        let digits = decimal_string(MAX_EVENT_RECORD_QUERY_LIMIT);
        return Err(
            AppError::InvalidParams(
                crate::text::concat3(operation, " limit must be at most ", digits.as_str()),
            ),
        );
    }
    Ok(())
}

impl GetReflectionHistoryInput {
    /// Checks the limit: from 1 to 100.
    pub fn validate(&self) -> (r: Result<(), AppError>)
        ensures
            match r {
                Ok(_) => limit_rejection("get_reflection_history"@, self.limit) is None,
                Err(e) => e is InvalidParams && limit_rejection(
                    "get_reflection_history"@,
                    self.limit,
                ) == Some(e.message_view()),
            },
    {
        validate_history_limit("get_reflection_history", self.limit)
    }
}

/// One reflection of a claim's history, with canonical references.
#[derive(Debug, Clone, PartialEq, Eq)]
pub struct ReflectionHistoryRecord {
    pub reflection_id: String,
    pub recorded_at: Timestamp,
    pub summary: String,
    pub superseded_claim_reference: Option<String>,
    pub replacement_claim_reference: Option<String>,
    pub supporting_evidence_event_references: Vec<String>,
}

/// A page of a claim's reflection history.
#[derive(Debug, Clone, PartialEq, Eq)]
pub struct GetReflectionHistoryResult {
    pub owner: Owner,
    pub namespace: String,
    pub claim_reference: String,
    pub limit: usize,
    pub has_more: bool,
    pub reflections: Vec<ReflectionHistoryRecord>,
}

/// `r` is `v` with its references in canonical form.
pub open spec fn is_history_record(r: ReflectionHistoryRecord, v: ClaimReflectionHistoryRecord) -> bool {
    &&& r.reflection_id == v.reflection_id
    &&& r.recorded_at == v.recorded_at
    &&& r.summary == v.summary
    &&& opt_text(r.superseded_claim_reference) == opt_claim_canonical(v.superseded_claim_reference)
    &&& opt_text(r.replacement_claim_reference) == opt_claim_canonical(
        v.replacement_claim_reference,
    )
    &&& texts(r.supporting_evidence_event_references@) == event_canonicals(
        v.supporting_evidence_event_references@,
    )
}

impl ReflectionHistoryRecord {
    /// The record of a stored history entry, with canonical references.
    pub fn from_record(value: ClaimReflectionHistoryRecord) -> (r: ReflectionHistoryRecord)
        ensures
            is_history_record(r, value),
    {
        ReflectionHistoryRecord {
            reflection_id: value.reflection_id,
            recorded_at: value.recorded_at,
            summary: value.summary,
            superseded_claim_reference: canonical_opt_claim(&value.superseded_claim_reference),
            replacement_claim_reference: canonical_opt_claim(&value.replacement_claim_reference),
            supporting_evidence_event_references: canonical_event_references(
                value.supporting_evidence_event_references.as_slice(),
            ),
        }
    }
}

/// The history query of a request: the request's namespace, claim and limit.
pub fn reflection_history_query(input: &GetReflectionHistoryInput) -> (r:
    ClaimReflectionHistoryQuery)
    ensures
        r.scope.spec_namespace() == Some(input.namespace@),
        r.scope.spec_owner() == Some(owner_of_namespace(input.namespace@)),
        r.claim_reference@ == input.claim_reference@,
        r.limit == input.limit,
{
    ClaimReflectionHistoryQuery {
        scope: MemoryScope::for_namespace(input.namespace.duplicate()),
        claim_reference: input.claim_reference.duplicate(),
        limit: input.limit,
    }
}

/// The result of a request, from the page the store returned.
pub fn reflection_history_result(
    input: &GetReflectionHistoryInput,
    page: ClaimReflectionHistoryPage,
) -> (r: GetReflectionHistoryResult)
    ensures
        r.owner == owner_of_namespace(input.namespace@),
        r.namespace@ == input.namespace@,
        r.claim_reference@ == "claim:"@ + input.claim_reference@,
        r.limit == input.limit,
        r.has_more == page.has_more,
        r.reflections@.len() == page.records@.len(),
        forall|i: int|
            0 <= i < page.records@.len() ==> is_history_record(
                #[trigger] r.reflections@[i],
                page.records@[i],
            ),
{
    let ghost recs = page.records@;
    let mut source = page.records;
    let mut pending: Vec<ClaimReflectionHistoryRecord> = Vec::new();
    while source.len() > 0
        invariant
            pending@.len() + source@.len() == recs.len(),
            source@ == recs.take(source@.len() as int),
            forall|k: int| 0 <= k < pending@.len() ==> #[trigger] pending@[k] == recs[recs.len() - 1 - k],
        decreases source@.len(),
    {
        let v = source.pop().unwrap();
        pending.push(v);
    }
    let mut out: Vec<ReflectionHistoryRecord> = Vec::new();
    while pending.len() > 0
        invariant
            out@.len() + pending@.len() == recs.len(),
            forall|k: int| 0 <= k < pending@.len() ==> #[trigger] pending@[k] == recs[recs.len() - 1 - k],
            forall|k: int| 0 <= k < out@.len() ==> is_history_record(#[trigger] out@[k], recs[k]),
        decreases pending@.len(),
    {
        let v = pending.pop().unwrap();
        out.push(ReflectionHistoryRecord::from_record(v));
    }
    GetReflectionHistoryResult {
        owner: input.namespace.owner_of(),
        namespace: owned(input.namespace.as_str()),
        claim_reference: input.claim_reference.canonical(),
        limit: input.limit,
        has_more: page.has_more,
        reflections: out,
    }
}

} // verus!
