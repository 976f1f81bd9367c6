//! Reading the identity or commitment history of a namespace.
use vstd::prelude::*;

use crate::application::get_reflection_history::{limit_rejection, validate_history_limit};
use crate::application::search_memory::{
    canonical_event_references, canonical_opt_claim, event_canonicals, opt_claim_canonical,
};
use crate::domain::error::AppError;
use crate::domain::records::{Commitment, ReflectionIdentityUpdate};
use crate::domain::time::Timestamp;
use crate::domain::types::{owner_of_namespace, MemoryScope, Namespace, Owner};
use crate::ports::{
    SelfModelHistoryKind, SelfModelHistoryPage, SelfModelHistoryQuery, SelfModelHistoryReadRecord,
};
use crate::seqs::{opt_text, texts};
use crate::text::owned;

verus! {

/// The number of records read when no limit is given.
pub const DEFAULT_SELF_MODEL_HISTORY_LIMIT: usize = 20;

/// A request for a self-model history.
#[derive(Debug, Clone, PartialEq, Eq)]
pub struct GetSelfModelHistoryInput {
    pub namespace: Namespace,
    pub history_kind: SelfModelHistoryKind,
    pub limit: usize,
}

impl GetSelfModelHistoryInput {
    /// Checks the limit: from 1 to 100.
    pub fn validate(&self) -> (r: Result<(), AppError>)
        ensures
            match r {
                Ok(_) => limit_rejection("get_self_model_history"@, self.limit) is None,
                Err(e) => e is InvalidParams && limit_rejection(
                    "get_self_model_history"@,
                    self.limit,
                ) == Some(e.message_view()),
            },
    {
        validate_history_limit("get_self_model_history", self.limit)
    }
}

/// One record of a self-model history, with canonical references.
#[derive(Debug, Clone, PartialEq, Eq)]
pub struct SelfModelHistoryRecord {
    pub reflection_id: String,
    pub recorded_at: Timestamp,
    pub summary: String,
    pub superseded_claim_reference: Option<String>,
    pub replacement_claim_reference: Option<String>,
    pub supporting_evidence_event_references: Vec<String>,
    pub identity_update: Option<ReflectionIdentityUpdate>,
    pub commitment_updates: Option<Vec<Commitment>>,
}

/// A page of a self-model history.
#[derive(Debug, Clone, PartialEq, Eq)]
pub struct GetSelfModelHistoryResult {
    pub owner: Owner,
    pub namespace: String,
    pub history_type: String,
    pub limit: usize,
    pub has_more: bool,
    pub records: Vec<SelfModelHistoryRecord>,
}

/// `r` is `v` with its references in canonical form.
pub open spec fn is_self_model_record(r: SelfModelHistoryRecord, v: SelfModelHistoryReadRecord) -> bool {
    &&& r.reflection_id == v.reflection_id
    &&& r.recorded_at == v.recorded_at
    &&& r.summary == v.summary
    &&& opt_text(r.superseded_claim_reference) == opt_claim_canonical(v.superseded_claim_reference)
    &&& opt_text(r.replacement_claim_reference) == opt_claim_canonical(
        v.replacement_claim_reference,
    )
    &&& texts(r.supporting_evidence_event_references@) == event_canonicals(
        v.supporting_evidence_event_references@,
    )
    &&& r.identity_update == v.identity_update
    &&& r.commitment_updates == v.commitment_updates
}

fn self_model_record(value: SelfModelHistoryReadRecord) -> (r: SelfModelHistoryRecord)
    ensures
        is_self_model_record(r, value),
{
    SelfModelHistoryRecord {
        reflection_id: value.reflection_id,
        recorded_at: value.recorded_at,
        summary: value.summary,
        superseded_claim_reference: canonical_opt_claim(&value.superseded_claim_reference),
        replacement_claim_reference: canonical_opt_claim(&value.replacement_claim_reference),
        supporting_evidence_event_references: canonical_event_references(
            value.supporting_evidence_event_references.as_slice(),
        ),
        identity_update: value.identity_update,
        commitment_updates: value.commitment_updates,
    }
}

/// The history query of a request.
pub fn self_model_history_query(input: &GetSelfModelHistoryInput) -> (r: SelfModelHistoryQuery)
    ensures
        r.scope.spec_namespace() == Some(input.namespace@),
        r.scope.spec_owner() == Some(owner_of_namespace(input.namespace@)),
        r.history_kind == input.history_kind,
        r.limit == input.limit,
{
    SelfModelHistoryQuery {
        scope: MemoryScope::for_namespace(input.namespace.duplicate()),
        history_kind: input.history_kind,
        limit: input.limit,
    }
}

/// The result of a request, from the page the store returned.
pub fn self_model_history_result(input: &GetSelfModelHistoryInput, page: SelfModelHistoryPage) -> (r:
    GetSelfModelHistoryResult)
    ensures
        r.owner == owner_of_namespace(input.namespace@),
        r.namespace@ == input.namespace@,
        r.history_type@ == match input.history_kind {
            SelfModelHistoryKind::Identity => "identity"@,
            SelfModelHistoryKind::Commitment => "commitment"@,
        },
        r.limit == input.limit,
        r.has_more == page.has_more,
        r.records@.len() == page.records@.len(),
        forall|i: int|
            0 <= i < page.records@.len() ==> is_self_model_record(
                #[trigger] r.records@[i],
                page.records@[i],
            ),
{
    let ghost recs = page.records@;
    let mut source = page.records;
    let mut pending: Vec<SelfModelHistoryReadRecord> = Vec::new();
    while source.len() > 0
        invariant
            pending@.len() + source@.len() == recs.len(),
            source@ == recs.take(source@.len() as int),
            forall|k: int| 0 <= k < pending@.len() ==> #[trigger] pending@[k] == recs[recs.len() - 1 - k],
        decreases source@.len(),
    {
        let v = source.pop().unwrap();
        pending.push(v);
    }
    let mut out: Vec<SelfModelHistoryRecord> = Vec::new();
    while pending.len() > 0
        invariant
            out@.len() + pending@.len() == recs.len(),
            forall|k: int| 0 <= k < pending@.len() ==> #[trigger] pending@[k] == recs[recs.len() - 1 - k],
            forall|k: int| 0 <= k < out@.len() ==> is_self_model_record(#[trigger] out@[k], recs[k]),
        decreases pending@.len(),
    {
        let v = pending.pop().unwrap();
        out.push(self_model_record(v));
    }
    GetSelfModelHistoryResult {
        owner: input.namespace.owner_of(),
        namespace: owned(input.namespace.as_str()),
        history_type: owned(input.history_kind.as_str()),
        limit: input.limit,
        has_more: page.has_more,
        records: out,
    }
}

} // verus!
