//! Superseding a claim of one namespace with a replacement: the checks on the
//! request, the scoping of its target and evidence, and the reflection that
//! performs it.
use vstd::prelude::*;

use crate::application::run_reflection::ReflectionInput;
use crate::domain::claim::{claim_draft_rejection, ClaimDraft, ClaimReference};
use crate::domain::error::{domain_error_name, AppError};
use crate::domain::event::{EventReference, MAX_EVIDENCE_MANIFEST_ITEMS};
use crate::domain::records::Reflection;
use crate::domain::types::{owner_of_namespace, MemoryScope, Namespace, Owner};
use crate::ports::{ClaimReadRecord, ClaimRecordQuery, ScopedEventIdQuery};
use crate::seqs::{find_first_missing, first_missing, texts};
use crate::text::{concat3, decimal, decimal_string, is_exact, is_exact_token, owned};

verus! {

/// A request to supersede a claim.
#[derive(Debug, Clone, PartialEq, Eq)]
pub struct SupersedeMemoryInput {
    pub namespace: Namespace,
    pub claim_reference: ClaimReference,
    pub replacement_claim: ClaimDraft,
    pub evidence_event_ids: Vec<EventReference>,
    pub summary: String,
}

/// The raw ids of a list of event references.
pub open spec fn raw_ids(refs: Seq<EventReference>) -> Seq<Seq<char>> {
    refs.map_values(|e: EventReference| e@)
}

impl SupersedeMemoryInput {
    /// Why the request is refused, if it is: a summary that is empty or has
    /// edge white space, a replacement in another namespace, no evidence or
    /// more than 256 evidence events, or a replacement claim that its own rules
    /// refuse with that much evidence.
    pub open spec fn rejection(&self) -> Option<(bool, Seq<char>)> {
        if !is_exact_token(self.summary@) {
            Some(
                (
                    true,
                    "supersede_memory summary must be non-empty and have no leading or trailing whitespace"@,
                ),
            )
        } else if self.replacement_claim.spec_namespace() != self.namespace@ {
            Some(
                (
                    true,
                    "supersede_memory replacement claim must stay in the requested namespace"@,
                ),
            )
        } else if self.evidence_event_ids@.len() == 0 {
            Some((true, "supersede_memory requires at least one replacement evidence event id"@))
        } else if self.evidence_event_ids@.len() > MAX_EVIDENCE_MANIFEST_ITEMS {
            Some(
                (
                    true,
                    "supersede_memory replacement_evidence_event_ids must contain at most "@
                        + decimal(MAX_EVIDENCE_MANIFEST_ITEMS as nat) + " entries"@,
                ),
            )
        } else {
            match claim_draft_rejection(
                self.replacement_claim.spec_owner(),
                self.replacement_claim.spec_namespace(),
                self.replacement_claim.spec_mode(),
                self.evidence_event_ids@.len(),
            ) {
                Some(e) => Some((false, domain_error_name(e))),
                None => None,
            }
        }
    }

    /// Checks the request; a rejection of the request itself is an invalid
    /// parameter, one of the replacement claim's rules an error naming it.
    pub fn validate(&self) -> (r: Result<(), AppError>)
        ensures
            match r {
                Ok(_) => self.rejection() is None,
                Err(e) => self.rejection() == Some((e.is_invalid_params(), e.message_view())),
            },
    {
        if !is_exact(self.summary.as_str()) {
            return Err(
                AppError::invalid(
                    "supersede_memory summary must be non-empty and have no leading or trailing whitespace",
                ),
            );
        }
        if !self.replacement_claim.namespace().same_as(&self.namespace) {
            return Err(
                AppError::invalid(
                    "supersede_memory replacement claim must stay in the requested namespace",
                ),
            );
        }
        if self.evidence_event_ids.len() == 0 {
            return Err(
                AppError::invalid(
                    "supersede_memory requires at least one replacement evidence event id",
                ),
            );
        }
        if self.evidence_event_ids.len() > MAX_EVIDENCE_MANIFEST_ITEMS {
            let digits = decimal_string(MAX_EVIDENCE_MANIFEST_ITEMS);
            return Err(
                AppError::InvalidParams(
                    concat3(
                        "supersede_memory replacement_evidence_event_ids must contain at most ",
                        digits.as_str(),
                        " entries",
                    ),
                ),
            );
        }
        match self.replacement_claim.validate(self.evidence_event_ids.len()) {
            Ok(()) => Ok(()),
            Err(e) => Err(AppError::from_domain(e)),
        }
    }
}

/// What a supersession reports.
#[derive(Debug, Clone, PartialEq, Eq)]
pub struct SupersedeMemoryResult {
    pub owner: Owner,
    pub namespace: String,
    pub superseded_claim_reference: String,
    pub replacement_claim_id: Option<String>,
    pub reflection_id: String,
    pub durable_write_path: String,
}

/// The raw ids of the given event references.
pub fn raw_event_ids(references: &[EventReference]) -> (r: Vec<String>)
    ensures
        texts(r@) == raw_ids(references@),
{
    let mut out: Vec<String> = Vec::new();
    let mut i: usize = 0;
    while i < references.len()
        invariant
            i <= references@.len(),
            out@.len() == i,
            forall|k: int| 0 <= k < i ==> #[trigger] out@[k]@ == references@[k]@,
        decreases references@.len() - i,
    {
        out.push(owned(references[i].event_id()));
        i = i + 1;
    }
    assert(texts(out@) =~= raw_ids(references@));
    out
}

/// The query that finds the target claim in the scope: at most one record,
/// with no status or mode filter.
pub fn target_claim_query(scope: &MemoryScope, claim_reference: &ClaimReference) -> (r:
    ClaimRecordQuery)
    ensures
        r.scope.spec_owner() == scope.spec_owner(),
        r.scope.spec_namespace() == scope.spec_namespace(),
        r.claim_reference matches Some(c) && c@ == claim_reference@,
        r.status is None,
        r.mode is None,
        r.limit == 1,
{
    ClaimRecordQuery {
        scope: scope.duplicate(),
        claim_reference: Some(claim_reference.duplicate()),
        status: None,
        mode: None,
        limit: 1,
    }
}

/// The query that finds which evidence events exist in the scope.
pub fn scoped_evidence_query(scope: &MemoryScope, evidence_event_ids: &[EventReference]) -> (r:
    ScopedEventIdQuery)
    ensures
        r.scope.spec_owner() == scope.spec_owner(),
        r.scope.spec_namespace() == scope.spec_namespace(),
        texts(r.event_ids@) == raw_ids(evidence_event_ids@),
{
    ScopedEventIdQuery { scope: scope.duplicate(), event_ids: raw_event_ids(evidence_event_ids) }
}

/// The id of the target claim, from the records the target query returned;
/// refused when the namespace holds no such claim.
pub fn require_scoped_claim(records: Vec<ClaimReadRecord>) -> (r: Result<String, AppError>)
    ensures
        records@.len() > 0 ==> (r matches Ok(id) && id@ == records@[0].claim.claim_id@),
        records@.len() == 0 ==> (r matches Err(e) && e is InvalidParams && e.message_view()
            == "supersede_memory target claim was not found in the requested namespace"@),
{
    if records.len() == 0 {
        return Err(
            AppError::invalid(
                "supersede_memory target claim was not found in the requested namespace",
            ),
        );
    }
    Ok(records[0].claim.claim_id.clone())
}

/// The raw evidence ids, when every one of them exists in the scope (as
/// `scoped_ids` reports); refused otherwise.
pub fn require_scoped_evidence(evidence_event_ids: &[EventReference], scoped_ids: &[String]) -> (r:
    Result<Vec<String>, AppError>)
    ensures
        first_missing(raw_ids(evidence_event_ids@), texts(scoped_ids@)) is None ==> (r matches Ok(
            ids,
        ) && texts(ids@) == raw_ids(evidence_event_ids@)),
        first_missing(raw_ids(evidence_event_ids@), texts(scoped_ids@)) is Some ==> (r matches Err(
            e,
        ) && e is InvalidParams && e.message_view()
            == "supersede_memory evidence must exist in the requested namespace"@),
{
    let ids = raw_event_ids(evidence_event_ids);
    if find_first_missing(ids.as_slice(), scoped_ids).is_some() {
        return Err(
            AppError::invalid("supersede_memory evidence must exist in the requested namespace"),
        );
    }
    Ok(ids)
}

/// The reflection that supersedes `target_claim_id` with the replacement,
/// recording the request's summary with the scoped evidence.
pub fn supersede_reflection_input(
    input: &SupersedeMemoryInput,
    target_claim_id: &str,
    evidence_event_ids: Vec<String>,
) -> (r: ReflectionInput)
    ensures
        r.spec_reflection().spec_summary() == input.summary@,
        r.spec_target_claim_id() matches Some(t) && t@ == target_claim_id@,
        r.spec_replacement_claim() matches Some(c) && c.spec_owner()
            == input.replacement_claim.spec_owner() && c.spec_namespace()
            == input.replacement_claim.spec_namespace() && c.spec_subject()
            == input.replacement_claim.spec_subject() && c.spec_predicate()
            == input.replacement_claim.spec_predicate() && c.spec_object()
            == input.replacement_claim.spec_object() && c.spec_mode()
            == input.replacement_claim.spec_mode(),
        r.spec_evidence_event_ids() == texts(evidence_event_ids@),
        r.spec_evidence_query() is None,
        r.spec_identity_update() is None,
        r.spec_commitment_updates() is None,
        r.spec_handled_entry() is None,
{
    ReflectionInput::new(
        Reflection::new(input.summary.as_str()),
        target_claim_id,
        Some(input.replacement_claim.duplicate()),
        evidence_event_ids,
    )
}

/// The report of a supersession that the reflection `reflection_id` performed.
pub fn supersede_result(
    input: &SupersedeMemoryInput,
    replacement_claim_id: Option<String>,
    reflection_id: String,
) -> (r: SupersedeMemoryResult)
    ensures
        r.owner == owner_of_namespace(input.namespace@),
        r.namespace@ == input.namespace@,
        r.superseded_claim_reference@ == "claim:"@ + input.claim_reference@,
        r.replacement_claim_id == replacement_claim_id,
        r.reflection_id == reflection_id,
        r.durable_write_path@ == "run_reflection"@,
{
    SupersedeMemoryResult {
        owner: input.namespace.owner_of(),
        namespace: owned(input.namespace.as_str()),
        superseded_claim_reference: input.claim_reference.canonical(),
        replacement_claim_id,
        reflection_id,
        durable_write_path: owned(crate::domain::self_revision::SELF_REVISION_DURABLE_WRITE_PATH),
    }
}

} // verus!
