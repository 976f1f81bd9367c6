//! The reflection write path: the only way identity, commitments and claim
//! statuses are revised. This module holds its decisions; the store calls are
//! made around them.
use vstd::prelude::*;

use crate::domain::claim::ClaimDraft;
use crate::domain::error::AppError;
use crate::domain::records::{Commitment, Reflection, ReflectionIdentityUpdate};
use crate::domain::rules::reflection_policy::{
    classify_reflection, spec_classify, ReflectionDecision, ReflectionTrigger,
};
use crate::domain::types::Owner;
use crate::ports::{ClaimStatus, EvidenceQuery, StoredTriggerLedgerEntry};
use crate::seqs::{dedup, texts};
use crate::text::{concat_str, same_text};

verus! {

/// A reflection request: what to record, which claim it revises, the
/// replacement and its evidence, and the self-model updates it carries.
#[derive(Debug, Clone, PartialEq, Eq)]
pub struct ReflectionInput {
    reflection: Reflection,
    target_claim_id: Option<String>,
    replacement_claim: Option<ClaimDraft>,
    replacement_evidence_event_ids: Vec<String>,
    replacement_evidence_query: Option<EvidenceQuery>,
    identity_update: Option<ReflectionIdentityUpdate>,
    commitment_updates: Option<Vec<Commitment>>,
    handled_trigger_ledger_entry: Option<StoredTriggerLedgerEntry>,
}

impl ReflectionInput {
    pub closed spec fn spec_reflection(&self) -> Reflection {
        self.reflection
    }

    pub closed spec fn spec_target_claim_id(&self) -> Option<String> {
        self.target_claim_id
    }

    pub closed spec fn spec_replacement_claim(&self) -> Option<ClaimDraft> {
        self.replacement_claim
    }

    pub closed spec fn spec_evidence_event_ids(&self) -> Seq<Seq<char>> {
        texts(self.replacement_evidence_event_ids@)
    }

    pub closed spec fn spec_evidence_query(&self) -> Option<EvidenceQuery> {
        self.replacement_evidence_query
    }

    pub closed spec fn spec_identity_update(&self) -> Option<ReflectionIdentityUpdate> {
        self.identity_update
    }

    pub closed spec fn spec_commitment_updates(&self) -> Option<Vec<Commitment>> {
        self.commitment_updates
    }

    pub closed spec fn spec_handled_entry(&self) -> Option<StoredTriggerLedgerEntry> {
        self.handled_trigger_ledger_entry
    }

    /// A reflection that revises `supersede_claim_id`, with an optional
    /// replacement claim and its evidence.
    pub fn new(
        reflection: Reflection,
        supersede_claim_id: &str,
        replacement_claim: Option<ClaimDraft>,
        replacement_evidence_event_ids: Vec<String>,
    ) -> (r: ReflectionInput)
        ensures
            r.spec_reflection() == reflection,
            r.spec_target_claim_id() matches Some(t) && t@ == supersede_claim_id@,
            r.spec_replacement_claim() == replacement_claim,
            r.spec_evidence_event_ids() == texts(replacement_evidence_event_ids@),
            r.spec_evidence_query() is None,
            r.spec_identity_update() is None,
            r.spec_commitment_updates() is None,
            r.spec_handled_entry() is None,
    {
        ReflectionInput {
            reflection,
            target_claim_id: Some(crate::text::owned(supersede_claim_id)),
            replacement_claim,
            replacement_evidence_event_ids,
            replacement_evidence_query: None,
            identity_update: None,
            commitment_updates: None,
            handled_trigger_ledger_entry: None,
        }
    }

    /// A reflection that only records, with the given evidence.
    pub fn record_only(reflection: Reflection, replacement_evidence_event_ids: Vec<String>) -> (r:
        ReflectionInput)
        ensures
            r.spec_reflection() == reflection,
            r.spec_target_claim_id() is None,
            r.spec_replacement_claim() is None,
            r.spec_evidence_event_ids() == texts(replacement_evidence_event_ids@),
            r.spec_evidence_query() is None,
            r.spec_identity_update() is None,
            r.spec_commitment_updates() is None,
            r.spec_handled_entry() is None,
    {
        ReflectionInput {
            reflection,
            target_claim_id: None,
            replacement_claim: None,
            replacement_evidence_event_ids,
            replacement_evidence_query: None,
            identity_update: None,
            commitment_updates: None,
            handled_trigger_ledger_entry: None,
        }
    }

    /// The same request with an evidence query.
    pub fn with_replacement_evidence_query(self, replacement_evidence_query: EvidenceQuery) -> (r:
        ReflectionInput)
        ensures
            r.spec_reflection() == self.spec_reflection(),
            r.spec_target_claim_id() == self.spec_target_claim_id(),
            r.spec_replacement_claim() == self.spec_replacement_claim(),
            r.spec_evidence_event_ids() == self.spec_evidence_event_ids(),
            r.spec_evidence_query() == Some(replacement_evidence_query),
            r.spec_identity_update() == self.spec_identity_update(),
            r.spec_commitment_updates() == self.spec_commitment_updates(),
            r.spec_handled_entry() == self.spec_handled_entry(),
    {
        ReflectionInput { replacement_evidence_query: Some(replacement_evidence_query), ..self }
    }

    /// The same request with the given (possibly absent) evidence query.
    pub fn with_optional_replacement_evidence_query(
        self,
        replacement_evidence_query: Option<EvidenceQuery>,
    ) -> (r: ReflectionInput)
        ensures
            r.spec_reflection() == self.spec_reflection(),
            r.spec_target_claim_id() == self.spec_target_claim_id(),
            r.spec_replacement_claim() == self.spec_replacement_claim(),
            r.spec_evidence_event_ids() == self.spec_evidence_event_ids(),
            r.spec_evidence_query() == replacement_evidence_query,
            r.spec_identity_update() == self.spec_identity_update(),
            r.spec_commitment_updates() == self.spec_commitment_updates(),
            r.spec_handled_entry() == self.spec_handled_entry(),
    {
        ReflectionInput { replacement_evidence_query, ..self }
    }

    /// The same request with an identity update to the given claims.
    pub fn with_identity_update(self, canonical_claims: Vec<String>) -> (r: ReflectionInput)
        ensures
            r.spec_reflection() == self.spec_reflection(),
            r.spec_target_claim_id() == self.spec_target_claim_id(),
            r.spec_replacement_claim() == self.spec_replacement_claim(),
            r.spec_evidence_event_ids() == self.spec_evidence_event_ids(),
            r.spec_evidence_query() == self.spec_evidence_query(),
            r.spec_identity_update() == Some(ReflectionIdentityUpdate { canonical_claims }),
            r.spec_commitment_updates() == self.spec_commitment_updates(),
            r.spec_handled_entry() == self.spec_handled_entry(),
    {
        ReflectionInput {
            identity_update: Some(ReflectionIdentityUpdate::new(canonical_claims)),
            ..self
        }
    }

    /// The same request with commitment updates.
    pub fn with_commitment_updates(self, commitments: Vec<Commitment>) -> (r: ReflectionInput)
        ensures
            r.spec_reflection() == self.spec_reflection(),
            r.spec_target_claim_id() == self.spec_target_claim_id(),
            r.spec_replacement_claim() == self.spec_replacement_claim(),
            r.spec_evidence_event_ids() == self.spec_evidence_event_ids(),
            r.spec_evidence_query() == self.spec_evidence_query(),
            r.spec_identity_update() == self.spec_identity_update(),
            r.spec_commitment_updates() == Some(commitments),
            r.spec_handled_entry() == self.spec_handled_entry(),
    {
        ReflectionInput { commitment_updates: Some(commitments), ..self }
    }

    /// The same request with the trigger-ledger entry it handles.
    pub fn with_handled_trigger_ledger_entry(
        self,
        handled_trigger_ledger_entry: StoredTriggerLedgerEntry,
    ) -> (r: ReflectionInput)
        ensures
            r.spec_reflection() == self.spec_reflection(),
            r.spec_target_claim_id() == self.spec_target_claim_id(),
            r.spec_replacement_claim() == self.spec_replacement_claim(),
            r.spec_evidence_event_ids() == self.spec_evidence_event_ids(),
            r.spec_evidence_query() == self.spec_evidence_query(),
            r.spec_identity_update() == self.spec_identity_update(),
            r.spec_commitment_updates() == self.spec_commitment_updates(),
            r.spec_handled_entry() == Some(handled_trigger_ledger_entry),
    {
        ReflectionInput {
            handled_trigger_ledger_entry: Some(handled_trigger_ledger_entry),
            ..self
        }
    }

    /// The request taken apart: the reflection, the target, the replacement,
    /// the explicit evidence, the evidence query, the identity update, the
    /// commitment updates and the handled ledger entry.
    pub fn into_parts(self) -> (r: (
        Reflection,
        Option<String>,
        Option<ClaimDraft>,
        Vec<String>,
        Option<EvidenceQuery>,
        Option<ReflectionIdentityUpdate>,
        Option<Vec<Commitment>>,
        Option<StoredTriggerLedgerEntry>,
    ))
        ensures
            r.0 == self.spec_reflection(),
            r.1 == self.spec_target_claim_id(),
            r.2 == self.spec_replacement_claim(),
            texts(r.3@) == self.spec_evidence_event_ids(),
            r.4 == self.spec_evidence_query(),
            r.5 == self.spec_identity_update(),
            r.6 == self.spec_commitment_updates(),
            r.7 == self.spec_handled_entry(),
    {
        (
            self.reflection,
            self.target_claim_id,
            self.replacement_claim,
            self.replacement_evidence_event_ids,
            self.replacement_evidence_query,
            self.identity_update,
            self.commitment_updates,
            self.handled_trigger_ledger_entry,
        )
    }

    /// The claim the reflection revises, if any.
    pub fn target_claim_id(&self) -> (r: &Option<String>)
        ensures
            *r == self.spec_target_claim_id(),
    {
        &self.target_claim_id
    }

    /// The replacement claim, if any.
    pub fn replacement_claim(&self) -> (r: &Option<ClaimDraft>)
        ensures
            *r == self.spec_replacement_claim(),
    {
        &self.replacement_claim
    }

    /// The evidence query, if any.
    pub fn replacement_evidence_query(&self) -> (r: &Option<EvidenceQuery>)
        ensures
            *r == self.spec_evidence_query(),
    {
        &self.replacement_evidence_query
    }

    /// The identity update, if any.
    pub fn identity_update(&self) -> (r: &Option<ReflectionIdentityUpdate>)
        ensures
            *r == self.spec_identity_update(),
    {
        &self.identity_update
    }

    /// The commitment updates, if any.
    pub fn commitment_updates(&self) -> (r: &Option<Vec<Commitment>>)
        ensures
            *r == self.spec_commitment_updates(),
    {
        &self.commitment_updates
    }

    /// The handled trigger-ledger entry, if any.
    pub fn handled_trigger_ledger_entry(&self) -> (r: &Option<StoredTriggerLedgerEntry>)
        ensures
            *r == self.spec_handled_entry(),
    {
        &self.handled_trigger_ledger_entry
    }

    /// The reflection to record.
    pub fn reflection(&self) -> (r: &Reflection)
        ensures
            *r == self.spec_reflection(),
    {
        &self.reflection
    }
}

/// The identifiers and results of an executed reflection.
#[derive(Debug, Clone, PartialEq, Eq)]
pub struct ReflectionResult {
    pub reflection_id: String,
    pub replacement_claim_id: Option<String>,
}

/// What a reflection with or without a target and a replacement does: a target
/// with a replacement supersedes (a failure), a target alone is disputed (a
/// conflict), neither only records; a replacement without a target is refused.
pub open spec fn spec_reflection_decision(has_target: bool, has_replacement: bool) -> Option<
    ReflectionDecision,
> {
    if has_target && has_replacement {
        Some(spec_classify(ReflectionTrigger::Failure))
    } else if has_target {
        Some(spec_classify(ReflectionTrigger::Conflict))
    } else if !has_replacement {
        Some(spec_classify(ReflectionTrigger::Manual))
    } else {
        None
    }
}

/// The decision of a reflection, from whether it has a target and a replacement.
pub fn decide_reflection(has_target: bool, has_replacement: bool) -> (r: Result<
    ReflectionDecision,
    AppError,
>)
    ensures
        match spec_reflection_decision(has_target, has_replacement) {
            Some(d) => r == Ok::<ReflectionDecision, AppError>(d),
            None => (r matches Err(e) && e is InvalidParams && e.message_view()
                == "replacement claim reflections require a target claim id"@),
        },
{
    if has_target && has_replacement {
        Ok(classify_reflection(ReflectionTrigger::Failure))
    } else if has_target {
        Ok(classify_reflection(ReflectionTrigger::Conflict))
    } else if !has_replacement {
        Ok(classify_reflection(ReflectionTrigger::Manual))
    } else {
        Err(AppError::invalid("replacement claim reflections require a target claim id"))
    }
}

/// The supporting evidence of a reflection: the explicit ids, then the ids the
/// evidence query returned (when a query was run), first occurrences only. A
/// query that finds nothing while no explicit ids were given is refused.
pub fn merge_evidence_event_ids(explicit: Vec<String>, queried: Option<Vec<String>>) -> (r: Result<
    Vec<String>,
    AppError,
>)
    ensures
        match queried {
            Some(q) => if q@.len() == 0 && explicit@.len() == 0 {
                (r matches Err(e) && e is InvalidParams && e.message_view()
                    == "no replacement evidence found for the provided query"@)
            } else {
                (r matches Ok(ids) && texts(ids@) == dedup(texts(explicit@) + texts(q@)))
            },
            None => (r matches Ok(ids) && texts(ids@) == dedup(texts(explicit@))),
        },
{
    let ghost explicit_texts = texts(explicit@);
    let mut evidence_event_ids = explicit;
    match queried {
        Some(mut queried_ids) => {
            if queried_ids.len() == 0 && evidence_event_ids.len() == 0 {
                return Err(AppError::invalid("no replacement evidence found for the provided query"));
            }
            let ghost q = texts(queried_ids@);
            evidence_event_ids.append(&mut queried_ids);
            assert(texts(evidence_event_ids@) =~= explicit_texts + q);
        },
        None => {},
    }
    Ok(crate::seqs::dedupe_strings(evidence_event_ids))
}

/// Whether a reflection needs supporting evidence: when it brings a replacement
/// claim, an identity update or commitment updates.
pub open spec fn needs_supporting_evidence(input: ReflectionInput) -> bool {
    input.spec_replacement_claim() is Some || input.spec_identity_update() is Some
        || input.spec_commitment_updates() is Some
}

/// Why the self-model updates of a reflection are refused against its
/// resolved evidence, if they are: identity or commitment updates need at
/// least one evidence id, and an identity update needs at least one claim.
pub open spec fn self_model_update_rejection(
    identity_update: Option<ReflectionIdentityUpdate>,
    has_commitment_updates: bool,
    supporting_evidence_count: nat,
) -> Option<Seq<char>> {
    if (identity_update is Some || has_commitment_updates) && supporting_evidence_count == 0 {
        Some(
            "identity or commitment reflection updates require at least one resolved evidence event id"@,
        )
    } else if identity_update matches Some(u) && u.canonical_claims@.len() == 0 {
        Some("identity reflection updates must include at least one canonical claim"@)
    } else {
        None
    }
}

/// Checks the self-model updates of a reflection against its resolved
/// evidence (see `self_model_update_rejection`).
pub fn check_self_model_updates(
    identity_update: &Option<ReflectionIdentityUpdate>,
    has_commitment_updates: bool,
    supporting_evidence_count: usize,
) -> (r: Result<(), AppError>)
    ensures
        match self_model_update_rejection(
            *identity_update,
            has_commitment_updates,
            supporting_evidence_count as nat,
        ) {
            Some(msg) => r matches Err(e) && e is InvalidParams && e.message_view() == msg,
            None => r is Ok,
        },
{
    if (identity_update.is_some() || has_commitment_updates) && supporting_evidence_count == 0 {
        return Err(
            AppError::invalid(
                "identity or commitment reflection updates require at least one resolved evidence event id",
            ),
        );
    }
    match identity_update {
        Some(update) => {
            if update.canonical_claims.len() == 0 {
                return Err(
                    AppError::invalid(
                        "identity reflection updates must include at least one canonical claim",
                    ),
                );
            }
        },
        None => {},
    }
    Ok(())
}

/// The id of a reflection's replacement claim: `<reflection id>:replacement`.
pub fn replacement_claim_id(reflection_id: &str) -> (r: String)
    ensures
        r@ == reflection_id@ + ":replacement"@,
{
    concat_str(reflection_id, ":replacement")
}

/// The status a reflection gives its target claim: disputed, superseded, or
/// unchanged when it only records.
pub fn target_status_after(decision: ReflectionDecision) -> (r: Option<ClaimStatus>)
    ensures
        r == match decision {
            ReflectionDecision::MarkDisputed => Some(ClaimStatus::Disputed),
            ReflectionDecision::SupersedeWithReplacement => Some(ClaimStatus::Superseded),
            ReflectionDecision::RecordOnly => None::<ClaimStatus>,
        },
{
    match decision {
        ReflectionDecision::MarkDisputed => Some(ClaimStatus::Disputed),
        ReflectionDecision::SupersedeWithReplacement => Some(ClaimStatus::Superseded),
        ReflectionDecision::RecordOnly => None,
    }
}

/// A commitment as an owner and its rule text.
pub open spec fn commitment_view(c: Commitment) -> (Owner, Seq<char>) {
    (c.owner, c.description@)
}

/// The owners and rule texts of a list of commitments.
pub open spec fn commitment_views(s: Seq<Commitment>) -> Seq<(Owner, Seq<char>)> {
    s.map_values(|c: Commitment| commitment_view(c))
}

/// The baseline commitment: never write the identity core directly.
pub open spec fn is_baseline(c: (Owner, Seq<char>)) -> bool {
    c.1 == "forbid:write_identity_core_directly"@
}

/// The requested commitments, followed by each existing baseline commitment that
/// they do not already hold.
pub open spec fn preserved_commitments(
    requested: Seq<(Owner, Seq<char>)>,
    existing: Seq<(Owner, Seq<char>)>,
) -> Seq<(Owner, Seq<char>)>
    decreases existing.len(),
{
    if existing.len() == 0 {
        requested
    } else {
        let r = preserved_commitments(requested, existing.drop_last());
        let c = existing.last();
        if is_baseline(c) && !r.contains(c) {
            r.push(c)
        } else {
            r
        }
    }
}

/// Whether a commitment is the baseline commitment.
pub fn is_baseline_commitment(commitment: &Commitment) -> (r: bool)
    ensures
        r == is_baseline(commitment_view(*commitment)),
{
    same_text(commitment.description(), "forbid:write_identity_core_directly")
}

/// Whether `list` holds a commitment with the same owner and rule.
fn contains_commitment(list: &[Commitment], c: &Commitment) -> (r: bool)
    ensures
        r == commitment_views(list@).contains(commitment_view(*c)),
{
    let ghost v = commitment_views(list@);
    let mut i: usize = 0;
    while i < list.len()
        invariant
            v == commitment_views(list@),
            i <= list@.len(),
            forall|j: int| 0 <= j < i ==> v[j] != commitment_view(*c),
        decreases list@.len() - i,
    {
        if list[i].owner == c.owner && same_text(list[i].description(), c.description()) {
            assert(v[i as int] == commitment_view(*c));
            return true;
        }
        i = i + 1;
    }
    false
}

/// Commitment updates keep the baseline commitment: each existing baseline
/// commitment that the request lacks is appended to it.
pub fn preserve_baseline_commitments(
    requested_commitments: Vec<Commitment>,
    existing_commitments: Vec<Commitment>,
) -> (r: Vec<Commitment>)
    ensures
        commitment_views(r@) == preserved_commitments(
            commitment_views(requested_commitments@),
            commitment_views(existing_commitments@),
        ),
{
    let ghost req = commitment_views(requested_commitments@);
    let ghost ex = commitment_views(existing_commitments@);
    let mut result = requested_commitments;
    let mut i: usize = 0;
    while i < existing_commitments.len()
        invariant
            ex == commitment_views(existing_commitments@),
            i <= existing_commitments@.len(),
            commitment_views(result@) == preserved_commitments(req, ex.take(i as int)),
        decreases existing_commitments@.len() - i,
    {
        let commitment = &existing_commitments[i];
        assert(ex.take(i + 1).drop_last() =~= ex.take(i as int));
        assert(ex.take(i + 1).last() == commitment_view(*commitment));
        if is_baseline_commitment(commitment) && !contains_commitment(&result, commitment) {
            let ghost before = result@;
            result.push(commitment.duplicate());
            assert(commitment_views(result@) =~= commitment_views(before).push(
                commitment_view(*commitment),
            ));
        }
        i = i + 1;
    }
    assert(ex.take(existing_commitments@.len() as int) =~= ex);
    result
}

/// After preservation the request comes first, unchanged, and every existing
/// baseline commitment is held.
pub proof fn lemma_baseline_commitments_preserved(
    requested: Seq<(Owner, Seq<char>)>,
    existing: Seq<(Owner, Seq<char>)>,
)
    ensures
        requested.is_prefix_of(preserved_commitments(requested, existing)),
        forall|c: (Owner, Seq<char>)|
            #![trigger existing.contains(c)]
            existing.contains(c) && is_baseline(c) ==> preserved_commitments(
                requested,
                existing,
            ).contains(c),
    decreases existing.len(),
{
    if existing.len() > 0 {
        let t = existing.drop_last();
        lemma_baseline_commitments_preserved(requested, t);
        let r = preserved_commitments(requested, t);
        let c = existing.last();
        assert forall|x: (Owner, Seq<char>)|
            #![trigger existing.contains(x)]
            existing.contains(x) && is_baseline(x) implies preserved_commitments(
                requested,
                existing,
            ).contains(x) by {
            let k = choose|k: int| 0 <= k < existing.len() && existing[k] == x;
            if k < existing.len() - 1 {
                assert(t[k] == x);
                assert(t.contains(x));
                assert(r.contains(x));
                if is_baseline(c) && !r.contains(c) {
                    crate::seqs::lemma_push_contains(r, c, x);
                }
            } else {
                if !r.contains(c) {
                    assert(r.push(c)[r.len() as int] == c);
                }
            }
        }
    }
}

} // verus!
