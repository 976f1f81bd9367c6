//! The course of a reflection write, as a machine: it takes what the clock,
//! the id generator and the stores answered, and says what to read next or
//! which writes to commit, in one transaction and in order.
use vstd::prelude::*;

use crate::application::run_reflection::{
    check_self_model_updates, commitment_view, commitment_views, decide_reflection, is_baseline,
    merge_evidence_event_ids, preserve_baseline_commitments, preserved_commitments,
    replacement_claim_id, self_model_update_rejection, spec_reflection_decision,
    target_status_after, ReflectionInput, ReflectionResult,
};
use crate::domain::claim::{claim_draft_rejection, ClaimDraft};
use crate::domain::error::{domain_error_name, AppError};
use crate::domain::records::{Commitment, IdentityCore, Reflection, ReflectionIdentityUpdate};
use crate::domain::rules::reflection_policy::ReflectionDecision;
use crate::domain::time::Timestamp;
use crate::domain::types::Owner;
use crate::ports::{
    ClaimStatus, EvidenceQuery, StoredClaim, StoredReflection, StoredTriggerLedgerEntry,
};
use crate::seqs::{copy_strings, dedup, opt_text, texts};

verus! {

/// A reflection request taken apart, its evidence aside.
#[derive(Debug)]
pub struct ReflectionParts {
    pub reflection: Reflection,
    pub target_claim_id: Option<String>,
    pub replacement_claim: Option<ClaimDraft>,
    pub identity_update: Option<ReflectionIdentityUpdate>,
    pub commitment_updates: Option<Vec<Commitment>>,
    pub handled_entry: Option<StoredTriggerLedgerEntry>,
}

/// One write of a reflection, in the transaction that commits it.
#[derive(Debug)]
pub enum ReflectionWrite {
    UpsertClaim(StoredClaim),
    LinkEvidence(String, String),
    ReplaceIdentity(IdentityCore),
    ReplaceCommitments(Vec<Commitment>),
    AppendReflection(StoredReflection),
    AppendTriggerLedger(StoredTriggerLedgerEntry),
    UpdateClaimStatus(String, ClaimStatus),
}

/// A stored reflection as plain values.
pub struct ReflectionRecordView {
    pub id: Seq<char>,
    pub recorded_at: Timestamp,
    pub reflection: Reflection,
    pub superseded: Option<Seq<char>>,
    pub replacement: Option<Seq<char>>,
    pub supporting: Seq<Seq<char>>,
    pub identity: Option<Seq<Seq<char>>>,
    pub commitments: Option<Seq<(Owner, Seq<char>)>>,
}

/// A write as plain values.
pub enum WriteView {
    UpsertClaim(Seq<char>, ClaimDraft, ClaimStatus),
    LinkEvidence(Seq<char>, Seq<char>),
    ReplaceIdentity(Seq<Seq<char>>),
    ReplaceCommitments(Seq<(Owner, Seq<char>)>),
    AppendReflection(ReflectionRecordView),
    AppendTriggerLedger(StoredTriggerLedgerEntry),
    UpdateClaimStatus(Seq<char>, ClaimStatus),
}

/// The claims of an identity update, as texts.
pub open spec fn identity_view(u: Option<ReflectionIdentityUpdate>) -> Option<Seq<Seq<char>>> {
    match u {
        Some(x) => Some(texts(x.canonical_claims@)),
        None => None,
    }
}

/// A write as plain values.
pub open spec fn write_view(w: ReflectionWrite) -> WriteView {
    match w {
        ReflectionWrite::UpsertClaim(c) => WriteView::UpsertClaim(c.claim_id@, c.claim, c.status),
        ReflectionWrite::LinkEvidence(c, e) => WriteView::LinkEvidence(c@, e@),
        ReflectionWrite::ReplaceIdentity(i) => WriteView::ReplaceIdentity(texts(i.canonical_claims@)),
        ReflectionWrite::ReplaceCommitments(cs) => WriteView::ReplaceCommitments(commitment_views(cs@)),
        ReflectionWrite::AppendReflection(r) => WriteView::AppendReflection(
            ReflectionRecordView {
                id: r.reflection_id@,
                recorded_at: r.recorded_at,
                reflection: r.reflection,
                superseded: opt_text(r.superseded_claim_id),
                replacement: opt_text(r.replacement_claim_id),
                supporting: texts(r.supporting_evidence_event_ids@),
                identity: identity_view(r.requested_identity_update),
                commitments: opt_commitment_views(r.requested_commitment_updates),
            },
        ),
        ReflectionWrite::AppendTriggerLedger(e) => WriteView::AppendTriggerLedger(e),
        ReflectionWrite::UpdateClaimStatus(c, s) => WriteView::UpdateClaimStatus(c@, s),
    }
}

/// The owners and rule texts of optional commitment updates.
pub open spec fn opt_commitment_views(o: Option<Vec<Commitment>>) -> Option<Seq<(Owner, Seq<char>)>> {
    match o {
        Some(cs) => Some(commitment_views(cs@)),
        None => None,
    }
}

/// A list of writes as plain values.
pub open spec fn writes_view(ws: Seq<ReflectionWrite>) -> Seq<WriteView> {
    ws.map_values(|w: ReflectionWrite| write_view(w))
}

/// The writes that commit a reflection `rid` recorded at `at`, in order: the
/// replacement claim and its evidence links when it supersedes, the identity,
/// the commitments, the reflection itself, the handled ledger entry with the
/// reflection's id, and the new status of the target claim.
pub open spec fn planned_writes(
    p: ReflectionParts,
    decision: ReflectionDecision,
    rid: String,
    at: Timestamp,
    supporting: Seq<Seq<char>>,
    commitments: Option<Seq<(Owner, Seq<char>)>>,
) -> Seq<WriteView> {
    let cid = rid@ + ":replacement"@;
    let claim_part = if decision is SupersedeWithReplacement {
        seq![WriteView::UpsertClaim(cid, p.replacement_claim->0, ClaimStatus::Active)]
            + supporting.map_values(|e: Seq<char>| WriteView::LinkEvidence(cid, e))
    } else {
        Seq::empty()
    };
    let identity_part = match p.identity_update {
        Some(u) => seq![WriteView::ReplaceIdentity(texts(u.canonical_claims@))],
        None => Seq::empty(),
    };
    let commitment_part = match commitments {
        Some(cs) => seq![WriteView::ReplaceCommitments(cs)],
        None => Seq::empty(),
    };
    let record = WriteView::AppendReflection(
        ReflectionRecordView {
            id: rid@,
            recorded_at: at,
            reflection: p.reflection,
            superseded: opt_text(p.target_claim_id),
            replacement: if decision is SupersedeWithReplacement {
                Some(cid)
            } else {
                None
            },
            supporting,
            identity: identity_view(p.identity_update),
            commitments,
        },
    );
    let ledger_part = match p.handled_entry {
        Some(h) => seq![
            WriteView::AppendTriggerLedger(
                StoredTriggerLedgerEntry { reflection_id: Some(rid), ..h },
            ),
        ],
        None => Seq::empty(),
    };
    let status_part = match decision {
        ReflectionDecision::MarkDisputed => seq![
            WriteView::UpdateClaimStatus(p.target_claim_id->0@, ClaimStatus::Disputed),
        ],
        ReflectionDecision::SupersedeWithReplacement => seq![
            WriteView::UpdateClaimStatus(p.target_claim_id->0@, ClaimStatus::Superseded),
        ],
        ReflectionDecision::RecordOnly => Seq::empty(),
    };
    claim_part + identity_part + commitment_part + seq![record] + ledger_part + status_part
}

/// A reflection request taken apart, its evidence aside.
pub open spec fn parts_of(input: ReflectionInput) -> ReflectionParts {
    ReflectionParts {
        reflection: input.spec_reflection(),
        target_claim_id: input.spec_target_claim_id(),
        replacement_claim: input.spec_replacement_claim(),
        identity_update: input.spec_identity_update(),
        commitment_updates: input.spec_commitment_updates(),
        handled_entry: input.spec_handled_entry(),
    }
}

/// Why the replacement claim is refused with `n` evidence events, if it is.
pub open spec fn replacement_rejection(p: ReflectionParts, n: nat) -> Option<crate::domain::error::DomainError> {
    match p.replacement_claim {
        Some(c) => claim_draft_rejection(c.spec_owner(), c.spec_namespace(), c.spec_mode(), n),
        None => None,
    }
}

/// The final step: commit the planned writes, or refuse a replacement claim
/// that its evidence does not support.
pub open spec fn commits(
    p: ReflectionParts,
    d: ReflectionDecision,
    rid: String,
    at: Timestamp,
    supporting: Seq<Seq<char>>,
    commitments: Option<Seq<(Owner, Seq<char>)>>,
    next: ReflectionState,
    a: ReflectionAction,
) -> bool {
    &&& next is Done
    &&& if d is SupersedeWithReplacement && replacement_rejection(p, supporting.len()) is Some {
        a matches ReflectionAction::Fail(e) && e is Message && e.message_view() == domain_error_name(
            replacement_rejection(p, supporting.len())->0,
        )
    } else {
        a matches ReflectionAction::Commit(ws, res) && writes_view(ws@) == planned_writes(
            p,
            d,
            rid,
            at,
            supporting,
            commitments,
        ) && res.reflection_id == rid && opt_text(res.replacement_claim_id) == if d is SupersedeWithReplacement {
            Some(rid@ + ":replacement"@)
        } else {
            None
        }
    }
}

/// The step once the evidence is known to exist: commitment updates first
/// load the existing commitments, in the transaction.
pub open spec fn after_checks(
    p: ReflectionParts,
    d: ReflectionDecision,
    rid: String,
    at: Timestamp,
    supporting: Seq<Seq<char>>,
    next: ReflectionState,
    a: ReflectionAction,
) -> bool {
    if p.commitment_updates is Some {
        &&& next matches ReflectionState::AwaitingCommitments(p2, d2, rid2, at2, sup2) && p2 == p
            && d2 == d && rid2 == rid && at2 == at && texts(sup2@) == supporting
        &&& a is LoadCommitments
    } else {
        commits(p, d, rid, at, supporting, None, next, a)
    }
}

/// The step once the supporting evidence is resolved: self-model updates are
/// checked against it, and each of its events must exist.
pub open spec fn after_supporting(
    p: ReflectionParts,
    d: ReflectionDecision,
    rid: String,
    at: Timestamp,
    supporting: Seq<Seq<char>>,
    next: ReflectionState,
    a: ReflectionAction,
) -> bool {
    match self_model_update_rejection(p.identity_update, p.commitment_updates is Some, supporting.len()) {
        Some(msg) => next is Done && (a matches ReflectionAction::Fail(e) && e is InvalidParams
            && e.message_view() == msg),
        None => if supporting.len() > 0 {
            &&& next matches ReflectionState::AwaitingEvidenceCheck(p2, d2, rid2, at2, sup2) && p2
                == p && d2 == d && rid2 == rid && at2 == at && texts(sup2@) == supporting
            &&& a matches ReflectionAction::CheckEvidence(ids) && texts(ids@) == supporting
        } else {
            after_checks(p, d, rid, at, supporting, next, a)
        },
    }
}

/// The position of the first event not known to exist, if any.
pub open spec fn first_unknown(known: Seq<bool>) -> Option<int>
    decreases known.len(),
{
    if known.len() == 0 {
        None
    } else if !known[0] {
        Some(0)
    } else {
        match first_unknown(known.drop_first()) {
            Some(i) => Some(i + 1),
            None => None,
        }
    }
}

/// Where a reflection write stands.
#[derive(Debug)]
pub enum ReflectionState {
    /// Nothing has been done yet.
    Starting(ReflectionInput),
    /// Waiting for the ids the evidence query selects; the explicit ids.
    AwaitingEvidence(ReflectionParts, ReflectionDecision, String, Timestamp, Vec<String>),
    /// Waiting to learn whether each supporting event exists.
    AwaitingEvidenceCheck(ReflectionParts, ReflectionDecision, String, Timestamp, Vec<String>),
    /// Waiting for the existing commitments, read in the transaction.
    AwaitingCommitments(ReflectionParts, ReflectionDecision, String, Timestamp, Vec<String>),
    /// The write has ended.
    Done,
}

/// What was answered to the last action.
#[derive(Debug)]
pub enum ReflectionEvent {
    /// The write begins with a fresh reflection id and the time.
    Start(String, Timestamp),
    /// The ids the evidence query selected.
    QueriedEvidence(Vec<String>),
    /// Whether each supporting event exists, in order.
    EvidenceKnown(Vec<bool>),
    /// The existing commitments.
    Commitments(Vec<Commitment>),
}

/// What to do next.
#[derive(Debug)]
pub enum ReflectionAction {
    /// Fail with this error; nothing was written.
    Fail(AppError),
    /// Read the evidence ids this query selects.
    QueryEvidence(EvidenceQuery),
    /// Learn whether each of these events exists.
    CheckEvidence(Vec<String>),
    /// Begin the transaction and read the existing commitments in it.
    LoadCommitments,
    /// Apply these writes in one transaction, in order, commit, and return
    /// this result.
    Commit(Vec<ReflectionWrite>, ReflectionResult),
}

/// What holds of every state of a write: the decision is the one its target
/// and replacement call for, commitments are loaded only for commitment
/// updates, and self-model updates go on only with supporting evidence.
pub open spec fn reflection_state_ok(s: ReflectionState) -> bool {
    match s {
        ReflectionState::AwaitingEvidence(p, d, _, _, _) => spec_reflection_decision(
            p.target_claim_id is Some,
            p.replacement_claim is Some,
        ) == Some(d),
        ReflectionState::AwaitingEvidenceCheck(p, d, _, _, sup) => spec_reflection_decision(
            p.target_claim_id is Some,
            p.replacement_claim is Some,
        ) == Some(d) && self_model_update_rejection(
            p.identity_update,
            p.commitment_updates is Some,
            sup@.len(),
        ) is None,
        ReflectionState::AwaitingCommitments(p, d, _, _, sup) => spec_reflection_decision(
            p.target_claim_id is Some,
            p.replacement_claim is Some,
        ) == Some(d) && p.commitment_updates is Some && self_model_update_rejection(
            p.identity_update,
            p.commitment_updates is Some,
            sup@.len(),
        ) is None,
        _ => true,
    }
}

/// The event answers the action that led to the state.
pub open spec fn reflection_fits(s: ReflectionState, e: ReflectionEvent) -> bool {
    match (s, e) {
        (ReflectionState::Starting(_), ReflectionEvent::Start(_, _)) => true,
        (ReflectionState::AwaitingEvidence(..), ReflectionEvent::QueriedEvidence(_)) => true,
        (
            ReflectionState::AwaitingEvidenceCheck(_, _, _, _, sup),
            ReflectionEvent::EvidenceKnown(known),
        ) => known@.len() == sup@.len(),
        (ReflectionState::AwaitingCommitments(..), ReflectionEvent::Commitments(_)) => true,
        _ => false,
    }
}

/// What one step of a reflection write does, state by state.
pub open spec fn reflection_stepped(
    s: ReflectionState,
    e: ReflectionEvent,
    next: ReflectionState,
    a: ReflectionAction,
) -> bool {
    match (s, e) {
        (ReflectionState::Starting(input), ReflectionEvent::Start(rid, at)) => {
            let p = parts_of(input);
            match spec_reflection_decision(
                input.spec_target_claim_id() is Some,
                input.spec_replacement_claim() is Some,
            ) {
                None => next is Done && (a matches ReflectionAction::Fail(err) && err is InvalidParams
                    && err.message_view()
                    == "replacement claim reflections require a target claim id"@),
                Some(d) => if input.spec_replacement_claim() is Some
                    || input.spec_identity_update() is Some
                    || input.spec_commitment_updates() is Some {
                    match input.spec_evidence_query() {
                        Some(q) => {
                            &&& next matches ReflectionState::AwaitingEvidence(p2, d2, rid2, at2, ex)
                                && p2 == p && d2 == d && rid2 == rid && at2 == at && texts(ex@)
                                == input.spec_evidence_event_ids()
                            &&& a == ReflectionAction::QueryEvidence(q)
                        },
                        None => after_supporting(
                            p,
                            d,
                            rid,
                            at,
                            dedup(input.spec_evidence_event_ids()),
                            next,
                            a,
                        ),
                    }
                } else {
                    after_supporting(p, d, rid, at, Seq::empty(), next, a)
                },
            }
        },
        (
            ReflectionState::AwaitingEvidence(p, d, rid, at, explicit),
            ReflectionEvent::QueriedEvidence(ids),
        ) => {
            if ids@.len() == 0 && explicit@.len() == 0 {
                next is Done && (a matches ReflectionAction::Fail(err) && err is InvalidParams
                    && err.message_view() == "no replacement evidence found for the provided query"@)
            } else {
                after_supporting(p, d, rid, at, dedup(texts(explicit@) + texts(ids@)), next, a)
            }
        },
        (
            ReflectionState::AwaitingEvidenceCheck(p, d, rid, at, sup),
            ReflectionEvent::EvidenceKnown(known),
        ) => match first_unknown(known@) {
            Some(i) => next is Done && (a matches ReflectionAction::Fail(err) && err is InvalidParams
                && err.message_view() == "unknown replacement evidence event id: "@ + sup@[i]@),
            None => after_checks(p, d, rid, at, texts(sup@), next, a),
        },
        (
            ReflectionState::AwaitingCommitments(p, d, rid, at, sup),
            ReflectionEvent::Commitments(existing),
        ) => commits(
            p,
            d,
            rid,
            at,
            texts(sup@),
            Some(
                preserved_commitments(
                    commitment_views(p.commitment_updates->0@),
                    commitment_views(existing@),
                ),
            ),
            next,
            a,
        ),
        _ => false,
    }
}

/// The first unknown position is the first `false`.
proof fn lemma_first_unknown(known: Seq<bool>, i: int)
    requires
        0 <= i <= known.len(),
        forall|j: int| 0 <= j < i ==> known[j],
        i < known.len() ==> !known[i],
    ensures
        first_unknown(known) == if i < known.len() {
            Some(i)
        } else {
            None::<int>
        },
    decreases known.len(),
{
    if known.len() > 0 && i > 0 {
        lemma_first_unknown(known.drop_first(), i - 1);
    }
}

/// A copy of a list of commitments.
fn copy_commitment_list(list: &[Commitment]) -> (r: Vec<Commitment>)
    ensures
        commitment_views(r@) == commitment_views(list@),
{
    let mut out: Vec<Commitment> = Vec::new();
    let mut i: usize = 0;
    while i < list.len()
        invariant
            i <= list@.len(),
            commitment_views(out@) == commitment_views(list@.take(i as int)),
        decreases list@.len() - i,
    {
        let ghost before = out@;
        let c = list[i].duplicate();
        out.push(c);
        proof {
            assert(list@.take(i + 1) =~= list@.take(i as int).push(list@[i as int]));
            assert(commitment_views(list@.take(i + 1)) =~= commitment_views(list@.take(i as int)).push(
                commitment_view(list@[i as int]),
            ));
            assert(commitment_views(out@) =~= commitment_views(before).push(commitment_view(c)));
            assert(commitment_views(out@) =~= commitment_views(list@.take(i + 1)));
        }
        i = i + 1;
    }
    assert(list@.take(list@.len() as int) =~= list@);
    out
}

/// Ends the write with `error`; nothing was written.
fn fail(error: AppError) -> (r: (ReflectionState, ReflectionAction))
    ensures
        r.0 is Done,
        r.1 == ReflectionAction::Fail(error),
{
    (ReflectionState::Done, ReflectionAction::Fail(error))
}

/// Plans the writes that commit the reflection.
fn plan(
    p: ReflectionParts,
    d: ReflectionDecision,
    rid: String,
    at: Timestamp,
    supporting: Vec<String>,
    commitments: Option<Vec<Commitment>>,
) -> (r: (ReflectionState, ReflectionAction))
    requires
        spec_reflection_decision(p.target_claim_id is Some, p.replacement_claim is Some) == Some(d),
    ensures
        commits(
            p,
            d,
            rid,
            at,
            texts(supporting@),
            opt_commitment_views(commitments),
            r.0,
            r.1,
        ),
{
    let ghost p0 = p;
    let ghost sup = texts(supporting@);
    let ghost cviews = opt_commitment_views(commitments);
    let ghost cid = rid@ + ":replacement"@;
    let ghost planned = planned_writes(p0, d, rid, at, sup, cviews);
    let ReflectionParts {
        reflection,
        target_claim_id,
        replacement_claim,
        identity_update,
        commitment_updates: _,
        handled_entry,
    } = p;
    let mut writes: Vec<ReflectionWrite> = Vec::new();
    let mut replacement_id: Option<String> = None;
    let ghost claim_part = if d is SupersedeWithReplacement {
        seq![WriteView::UpsertClaim(cid, p0.replacement_claim->0, ClaimStatus::Active)]
            + sup.map_values(|e: Seq<char>| WriteView::LinkEvidence(cid, e))
    } else {
        Seq::<WriteView>::empty()
    };
    if d == ReflectionDecision::SupersedeWithReplacement {
        match replacement_claim {
            Some(claim) => {
                match claim.validate(supporting.len()) {
                    Err(e) => {
                        return fail(AppError::from_domain(e));
                    },
                    Ok(()) => {},
                }
                let claim_id = replacement_claim_id(rid.as_str());
                writes.push(
                    ReflectionWrite::UpsertClaim(
                        StoredClaim::new(claim_id.clone(), claim, ClaimStatus::Active),
                    ),
                );
                let mut i: usize = 0;
                while i < supporting.len()
                    invariant
                        i <= supporting@.len(),
                        sup == texts(supporting@),
                        claim_id@ == cid,
                        writes_view(writes@) == seq![
                            WriteView::UpsertClaim(cid, p0.replacement_claim->0, ClaimStatus::Active),
                        ] + sup.take(i as int).map_values(
                            |e: Seq<char>| WriteView::LinkEvidence(cid, e),
                        ),
                    decreases supporting@.len() - i,
                {
                    let ghost before = writes@;
                    let w = ReflectionWrite::LinkEvidence(claim_id.clone(), supporting[i].clone());
                    assert(write_view(w) == WriteView::LinkEvidence(cid, sup[i as int]));
                    writes.push(w);
                    proof {
                        assert(sup.take(i + 1) =~= sup.take(i as int).push(sup[i as int]));
                        assert(writes_view(writes@) =~= writes_view(before).push(write_view(w)));
                        assert(writes_view(writes@) =~= seq![
                            WriteView::UpsertClaim(cid, p0.replacement_claim->0, ClaimStatus::Active),
                        ] + sup.take(i + 1).map_values(
                            |e: Seq<char>| WriteView::LinkEvidence(cid, e),
                        ));
                    }
                    i = i + 1;
                }
                assert(sup.take(sup.len() as int) =~= sup);
                replacement_id = Some(claim_id);
            },
            None => {
                return fail(AppError::internal("superseding reflections require a replacement claim"));
            },
        }
    } else {
        assert(writes_view(writes@) =~= claim_part);
    }
    assert(writes_view(writes@) =~= claim_part);
    let ghost before_identity = writes_view(writes@);
    match &identity_update {
        Some(u) => {
            writes.push(
                ReflectionWrite::ReplaceIdentity(
                    IdentityCore::new(copy_strings(u.canonical_claims.as_slice())),
                ),
            );
        },
        None => {},
    }
    let ghost identity_part = match p0.identity_update {
        Some(u) => seq![WriteView::ReplaceIdentity(texts(u.canonical_claims@))],
        None => Seq::<WriteView>::empty(),
    };
    assert(writes_view(writes@) =~= claim_part + identity_part);
    match &commitments {
        Some(cs) => {
            writes.push(ReflectionWrite::ReplaceCommitments(copy_commitment_list(cs.as_slice())));
        },
        None => {},
    }
    let ghost commitment_part = match cviews {
        Some(cs) => seq![WriteView::ReplaceCommitments(cs)],
        None => Seq::<WriteView>::empty(),
    };
    assert(writes_view(writes@) =~= claim_part + identity_part + commitment_part);
    let superseded = crate::seqs::copy_opt_string(&target_claim_id);
    let replacement_copy = crate::seqs::copy_opt_string(&replacement_id);
    let record = StoredReflection {
        reflection_id: rid.clone(),
        recorded_at: at,
        reflection,
        superseded_claim_id: superseded,
        replacement_claim_id: replacement_copy,
        supporting_evidence_event_ids: supporting,
        requested_identity_update: identity_update,
        requested_commitment_updates: commitments,
    };
    writes.push(ReflectionWrite::AppendReflection(record));
    let ghost record_view = WriteView::AppendReflection(
        ReflectionRecordView {
            id: rid@,
            recorded_at: at,
            reflection: p0.reflection,
            superseded: opt_text(p0.target_claim_id),
            replacement: if d is SupersedeWithReplacement {
                Some(cid)
            } else {
                None
            },
            supporting: sup,
            identity: identity_view(p0.identity_update),
            commitments: cviews,
        },
    );
    assert(writes_view(writes@) =~= claim_part + identity_part + commitment_part + seq![record_view]);
    match handled_entry {
        Some(h) => {
            let mut entry = h;
            entry.reflection_id = Some(rid.clone());
            writes.push(ReflectionWrite::AppendTriggerLedger(entry));
        },
        None => {},
    }
    let ghost ledger_part = match p0.handled_entry {
        Some(h) => seq![
            WriteView::AppendTriggerLedger(
                StoredTriggerLedgerEntry { reflection_id: Some(rid), ..h },
            ),
        ],
        None => Seq::<WriteView>::empty(),
    };
    assert(writes_view(writes@) =~= claim_part + identity_part + commitment_part + seq![record_view]
        + ledger_part);
    match target_status_after(d) {
        Some(status) => match target_claim_id {
            Some(t) => {
                writes.push(ReflectionWrite::UpdateClaimStatus(t, status));
            },
            None => {
                return fail(AppError::internal("reflections that revise a claim require a target claim id"));
            },
        },
        None => {},
    }
    assert(writes_view(writes@) =~= planned);
    (
        ReflectionState::Done,
        ReflectionAction::Commit(
            writes,
            ReflectionResult { reflection_id: rid, replacement_claim_id: replacement_id },
        ),
    )
}

/// The step once the evidence is known to exist.
fn go_after_checks(
    p: ReflectionParts,
    d: ReflectionDecision,
    rid: String,
    at: Timestamp,
    supporting: Vec<String>,
) -> (r: (ReflectionState, ReflectionAction))
    requires
        spec_reflection_decision(p.target_claim_id is Some, p.replacement_claim is Some) == Some(d),
        self_model_update_rejection(p.identity_update, p.commitment_updates is Some, supporting@.len())
            is None,
    ensures
        after_checks(p, d, rid, at, texts(supporting@), r.0, r.1),
        reflection_state_ok(r.0),
{
    if p.commitment_updates.is_some() {
        (
            ReflectionState::AwaitingCommitments(p, d, rid, at, supporting),
            ReflectionAction::LoadCommitments,
        )
    } else {
        plan(p, d, rid, at, supporting, None)
    }
}

/// The step once the supporting evidence is resolved.
fn go_after_supporting(
    p: ReflectionParts,
    d: ReflectionDecision,
    rid: String,
    at: Timestamp,
    supporting: Vec<String>,
) -> (r: (ReflectionState, ReflectionAction))
    requires
        spec_reflection_decision(p.target_claim_id is Some, p.replacement_claim is Some) == Some(d),
    ensures
        after_supporting(p, d, rid, at, texts(supporting@), r.0, r.1),
        reflection_state_ok(r.0),
{
    match check_self_model_updates(&p.identity_update, p.commitment_updates.is_some(), supporting.len()) {
        Err(e) => fail(e),
        Ok(()) => {
            if supporting.len() > 0 {
                let ids = copy_strings(supporting.as_slice());
                (
                    ReflectionState::AwaitingEvidenceCheck(p, d, rid, at, supporting),
                    ReflectionAction::CheckEvidence(ids),
                )
            } else {
                go_after_checks(p, d, rid, at, supporting)
            }
        },
    }
}

/// One step of a reflection write: from where it stands and what the last
/// action was answered, where it stands next and what to do.
pub fn reflection_step(s: ReflectionState, e: ReflectionEvent) -> (r: (ReflectionState, ReflectionAction))
    requires
        reflection_state_ok(s),
        reflection_fits(s, e),
    ensures
        reflection_stepped(s, e, r.0, r.1),
        reflection_state_ok(r.0),
{
    match s {
        ReflectionState::Starting(input) => match e {
            ReflectionEvent::Start(rid, at) => {
                let (
                    reflection,
                    target_claim_id,
                    replacement_claim,
                    explicit,
                    query,
                    identity_update,
                    commitment_updates,
                    handled_entry,
                ) = input.into_parts();
                let d = match decide_reflection(target_claim_id.is_some(), replacement_claim.is_some()) {
                    Err(err) => {
                        return fail(err);
                    },
                    Ok(d) => d,
                };
                let needs_evidence = replacement_claim.is_some() || identity_update.is_some()
                    || commitment_updates.is_some();
                let p = ReflectionParts {
                    reflection,
                    target_claim_id,
                    replacement_claim,
                    identity_update,
                    commitment_updates,
                    handled_entry,
                };
                if needs_evidence {
                    match query {
                        Some(q) => (
                            ReflectionState::AwaitingEvidence(p, d, rid, at, explicit),
                            ReflectionAction::QueryEvidence(q),
                        ),
                        None => match merge_evidence_event_ids(explicit, None) {
                            Ok(sup) => go_after_supporting(p, d, rid, at, sup),
                            Err(err) => fail(err),
                        },
                    }
                } else {
                    let none: Vec<String> = Vec::new();
                    assert(texts(none@) =~= Seq::<Seq<char>>::empty());
                    go_after_supporting(p, d, rid, at, none)
                }
            },
            _ => fail(AppError::internal("reflection step out of order")),
        },
        ReflectionState::AwaitingEvidence(p, d, rid, at, explicit) => match e {
            ReflectionEvent::QueriedEvidence(ids) => match merge_evidence_event_ids(explicit, Some(ids)) {
                Ok(sup) => go_after_supporting(p, d, rid, at, sup),
                Err(err) => fail(err),
            },
            _ => fail(AppError::internal("reflection step out of order")),
        },
        ReflectionState::AwaitingEvidenceCheck(p, d, rid, at, sup) => match e {
            ReflectionEvent::EvidenceKnown(known) => {
                let mut i: usize = 0;
                while i < known.len()
                    invariant
                        s == ReflectionState::AwaitingEvidenceCheck(p, d, rid, at, sup),
                        e == ReflectionEvent::EvidenceKnown(known),
                        i <= known@.len(),
                        known@.len() == sup@.len(),
                        forall|j: int| 0 <= j < i ==> known@[j],
                    decreases known@.len() - i,
                {
                    if !known[i] {
                        proof {
                            lemma_first_unknown(known@, i as int);
                        }
                        let mut m = crate::text::owned("unknown replacement evidence event id: ");
                        m.append(sup[i].as_str());
                        return fail(AppError::InvalidParams(m));
                    }
                    i = i + 1;
                }
                proof {
                    lemma_first_unknown(known@, i as int);
                }
                go_after_checks(p, d, rid, at, sup)
            },
            _ => fail(AppError::internal("reflection step out of order")),
        },
        ReflectionState::AwaitingCommitments(p, d, rid, at, sup) => match e {
            ReflectionEvent::Commitments(existing) => {
                let mut p = p;
                let requested = match p.commitment_updates.take() {
                    Some(cs) => cs,
                    None => Vec::new(),
                };
                let preserved = preserve_baseline_commitments(requested, existing);
                plan(p, d, rid, at, sup, Some(preserved))
            },
            _ => fail(AppError::internal("reflection step out of order")),
        },
        ReflectionState::Done => fail(AppError::internal("reflection step out of order")),
    }
}

/// Where the reflection record and the commitment replacement stand among
/// the planned writes.
proof fn lemma_planned_layout(
    p: ReflectionParts,
    d: ReflectionDecision,
    rid: String,
    at: Timestamp,
    sup: Seq<Seq<char>>,
    cv: Option<Seq<(Owner, Seq<char>)>>,
) -> (k: int)
    ensures
        0 <= k < planned_writes(p, d, rid, at, sup, cv).len(),
        planned_writes(p, d, rid, at, sup, cv)[k] matches WriteView::AppendReflection(rec) && rec.supporting
            == sup && rec.identity == identity_view(p.identity_update) && rec.commitments == cv,
        cv matches Some(cs) ==> k >= 1 && planned_writes(p, d, rid, at, sup, cv)[k - 1]
            == WriteView::ReplaceCommitments(cs),
{
    let cid = rid@ + ":replacement"@;
    let claim_part = if d is SupersedeWithReplacement {
        seq![WriteView::UpsertClaim(cid, p.replacement_claim->0, ClaimStatus::Active)]
            + sup.map_values(|e: Seq<char>| WriteView::LinkEvidence(cid, e))
    } else {
        Seq::<WriteView>::empty()
    };
    let identity_part = match p.identity_update {
        Some(u) => seq![WriteView::ReplaceIdentity(texts(u.canonical_claims@))],
        None => Seq::<WriteView>::empty(),
    };
    let commitment_part = match cv {
        Some(cs) => seq![WriteView::ReplaceCommitments(cs)],
        None => Seq::<WriteView>::empty(),
    };
    let k: int = (claim_part.len() + identity_part.len() + commitment_part.len()) as int;
    let w = planned_writes(p, d, rid, at, sup, cv);
    assert(w[k] is AppendReflection);
    if cv is Some {
        assert(w[k - 1] == commitment_part[0]);
    }
    k
}

/// A write ends with what it answers: after a step that fails or commits,
/// the write is done.
pub proof fn lemma_answering_ends_the_write(
    s: ReflectionState,
    e: ReflectionEvent,
    next: ReflectionState,
    a: ReflectionAction,
)
    requires
        reflection_stepped(s, e, next, a),
        a is Fail || a is Commit,
    ensures
        next is Done,
{
}

/// Self-model updates rest on evidence: a committed reflection that carries
/// an identity or commitment update records at least one supporting event.
pub proof fn lemma_self_model_updates_rest_on_evidence(
    s: ReflectionState,
    e: ReflectionEvent,
    next: ReflectionState,
    a: ReflectionAction,
)
    requires
        reflection_state_ok(s),
        reflection_stepped(s, e, next, a),
        a is Commit,
    ensures
        exists|k: int|
            0 <= k < writes_view(a->Commit_0@).len() && ((#[trigger] writes_view(a->Commit_0@)[k]) matches WriteView::AppendReflection(rec)
                && (rec.identity is Some || rec.commitments is Some ==> rec.supporting.len() > 0)),
{
    match (s, e) {
        (ReflectionState::Starting(input), ReflectionEvent::Start(rid, at)) => {
            let p = parts_of(input);
            let d = spec_reflection_decision(
                input.spec_target_claim_id() is Some,
                input.spec_replacement_claim() is Some,
            )->0;
            let sup = if input.spec_replacement_claim() is Some || input.spec_identity_update() is Some
                || input.spec_commitment_updates() is Some {
                dedup(input.spec_evidence_event_ids())
            } else {
                Seq::empty()
            };
            let k = lemma_planned_layout(p, d, rid, at, sup, None);
            assert(writes_view(a->Commit_0@)[k] is AppendReflection);
        },
        (
            ReflectionState::AwaitingEvidence(p, d, rid, at, explicit),
            ReflectionEvent::QueriedEvidence(ids),
        ) => {
            let sup = dedup(texts(explicit@) + texts(ids@));
            let k = lemma_planned_layout(p, d, rid, at, sup, None);
            assert(writes_view(a->Commit_0@)[k] is AppendReflection);
        },
        (
            ReflectionState::AwaitingEvidenceCheck(p, d, rid, at, sup),
            ReflectionEvent::EvidenceKnown(known),
        ) => {
            let k = lemma_planned_layout(p, d, rid, at, texts(sup@), None);
            assert(writes_view(a->Commit_0@)[k] is AppendReflection);
        },
        (
            ReflectionState::AwaitingCommitments(p, d, rid, at, sup),
            ReflectionEvent::Commitments(existing),
        ) => {
            let cv = Some(
                preserved_commitments(
                    commitment_views(p.commitment_updates->0@),
                    commitment_views(existing@),
                ),
            );
            let k = lemma_planned_layout(p, d, rid, at, texts(sup@), cv);
            assert(writes_view(a->Commit_0@)[k] is AppendReflection);
        },
        _ => {},
    }
}

/// The baseline commitment survives every commitment update: the
/// commitments a reflection writes hold each baseline commitment that
/// existed before it.
pub proof fn lemma_baseline_commitment_survives_reflection(
    p: ReflectionParts,
    d: ReflectionDecision,
    rid: String,
    at: Timestamp,
    sup: Vec<String>,
    existing: Vec<Commitment>,
    next: ReflectionState,
    a: ReflectionAction,
)
    requires
        reflection_stepped(
            ReflectionState::AwaitingCommitments(p, d, rid, at, sup),
            ReflectionEvent::Commitments(existing),
            next,
            a,
        ),
        a is Commit,
    ensures
        exists|k: int|
            0 <= k < writes_view(a->Commit_0@).len() && ((#[trigger] writes_view(a->Commit_0@)[k]) matches WriteView::ReplaceCommitments(cs)
                && forall|c: (Owner, Seq<char>)|
                #![trigger commitment_views(existing@).contains(c)]
                commitment_views(existing@).contains(c) && is_baseline(c) ==> cs.contains(c)),
{
    let requested = commitment_views(p.commitment_updates->0@);
    let cv = Some(preserved_commitments(requested, commitment_views(existing@)));
    let k = lemma_planned_layout(p, d, rid, at, texts(sup@), cv);
    crate::application::run_reflection::lemma_baseline_commitments_preserved(
        requested,
        commitment_views(existing@),
    );
    assert(writes_view(a->Commit_0@)[k - 1] is ReplaceCommitments);
}

} // verus!
