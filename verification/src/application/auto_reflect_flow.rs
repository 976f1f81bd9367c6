//! The course of an automatic reflection run, as a machine that takes what
//! the stores, the clock and the model answered and says what to do next.
//! Whoever runs it performs each action and hands back the answer.
use vstd::prelude::*;

use crate::application::auto_reflect_if_needed::{
    auto_reflection_input, detect_trigger_candidate, entry_for, evaluate_trigger_suppression,
    governed_window_query, handled_result, handled_trigger_entry,
    lemma_governed_window_within_trigger_window, preserved_cooldown, preserved_reflection_id,
    query_constraint, rejected_result, rejected_trigger_entry, resolve_governed_evidence_window,
    revision_snapshot_budget, self_commitments, self_revision_rejection, skipped_result,
    spec_governed_window, spec_should_consider, spec_suppression, suppressed_result,
    suppressed_trigger_entry, trigger_key_text, trigger_window_query, validate_self_revision,
    AutoReflectInput, AutoReflectResult, RecursionGuard, TriggerCandidate,
    AUTO_REFLECTION_COOLDOWN_HOURS, TRIGGER_WINDOW_LIMIT,
};
use crate::application::identity_governance::{
    build_identity_revision_context, count_supporting, has_conflict, proposed_claim_values,
    proposed_identity_claims, proposed_values, spec_context_cooldown, spec_latest_handled_at,
    supporting_claim_ids, supporting_ids, IdentityRevisionContext,
};
use crate::application::run_reflection::{commitment_views, ReflectionInput};
use crate::domain::error::AppError;
use crate::domain::self_revision::{SelfRevisionProposal, SelfRevisionRequest, TriggerType};
use crate::domain::snapshot::SelfSnapshot;
use crate::domain::time::{plus_hours, Timestamp};
use crate::domain::types::{opt_namespace, owner_of_namespace, EventKind, MemoryScope};
use crate::ports::{EvidenceQuery, StoredClaim, StoredTriggerLedgerEntry, TriggerLedgerStatus};
use crate::seqs::{copy_strings, dedup, texts};

verus! {

/// A reading of the clock and a fresh id, for a ledger entry the next action
/// may write.
#[derive(Debug)]
pub struct Stamp {
    pub now: Timestamp,
    pub ledger_id: String,
}

/// The clock reading leaves room for a 24-hour cooldown after it.
pub open spec fn stamp_ok(s: Stamp) -> bool {
    s.now.secs + AUTO_REFLECTION_COOLDOWN_HOURS * 3600 <= i64::MAX
}

/// Where a run stands.
#[derive(Debug)]
pub enum AutoReflectState {
    /// Nothing has been done yet.
    Starting(AutoReflectInput),
    /// Waiting for the trigger window and the episode references.
    AwaitingTriggerWindow(AutoReflectInput),
    /// Waiting for the ledger of the candidate's key.
    AwaitingLedger(TriggerCandidate),
    /// Waiting for the snapshot the model revises.
    AwaitingSnapshot(TriggerCandidate),
    /// Waiting for the model's proposal.
    AwaitingProposal(TriggerCandidate),
    /// Waiting for the ids that the proposal's evidence query matches.
    AwaitingGovernedIds(TriggerCandidate, SelfRevisionProposal),
    /// Waiting for the active claims and the latest entry of the key that
    /// identity governance reads; the governed evidence.
    AwaitingIdentityContext(TriggerCandidate, SelfRevisionProposal, Vec<String>),
    /// Waiting for the episodes of the supporting claims; the governed
    /// evidence, the active claims and the latest entry of the key.
    AwaitingSupportingEpisodes(
        TriggerCandidate,
        SelfRevisionProposal,
        Vec<String>,
        Vec<StoredClaim>,
        Option<StoredTriggerLedgerEntry>,
    ),
    /// Waiting for the reflection to be written; the governed evidence and
    /// the cooldown its handled entry starts.
    AwaitingReflection(TriggerCandidate, Vec<String>, Option<Timestamp>),
    /// The run has ended.
    Done,
}

/// What was answered to the last action.
#[derive(Debug)]
pub enum AutoReflectEvent {
    /// The run begins.
    Start,
    /// The trigger window's evidence ids and the references of the episodes
    /// in its scope.
    TriggerWindow(Vec<String>, Vec<String>),
    /// The latest entry of the key, its latest handled entry, and a stamp.
    Ledger(Option<StoredTriggerLedgerEntry>, Option<StoredTriggerLedgerEntry>, Stamp),
    /// The snapshot built for the revision.
    Snapshot(SelfSnapshot),
    /// The model's proposal, and a stamp.
    Proposal(SelfRevisionProposal, Stamp),
    /// The ids the proposal's evidence query matched, and a stamp.
    GovernedIds(Vec<String>, Stamp),
    /// The active claims and the latest entry of the key.
    IdentityContext(Vec<StoredClaim>, Option<StoredTriggerLedgerEntry>),
    /// The references of the episodes that hold evidence of the supporting
    /// claims, and a stamp.
    SupportingEpisodes(Vec<String>, Stamp),
    /// The id of the written reflection, or why writing it failed; a stamp.
    Reflected(Result<String, AppError>, Stamp),
}

/// What to do next.
#[derive(Debug)]
pub enum AutoReflectAction {
    /// Return this outcome.
    Return(Result<AutoReflectResult, AppError>),
    /// Read the evidence ids this query selects, and the references of the
    /// episodes with an event in this scope.
    QueryTriggerWindow(EvidenceQuery, MemoryScope),
    /// Read the latest and the latest handled ledger entries of this key.
    ReadLedger(String),
    /// Build a self snapshot with this evidence budget.
    BuildSnapshot(usize),
    /// Ask the model for a self-revision proposal.
    Propose(SelfRevisionRequest),
    /// Read, without a limit, the evidence ids this query selects.
    QueryGovernedWindow(EvidenceQuery),
    /// Read the active claims and the latest entry of this key.
    ReadIdentityContext(String),
    /// Read the references of the episodes that hold evidence of these
    /// claims (through their evidence links), each once.
    ReadSupportingEpisodes(Vec<String>),
    /// Write this reflection.
    RunReflection(ReflectionInput),
    /// Record this ledger entry, then return this outcome.
    RecordAndReturn(StoredTriggerLedgerEntry, Result<AutoReflectResult, AppError>),
}

/// The event answers the action that led to the state.
pub open spec fn fits(s: AutoReflectState, e: AutoReflectEvent) -> bool {
    match (s, e) {
        (AutoReflectState::Starting(_), AutoReflectEvent::Start) => true,
        (AutoReflectState::AwaitingTriggerWindow(_), AutoReflectEvent::TriggerWindow(_, _)) => true,
        (AutoReflectState::AwaitingLedger(_), AutoReflectEvent::Ledger(_, _, st)) => stamp_ok(st),
        (AutoReflectState::AwaitingSnapshot(_), AutoReflectEvent::Snapshot(_)) => true,
        (AutoReflectState::AwaitingProposal(_), AutoReflectEvent::Proposal(_, st)) => stamp_ok(st),
        (AutoReflectState::AwaitingGovernedIds(_, _), AutoReflectEvent::GovernedIds(_, st)) => stamp_ok(
            st,
        ),
        (AutoReflectState::AwaitingIdentityContext(_, _, _), AutoReflectEvent::IdentityContext(_, _)) => true,
        (
            AutoReflectState::AwaitingSupportingEpisodes(_, _, _, _, _),
            AutoReflectEvent::SupportingEpisodes(_, st),
        ) => stamp_ok(st),
        (AutoReflectState::AwaitingReflection(_, _, _), AutoReflectEvent::Reflected(_, st)) => stamp_ok(
            st,
        ),
        _ => false,
    }
}

/// The query that reads a trigger window of type `t` in namespace `ns`: the
/// five latest events of the namespace with its owner, only actions for a
/// failure.
pub open spec fn is_window_query(q: EvidenceQuery, t: TriggerType, ns: Seq<char>) -> bool {
    &&& opt_namespace(q.namespace) == Some(ns)
    &&& q.owner == Some(owner_of_namespace(ns))
    &&& q.limit == Some(TRIGGER_WINDOW_LIMIT)
    &&& q.recorded_after is None
    &&& q.recorded_before is None
    &&& q.event_id_prefix is None
    &&& t is Failure ==> q.kind == Some(EventKind::Action)
    &&& !(t is Failure) ==> q.kind is None
}

/// `c` is the candidate detected for `input` from the trigger window and the
/// episode references.
pub open spec fn detected_from(
    c: TriggerCandidate,
    input: AutoReflectInput,
    evidence: Vec<String>,
    episodes: Seq<Seq<char>>,
) -> bool {
    &&& c.trigger_type == input.trigger_type
    &&& c.namespace@ == input.namespace@
    &&& texts(c.trigger_hints@) == texts(input.trigger_hints@)
    &&& c.well_keyed()
    &&& c.evidence_event_ids == evidence
    &&& c.episode_watermark == Some(dedup(episodes).len() as u64)
    &&& c.should_consider == spec_should_consider(
        input.trigger_type,
        texts(input.trigger_hints@),
        evidence@.len(),
        dedup(episodes).len(),
    )
}

/// `entry` is the rejected entry of `c` written with stamp `st`: no
/// reflection, no cooldown.
pub open spec fn rejected_entry(entry: StoredTriggerLedgerEntry, c: TriggerCandidate, st: Stamp) -> bool {
    &&& entry.ledger_id == st.ledger_id
    &&& entry_for(
        entry,
        c,
        texts(c.evidence_event_ids@),
        TriggerLedgerStatus::Rejected,
        None,
        None,
        st.now,
    )
}

/// `a` records the rejection of `c` and returns `error`, and the run ends.
pub open spec fn rejects_with(
    next: AutoReflectState,
    a: AutoReflectAction,
    c: TriggerCandidate,
    st: Stamp,
    error: Seq<char>,
) -> bool {
    &&& next is Done
    &&& a matches AutoReflectAction::RecordAndReturn(entry, Err(e)) && rejected_entry(entry, c, st)
        && e is InvalidParams && e.message_view() == error
}

/// Why governance turns down a proposal without an identity patch, if it
/// does.
pub open spec fn commitment_rejection(
    proposal: SelfRevisionProposal,
    governed_evidence_count: nat,
) -> Option<Seq<char>> {
    if proposal.machine_patch.commitment_patch is Some && governed_evidence_count == 0 {
        Some("commitment auto-reflection updates require supporting evidence"@)
    } else if proposal.machine_patch.commitment_patch matches Some(cp) && cp.commitments@.len()
        == 0 {
        Some("commitment auto-reflection patch must include at least one commitment"@)
    } else if proposal.machine_patch.identity_patch is None
        && proposal.machine_patch.commitment_patch is None {
        Some("auto-reflection proposals must include at least one governed patch"@)
    } else {
        None
    }
}

/// The step after governance: with `rejection`, the proposal is turned down
/// and recorded as rejected; without, the reflection is written with the
/// governed evidence and a handled entry that starts a 24-hour cooldown.
pub open spec fn after_governance(
    c: TriggerCandidate,
    p: SelfRevisionProposal,
    governed: Seq<Seq<char>>,
    rejection: Option<Seq<char>>,
    st: Stamp,
    next: AutoReflectState,
    a: AutoReflectAction,
) -> bool {
    match rejection {
        Some(msg) => rejects_with(next, a, c, st, msg),
        None => {
            &&& next matches AutoReflectState::AwaitingReflection(c2, g2, cd) && c2 == c && texts(
                g2@,
            ) == governed && cd == Some(plus_hours(st.now, AUTO_REFLECTION_COOLDOWN_HOURS as int))
            &&& a matches AutoReflectAction::RunReflection(ri) && {
                &&& ri.spec_reflection().spec_summary() == p.rationale@
                &&& ri.spec_target_claim_id() is None
                &&& ri.spec_replacement_claim() is None
                &&& ri.spec_evidence_event_ids() == governed
                &&& ri.spec_evidence_query() is None
                &&& ri.spec_handled_entry() matches Some(h) && h.ledger_id == st.ledger_id
                    && entry_for(
                    h,
                    c,
                    texts(c.evidence_event_ids@),
                    TriggerLedgerStatus::Handled,
                    None,
                    None,
                    st.now,
                )
                &&& match ri.spec_identity_update() {
                    Some(u) => p.machine_patch.identity_patch is Some && texts(
                        u.canonical_claims@,
                    ) == proposed_identity_claims(p),
                    None => p.machine_patch.identity_patch is None,
                }
                &&& match (ri.spec_commitment_updates(), p.machine_patch.commitment_patch) {
                    (Some(cs), Some(cp)) => commitment_views(cs@) == self_commitments(
                        texts(cp.commitments@),
                    ),
                    (None, None) => true,
                    _ => false,
                }
            }
        },
    }
}

/// The step once the proposal's evidence is known: a window that governance
/// refuses is recorded as a rejection; otherwise identity governance reads
/// its context first when there is an identity patch.
pub open spec fn after_window(
    c: TriggerCandidate,
    p: SelfRevisionProposal,
    queried: Option<Vec<String>>,
    st: Stamp,
    next: AutoReflectState,
    a: AutoReflectAction,
) -> bool {
    match spec_governed_window(
        texts(c.evidence_event_ids@),
        texts(p.proposed_evidence_event_ids@),
        query_constraint(p, queried),
    ) {
        Err(msg) => rejects_with(next, a, c, st, msg),
        Ok(g) => if p.machine_patch.identity_patch is Some {
            &&& next matches AutoReflectState::AwaitingIdentityContext(c2, p2, g2) && c2 == c && p2
                == p && texts(g2@) == g
            &&& a matches AutoReflectAction::ReadIdentityContext(k) && k@ == c.trigger_key@
        } else {
            after_governance(c, p, g, commitment_rejection(p, g.len()), st, next, a)
        },
    }
}

/// `ctx` is the identity-governance context of `p` for `c`, read from the
/// active claims, the latest entry of the key, the episodes of the
/// supporting claims and the time.
pub open spec fn context_of(
    ctx: IdentityRevisionContext,
    c: TriggerCandidate,
    p: SelfRevisionProposal,
    claims: Seq<StoredClaim>,
    latest: Option<StoredTriggerLedgerEntry>,
    episodes: Seq<Seq<char>>,
    now: Timestamp,
) -> bool {
    &&& texts(ctx.proposed_values@) == proposed_values(p)
    &&& ctx.supporting_claim_count == count_supporting(claims, c.namespace@, proposed_values(p))
    &&& ctx.cross_episode_support_count == dedup(episodes).len()
    &&& ctx.has_high_conflict == has_conflict(claims, c.namespace@, proposed_values(p))
    &&& ctx.now == now
    &&& ctx.latest_handled_at == spec_latest_handled_at(latest)
    &&& ctx.cooldown_until == spec_context_cooldown(latest)
    &&& ctx.patch_size == proposed_identity_claims(p).len()
}

/// What one step does, state by state.
pub open spec fn stepped(
    s: AutoReflectState,
    e: AutoReflectEvent,
    next: AutoReflectState,
    a: AutoReflectAction,
) -> bool {
    match (s, e) {
        (AutoReflectState::Starting(input), AutoReflectEvent::Start) => {
            if input.recursion_guard == RecursionGuard::SkipAutoReflection {
                &&& next is Done
                &&& a matches AutoReflectAction::Return(Ok(res)) && skipped_result(
                    res,
                    input,
                    "recursion guard enabled"@,
                )
            } else {
                &&& next == AutoReflectState::AwaitingTriggerWindow(input)
                &&& a matches AutoReflectAction::QueryTriggerWindow(q, scope) && is_window_query(
                    q,
                    input.trigger_type,
                    input.namespace@,
                ) && scope.spec_namespace() == Some(input.namespace@) && scope.spec_owner() == Some(
                    owner_of_namespace(input.namespace@),
                )
            }
        },
        (
            AutoReflectState::AwaitingTriggerWindow(input),
            AutoReflectEvent::TriggerWindow(evidence, episodes),
        ) => {
            if spec_should_consider(
                input.trigger_type,
                texts(input.trigger_hints@),
                evidence@.len(),
                dedup(texts(episodes@)).len(),
            ) {
                &&& next matches AutoReflectState::AwaitingLedger(c) && detected_from(
                    c,
                    input,
                    evidence,
                    texts(episodes@),
                )
                &&& a matches AutoReflectAction::ReadLedger(k) && k@ == trigger_key_text(
                    input.namespace@,
                    input.trigger_type,
                )
            } else {
                &&& next is Done
                &&& a matches AutoReflectAction::Return(Ok(res)) && !res.triggered
                    && res.ledger_status is None && res.reflection_id is None
                    && res.trigger_type == Some(input.trigger_type) && texts(
                    res.evidence_event_ids@,
                ) == texts(evidence@)
            }
        },
        (AutoReflectState::AwaitingLedger(c), AutoReflectEvent::Ledger(latest, handled, st)) => {
            match spec_suppression(c, latest, handled, st.now) {
                Some(reason) => {
                    &&& next is Done
                    &&& a matches AutoReflectAction::RecordAndReturn(entry, Ok(res))
                        && entry.ledger_id == st.ledger_id && entry_for(
                        entry,
                        c,
                        texts(c.evidence_event_ids@),
                        TriggerLedgerStatus::Suppressed,
                        preserved_reflection_id(latest, handled),
                        preserved_cooldown(latest, st.now),
                        st.now,
                    ) && suppressed_result(res, c, entry, reason)
                },
                None => {
                    &&& next == AutoReflectState::AwaitingSnapshot(c)
                    &&& a matches AutoReflectAction::BuildSnapshot(b) && b == if c.evidence_event_ids@.len()
                        < 3 {
                        3
                    } else {
                        c.evidence_event_ids@.len()
                    }
                },
            }
        },
        (AutoReflectState::AwaitingSnapshot(c), AutoReflectEvent::Snapshot(snapshot)) => {
            &&& next == AutoReflectState::AwaitingProposal(c)
            &&& a matches AutoReflectAction::Propose(req) && req.trigger_type == c.trigger_type
                && req.namespace@ == c.namespace@ && req.snapshot == snapshot && texts(
                req.evidence_event_ids@,
            ) == texts(c.evidence_event_ids@) && texts(req.trigger_hints@) == texts(
                c.trigger_hints@,
            )
        },
        (AutoReflectState::AwaitingProposal(c), AutoReflectEvent::Proposal(p, st)) => {
            if !p.should_reflect {
                &&& next is Done
                &&& a matches AutoReflectAction::RecordAndReturn(entry, Ok(res)) && rejected_entry(
                    entry,
                    c,
                    st,
                ) && rejected_result(res, c, p.rationale@)
            } else if p.proposed_evidence_query is Some {
                &&& next == AutoReflectState::AwaitingGovernedIds(c, p)
                &&& a matches AutoReflectAction::QueryGovernedWindow(q) && q.owner
                    == p.proposed_evidence_query->0.owner && q.kind
                    == p.proposed_evidence_query->0.kind && q.limit is None
            } else {
                after_window(c, p, None, st, next, a)
            }
        },
        (AutoReflectState::AwaitingGovernedIds(c, p), AutoReflectEvent::GovernedIds(ids, st)) => {
            after_window(c, p, Some(ids), st, next, a)
        },
        (AutoReflectState::AwaitingIdentityContext(c, p, g), AutoReflectEvent::IdentityContext(claims, latest)) => {
            &&& next matches AutoReflectState::AwaitingSupportingEpisodes(c2, p2, g2, claims2, latest2)
                && c2 == c && p2 == p && g2 == g && claims2 == claims && latest2 == latest
            &&& a matches AutoReflectAction::ReadSupportingEpisodes(ids) && texts(ids@)
                == supporting_ids(claims@, c.namespace@, proposed_values(p))
        },
        (
            AutoReflectState::AwaitingSupportingEpisodes(c, p, g, claims, latest),
            AutoReflectEvent::SupportingEpisodes(episodes, st),
        ) => {
            exists|ctx: IdentityRevisionContext|
                context_of(ctx, c, p, claims@, latest, texts(episodes@), st.now) && after_governance(
                    c,
                    p,
                    texts(g@),
                    self_revision_rejection(p, g@.len(), ctx),
                    st,
                    next,
                    a,
                )
        },
        (AutoReflectState::AwaitingReflection(c, g, cd), AutoReflectEvent::Reflected(res, st)) => {
            &&& next is Done
            &&& match res {
                Ok(rid) => a matches AutoReflectAction::Return(Ok(r)) && handled_result(
                    r,
                    c,
                    texts(g@),
                    rid@,
                    cd,
                ),
                Err(err) => a matches AutoReflectAction::RecordAndReturn(entry, Err(e2))
                    && rejected_entry(entry, c, st) && e2 == err,
            }
        },
        _ => false,
    }
}

/// Ends the run with the rejection of `c` recorded, returning `error`.
fn reject(c: &TriggerCandidate, st: Stamp, error: AppError) -> (r: (AutoReflectState, AutoReflectAction))
    ensures
        r.0 is Done,
        r.1 matches AutoReflectAction::RecordAndReturn(entry, Err(e)) && rejected_entry(entry, *c, st)
            && e == error,
{
    let entry = rejected_trigger_entry(st.ledger_id, c, st.now);
    (AutoReflectState::Done, AutoReflectAction::RecordAndReturn(entry, Err(error)))
}

/// Governance of a proposal whose evidence is `governed`, with the identity
/// context `ctx` (read only when the proposal has an identity patch).
fn govern(
    c: TriggerCandidate,
    p: SelfRevisionProposal,
    governed: Vec<String>,
    ctx: &IdentityRevisionContext,
    st: Stamp,
) -> (r: (AutoReflectState, AutoReflectAction))
    requires
        stamp_ok(st),
    ensures
        after_governance(
            c,
            p,
            texts(governed@),
            self_revision_rejection(p, governed@.len(), *ctx),
            st,
            r.0,
            r.1,
        ),
{
    match validate_self_revision(&p, governed.as_slice(), ctx) {
        Err(e) => reject(&c, st, e),
        Ok(v) => {
            let handled = handled_trigger_entry(st.ledger_id, &c, st.now);
            let cooldown = handled.cooldown_until;
            let input = auto_reflection_input(&p, governed.as_slice(), v, handled);
            (
                AutoReflectState::AwaitingReflection(c, governed, cooldown),
                AutoReflectAction::RunReflection(input),
            )
        },
    }
}

/// The step once the ids of the proposal's evidence query (if it has one)
/// are known.
fn after_evidence(
    c: TriggerCandidate,
    p: SelfRevisionProposal,
    queried: Option<Vec<String>>,
    st: Stamp,
) -> (r: (AutoReflectState, AutoReflectAction))
    requires
        stamp_ok(st),
    ensures
        after_window(c, p, queried, st, r.0, r.1),
{
    match resolve_governed_evidence_window(c.evidence_event_ids.as_slice(), &p, queried) {
        Err(e) => reject(&c, st, e),
        Ok(g) => {
            if p.machine_patch.identity_patch.is_some() {
                let k = c.trigger_key.clone();
                (
                    AutoReflectState::AwaitingIdentityContext(c, p, g),
                    AutoReflectAction::ReadIdentityContext(k),
                )
            } else {
                // Governance reads this context only for an identity patch.
                let ctx = IdentityRevisionContext {
                    proposed_values: Vec::new(),
                    supporting_claim_count: 0,
                    cross_episode_support_count: 0,
                    has_high_conflict: false,
                    now: st.now,
                    latest_handled_at: None,
                    cooldown_until: None,
                    patch_size: 0,
                };
                govern(c, p, g, &ctx, st)
            }
        },
    }
}

/// The outcome of an impossible step.
fn out_of_order() -> (r: (AutoReflectState, AutoReflectAction)) {
    (
        AutoReflectState::Done,
        AutoReflectAction::Return(Err(AppError::internal("auto-reflection step out of order"))),
    )
}

/// One step of a run: from where it stands and what the last action was
/// answered, where it stands next and what to do.
pub fn step(s: AutoReflectState, e: AutoReflectEvent) -> (r: (AutoReflectState, AutoReflectAction))
    requires
        fits(s, e),
    ensures
        stepped(s, e, r.0, r.1),
{
    match s {
        AutoReflectState::Starting(input) => {
            if input.recursion_guard == RecursionGuard::SkipAutoReflection {
                let res = AutoReflectResult::skipped(&input, "recursion guard enabled");
                (AutoReflectState::Done, AutoReflectAction::Return(Ok(res)))
            } else {
                let q = trigger_window_query(input.trigger_type, &input.namespace);
                let scope = MemoryScope::for_namespace(input.namespace.duplicate());
                (
                    AutoReflectState::AwaitingTriggerWindow(input),
                    AutoReflectAction::QueryTriggerWindow(q, scope),
                )
            }
        },
        AutoReflectState::AwaitingTriggerWindow(input) => match e {
            AutoReflectEvent::TriggerWindow(evidence, episodes) => {
                let c = detect_trigger_candidate(&input, evidence, episodes);
                if !c.should_consider {
                    let res = AutoReflectResult::not_triggered(&c);
                    (AutoReflectState::Done, AutoReflectAction::Return(Ok(res)))
                } else {
                    let k = c.trigger_key.clone();
                    (AutoReflectState::AwaitingLedger(c), AutoReflectAction::ReadLedger(k))
                }
            },
            _ => out_of_order(),
        },
        AutoReflectState::AwaitingLedger(c) => match e {
            AutoReflectEvent::Ledger(latest, handled, st) => {
                match evaluate_trigger_suppression(&c, &latest, &handled, st.now) {
                    Some(reason) => {
                        let entry = suppressed_trigger_entry(
                            st.ledger_id,
                            &c,
                            &latest,
                            &handled,
                            st.now,
                        );
                        let res = AutoReflectResult::suppressed(&c, &entry, reason);
                        (AutoReflectState::Done, AutoReflectAction::RecordAndReturn(entry, Ok(res)))
                    },
                    None => {
                        let b = revision_snapshot_budget(&c);
                        (AutoReflectState::AwaitingSnapshot(c), AutoReflectAction::BuildSnapshot(b))
                    },
                }
            },
            _ => out_of_order(),
        },
        AutoReflectState::AwaitingSnapshot(c) => match e {
            AutoReflectEvent::Snapshot(snapshot) => {
                let req = SelfRevisionRequest::new(
                    c.trigger_type,
                    c.namespace.duplicate(),
                    snapshot,
                    copy_strings(c.evidence_event_ids.as_slice()),
                    copy_strings(c.trigger_hints.as_slice()),
                );
                (AutoReflectState::AwaitingProposal(c), AutoReflectAction::Propose(req))
            },
            _ => out_of_order(),
        },
        AutoReflectState::AwaitingProposal(c) => match e {
            AutoReflectEvent::Proposal(p, st) => {
                if !p.should_reflect {
                    let entry = rejected_trigger_entry(st.ledger_id, &c, st.now);
                    let res = AutoReflectResult::rejected(&c, p.rationale.as_str());
                    (AutoReflectState::Done, AutoReflectAction::RecordAndReturn(entry, Ok(res)))
                } else {
                    match governed_window_query(&p) {
                        Some(q) => (
                            AutoReflectState::AwaitingGovernedIds(c, p),
                            AutoReflectAction::QueryGovernedWindow(q),
                        ),
                        None => after_evidence(c, p, None, st),
                    }
                }
            },
            _ => out_of_order(),
        },
        AutoReflectState::AwaitingGovernedIds(c, p) => match e {
            AutoReflectEvent::GovernedIds(ids, st) => after_evidence(c, p, Some(ids), st),
            _ => out_of_order(),
        },
        AutoReflectState::AwaitingIdentityContext(c, p, g) => match e {
            AutoReflectEvent::IdentityContext(claims, latest) => {
                let values = proposed_claim_values(&p);
                let ids = supporting_claim_ids(claims.as_slice(), c.namespace.as_str(), values.as_slice());
                (
                    AutoReflectState::AwaitingSupportingEpisodes(c, p, g, claims, latest),
                    AutoReflectAction::ReadSupportingEpisodes(ids),
                )
            },
            _ => out_of_order(),
        },
        AutoReflectState::AwaitingSupportingEpisodes(c, p, g, claims, latest) => match e {
            AutoReflectEvent::SupportingEpisodes(episodes, st) => {
                let ghost episode_texts = texts(episodes@);
                let ctx = build_identity_revision_context(
                    &c,
                    &p,
                    claims.as_slice(),
                    &latest,
                    episodes,
                    st.now,
                );
                assert(context_of(ctx, c, p, claims@, latest, episode_texts, st.now));
                govern(c, p, g, &ctx, st)
            },
            _ => out_of_order(),
        },
        AutoReflectState::AwaitingReflection(c, g, cd) => match e {
            AutoReflectEvent::Reflected(res, st) => match res {
                Ok(rid) => {
                    let r = AutoReflectResult::handled(&c, g, rid, cd);
                    (AutoReflectState::Done, AutoReflectAction::Return(Ok(r)))
                },
                Err(err) => reject(&c, st, err),
            },
            _ => out_of_order(),
        },
        AutoReflectState::Done => out_of_order(),
    }
}

/// A run that answers ends: after a step that returns, with or without
/// recording an entry, the run is done.
pub proof fn lemma_answering_ends_the_run(
    s: AutoReflectState,
    e: AutoReflectEvent,
    next: AutoReflectState,
    a: AutoReflectAction,
)
    requires
        stepped(s, e, next, a),
        a is Return || a is RecordAndReturn,
    ensures
        next is Done,
{
}

/// A run never fails without leaving a trace: every error it returns comes
/// with a recorded rejection, an entry without reflection, handling time or
/// cooldown. An entry recorded on the way out is never a handled one: only
/// the reflection writes that.
pub proof fn lemma_failures_record_a_rejection(
    s: AutoReflectState,
    e: AutoReflectEvent,
    next: AutoReflectState,
    a: AutoReflectAction,
)
    requires
        stepped(s, e, next, a),
    ensures
        !(a matches AutoReflectAction::Return(Err(_))),
        a matches AutoReflectAction::RecordAndReturn(entry, Err(_)) ==> entry.status
            == TriggerLedgerStatus::Rejected && entry.reflection_id is None
            && entry.handled_at is None && entry.cooldown_until is None,
        a matches AutoReflectAction::RecordAndReturn(entry, _) ==> entry.status
            != TriggerLedgerStatus::Handled,
{
    match (s, e) {
        (
            AutoReflectState::AwaitingSupportingEpisodes(c, p, g, claims, latest),
            AutoReflectEvent::SupportingEpisodes(episodes, st),
        ) => {
            let ctx = choose|ctx: IdentityRevisionContext|
                context_of(ctx, c, p, claims@, latest, texts(episodes@), st.now) && after_governance(
                    c,
                    p,
                    texts(g@),
                    self_revision_rejection(p, g@.len(), ctx),
                    st,
                    next,
                    a,
                );
        },
        _ => {},
    }
}

/// Every id of `g` is one of the candidate's trigger window.
pub open spec fn within_window(g: Seq<Seq<char>>, c: TriggerCandidate) -> bool {
    forall|x: Seq<char>| #[trigger] g.contains(x) ==> texts(c.evidence_event_ids@).contains(x)
}

/// What holds of every state a run reaches from its start: the governed
/// evidence it carries lies within the trigger window.
pub open spec fn flow_inv(s: AutoReflectState) -> bool {
    match s {
        AutoReflectState::AwaitingIdentityContext(c, _, g) => within_window(texts(g@), c),
        AutoReflectState::AwaitingSupportingEpisodes(c, _, g, _, _) => within_window(texts(g@), c),
        AutoReflectState::AwaitingReflection(c, g, _) => within_window(texts(g@), c),
        _ => true,
    }
}

/// Every step keeps the governed evidence within the trigger window.
pub proof fn lemma_steps_keep_evidence_within_window(
    s: AutoReflectState,
    e: AutoReflectEvent,
    next: AutoReflectState,
    a: AutoReflectAction,
)
    requires
        flow_inv(s),
        stepped(s, e, next, a),
    ensures
        flow_inv(next),
{
    match (s, e) {
        (AutoReflectState::AwaitingProposal(c), AutoReflectEvent::Proposal(p, st)) => {
            lemma_governed_window_within_trigger_window(
                texts(c.evidence_event_ids@),
                texts(p.proposed_evidence_event_ids@),
                query_constraint(p, None),
            );
        },
        (AutoReflectState::AwaitingGovernedIds(c, p), AutoReflectEvent::GovernedIds(ids, st)) => {
            lemma_governed_window_within_trigger_window(
                texts(c.evidence_event_ids@),
                texts(p.proposed_evidence_event_ids@),
                query_constraint(p, Some(ids)),
            );
        },
        (
            AutoReflectState::AwaitingSupportingEpisodes(c, p, g, claims, latest),
            AutoReflectEvent::SupportingEpisodes(episodes, st),
        ) => {
            let ctx = choose|ctx: IdentityRevisionContext|
                context_of(ctx, c, p, claims@, latest, texts(episodes@), st.now) && after_governance(
                    c,
                    p,
                    texts(g@),
                    self_revision_rejection(p, g@.len(), ctx),
                    st,
                    next,
                    a,
                );
        },
        _ => {},
    }
}

/// A reflection is written only with evidence out of the trigger window: the
/// evidence it records is among the candidate's, and it handles the
/// candidate's entry with a 24-hour cooldown.
pub proof fn lemma_reflection_evidence_within_trigger_window(
    s: AutoReflectState,
    e: AutoReflectEvent,
    next: AutoReflectState,
    a: AutoReflectAction,
)
    requires
        flow_inv(s),
        stepped(s, e, next, a),
        a is RunReflection,
    ensures
        next matches AutoReflectState::AwaitingReflection(c, g, cd) && a matches AutoReflectAction::RunReflection(ri) && {
            &&& ri.spec_evidence_event_ids() == texts(g@)
            &&& within_window(texts(g@), c)
            &&& ri.spec_handled_entry() matches Some(h) && h.status == TriggerLedgerStatus::Handled
                && h.cooldown_until == cd && h.trigger_key@ == c.trigger_key@
        },
{
    lemma_steps_keep_evidence_within_window(s, e, next, a);
    match (s, e) {
        (
            AutoReflectState::AwaitingSupportingEpisodes(c, p, g, claims, latest),
            AutoReflectEvent::SupportingEpisodes(episodes, st),
        ) => {
            let ctx = choose|ctx: IdentityRevisionContext|
                context_of(ctx, c, p, claims@, latest, texts(episodes@), st.now) && after_governance(
                    c,
                    p,
                    texts(g@),
                    self_revision_rejection(p, g@.len(), ctx),
                    st,
                    next,
                    a,
                );
        },
        _ => {},
    }
}

/// The model is consulted only about a trigger worth considering that the
/// ledger did not suppress: the step that asks for a proposal follows the
/// one that built the snapshot, which follows a ledger reading that found no
/// reason to suppress a considered candidate.
pub proof fn lemma_model_consulted_only_for_unsuppressed_triggers(
    s0: AutoReflectState,
    e0: AutoReflectEvent,
    s1: AutoReflectState,
    a0: AutoReflectAction,
    e1: AutoReflectEvent,
    s2: AutoReflectState,
    a1: AutoReflectAction,
)
    requires
        stepped(s0, e0, s1, a0),
        stepped(s1, e1, s2, a1),
        a1 is Propose,
    ensures
        s1 is AwaitingSnapshot,
        s0 matches AutoReflectState::AwaitingLedger(c) && e0 matches AutoReflectEvent::Ledger(
            latest,
            handled,
            st,
        ) && spec_suppression(c, latest, handled, st.now) is None,
{
    match (s0, e0) {
        (
            AutoReflectState::AwaitingSupportingEpisodes(c, p, g, claims, latest),
            AutoReflectEvent::SupportingEpisodes(episodes, st),
        ) => {
            let ctx = choose|ctx: IdentityRevisionContext|
                context_of(ctx, c, p, claims@, latest, texts(episodes@), st.now) && after_governance(
                    c,
                    p,
                    texts(g@),
                    self_revision_rejection(p, g@.len(), ctx),
                    st,
                    s1,
                    a0,
                );
        },
        _ => {},
    }
}

/// Only a candidate worth considering is carried to the ledger.
pub proof fn lemma_ledger_read_only_for_considered_triggers(
    s: AutoReflectState,
    e: AutoReflectEvent,
    next: AutoReflectState,
    a: AutoReflectAction,
)
    requires
        stepped(s, e, next, a),
        next is AwaitingLedger,
    ensures
        next->AwaitingLedger_0.should_consider,
{
    match (s, e) {
        (
            AutoReflectState::AwaitingSupportingEpisodes(c, p, g, claims, latest),
            AutoReflectEvent::SupportingEpisodes(episodes, st),
        ) => {
            let ctx = choose|ctx: IdentityRevisionContext|
                context_of(ctx, c, p, claims@, latest, texts(episodes@), st.now) && after_governance(
                    c,
                    p,
                    texts(g@),
                    self_revision_rejection(p, g@.len(), ctx),
                    st,
                    next,
                    a,
                );
        },
        _ => {},
    }
}

} // verus!
