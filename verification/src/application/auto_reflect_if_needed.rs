//! Automatic reflection: when a trigger is considered, when it is suppressed,
//! which evidence a proposal may use, and which proposals are governed enough
//! to be written. The store, clock and model calls are made around these
//! decisions; each decision takes what those calls returned.
use vstd::prelude::*;

use crate::domain::error::AppError;
use crate::interfaces::mcp::dto::{all_event_refs, raw_event_ids, ref_ids};
use crate::application::identity_governance::{
    identity_rejection, proposed_identity_claims, validate_identity_patch, within_a_day_of,
    IdentityRevisionContext,
};
use crate::application::run_reflection::{commitment_view, commitment_views, ReflectionInput};
use crate::domain::records::{Commitment, Reflection};
use crate::domain::self_revision::{
    AutoReflectDiagnosticSummary, AutoReflectOutcome, SelfRevisionProposal, TriggerType,
};
use crate::domain::time::{plus_hours, ts_before, Timestamp};
use crate::domain::types::{
    copy_opt_namespace, opt_namespace, owner_of_namespace, EventKind, Namespace, Owner,
};
use crate::ports::{same_entry, EvidenceQuery, StoredTriggerLedgerEntry, TriggerLedgerStatus};
use crate::seqs::{
    copy_opt_string, copy_strings, dedup, dedupe_strings, find_first_missing, first_missing, keep_in,
    keep_listed, lemma_keep_in_contains, opt_text, same_strings,
    take_at_most, take_at_most_seq, texts,
};
use crate::text::{concat3, eq_ignore_ascii_case, str_eq_ignore_ascii_case};

verus! {

/// A failure trigger is considered only with at least this many evidence events.
pub const FAILURE_TRIGGER_THRESHOLD: usize = 2;

/// How long a handled or suppressed trigger keeps its key quiet, in hours.
pub const AUTO_REFLECTION_COOLDOWN_HOURS: i64 = 24;

/// The smallest snapshot budget a revision is built on.
pub const DEFAULT_SNAPSHOT_BUDGET: usize = 3;

/// The number of evidence events a trigger window reads.
pub const TRIGGER_WINDOW_LIMIT: usize = 5;

/// Whether an automatic reflection may run inside this call.
#[derive(Debug, Clone, Copy, PartialEq, Eq, Structural)]
pub enum RecursionGuard {
    Allow,
    SkipAutoReflection,
}

impl Default for RecursionGuard {
    fn default() -> (r: RecursionGuard)
        ensures
            r == RecursionGuard::Allow,
    {
        RecursionGuard::Allow
    }
}

/// The label of a trigger type inside a trigger key.
pub open spec fn trigger_type_label(t: TriggerType) -> Seq<char> {
    match t {
        TriggerType::Conflict => "conflict"@,
        TriggerType::Failure => "failure"@,
        TriggerType::Periodic => "periodic"@,
    }
}

/// The key under which the ledger tracks a trigger: `<namespace>:<type>`.
pub open spec fn trigger_key_text(namespace: Seq<char>, t: TriggerType) -> Seq<char> {
    namespace + ":"@ + trigger_type_label(t)
}

/// The label of a trigger type inside a trigger key.
pub fn trigger_type_label_str(trigger_type: TriggerType) -> (r: &'static str)
    ensures
        r@ == trigger_type_label(trigger_type),
{
    match trigger_type {
        TriggerType::Conflict => "conflict",
        TriggerType::Failure => "failure",
        TriggerType::Periodic => "periodic",
    }
}

/// The ledger key of a trigger of `trigger_type` in `namespace`.
pub fn canonical_trigger_key(namespace: &Namespace, trigger_type: TriggerType) -> (r: String)
    ensures
        r@ == trigger_key_text(namespace@, trigger_type),
{
    concat3(namespace.as_str(), ":", trigger_type_label_str(trigger_type))
}

/// A request to reflect automatically.
#[derive(Debug, Clone, PartialEq, Eq)]
pub struct AutoReflectInput {
    pub namespace: Namespace,
    pub trigger_type: TriggerType,
    pub trigger_hints: Vec<String>,
    pub recursion_guard: RecursionGuard,
}

impl AutoReflectInput {
    /// A request of the given type, with the recursion guard open.
    pub fn new(namespace: Namespace, trigger_type: TriggerType, trigger_hints: Vec<String>) -> (r:
        AutoReflectInput)
        ensures
            r.namespace == namespace,
            r.trigger_type == trigger_type,
            r.trigger_hints == trigger_hints,
            r.recursion_guard == RecursionGuard::Allow,
    {
        AutoReflectInput {
            namespace,
            trigger_type,
            trigger_hints,
            recursion_guard: RecursionGuard::Allow,
        }
    }

    /// A failure-triggered request.
    pub fn for_failure(namespace: Namespace, trigger_hints: Vec<String>) -> (r: AutoReflectInput)
        ensures
            r.namespace == namespace,
            r.trigger_type == TriggerType::Failure,
            r.trigger_hints == trigger_hints,
            r.recursion_guard == RecursionGuard::Allow,
    {
        Self::new(namespace, TriggerType::Failure, trigger_hints)
    }

    /// A conflict-triggered request.
    pub fn for_conflict(namespace: Namespace, trigger_hints: Vec<String>) -> (r: AutoReflectInput)
        ensures
            r.namespace == namespace,
            r.trigger_type == TriggerType::Conflict,
            r.trigger_hints == trigger_hints,
            r.recursion_guard == RecursionGuard::Allow,
    {
        Self::new(namespace, TriggerType::Conflict, trigger_hints)
    }

    /// A periodic request.
    pub fn for_periodic(namespace: Namespace, trigger_hints: Vec<String>) -> (r: AutoReflectInput)
        ensures
            r.namespace == namespace,
            r.trigger_type == TriggerType::Periodic,
            r.trigger_hints == trigger_hints,
            r.recursion_guard == RecursionGuard::Allow,
    {
        Self::new(namespace, TriggerType::Periodic, trigger_hints)
    }

    /// The same request with the given recursion guard.
    pub fn with_recursion_guard(self, recursion_guard: RecursionGuard) -> (r: AutoReflectInput)
        ensures
            r.namespace == self.namespace,
            r.trigger_type == self.trigger_type,
            r.trigger_hints == self.trigger_hints,
            r.recursion_guard == recursion_guard,
    {
        AutoReflectInput { recursion_guard, ..self }
    }

    /// The ledger key of this request's trigger.
    pub fn trigger_key(&self) -> (r: String)
        ensures
            r@ == trigger_key_text(self.namespace@, self.trigger_type),
    {
        canonical_trigger_key(&self.namespace, self.trigger_type)
    }
}

/// Some hint equals some expected word, ASCII case ignored.
pub open spec fn hints_match(hints: Seq<Seq<char>>, expected: Seq<Seq<char>>) -> bool {
    exists|i: int, j: int|
        0 <= i < hints.len() && 0 <= j < expected.len() && #[trigger] eq_ignore_ascii_case(
            hints[i],
            expected[j],
        )
}

/// The texts of a list of string slices.
pub open spec fn str_texts(v: Seq<&str>) -> Seq<Seq<char>> {
    v.map_values(|x: &str| x@)
}

/// Whether one of `hints` equals one of `expected`, ASCII case ignored.
pub fn has_any_hint(hints: &[String], expected: &[&str]) -> (r: bool)
    ensures
        r == hints_match(texts(hints@), str_texts(expected@)),
{
    let ghost h = texts(hints@);
    let ghost e = str_texts(expected@);
    let mut i: usize = 0;
    while i < hints.len()
        invariant
            h == texts(hints@),
            e == str_texts(expected@),
            i <= hints@.len(),
            forall|a: int, b: int|
                0 <= a < i && 0 <= b < e.len() ==> !#[trigger] eq_ignore_ascii_case(h[a], e[b]),
        decreases hints@.len() - i,
    {
        let mut j: usize = 0;
        while j < expected.len()
            invariant
                h == texts(hints@),
                e == str_texts(expected@),
                i < hints@.len(),
                j <= expected@.len(),
                forall|a: int, b: int|
                    0 <= a < i && 0 <= b < e.len() ==> !#[trigger] eq_ignore_ascii_case(h[a], e[b]),
                forall|b: int| 0 <= b < j ==> !#[trigger] eq_ignore_ascii_case(h[i as int], e[b]),
            decreases expected@.len() - j,
        {
            if str_eq_ignore_ascii_case(hints[i].as_str(), expected[j]) {
                assert(eq_ignore_ascii_case(h[i as int], e[j as int]));
                return true;
            }
            j = j + 1;
        }
        i = i + 1;
    }
    false
}

/// The hints that consider a failure trigger.
pub open spec fn failure_hints() -> Seq<Seq<char>> {
    seq!["failure"@, "rollback"@]
}

/// The hints that consider a conflict trigger.
pub open spec fn conflict_hints() -> Seq<Seq<char>> {
    seq!["conflict"@, "rollback"@, "identity"@]
}

/// Whether a trigger is worth considering: a failure needs a failure or
/// rollback hint and at least two evidence events; a conflict needs a
/// conflict, rollback or identity hint; a periodic trigger needs at least one
/// episode in its scope. A window with no event of the scope leaves every
/// trigger unconsidered.
pub open spec fn spec_should_consider(
    trigger_type: TriggerType,
    hints: Seq<Seq<char>>,
    evidence_count: nat,
    episode_watermark: nat,
) -> bool {
    match trigger_type {
        TriggerType::Failure => hints_match(hints, failure_hints()) && evidence_count
            >= FAILURE_TRIGGER_THRESHOLD,
        TriggerType::Conflict => hints_match(hints, conflict_hints()) && evidence_count > 0,
        TriggerType::Periodic => episode_watermark > 0 && evidence_count > 0,
    }
}

/// The query whose results form the evidence window of a trigger in
/// `namespace`: the latest five events of the namespace with its owner, only
/// actions for a failure.
pub fn trigger_window_query(trigger_type: TriggerType, namespace: &Namespace) -> (r: EvidenceQuery)
    ensures
        opt_namespace(r.namespace) == Some(namespace@),
        r.owner == Some(owner_of_namespace(namespace@)),
        r.limit == Some(TRIGGER_WINDOW_LIMIT),
        r.recorded_after is None,
        r.recorded_before is None,
        r.event_id_prefix is None,
        trigger_type is Failure ==> r.kind == Some(EventKind::Action),
        !(trigger_type is Failure) ==> r.kind is None,
{
    let kind = match trigger_type {
        TriggerType::Failure => Some(EventKind::Action),
        _ => None,
    };
    EvidenceQuery {
        namespace: Some(namespace.duplicate()),
        owner: Some(namespace.owner_of()),
        kind,
        limit: Some(TRIGGER_WINDOW_LIMIT),
        recorded_after: None,
        recorded_before: None,
        event_id_prefix: None,
    }
}

/// A trigger as detected: its key, its evidence window, whether it is worth
/// considering, and the number of distinct episodes known when it was seen.
#[derive(Debug, Clone, PartialEq, Eq)]
pub struct TriggerCandidate {
    pub trigger_type: TriggerType,
    pub namespace: Namespace,
    pub trigger_hints: Vec<String>,
    pub trigger_key: String,
    pub evidence_event_ids: Vec<String>,
    pub should_consider: bool,
    pub episode_watermark: Option<u64>,
}

impl TriggerCandidate {
    /// The candidate's key is the canonical key of its namespace and type.
    pub open spec fn well_keyed(&self) -> bool {
        self.trigger_key@ == trigger_key_text(self.namespace@, self.trigger_type)
    }
}

/// The candidate for `input`, given the trigger window's evidence event ids
/// (the result of `trigger_window_query`) and the references of the episodes
/// with an event in the input's namespace.
pub fn detect_trigger_candidate(
    input: &AutoReflectInput,
    evidence_event_ids: Vec<String>,
    episode_references: Vec<String>,
) -> (r: TriggerCandidate)
    ensures
        r.trigger_type == input.trigger_type,
        r.namespace@ == input.namespace@,
        texts(r.trigger_hints@) == texts(input.trigger_hints@),
        r.well_keyed(),
        r.evidence_event_ids == evidence_event_ids,
        r.episode_watermark == Some(dedup(texts(episode_references@)).len() as u64),
        r.should_consider == spec_should_consider(
            input.trigger_type,
            texts(input.trigger_hints@),
            evidence_event_ids@.len(),
            dedup(texts(episode_references@)).len(),
        ),
{
    let distinct = dedupe_strings(episode_references);
    let episode_count = distinct.len();
    proof {
        assert(texts(distinct@).len() == distinct@.len());
    }
    let should_consider = match input.trigger_type {
        TriggerType::Failure => {
            let expected: [&str; 2] = ["failure", "rollback"];
            proof {
                reveal_strlit("failure");
                reveal_strlit("rollback");
                assert(str_texts(expected@) =~= failure_hints());
            }
            has_any_hint(&input.trigger_hints, expected.as_slice()) && evidence_event_ids.len()
                >= FAILURE_TRIGGER_THRESHOLD
        },
        TriggerType::Conflict => {
            let expected: [&str; 3] = ["conflict", "rollback", "identity"];
            proof {
                assert(str_texts(expected@) =~= conflict_hints());
            }
            has_any_hint(&input.trigger_hints, expected.as_slice()) && evidence_event_ids.len() > 0
        },
        TriggerType::Periodic => episode_count > 0 && evidence_event_ids.len() > 0,
    };
    TriggerCandidate {
        trigger_type: input.trigger_type,
        namespace: input.namespace.duplicate(),
        trigger_hints: copy_strings(input.trigger_hints.as_slice()),
        trigger_key: canonical_trigger_key(&input.namespace, input.trigger_type),
        evidence_event_ids,
        should_consider,
        episode_watermark: Some(episode_count as u64),
    }
}

/// Why a considered trigger was suppressed.
#[derive(Debug, Clone, Copy, PartialEq, Eq, Structural)]
pub enum SuppressionReason {
    CooldownActive,
    EvidenceWindowUnchanged,
    EpisodeWatermarkUnchanged,
}

/// The reported label of a suppression reason.
pub open spec fn suppression_label(reason: SuppressionReason) -> Seq<char> {
    match reason {
        SuppressionReason::CooldownActive => "cooldown_active"@,
        SuppressionReason::EvidenceWindowUnchanged => "evidence_window_unchanged"@,
        SuppressionReason::EpisodeWatermarkUnchanged => "episode_watermark_unchanged"@,
    }
}

impl SuppressionReason {
    pub fn as_str(self) -> (r: &'static str)
        ensures
            r@ == suppression_label(self),
    {
        match self {
            SuppressionReason::CooldownActive => "cooldown_active",
            SuppressionReason::EvidenceWindowUnchanged => "evidence_window_unchanged",
            SuppressionReason::EpisodeWatermarkUnchanged => "episode_watermark_unchanged",
        }
    }
}

/// A handled or suppressed entry whose cooldown ends after `now`.
pub open spec fn cooldown_live(entry: StoredTriggerLedgerEntry, now: Timestamp) -> bool {
    &&& (entry.status is Handled || entry.status is Suppressed)
    &&& match entry.cooldown_until {
        Some(c) => ts_before(now, c),
        None => false,
    }
}

/// An episode watermark, with none read as zero.
pub open spec fn watermark_of(w: Option<u64>) -> u64 {
    match w {
        Some(x) => x,
        None => 0,
    }
}

/// Whether a considered trigger is suppressed, given the latest ledger entry
/// of its key, the latest handled entry of its key, and the time: during a live
/// cooldown; when the last handled entry saw the same non-empty evidence
/// window; or, for a periodic trigger, when no new episode has been seen
/// since the last handled entry. A key with no entry is never suppressed.
pub open spec fn spec_suppression(
    candidate: TriggerCandidate,
    latest: Option<StoredTriggerLedgerEntry>,
    latest_handled: Option<StoredTriggerLedgerEntry>,
    now: Timestamp,
) -> Option<SuppressionReason> {
    match latest {
        None => None,
        Some(l) => if cooldown_live(l, now) {
            Some(SuppressionReason::CooldownActive)
        } else if candidate.evidence_event_ids@.len() > 0 && match latest_handled {
            Some(h) => texts(h.evidence_window@) == texts(candidate.evidence_event_ids@),
            None => false,
        } {
            Some(SuppressionReason::EvidenceWindowUnchanged)
        } else if candidate.trigger_type is Periodic && match latest_handled {
            Some(h) => watermark_of(h.episode_watermark) >= watermark_of(
                candidate.episode_watermark,
            ),
            None => false,
        } {
            Some(SuppressionReason::EpisodeWatermarkUnchanged)
        } else {
            None
        },
    }
}

/// Whether `entry` keeps its key in cooldown at `now`.
pub fn is_cooldown_live(entry: &StoredTriggerLedgerEntry, now: Timestamp) -> (r: bool)
    ensures
        r == cooldown_live(*entry, now),
{
    let counts = match entry.status {
        TriggerLedgerStatus::Handled | TriggerLedgerStatus::Suppressed => true,
        _ => false,
    };
    counts && match entry.cooldown_until {
        Some(c) => now.is_before(&c),
        None => false,
    }
}

fn read_watermark(w: Option<u64>) -> (r: u64)
    ensures
        r == watermark_of(w),
{
    match w {
        Some(x) => x,
        None => 0,
    }
}

/// Whether the candidate is suppressed, from the latest entry of its key, the
/// latest handled entry of its key, and the time.
pub fn evaluate_trigger_suppression(
    candidate: &TriggerCandidate,
    latest: &Option<StoredTriggerLedgerEntry>,
    latest_handled: &Option<StoredTriggerLedgerEntry>,
    now: Timestamp,
) -> (r: Option<SuppressionReason>)
    ensures
        r == spec_suppression(*candidate, *latest, *latest_handled, now),
{
    let l = match latest {
        None => {
            return None;
        },
        Some(l) => l,
    };
    if is_cooldown_live(l, now) {
        return Some(SuppressionReason::CooldownActive);
    }
    let same_window = match latest_handled {
        Some(h) => same_strings(h.evidence_window.as_slice(), candidate.evidence_event_ids.as_slice()),
        None => false,
    };
    if candidate.evidence_event_ids.len() > 0 && same_window {
        return Some(SuppressionReason::EvidenceWindowUnchanged);
    }
    let no_new_episode = match latest_handled {
        Some(h) => read_watermark(h.episode_watermark) >= read_watermark(
            candidate.episode_watermark,
        ),
        None => false,
    };
    if candidate.trigger_type == TriggerType::Periodic && no_new_episode {
        return Some(SuppressionReason::EpisodeWatermarkUnchanged);
    }
    None
}

/// The end of the cooldown that an entry of `status` written at `now` starts,
/// unless an earlier boundary is carried over: 24 hours for a handled or
/// suppressed entry, none for a pending or rejected one.
pub open spec fn entry_cooldown(
    status: TriggerLedgerStatus,
    carried_over: Option<Timestamp>,
    now: Timestamp,
) -> Option<Timestamp> {
    match carried_over {
        Some(c) => Some(c),
        None => if status is Handled || status is Suppressed {
            Some(plus_hours(now, AUTO_REFLECTION_COOLDOWN_HOURS as int))
        } else {
            None
        },
    }
}

/// `entry` records `candidate` with the given status, evidence window,
/// reflection id and cooldown boundary, written at `now`.
pub open spec fn entry_for(
    entry: StoredTriggerLedgerEntry,
    candidate: TriggerCandidate,
    evidence: Seq<Seq<char>>,
    status: TriggerLedgerStatus,
    reflection_id: Option<Seq<char>>,
    carried_over: Option<Timestamp>,
    now: Timestamp,
) -> bool {
    &&& entry.trigger_type == candidate.trigger_type
    &&& entry.namespace@ == candidate.namespace@
    &&& entry.trigger_key@ == candidate.trigger_key@
    &&& entry.status == status
    &&& texts(entry.evidence_window@) == evidence
    &&& entry.handled_at == (if status is Handled {
        Some(now)
    } else {
        None
    })
    &&& entry.cooldown_until == entry_cooldown(status, carried_over, now)
    &&& entry.episode_watermark == candidate.episode_watermark
    &&& opt_text(entry.reflection_id) == reflection_id
}

/// Whether writing an entry of `status` at `now` can compute its cooldown:
/// the boundary 24 hours on must be an instant.
pub open spec fn cooldown_computable(
    status: TriggerLedgerStatus,
    carried_over: Option<Timestamp>,
    now: Timestamp,
) -> bool {
    carried_over is None && (status is Handled || status is Suppressed) ==> now.secs + 24 * 3600
        <= i64::MAX
}

/// The ledger entry `ledger_id` for `candidate`, written at `now`.
pub fn build_trigger_entry(
    ledger_id: String,
    candidate: &TriggerCandidate,
    evidence_event_ids: &[String],
    status: TriggerLedgerStatus,
    reflection_id: Option<String>,
    cooldown_until_override: Option<Timestamp>,
    now: Timestamp,
) -> (r: StoredTriggerLedgerEntry)
    requires
        cooldown_computable(status, cooldown_until_override, now),
    ensures
        r.ledger_id == ledger_id,
        entry_for(
            r,
            *candidate,
            texts(evidence_event_ids@),
            status,
            opt_text(reflection_id),
            cooldown_until_override,
            now,
        ),
{
    let handled_at = match status {
        TriggerLedgerStatus::Handled => Some(now),
        _ => None,
    };
    let cooldown_until = match cooldown_until_override {
        Some(c) => Some(c),
        None => match status {
            TriggerLedgerStatus::Handled | TriggerLedgerStatus::Suppressed => Some(now.plus_day()),
            TriggerLedgerStatus::Pending | TriggerLedgerStatus::Rejected => None,
        },
    };
    StoredTriggerLedgerEntry {
        ledger_id,
        trigger_type: candidate.trigger_type,
        namespace: candidate.namespace.duplicate(),
        trigger_key: candidate.trigger_key.clone(),
        status,
        evidence_window: copy_strings(evidence_event_ids),
        handled_at,
        cooldown_until,
        episode_watermark: candidate.episode_watermark,
        reflection_id,
    }
}

/// The reflection id a suppression carries over: that of the latest entry when
/// it is handled or suppressed and has one, else that of the latest handled
/// entry.
pub open spec fn preserved_reflection_id(
    latest: Option<StoredTriggerLedgerEntry>,
    latest_handled: Option<StoredTriggerLedgerEntry>,
) -> Option<Seq<char>> {
    let from_latest = match latest {
        Some(l) => if l.status is Handled || l.status is Suppressed {
            opt_text(l.reflection_id)
        } else {
            None
        },
        None => None,
    };
    if from_latest is Some {
        from_latest
    } else {
        match latest_handled {
            Some(h) => opt_text(h.reflection_id),
            None => None,
        }
    }
}

/// The cooldown boundary a suppression carries over: that of the latest entry
/// while its cooldown is live.
pub open spec fn preserved_cooldown(latest: Option<StoredTriggerLedgerEntry>, now: Timestamp) -> Option<
    Timestamp,
> {
    match latest {
        Some(l) => if cooldown_live(l, now) {
            l.cooldown_until
        } else {
            None
        },
        None => None,
    }
}

/// The reflection id a suppression of this key carries over.
pub fn latest_suppression_reflection_id(
    latest: &Option<StoredTriggerLedgerEntry>,
    latest_handled: &Option<StoredTriggerLedgerEntry>,
) -> (r: Option<String>)
    ensures
        opt_text(r) == preserved_reflection_id(*latest, *latest_handled),
{
    let from_latest = match latest {
        Some(l) => match l.status {
            TriggerLedgerStatus::Handled | TriggerLedgerStatus::Suppressed => copy_opt_string(
                &l.reflection_id,
            ),
            _ => None,
        },
        None => None,
    };
    if from_latest.is_some() {
        return from_latest;
    }
    match latest_handled {
        Some(h) => copy_opt_string(&h.reflection_id),
        None => None,
    }
}

/// The latest entry of a key while its cooldown is live at `now`.
pub fn latest_live_suppression_entry(latest: &Option<StoredTriggerLedgerEntry>, now: Timestamp) -> (r:
    Option<StoredTriggerLedgerEntry>)
    ensures
        match r {
            Some(e) => *latest matches Some(l) && cooldown_live(l, now) && same_entry(e, l),
            None => !(*latest matches Some(l) && cooldown_live(l, now)),
        },
{
    match latest {
        Some(l) => if is_cooldown_live(l, now) {
            Some(l.duplicate())
        } else {
            None
        },
        None => None,
    }
}

/// The entry that records a suppression of `candidate` at `now`: it keeps the
/// reflection id and the live cooldown boundary of the key, so a suppression
/// never extends a cooldown.
pub fn suppressed_trigger_entry(
    ledger_id: String,
    candidate: &TriggerCandidate,
    latest: &Option<StoredTriggerLedgerEntry>,
    latest_handled: &Option<StoredTriggerLedgerEntry>,
    now: Timestamp,
) -> (r: StoredTriggerLedgerEntry)
    requires
        cooldown_computable(
            TriggerLedgerStatus::Suppressed,
            preserved_cooldown(*latest, now),
            now,
        ),
    ensures
        r.ledger_id == ledger_id,
        entry_for(
            r,
            *candidate,
            texts(candidate.evidence_event_ids@),
            TriggerLedgerStatus::Suppressed,
            preserved_reflection_id(*latest, *latest_handled),
            preserved_cooldown(*latest, now),
            now,
        ),
{
    let reflection_id = latest_suppression_reflection_id(latest, latest_handled);
    let live = latest_live_suppression_entry(latest, now);
    let carried_over = match live {
        Some(e) => e.cooldown_until,
        None => None,
    };
    build_trigger_entry(
        ledger_id,
        candidate,
        candidate.evidence_event_ids.as_slice(),
        TriggerLedgerStatus::Suppressed,
        reflection_id,
        carried_over,
        now,
    )
}

/// The entry that records a rejection of `candidate` at `now`: no reflection,
/// no cooldown.
pub fn rejected_trigger_entry(ledger_id: String, candidate: &TriggerCandidate, now: Timestamp) -> (r:
    StoredTriggerLedgerEntry)
    ensures
        r.ledger_id == ledger_id,
        entry_for(
            r,
            *candidate,
            texts(candidate.evidence_event_ids@),
            TriggerLedgerStatus::Rejected,
            None,
            None,
            now,
        ),
{
    build_trigger_entry(
        ledger_id,
        candidate,
        candidate.evidence_event_ids.as_slice(),
        TriggerLedgerStatus::Rejected,
        None,
        None,
        now,
    )
}

/// The entry that records `candidate` as handled at `now`; it starts a 24-hour
/// cooldown.
pub fn handled_trigger_entry(ledger_id: String, candidate: &TriggerCandidate, now: Timestamp) -> (r:
    StoredTriggerLedgerEntry)
    requires
        now.secs + 24 * 3600 <= i64::MAX,
    ensures
        r.ledger_id == ledger_id,
        entry_for(
            r,
            *candidate,
            texts(candidate.evidence_event_ids@),
            TriggerLedgerStatus::Handled,
            None,
            None,
            now,
        ),
{
    build_trigger_entry(
        ledger_id,
        candidate,
        candidate.evidence_event_ids.as_slice(),
        TriggerLedgerStatus::Handled,
        None,
        None,
        now,
    )
}

/// The outcome of a decision that yields a list of ids or rejects the request,
/// read as texts and the rejection's message.
pub open spec fn ids_outcome(r: Result<Vec<String>, AppError>) -> Result<Seq<Seq<char>>, Seq<char>> {
    match r {
        Ok(v) => Ok(texts(v@)),
        Err(e) => Err(e.message_view()),
    }
}

/// The constraint a proposal's evidence query puts on the window: the ids the
/// query matched, with the query's limit.
pub open spec fn query_constraint(
    proposal: SelfRevisionProposal,
    queried_event_ids: Option<Vec<String>>,
) -> Option<(Seq<Seq<char>>, Option<usize>)> {
    match (proposal.proposed_evidence_query, queried_event_ids) {
        (Some(q), Some(ids)) => Some((texts(ids@), q.limit)),
        _ => None,
    }
}

/// Whether some element of `s` is missing from `t`.
pub open spec fn some_missing<A>(s: Seq<A>, t: Seq<A>) -> bool {
    exists|i: int| 0 <= i < s.len() && !t.contains(#[trigger] s[i])
}

/// The evidence a proposal may write with, out of the trigger window
/// `candidate`. Without proposed ids the whole window is used, narrowed to what
/// the proposal's query matched (at most its limit) when it has one, and
/// rejected when the query matched nothing in it. With proposed ids, each must
/// be an event reference (`<id>` or `event:<id>`); their raw ids are used once
/// each, in order of first mention, and rejected when one lies outside the
/// window or outside what the query matched in it.
pub open spec fn spec_governed_window(
    candidate: Seq<Seq<char>>,
    proposed: Seq<Seq<char>>,
    query: Option<(Seq<Seq<char>>, Option<usize>)>,
) -> Result<Seq<Seq<char>>, Seq<char>> {
    if proposed.len() == 0 {
        match query {
            None => Ok(candidate),
            Some((queried, limit)) => {
                let filtered = keep_in(candidate, queried);
                if filtered.len() == 0 {
                    Err("proposed evidence query did not match the current trigger window"@)
                } else {
                    match limit {
                        Some(l) => Ok(take_at_most_seq(filtered, l)),
                        None => Ok(filtered),
                    }
                }
            },
        }
    } else if !all_event_refs(proposed) {
        Err("InvalidEventReference"@)
    } else {
        let p = dedup(ref_ids(proposed));
        if some_missing(p, candidate) {
            Err("model proposed evidence outside the current trigger window"@)
        } else if query matches Some((queried, _)) && some_missing(p, keep_in(candidate, queried)) {
            Err(
                "model proposed evidence ids do not satisfy the proposed evidence query within the current trigger window"@,
            )
        } else {
            Ok(p)
        }
    }
}

/// The query the app runs, unbounded, for a proposal's evidence query: its
/// namespace, owner and kind, without a limit.
pub fn governed_window_query(proposal: &SelfRevisionProposal) -> (r: Option<EvidenceQuery>)
    ensures
        match (r, proposal.proposed_evidence_query) {
            (Some(q), Some(p)) => opt_namespace(q.namespace) == opt_namespace(p.namespace) && q.owner == p.owner && q.kind
                == p.kind && q.limit is None && q.recorded_after is None && q.recorded_before is None
                && q.event_id_prefix is None,
            (None, None) => true,
            _ => false,
        },
{
    match &proposal.proposed_evidence_query {
        Some(p) => Some(
            EvidenceQuery {
                namespace: copy_opt_namespace(&p.namespace),
                owner: p.owner,
                kind: p.kind,
                limit: None,
                recorded_after: None,
                recorded_before: None,
                event_id_prefix: None,
            },
        ),
        None => None,
    }
}

/// Whether every string of `values` is in `allowed`.
fn all_listed(values: &[String], allowed: &[String]) -> (r: bool)
    ensures
        r == !some_missing(texts(values@), texts(allowed@)),
{
    match find_first_missing(values, allowed) {
        Some(i) => {
            proof {
                let c = first_missing(texts(values@), texts(allowed@));
                assert(c == Some(i as int));
                assert(exists|k: int|
                    0 <= k < texts(values@).len() && !texts(allowed@).contains(
                        texts(values@)[k],
                    ));
            }
            false
        },
        None => true,
    }
}

/// The evidence a proposal may write with, given the trigger window, the
/// proposal, and the ids its evidence query matched (when it has one; see
/// `governed_window_query`).
pub fn resolve_governed_evidence_window(
    candidate_evidence_event_ids: &[String],
    proposal: &SelfRevisionProposal,
    queried_event_ids: Option<Vec<String>>,
) -> (r: Result<Vec<String>, AppError>)
    ensures
        ids_outcome(r) == spec_governed_window(
            texts(candidate_evidence_event_ids@),
            texts(proposal.proposed_evidence_event_ids@),
            query_constraint(*proposal, queried_event_ids),
        ),
        r is Err ==> r->Err_0 is InvalidParams,
{
    let ghost constraint = query_constraint(*proposal, queried_event_ids);
    let filtered: Option<(Vec<String>, Option<usize>)> = match (
        &proposal.proposed_evidence_query,
        queried_event_ids,
    ) {
        (Some(q), Some(ids)) => Some((keep_listed(candidate_evidence_event_ids, ids.as_slice()), q.limit)),
        _ => None,
    };
    if proposal.proposed_evidence_event_ids.len() == 0 {
        let (filtered_ids, limit) = match filtered {
            None => {
                return Ok(copy_strings(candidate_evidence_event_ids));
            },
            Some(pair) => pair,
        };
        if filtered_ids.len() == 0 {
            return Err(
                AppError::invalid("proposed evidence query did not match the current trigger window"),
            );
        }
        return match limit {
            Some(l) => Ok(take_at_most(filtered_ids, l)),
            None => Ok(filtered_ids),
        };
    }
    let proposed = match raw_event_ids(proposal.proposed_evidence_event_ids.as_slice()) {
        Some(ids) => ids,
        None => {
            return Err(AppError::invalid("InvalidEventReference"));
        },
    };
    if !all_listed(proposed.as_slice(), candidate_evidence_event_ids) {
        return Err(AppError::invalid("model proposed evidence outside the current trigger window"));
    }
    let outside_query = match &filtered {
        Some((eligible, _)) => !all_listed(proposed.as_slice(), eligible.as_slice()),
        None => false,
    };
    if outside_query {
        return Err(
            AppError::invalid(
                "model proposed evidence ids do not satisfy the proposed evidence query within the current trigger window",
            ),
        );
    }
    Ok(proposed)
}

/// The evidence a proposal writes with never widens the trigger window: every
/// governed id is one of the window's.
pub proof fn lemma_governed_window_within_trigger_window(
    candidate: Seq<Seq<char>>,
    proposed: Seq<Seq<char>>,
    query: Option<(Seq<Seq<char>>, Option<usize>)>,
)
    ensures
        spec_governed_window(candidate, proposed, query) matches Ok(g) ==> forall|x: Seq<char>|
            #[trigger] g.contains(x) ==> candidate.contains(x),
{
    if let Ok(g) = spec_governed_window(candidate, proposed, query) {
        assert forall|x: Seq<char>| #[trigger] g.contains(x) implies candidate.contains(x) by {
            if proposed.len() == 0 {
                if let Some((queried, limit)) = query {
                    let filtered = keep_in(candidate, queried);
                    lemma_keep_in_contains(candidate, queried);
                    if let Some(l) = limit {
                        let k = choose|k: int| 0 <= k < g.len() && g[k] == x;
                        assert(filtered.contains(filtered[k]));
                    }
                }
            } else {
                let p = dedup(ref_ids(proposed));
                let k = choose|k: int| 0 <= k < g.len() && g[k] == x;
                assert(!some_missing(p, candidate));
                assert(candidate.contains(p[k]));
            }
        }
    }
}

/// The self-model updates of a proposal that passed governance.
#[derive(Debug, Clone, PartialEq, Eq)]
pub struct ValidatedSelfRevision {
    pub identity_claims: Option<Vec<String>>,
    pub commitments: Option<Vec<Commitment>>,
}

/// Commitments of `self` with the given rule texts.
pub open spec fn self_commitments(descriptions: Seq<Seq<char>>) -> Seq<(Owner, Seq<char>)> {
    descriptions.map_values(|d: Seq<char>| (Owner::Self_, d))
}

/// Why a proposal fails governance, if it does: its identity patch fails the
/// identity checks; its commitment patch has no supporting evidence or no
/// commitment; or it carries no patch at all.
pub open spec fn self_revision_rejection(
    proposal: SelfRevisionProposal,
    governed_evidence_count: nat,
    context: IdentityRevisionContext,
) -> Option<Seq<char>> {
    if proposal.machine_patch.identity_patch is Some && identity_rejection(context, 3, 2, 2) is Some {
        identity_rejection(context, 3, 2, 2)
    } else if proposal.machine_patch.commitment_patch is Some && governed_evidence_count == 0 {
        Some("commitment auto-reflection updates require supporting evidence"@)
    } else if proposal.machine_patch.commitment_patch matches Some(cp) && cp.commitments@.len()
        == 0 {
        Some("commitment auto-reflection patch must include at least one commitment"@)
    } else if proposal.machine_patch.identity_patch is None
        && proposal.machine_patch.commitment_patch is None {
        Some("auto-reflection proposals must include at least one governed patch"@)
    } else {
        None
    }
}

/// Commitments of `self` with the given rule texts.
pub fn self_commitments_of(descriptions: &[String]) -> (r: Vec<Commitment>)
    ensures
        commitment_views(r@) == self_commitments(texts(descriptions@)),
{
    let mut out: Vec<Commitment> = Vec::new();
    let mut i: usize = 0;
    while i < descriptions.len()
        invariant
            i <= descriptions@.len(),
            out@.len() == i,
            forall|k: int|
                0 <= k < i ==> #[trigger] commitment_view(out@[k]) == (
                    Owner::Self_,
                    descriptions@[k]@,
                ),
        decreases descriptions@.len() - i,
    {
        out.push(Commitment::new(Owner::Self_, descriptions[i].as_str()));
        i = i + 1;
    }
    assert(commitment_views(out@) =~= self_commitments(texts(descriptions@)));
    out
}

/// The updates a proposal may write, given the evidence it governs and the
/// identity-governance context (read only when the proposal has an identity
/// patch).
pub fn validate_self_revision(
    proposal: &SelfRevisionProposal,
    governed_evidence_event_ids: &[String],
    identity_context: &IdentityRevisionContext,
) -> (r: Result<ValidatedSelfRevision, AppError>)
    ensures
        match r {
            Ok(v) => {
                &&& self_revision_rejection(
                    *proposal,
                    governed_evidence_event_ids@.len(),
                    *identity_context,
                ) is None
                &&& match v.identity_claims {
                    Some(c) => proposal.machine_patch.identity_patch is Some && texts(c@)
                        == proposed_identity_claims(*proposal),
                    None => proposal.machine_patch.identity_patch is None,
                }
                &&& match (v.commitments, proposal.machine_patch.commitment_patch) {
                    (Some(cs), Some(cp)) => commitment_views(cs@) == self_commitments(
                        texts(cp.commitments@),
                    ),
                    (None, None) => true,
                    _ => false,
                }
            },
            Err(e) => e is InvalidParams && self_revision_rejection(
                *proposal,
                governed_evidence_event_ids@.len(),
                *identity_context,
            ) == Some(e.message_view()),
        },
{
    let identity_claims = match &proposal.machine_patch.identity_patch {
        Some(_) => match validate_identity_patch(proposal, identity_context) {
            Ok(claims) => Some(claims),
            Err(e) => {
                return Err(e);
            },
        },
        None => None,
    };
    let commitments = match &proposal.machine_patch.commitment_patch {
        Some(patch) => {
            if governed_evidence_event_ids.len() == 0 {
                return Err(
                    AppError::invalid(
                        "commitment auto-reflection updates require supporting evidence",
                    ),
                );
            }
            if patch.commitments.len() == 0 {
                return Err(
                    AppError::invalid(
                        "commitment auto-reflection patch must include at least one commitment",
                    ),
                );
            }
            Some(self_commitments_of(patch.commitments.as_slice()))
        },
        None => None,
    };
    if identity_claims.is_none() && commitments.is_none() {
        return Err(
            AppError::invalid("auto-reflection proposals must include at least one governed patch"),
        );
    }
    Ok(ValidatedSelfRevision { identity_claims, commitments })
}

/// A run skipped before any trigger was looked at, for `reason`.
pub open spec fn skipped_result(
    r: AutoReflectResult,
    input: AutoReflectInput,
    reason: Seq<char>,
) -> bool {
    &&& !r.triggered
    &&& r.trigger_type == Some(input.trigger_type)
    &&& r.reflection_id is None
    &&& r.ledger_status is None
    &&& opt_text(r.reason) == Some(reason)
    &&& opt_text(r.trigger_key) == Some(trigger_key_text(input.namespace@, input.trigger_type))
    &&& r.evidence_event_ids@.len() == 0
    &&& r.cooldown_until is None
    &&& r.suppression_reason is None
    &&& diagnostics_are(
        r.diagnostics,
        input.trigger_type,
        AutoReflectOutcome::Skipped,
        None,
        None,
        None,
        0,
        Seq::empty(),
    )
}

/// A trigger that was not worth considering.
pub open spec fn not_triggered_result(
    r: AutoReflectResult,
    candidate: TriggerCandidate,
) -> bool {
    &&& !r.triggered
    &&& r.trigger_type == Some(candidate.trigger_type)
    &&& r.reflection_id is None
    &&& r.ledger_status is None
    &&& r.reason is None
    &&& opt_text(r.trigger_key) == Some(candidate.trigger_key@)
    &&& texts(r.evidence_event_ids@) == texts(candidate.evidence_event_ids@)
    &&& r.cooldown_until is None
    &&& r.suppression_reason is None
    &&& diagnostics_are(
        r.diagnostics,
        candidate.trigger_type,
        AutoReflectOutcome::NotTriggered,
        None,
        None,
        None,
        candidate.evidence_event_ids@.len(),
        Seq::empty(),
    )
}

/// A considered trigger turned down for `reason`.
pub open spec fn rejected_result(
    r: AutoReflectResult,
    candidate: TriggerCandidate,
    reason: Seq<char>,
) -> bool {
    &&& !r.triggered
    &&& r.trigger_type == Some(candidate.trigger_type)
    &&& r.reflection_id is None
    &&& r.ledger_status == Some(TriggerLedgerStatus::Rejected)
    &&& opt_text(r.reason) == Some(reason)
    &&& opt_text(r.trigger_key) == Some(candidate.trigger_key@)
    &&& texts(r.evidence_event_ids@) == texts(candidate.evidence_event_ids@)
    &&& r.cooldown_until is None
    &&& r.suppression_reason is None
    &&& diagnostics_are(
        r.diagnostics,
        candidate.trigger_type,
        AutoReflectOutcome::Rejected,
        None,
        Some(reason),
        None,
        candidate.evidence_event_ids@.len(),
        Seq::empty(),
    )
}

/// A considered trigger suppressed for `suppression_reason`, reported with the
/// entry that recorded the suppression.
pub open spec fn suppressed_result(
    r: AutoReflectResult,
    candidate: TriggerCandidate,
    entry: StoredTriggerLedgerEntry,
    suppression_reason: SuppressionReason,
) -> bool {
    &&& !r.triggered
    &&& r.trigger_type == Some(candidate.trigger_type)
    &&& opt_text(r.reflection_id) == opt_text(entry.reflection_id)
    &&& r.ledger_status == Some(entry.status)
    &&& r.reason is None
    &&& opt_text(r.trigger_key) == Some(entry.trigger_key@)
    &&& texts(r.evidence_event_ids@) == texts(candidate.evidence_event_ids@)
    &&& r.cooldown_until == entry.cooldown_until
    &&& opt_text(r.suppression_reason) == Some(suppression_label(suppression_reason))
    &&& diagnostics_are(
        r.diagnostics,
        candidate.trigger_type,
        AutoReflectOutcome::Suppressed,
        Some(suppression_label(suppression_reason)),
        None,
        entry.cooldown_until,
        candidate.evidence_event_ids@.len(),
        Seq::empty(),
    )
}

/// A trigger handled by the reflection `reflection_id`, written with the
/// governed evidence `evidence_event_ids`.
pub open spec fn handled_result(
    r: AutoReflectResult,
    candidate: TriggerCandidate,
    evidence_event_ids: Seq<Seq<char>>,
    reflection_id: Seq<char>,
    cooldown_until: Option<Timestamp>,
) -> bool {
    &&& r.triggered
    &&& r.trigger_type == Some(candidate.trigger_type)
    &&& opt_text(r.reflection_id) == Some(reflection_id)
    &&& r.ledger_status == Some(TriggerLedgerStatus::Handled)
    &&& r.reason is None
    &&& opt_text(r.trigger_key) == Some(candidate.trigger_key@)
    &&& texts(r.evidence_event_ids@) == evidence_event_ids
    &&& r.cooldown_until == cooldown_until
    &&& r.suppression_reason is None
    &&& diagnostics_are(
        r.diagnostics,
        candidate.trigger_type,
        AutoReflectOutcome::Handled,
        None,
        None,
        cooldown_until,
        candidate.evidence_event_ids@.len(),
        evidence_event_ids,
    )
}

/// What an automatic reflection attempt reports.
#[derive(Debug, Clone, PartialEq, Eq)]
pub struct AutoReflectResult {
    pub triggered: bool,
    pub trigger_type: Option<TriggerType>,
    pub reflection_id: Option<String>,
    pub ledger_status: Option<TriggerLedgerStatus>,
    pub reason: Option<String>,
    pub trigger_key: Option<String>,
    pub evidence_event_ids: Vec<String>,
    pub cooldown_until: Option<Timestamp>,
    pub suppression_reason: Option<String>,
    pub diagnostics: AutoReflectDiagnosticSummary,
}

/// `d` reports a run of `trigger_type` that ended with `outcome`.
pub open spec fn diagnostics_are(
    d: AutoReflectDiagnosticSummary,
    trigger_type: TriggerType,
    outcome: AutoReflectOutcome,
    suppression_reason: Option<Seq<char>>,
    rejection_reason: Option<Seq<char>>,
    cooldown_boundary: Option<Timestamp>,
    evidence_window_size: nat,
    selected: Seq<Seq<char>>,
) -> bool {
    &&& d.trigger_type == trigger_type
    &&& d.outcome == outcome
    &&& opt_text(d.suppression_reason) == suppression_reason
    &&& opt_text(d.rejection_reason) == rejection_reason
    &&& d.cooldown_boundary == cooldown_boundary
    &&& d.evidence_window_size == evidence_window_size
    &&& texts(d.selected_evidence_event_ids@) == selected
    &&& d.durable_write_path@ == "run_reflection"@
}

impl AutoReflectResult {
    /// A run skipped before any trigger was looked at.
    pub fn skipped(input: &AutoReflectInput, reason: &str) -> (r: AutoReflectResult)
        ensures
            skipped_result(r, *input, reason@),

    {
        let selected: Vec<String> = Vec::new();
        assert(texts(selected@) =~= Seq::<Seq<char>>::empty());
        AutoReflectResult {
            triggered: false,
            trigger_type: Some(input.trigger_type),
            reflection_id: None,
            ledger_status: None,
            reason: Some(crate::text::owned(reason)),
            trigger_key: Some(input.trigger_key()),
            evidence_event_ids: Vec::new(),
            cooldown_until: None,
            suppression_reason: None,
            diagnostics: AutoReflectDiagnosticSummary::new(
                input.trigger_type,
                AutoReflectOutcome::Skipped,
                None,
                None,
                None,
                0,
                selected,
            ),
        }
    }

    /// A trigger that was not worth considering.
    pub fn not_triggered(candidate: &TriggerCandidate) -> (r: AutoReflectResult)
        ensures
            not_triggered_result(r, *candidate),

    {
        let selected: Vec<String> = Vec::new();
        assert(texts(selected@) =~= Seq::<Seq<char>>::empty());
        AutoReflectResult {
            triggered: false,
            trigger_type: Some(candidate.trigger_type),
            reflection_id: None,
            ledger_status: None,
            reason: None,
            trigger_key: Some(candidate.trigger_key.clone()),
            evidence_event_ids: copy_strings(candidate.evidence_event_ids.as_slice()),
            cooldown_until: None,
            suppression_reason: None,
            diagnostics: AutoReflectDiagnosticSummary::new(
                candidate.trigger_type,
                AutoReflectOutcome::NotTriggered,
                None,
                None,
                None,
                candidate.evidence_event_ids.len(),
                selected,
            ),
        }
    }

    /// A considered trigger that the model or governance turned down.
    pub fn rejected(candidate: &TriggerCandidate, reason: &str) -> (r: AutoReflectResult)
        ensures
            rejected_result(r, *candidate, reason@),

    {
        let selected: Vec<String> = Vec::new();
        assert(texts(selected@) =~= Seq::<Seq<char>>::empty());
        AutoReflectResult {
            triggered: false,
            trigger_type: Some(candidate.trigger_type),
            reflection_id: None,
            ledger_status: Some(TriggerLedgerStatus::Rejected),
            reason: Some(crate::text::owned(reason)),
            trigger_key: Some(candidate.trigger_key.clone()),
            evidence_event_ids: copy_strings(candidate.evidence_event_ids.as_slice()),
            cooldown_until: None,
            suppression_reason: None,
            diagnostics: AutoReflectDiagnosticSummary::new(
                candidate.trigger_type,
                AutoReflectOutcome::Rejected,
                None,
                Some(crate::text::owned(reason)),
                None,
                candidate.evidence_event_ids.len(),
                selected,
            ),
        }
    }

    /// A considered trigger that was suppressed, reported with the entry that
    /// recorded the suppression.
    pub fn suppressed(
        candidate: &TriggerCandidate,
        entry: &StoredTriggerLedgerEntry,
        suppression_reason: SuppressionReason,
    ) -> (r: AutoReflectResult)
        ensures
            suppressed_result(r, *candidate, *entry, suppression_reason),

    {
        let selected: Vec<String> = Vec::new();
        assert(texts(selected@) =~= Seq::<Seq<char>>::empty());
        let label = suppression_reason.as_str();
        AutoReflectResult {
            triggered: false,
            trigger_type: Some(candidate.trigger_type),
            reflection_id: copy_opt_string(&entry.reflection_id),
            ledger_status: Some(entry.status),
            reason: None,
            trigger_key: Some(entry.trigger_key.clone()),
            evidence_event_ids: copy_strings(candidate.evidence_event_ids.as_slice()),
            cooldown_until: entry.cooldown_until,
            suppression_reason: Some(crate::text::owned(label)),
            diagnostics: AutoReflectDiagnosticSummary::new(
                candidate.trigger_type,
                AutoReflectOutcome::Suppressed,
                Some(crate::text::owned(label)),
                None,
                entry.cooldown_until,
                candidate.evidence_event_ids.len(),
                selected,
            ),
        }
    }

    /// A trigger handled by the reflection `reflection_id`, written with the
    /// governed evidence `evidence_event_ids`.
    pub fn handled(
        candidate: &TriggerCandidate,
        evidence_event_ids: Vec<String>,
        reflection_id: String,
        cooldown_until: Option<Timestamp>,
    ) -> (r: AutoReflectResult)
        ensures
            handled_result(r, *candidate, texts(evidence_event_ids@), reflection_id@, cooldown_until),

    {
        let selected = copy_strings(evidence_event_ids.as_slice());
        AutoReflectResult {
            triggered: true,
            trigger_type: Some(candidate.trigger_type),
            reflection_id: Some(reflection_id),
            ledger_status: Some(TriggerLedgerStatus::Handled),
            reason: None,
            trigger_key: Some(candidate.trigger_key.clone()),
            evidence_event_ids,
            cooldown_until,
            suppression_reason: None,
            diagnostics: AutoReflectDiagnosticSummary::new(
                candidate.trigger_type,
                AutoReflectOutcome::Handled,
                None,
                None,
                cooldown_until,
                candidate.evidence_event_ids.len(),
                selected,
            ),
        }
    }
}

/// The result of a run whose recursion guard is closed: it is skipped before
/// any trigger is looked at. A run with the guard open goes on (`None`).
pub fn recursion_guard_result(input: &AutoReflectInput) -> (r: Option<AutoReflectResult>)
    ensures
        match r {
            Some(res) => input.recursion_guard == RecursionGuard::SkipAutoReflection && !res.triggered
                && opt_text(res.reason) == Some("recursion guard enabled"@) && res.diagnostics.outcome
                == AutoReflectOutcome::Skipped,
            None => input.recursion_guard == RecursionGuard::Allow,
        },
{
    match input.recursion_guard {
        RecursionGuard::SkipAutoReflection => Some(
            AutoReflectResult::skipped(input, "recursion guard enabled"),
        ),
        RecursionGuard::Allow => None,
    }
}

/// The snapshot budget a revision is built on: the evidence window's size,
/// but at least three.
pub fn revision_snapshot_budget(candidate: &TriggerCandidate) -> (r: usize)
    ensures
        r == if candidate.evidence_event_ids@.len() < DEFAULT_SNAPSHOT_BUDGET {
            DEFAULT_SNAPSHOT_BUDGET as nat
        } else {
            candidate.evidence_event_ids@.len()
        },
{
    let n = candidate.evidence_event_ids.len();
    if n < DEFAULT_SNAPSHOT_BUDGET {
        DEFAULT_SNAPSHOT_BUDGET
    } else {
        n
    }
}

/// The reflection request that writes a governed proposal: it records the
/// proposal's rationale with the governed evidence, handles the trigger's
/// ledger entry, and carries the validated identity and commitment updates.
pub fn auto_reflection_input(
    proposal: &SelfRevisionProposal,
    governed_evidence_event_ids: &[String],
    validated: ValidatedSelfRevision,
    handled_trigger_ledger_entry: StoredTriggerLedgerEntry,
) -> (r: ReflectionInput)
    ensures
        r.spec_reflection().spec_summary() == proposal.rationale@,
        r.spec_target_claim_id() is None,
        r.spec_replacement_claim() is None,
        r.spec_evidence_event_ids() == texts(governed_evidence_event_ids@),
        r.spec_evidence_query() is None,
        r.spec_handled_entry() == Some(handled_trigger_ledger_entry),
        match (r.spec_identity_update(), validated.identity_claims) {
            (Some(u), Some(c)) => u.canonical_claims == c,
            (None, None) => true,
            _ => false,
        },
        r.spec_commitment_updates() == validated.commitments,
{
    let input = ReflectionInput::record_only(
        Reflection::new(proposal.rationale.as_str()),
        copy_strings(governed_evidence_event_ids),
    ).with_optional_replacement_evidence_query(None).with_handled_trigger_ledger_entry(
        handled_trigger_ledger_entry,
    );
    let input = match validated.identity_claims {
        Some(claims) => input.with_identity_update(claims),
        None => input,
    };
    match validated.commitments {
        Some(commitments) => input.with_commitment_updates(commitments),
        None => input,
    }
}

/// A trigger handled at `written` keeps its key quiet for 24 hours: while its
/// entry is the latest of the key, every trigger of the key evaluated before
/// the 24 hours have passed is suppressed with `cooldown_active`, and from
/// then on the entry no longer holds a cooldown.
pub proof fn lemma_handled_trigger_suppresses_during_cooldown(
    entry: StoredTriggerLedgerEntry,
    handled: TriggerCandidate,
    evidence: Seq<Seq<char>>,
    reflection_id: Option<Seq<char>>,
    written: Timestamp,
    later: TriggerCandidate,
    latest_handled: Option<StoredTriggerLedgerEntry>,
    now: Timestamp,
)
    requires
        entry_for(entry, handled, evidence, TriggerLedgerStatus::Handled, reflection_id, None, written),
        written.secs + 24 * 3600 <= i64::MAX,
    ensures
        ts_before(now, plus_hours(written, 24)) ==> spec_suppression(
            later,
            Some(entry),
            latest_handled,
            now,
        ) == Some(SuppressionReason::CooldownActive),
        !ts_before(now, plus_hours(written, 24)) ==> !cooldown_live(entry, now),
{
}

/// A rejected trigger starts no cooldown: its entry never keeps the key quiet.
pub proof fn lemma_rejected_trigger_starts_no_cooldown(
    entry: StoredTriggerLedgerEntry,
    candidate: TriggerCandidate,
    evidence: Seq<Seq<char>>,
    reflection_id: Option<Seq<char>>,
    written: Timestamp,
    now: Timestamp,
)
    requires
        entry_for(entry, candidate, evidence, TriggerLedgerStatus::Rejected, reflection_id, None, written),
    ensures
        !cooldown_live(entry, now),
        entry.cooldown_until is None,
{
}

/// A suppression during a live cooldown keeps the cooldown's end: recording it
/// neither extends nor ends the cooldown.
pub proof fn lemma_suppression_keeps_cooldown_boundary(
    entry: StoredTriggerLedgerEntry,
    candidate: TriggerCandidate,
    latest: StoredTriggerLedgerEntry,
    latest_handled: Option<StoredTriggerLedgerEntry>,
    now: Timestamp,
)
    requires
        entry_for(
            entry,
            candidate,
            texts(candidate.evidence_event_ids@),
            TriggerLedgerStatus::Suppressed,
            preserved_reflection_id(Some(latest), latest_handled),
            preserved_cooldown(Some(latest), now),
            now,
        ),
        cooldown_live(latest, now),
    ensures
        entry.cooldown_until == latest.cooldown_until,
        cooldown_live(entry, now),
{
}

/// A handled evidence window is not reflected on again: once a trigger has been
/// handled, a later trigger of the key with the same non-empty evidence window,
/// or a later periodic trigger that has seen no new episode, is suppressed.
pub proof fn lemma_handled_window_is_not_reflected_again(
    handled_entry: StoredTriggerLedgerEntry,
    handled: TriggerCandidate,
    reflection_id: Option<Seq<char>>,
    written: Timestamp,
    later: TriggerCandidate,
    latest: StoredTriggerLedgerEntry,
    now: Timestamp,
)
    requires
        entry_for(
            handled_entry,
            handled,
            texts(handled.evidence_event_ids@),
            TriggerLedgerStatus::Handled,
            reflection_id,
            None,
            written,
        ),
        (later.evidence_event_ids@.len() > 0 && texts(later.evidence_event_ids@) == texts(
            handled.evidence_event_ids@,
        )) || (later.trigger_type is Periodic && watermark_of(later.episode_watermark)
            <= watermark_of(handled.episode_watermark)),
    ensures
        spec_suppression(later, Some(latest), Some(handled_entry), now) is Some,
{
    assert(texts(handled_entry.evidence_window@) == texts(handled.evidence_event_ids@));
}

/// New episodes reopen a periodic trigger: once the cooldown of the latest
/// entry is over (or it has none), a candidate whose evidence window is empty
/// or differs from the handled one is not suppressed, provided that, for a
/// periodic candidate, it has seen more episodes than the latest handled
/// entry recorded. A key with no ledger entry is never suppressed.
pub proof fn lemma_new_episodes_reopen_periodic_trigger(
    candidate: TriggerCandidate,
    latest: StoredTriggerLedgerEntry,
    handled: StoredTriggerLedgerEntry,
    now: Timestamp,
)
    requires
        candidate.trigger_type is Periodic ==> (candidate.episode_watermark matches Some(w)
            && match handled.episode_watermark {
            Some(hw) => hw < w,
            None => 0 < w,
        }),
        !(latest.status is Handled || latest.status is Suppressed) || match latest.cooldown_until {
            Some(c) => !ts_before(now, c),
            None => true,
        },
        candidate.evidence_event_ids@.len() == 0 || texts(handled.evidence_window@) != texts(
            candidate.evidence_event_ids@,
        ),
    ensures
        spec_suppression(candidate, Some(latest), Some(handled), now) is None,
        spec_suppression(candidate, None, Some(handled), now) is None,
{
}

/// An accepted identity revision passed every governance check: at least three
/// supporting claims across at least two episodes, no conflicting active claim,
/// no live cooldown, nothing handled within the last day, and one or two claims.
pub proof fn lemma_accepted_identity_revision_is_governed(context: IdentityRevisionContext)
    requires
        identity_rejection(context, 3, 2, 2) is None,
    ensures
        context.supporting_claim_count >= 3,
        context.cross_episode_support_count >= 2,
        !context.has_high_conflict,
        !(context.cooldown_until matches Some(c) && ts_before(context.now, c)),
        !(context.latest_handled_at matches Some(h) && within_a_day_of(h, context.now)),
        1 <= context.patch_size <= 2,
{
}

} // verus!
