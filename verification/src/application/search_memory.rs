//! Searching memory records of one namespace: which filters a search may
//! combine, which claim status a query asks for, and how the records of a
//! union search are ordered and cut to the limit.
use vstd::prelude::*;

use crate::domain::claim::ClaimReference;
use crate::domain::error::AppError;
use crate::domain::event::EventReference;
use crate::domain::time::{ts_before, Timestamp};
use crate::domain::types::{owner_of_namespace, EventKind, MemoryScope, Mode, Namespace, Owner};
use crate::ports::{
    ClaimReadRecord, ClaimRecordQuery, ClaimStatus, EpisodeReadRecord, EpisodeRecordQuery,
    EventReadRecord, EventRecordQuery, ReflectionReadRecord, ReflectionRecordQuery,
    MAX_EVENT_RECORD_QUERY_LIMIT,
};
use crate::seqs::{concat_all, concat_vecs, copy_opt_string, opt_text, take_at_most_seq, texts, vec_views};
use crate::text::{
    concat_str, decimal, decimal_string, is_exact, is_exact_token, lemma_text_lt_strict, str_lt,
    text_lt,
};

verus! {

/// The number of records a search returns when no limit is given.
pub const DEFAULT_SEARCH_MEMORY_LIMIT: usize = 20;

/// The kinds of memory record a search can return.
#[derive(Debug, Clone, Copy, PartialEq, Eq, Structural)]
pub enum MemoryRecordType {
    Event,
    Claim,
    Episode,
    Reflection,
}

/// The label of a record type.
pub open spec fn record_type_label(t: MemoryRecordType) -> Seq<char> {
    match t {
        MemoryRecordType::Event => "event"@,
        MemoryRecordType::Claim => "claim"@,
        MemoryRecordType::Episode => "episode"@,
        MemoryRecordType::Reflection => "reflection"@,
    }
}

impl MemoryRecordType {
    pub fn as_str(self) -> (r: &'static str)
        ensures
            r@ == record_type_label(self),
    {
        match self {
            MemoryRecordType::Event => "event",
            MemoryRecordType::Claim => "claim",
            MemoryRecordType::Episode => "episode",
            MemoryRecordType::Reflection => "reflection",
        }
    }
}

/// A search of one namespace.
#[derive(Debug, Clone, PartialEq, Eq)]
pub struct SearchMemoryInput {
    pub namespace: Namespace,
    pub record_types: Vec<MemoryRecordType>,
    pub event_reference: Option<EventReference>,
    pub kind: Option<EventKind>,
    pub recorded_after: Option<Timestamp>,
    pub recorded_before: Option<Timestamp>,
    pub claim_reference: Option<ClaimReference>,
    pub claim_status: Option<ClaimStatus>,
    pub mode: Option<Mode>,
    pub episode_reference: Option<String>,
    pub reflection_reference: Option<String>,
    pub limit: usize,
}

/// An optional reference is absent or non-empty without edge white space.
pub open spec fn reference_ok(r: Option<String>) -> bool {
    match r {
        Some(s) => is_exact_token(s@),
        None => true,
    }
}

/// Whether an optional reference is absent or non-empty without edge white space.
fn optional_reference_ok(r: &Option<String>) -> (b: bool)
    ensures
        b == reference_ok(*r),
{
    match r {
        Some(s) => is_exact(s.as_str()),
        None => true,
    }
}

impl SearchMemoryInput {
    /// The search asks for more than one record type.
    pub open spec fn spec_is_union(&self) -> bool {
        self.record_types@.len() > 1
    }

    /// Some filter other than namespace, record types and limit is set.
    pub open spec fn has_any_filter(&self) -> bool {
        ||| self.event_reference is Some
        ||| self.kind is Some
        ||| self.recorded_after is Some
        ||| self.recorded_before is Some
        ||| self.claim_reference is Some
        ||| self.claim_status is Some
        ||| self.mode is Some
        ||| self.episode_reference is Some
        ||| self.reflection_reference is Some
    }

    /// Why a single-type search of `t` is refused, if it is: a filter that
    /// belongs to another record type is set.
    pub open spec fn single_type_rejection(&self, t: MemoryRecordType) -> Option<Seq<char>> {
        match t {
            MemoryRecordType::Event => if self.claim_reference is Some || self.claim_status is Some
                || self.mode is Some || self.episode_reference is Some
                || self.reflection_reference is Some {
                Some(
                    "claim_reference, claim_status, mode, episode_reference, and reflection_reference require their matching record_type"@,
                )
            } else {
                None
            },
            MemoryRecordType::Claim => if self.event_reference is Some || self.kind is Some
                || self.recorded_after is Some || self.recorded_before is Some
                || self.episode_reference is Some || self.reflection_reference is Some {
                Some(
                    "event_reference, kind, recorded time filters, episode_reference, and reflection_reference require their matching record_type; claims do not have a stored recorded_at timestamp"@,
                )
            } else {
                None
            },
            MemoryRecordType::Episode => if self.event_reference is Some || self.kind is Some
                || self.recorded_after is Some || self.recorded_before is Some
                || self.claim_reference is Some || self.claim_status is Some || self.mode is Some
                || self.reflection_reference is Some {
                Some("Episode searches support only episode_reference and limit filters"@)
            } else {
                None
            },
            MemoryRecordType::Reflection => if self.event_reference is Some || self.kind is Some
                || self.recorded_after is Some || self.recorded_before is Some
                || self.claim_reference is Some || self.claim_status is Some || self.mode is Some
                || self.episode_reference is Some {
                Some("Reflection searches support only reflection_reference and limit filters"@)
            } else {
                None
            },
        }
    }

    /// Why the search is refused, if it is, with the message of the first
    /// failed rule: a limit from 1 to 100, at least one record type and none
    /// twice, a time window that is not reversed, exact references, no filter
    /// in a union search, and only the filters of the record type otherwise.
    pub open spec fn rejection(&self) -> Option<Seq<char>> {
        if self.limit == 0 {
            Some("search_memory limit must be at least 1"@)
        } else if self.limit > MAX_EVENT_RECORD_QUERY_LIMIT {
            Some("search_memory limit must be at most "@ + decimal(MAX_EVENT_RECORD_QUERY_LIMIT as nat))
        } else if self.record_types@.len() == 0 {
            Some("search_memory record_types must contain at least one record type"@)
        } else if !self.record_types@.no_duplicates() {
            Some("search_memory record_types must not contain duplicates"@)
        } else if self.recorded_after matches Some(after) && self.recorded_before matches Some(
            before,
        ) && ts_before(before, after) {
            Some("recorded_after must be less than or equal to recorded_before"@)
        } else if !reference_ok(self.episode_reference) {
            Some(
                "episode_reference must be non-empty and have no leading or trailing whitespace"@,
            )
        } else if !reference_ok(self.reflection_reference) {
            Some(
                "reflection_reference must be non-empty and have no leading or trailing whitespace"@,
            )
        } else if self.spec_is_union() {
            if self.has_any_filter() {
                Some("union searches support only namespace, record_types, and limit filters"@)
            } else {
                None
            }
        } else {
            self.single_type_rejection(self.record_types@[0])
        }
    }

    /// Whether the search asks for more than one record type.
    pub fn is_union(&self) -> (r: bool)
        ensures
            r == self.spec_is_union(),
    {
        self.record_types.len() > 1
    }

    /// The record type of a single-type search.
    pub fn single_record_type(&self) -> (r: Option<MemoryRecordType>)
        ensures
            r == if self.record_types@.len() == 1 {
                Some(self.record_types@[0])
            } else {
                None
            },
    {
        if self.record_types.len() == 1 {
            Some(self.record_types[0])
        } else {
            None
        }
    }

    /// Whether some record type occurs twice.
    fn has_duplicate_record_type(&self) -> (r: bool)
        ensures
            r == !self.record_types@.no_duplicates(),
    {
        let types = &self.record_types;
        let mut i: usize = 0;
        while i < types.len()
            invariant
                types@ == self.record_types@,
                i <= types@.len(),
                forall|a: int, b: int|
                    0 <= a < i && 0 <= b < types@.len() && a != b ==> types@[a] != types@[b],
            decreases types@.len() - i,
        {
            let mut j: usize = 0;
            while j < types.len()
                invariant
                    types@ == self.record_types@,
                    i < types@.len(),
                    j <= types@.len(),
                    forall|a: int, b: int|
                        0 <= a < i && 0 <= b < types@.len() && a != b ==> types@[a] != types@[b],
                    forall|b: int| 0 <= b < j && b != i ==> types@[i as int] != types@[b],
                decreases types@.len() - j,
            {
                if j != i && types[i] == types[j] {
                    assert(types@[i as int] == types@[j as int]);
                    assert(!types@.no_duplicates());
                    return true;
                }
                j = j + 1;
            }
            i = i + 1;
        }
        false
    }

    /// A union search may set no filter besides namespace, record types and limit.
    pub fn validate_union_filters(&self) -> (r: Result<(), AppError>)
        ensures
            match r {
                Ok(_) => !self.has_any_filter(),
                Err(e) => self.has_any_filter() && e is InvalidParams && e.message_view()
                    == "union searches support only namespace, record_types, and limit filters"@,
            },
    {
        if self.event_reference.is_some() || self.kind.is_some() || self.recorded_after.is_some()
            || self.recorded_before.is_some() || self.claim_reference.is_some()
            || self.claim_status.is_some() || self.mode.is_some()
            || self.episode_reference.is_some() || self.reflection_reference.is_some() {
            return Err(
                AppError::invalid(
                    "union searches support only namespace, record_types, and limit filters",
                ),
            );
        }
        Ok(())
    }

    /// A single-type search may set only the filters of its record type.
    pub fn validate_single_type_filters(&self, record_type: MemoryRecordType) -> (r: Result<
        (),
        AppError,
    >)
        ensures
            match r {
                Ok(_) => self.single_type_rejection(record_type) is None,
                Err(e) => e is InvalidParams && self.single_type_rejection(record_type) == Some(
                    e.message_view(),
                ),
            },
    {
        match record_type {
            MemoryRecordType::Event => {
                if self.claim_reference.is_some() || self.claim_status.is_some()
                    || self.mode.is_some() || self.episode_reference.is_some()
                    || self.reflection_reference.is_some() {
                    return Err(
                        AppError::invalid(
                            "claim_reference, claim_status, mode, episode_reference, and reflection_reference require their matching record_type",
                        ),
                    );
                }
            },
            MemoryRecordType::Claim => {
                if self.event_reference.is_some() || self.kind.is_some()
                    || self.recorded_after.is_some() || self.recorded_before.is_some()
                    || self.episode_reference.is_some() || self.reflection_reference.is_some() {
                    return Err(
                        AppError::invalid(
                            "event_reference, kind, recorded time filters, episode_reference, and reflection_reference require their matching record_type; claims do not have a stored recorded_at timestamp",
                        ),
                    );
                }
            },
            MemoryRecordType::Episode => {
                if self.event_reference.is_some() || self.kind.is_some()
                    || self.recorded_after.is_some() || self.recorded_before.is_some()
                    || self.claim_reference.is_some() || self.claim_status.is_some()
                    || self.mode.is_some() || self.reflection_reference.is_some() {
                    return Err(
                        AppError::invalid(
                            "Episode searches support only episode_reference and limit filters",
                        ),
                    );
                }
            },
            MemoryRecordType::Reflection => {
                if self.event_reference.is_some() || self.kind.is_some()
                    || self.recorded_after.is_some() || self.recorded_before.is_some()
                    || self.claim_reference.is_some() || self.claim_status.is_some()
                    || self.mode.is_some() || self.episode_reference.is_some() {
                    return Err(
                        AppError::invalid(
                            "Reflection searches support only reflection_reference and limit filters",
                        ),
                    );
                }
            },
        }
        Ok(())
    }

    /// Checks the search against its rules; see `rejection`.
    pub fn validate(&self) -> (r: Result<(), AppError>)
        ensures
            match r {
                Ok(_) => self.rejection() is None,
                Err(e) => e is InvalidParams && self.rejection() == Some(e.message_view()),
            },
    {
        if self.limit == 0 {
            return Err(AppError::invalid("search_memory limit must be at least 1"));
        }
        if self.limit > MAX_EVENT_RECORD_QUERY_LIMIT {
            let digits = decimal_string(MAX_EVENT_RECORD_QUERY_LIMIT);
            return Err(
                AppError::InvalidParams(
                    concat_str("search_memory limit must be at most ", digits.as_str()),
                ),
            );
        }
        if self.record_types.len() == 0 {
            return Err(
                AppError::invalid(
                    "search_memory record_types must contain at least one record type",
                ),
            );
        }
        if self.has_duplicate_record_type() {
            return Err(AppError::invalid("search_memory record_types must not contain duplicates"));
        }
        let reversed = match (self.recorded_after, self.recorded_before) {
            (Some(after), Some(before)) => before.is_before(&after),
            _ => false,
        };
        if reversed {
            return Err(
                AppError::invalid("recorded_after must be less than or equal to recorded_before"),
            );
        }
        if !optional_reference_ok(&self.episode_reference) {
            return Err(
                AppError::invalid(
                    "episode_reference must be non-empty and have no leading or trailing whitespace",
                ),
            );
        }
        if !optional_reference_ok(&self.reflection_reference) {
            return Err(
                AppError::invalid(
                    "reflection_reference must be non-empty and have no leading or trailing whitespace",
                ),
            );
        }
        if self.is_union() {
            return self.validate_union_filters();
        }
        self.validate_single_type_filters(self.record_types[0])
    }
}

/// The claim status a claim query of this search asks for: a union search
/// reads active claims unless a status is given.
pub open spec fn spec_claim_query_status(input: SearchMemoryInput) -> Option<ClaimStatus> {
    if input.spec_is_union() && input.claim_status is None {
        Some(ClaimStatus::Active)
    } else {
        input.claim_status
    }
}

/// The claim status a claim query of this search asks for.
pub fn claim_query_status(input: &SearchMemoryInput) -> (r: Option<ClaimStatus>)
    ensures
        r == spec_claim_query_status(*input),
{
    if input.is_union() {
        match input.claim_status {
            Some(s) => Some(s),
            None => Some(ClaimStatus::Active),
        }
    } else {
        input.claim_status
    }
}

/// Where an event record comes from and what it supports.
#[derive(Debug, Clone, PartialEq, Eq)]
pub struct EventProvenance {
    pub evidence_event_reference: String,
    pub claim_ids: Vec<String>,
    pub episode_references: Vec<String>,
}

/// The evidence, episodes and revisions of a claim record.
#[derive(Debug, Clone, PartialEq, Eq)]
pub struct ClaimProvenance {
    pub evidence_event_references: Vec<String>,
    pub episode_references: Vec<String>,
    pub source_reflection_id: Option<String>,
    pub supersedes_claim_reference: Option<String>,
    pub superseded_by_reflection_id: Option<String>,
    pub replacement_claim_reference: Option<String>,
}

/// The events and claims an episode record groups.
#[derive(Debug, Clone, PartialEq, Eq)]
pub struct EpisodeProvenance {
    pub event_references: Vec<String>,
    pub claim_references: Vec<String>,
}

/// The claims a reflection record revised and its evidence.
#[derive(Debug, Clone, PartialEq, Eq)]
pub struct ReflectionProvenance {
    pub superseded_claim_reference: Option<String>,
    pub replacement_claim_reference: Option<String>,
    pub supporting_evidence_event_references: Vec<String>,
}

/// A record a search returns.
#[derive(Debug, Clone, PartialEq, Eq)]
pub enum SearchMemoryRecord {
    Event {
        id: String,
        recorded_at: Timestamp,
        owner: Owner,
        namespace: String,
        kind: EventKind,
        summary: String,
        provenance: EventProvenance,
    },
    Claim {
        id: String,
        owner: Owner,
        namespace: String,
        subject: String,
        predicate: String,
        object: String,
        mode: Mode,
        status: ClaimStatus,
        provenance: ClaimProvenance,
    },
    Episode {
        id: String,
        recorded_at: Timestamp,
        owner: Owner,
        namespace: String,
        provenance: EpisodeProvenance,
    },
    Reflection {
        id: String,
        recorded_at: Timestamp,
        owner: Owner,
        namespace: String,
        summary: String,
        provenance: ReflectionProvenance,
    },
}

/// The canonical texts `event:<id>` of a list of event references.
pub open spec fn event_canonicals(refs: Seq<EventReference>) -> Seq<Seq<char>> {
    refs.map_values(|e: EventReference| "event:"@ + e@)
}

/// The canonical texts `claim:<id>` of a list of claim references.
pub open spec fn claim_canonicals(refs: Seq<ClaimReference>) -> Seq<Seq<char>> {
    refs.map_values(|c: ClaimReference| "claim:"@ + c@)
}

/// The canonical text of an optional claim reference.
pub open spec fn opt_claim_canonical(o: Option<ClaimReference>) -> Option<Seq<char>> {
    match o {
        Some(c) => Some("claim:"@ + c@),
        None => None,
    }
}

/// The canonical texts of a list of event references.
pub fn canonical_event_references(refs: &[EventReference]) -> (r: Vec<String>)
    ensures
        texts(r@) == event_canonicals(refs@),
{
    let mut out: Vec<String> = Vec::new();
    let mut i: usize = 0;
    while i < refs.len()
        invariant
            i <= refs@.len(),
            out@.len() == i,
            forall|k: int| 0 <= k < i ==> #[trigger] out@[k]@ == "event:"@ + refs@[k]@,
        decreases refs@.len() - i,
    {
        out.push(refs[i].canonical());
        i = i + 1;
    }
    assert(texts(out@) =~= event_canonicals(refs@));
    out
}

/// The canonical texts of a list of claim references.
pub fn canonical_claim_references(refs: &[ClaimReference]) -> (r: Vec<String>)
    ensures
        texts(r@) == claim_canonicals(refs@),
{
    let mut out: Vec<String> = Vec::new();
    let mut i: usize = 0;
    while i < refs.len()
        invariant
            i <= refs@.len(),
            out@.len() == i,
            forall|k: int| 0 <= k < i ==> #[trigger] out@[k]@ == "claim:"@ + refs@[k]@,
        decreases refs@.len() - i,
    {
        out.push(refs[i].canonical());
        i = i + 1;
    }
    assert(texts(out@) =~= claim_canonicals(refs@));
    out
}

/// The canonical text of an optional claim reference.
pub fn canonical_opt_claim(o: &Option<ClaimReference>) -> (r: Option<String>)
    ensures
        opt_text(r) == opt_claim_canonical(*o),
{
    match o {
        Some(c) => Some(c.canonical()),
        None => None,
    }
}

impl SearchMemoryRecord {
    /// The event record of a stored event, with its canonical reference as id.
    pub fn from_event_record(value: EventReadRecord) -> (r: SearchMemoryRecord)
        ensures
            r matches SearchMemoryRecord::Event {
                id,
                recorded_at,
                owner,
                namespace,
                kind,
                summary,
                provenance,
            } && id@ == "event:"@ + value.event.event_id@ && recorded_at
                == value.event.recorded_at && owner == value.event.event.spec_owner() && namespace@
                == value.event.event.spec_namespace() && kind == value.event.event.spec_kind()
                && summary@ == value.event.event.spec_summary()
                && provenance.evidence_event_reference@ == id@ && provenance.claim_ids
                == value.claim_ids && provenance.episode_references == value.episode_references,
    {
        let reference = value.event.event_reference();
        SearchMemoryRecord::Event {
            id: reference.clone(),
            recorded_at: value.event.recorded_at,
            owner: value.event.event.owner(),
            namespace: crate::text::owned(value.event.event.namespace().as_str()),
            kind: value.event.event.kind(),
            summary: crate::text::owned(value.event.event.summary()),
            provenance: EventProvenance {
                evidence_event_reference: reference,
                claim_ids: value.claim_ids,
                episode_references: value.episode_references,
            },
        }
    }

    /// The claim record of a stored claim, with its canonical reference as id
    /// and every reference in canonical form.
    pub fn from_claim_record(value: ClaimReadRecord) -> (r: SearchMemoryRecord)
        ensures
            r matches SearchMemoryRecord::Claim {
                id,
                owner,
                namespace,
                subject,
                predicate,
                object,
                mode,
                status,
                provenance,
            } && id@ == "claim:"@ + value.claim.claim_id@ && owner == value.claim.claim.spec_owner()
                && namespace@ == value.claim.claim.spec_namespace() && subject@
                == value.claim.claim.spec_subject() && predicate@
                == value.claim.claim.spec_predicate() && object@
                == value.claim.claim.spec_object() && mode == value.claim.claim.spec_mode()
                && status == value.claim.status && texts(provenance.evidence_event_references@)
                == event_canonicals(value.evidence_event_references@)
                && provenance.episode_references == value.episode_references
                && provenance.source_reflection_id == value.revision.source_reflection_id
                && opt_text(provenance.supersedes_claim_reference) == opt_claim_canonical(
                value.revision.supersedes_claim_reference,
            ) && provenance.superseded_by_reflection_id
                == value.revision.superseded_by_reflection_id && opt_text(
                provenance.replacement_claim_reference,
            ) == opt_claim_canonical(value.revision.replacement_claim_reference),
    {
        let claim = &value.claim.claim;
        SearchMemoryRecord::Claim {
            id: ClaimReference::from_claim_id(value.claim.claim_id.as_str()).canonical(),
            owner: claim.owner(),
            namespace: crate::text::owned(claim.namespace().as_str()),
            subject: crate::text::owned(claim.subject()),
            predicate: crate::text::owned(claim.predicate()),
            object: crate::text::owned(claim.object()),
            mode: claim.mode(),
            status: value.claim.status,
            provenance: ClaimProvenance {
                evidence_event_references: canonical_event_references(
                    value.evidence_event_references.as_slice(),
                ),
                episode_references: value.episode_references,
                source_reflection_id: value.revision.source_reflection_id,
                supersedes_claim_reference: canonical_opt_claim(
                    &value.revision.supersedes_claim_reference,
                ),
                superseded_by_reflection_id: value.revision.superseded_by_reflection_id,
                replacement_claim_reference: canonical_opt_claim(
                    &value.revision.replacement_claim_reference,
                ),
            },
        }
    }

    /// The episode record of a stored episode, with canonical references.
    pub fn from_episode_record(value: EpisodeReadRecord) -> (r: SearchMemoryRecord)
        ensures
            r matches SearchMemoryRecord::Episode { id, recorded_at, owner, namespace, provenance }
                && id == value.episode_reference && recorded_at == value.recorded_at && owner
                == value.owner && namespace@ == value.namespace@ && texts(
                provenance.event_references@,
            ) == event_canonicals(value.event_references@) && texts(
                provenance.claim_references@,
            ) == claim_canonicals(value.claim_references@),
    {
        SearchMemoryRecord::Episode {
            id: value.episode_reference,
            recorded_at: value.recorded_at,
            owner: value.owner,
            namespace: crate::text::owned(value.namespace.as_str()),
            provenance: EpisodeProvenance {
                event_references: canonical_event_references(value.event_references.as_slice()),
                claim_references: canonical_claim_references(value.claim_references.as_slice()),
            },
        }
    }

    /// The reflection record of a stored reflection, with canonical references.
    pub fn from_reflection_record(value: ReflectionReadRecord) -> (r: SearchMemoryRecord)
        ensures
            r matches SearchMemoryRecord::Reflection {
                id,
                recorded_at,
                owner,
                namespace,
                summary,
                provenance,
            } && id == value.reflection_id && recorded_at == value.recorded_at && owner
                == value.owner && namespace@ == value.namespace@ && summary == value.summary
                && opt_text(provenance.superseded_claim_reference) == opt_claim_canonical(
                value.provenance.superseded_claim_reference,
            ) && opt_text(provenance.replacement_claim_reference) == opt_claim_canonical(
                value.provenance.replacement_claim_reference,
            ) && texts(provenance.supporting_evidence_event_references@) == event_canonicals(
                value.provenance.supporting_evidence_event_references@,
            ),
    {
        SearchMemoryRecord::Reflection {
            id: value.reflection_id,
            recorded_at: value.recorded_at,
            owner: value.owner,
            namespace: crate::text::owned(value.namespace.as_str()),
            summary: value.summary,
            provenance: ReflectionProvenance {
                superseded_claim_reference: canonical_opt_claim(
                    &value.provenance.superseded_claim_reference,
                ),
                replacement_claim_reference: canonical_opt_claim(
                    &value.provenance.replacement_claim_reference,
                ),
                supporting_evidence_event_references: canonical_event_references(
                    value.provenance.supporting_evidence_event_references.as_slice(),
                ),
            },
        }
    }
}

/// When a record was recorded; claims keep no recording time.
pub open spec fn record_time(r: SearchMemoryRecord) -> Option<Timestamp> {
    match r {
        SearchMemoryRecord::Event { recorded_at, .. } => Some(recorded_at),
        SearchMemoryRecord::Episode { recorded_at, .. } => Some(recorded_at),
        SearchMemoryRecord::Reflection { recorded_at, .. } => Some(recorded_at),
        SearchMemoryRecord::Claim { .. } => None,
    }
}

/// The rank of a record's type among records recorded at the same time.
pub open spec fn record_rank(r: SearchMemoryRecord) -> nat {
    match r {
        SearchMemoryRecord::Event { .. } => 0,
        SearchMemoryRecord::Episode { .. } => 1,
        SearchMemoryRecord::Reflection { .. } => 2,
        SearchMemoryRecord::Claim { .. } => 3,
    }
}

/// The id of a record.
pub open spec fn record_id(r: SearchMemoryRecord) -> Seq<char> {
    match r {
        SearchMemoryRecord::Event { id, .. } => id@,
        SearchMemoryRecord::Claim { id, .. } => id@,
        SearchMemoryRecord::Episode { id, .. } => id@,
        SearchMemoryRecord::Reflection { id, .. } => id@,
    }
}

/// `a` is later than `b`; any time is later than none.
pub open spec fn time_later(a: Option<Timestamp>, b: Option<Timestamp>) -> bool {
    match (a, b) {
        (Some(x), Some(y)) => ts_before(y, x),
        (Some(_), None) => true,
        _ => false,
    }
}

/// `x` comes strictly before `y` in a union search: later records first,
/// records without a time last; at the same time events, then episodes, then
/// reflections, then claims; then by id, descending.
pub open spec fn union_precedes(x: SearchMemoryRecord, y: SearchMemoryRecord) -> bool {
    ||| time_later(record_time(x), record_time(y))
    ||| record_time(x) == record_time(y) && record_rank(x) < record_rank(y)
    ||| record_time(x) == record_time(y) && record_rank(x) == record_rank(y) && text_lt(
        record_id(y),
        record_id(x),
    )
}

/// No record of `s` comes strictly before an earlier one.
pub open spec fn union_sorted(s: Seq<SearchMemoryRecord>) -> bool {
    forall|i: int, j: int| 0 <= i < j < s.len() ==> !#[trigger] union_precedes(s[j], s[i])
}

/// The union order is a strict order: asymmetric and transitive.
pub proof fn lemma_union_precedes_strict(
    x: SearchMemoryRecord,
    y: SearchMemoryRecord,
    z: SearchMemoryRecord,
)
    ensures
        union_precedes(x, y) ==> !union_precedes(y, x),
        union_precedes(x, y) && union_precedes(y, z) ==> union_precedes(x, z),
{
    lemma_text_lt_strict(record_id(x), record_id(y), record_id(z));
    lemma_text_lt_strict(record_id(y), record_id(x), record_id(z));
    lemma_text_lt_strict(record_id(z), record_id(y), record_id(x));
}

fn time_of(r: &SearchMemoryRecord) -> (t: Option<Timestamp>)
    ensures
        t == record_time(*r),
{
    match r {
        SearchMemoryRecord::Event { recorded_at, .. } => Some(*recorded_at),
        SearchMemoryRecord::Episode { recorded_at, .. } => Some(*recorded_at),
        SearchMemoryRecord::Reflection { recorded_at, .. } => Some(*recorded_at),
        SearchMemoryRecord::Claim { .. } => None,
    }
}

fn rank_of(r: &SearchMemoryRecord) -> (n: u8)
    ensures
        n == record_rank(*r),
{
    match r {
        SearchMemoryRecord::Event { .. } => 0,
        SearchMemoryRecord::Episode { .. } => 1,
        SearchMemoryRecord::Reflection { .. } => 2,
        SearchMemoryRecord::Claim { .. } => 3,
    }
}

fn id_of(r: &SearchMemoryRecord) -> (s: &str)
    ensures
        s@ == record_id(*r),
{
    match r {
        SearchMemoryRecord::Event { id, .. } => id.as_str(),
        SearchMemoryRecord::Claim { id, .. } => id.as_str(),
        SearchMemoryRecord::Episode { id, .. } => id.as_str(),
        SearchMemoryRecord::Reflection { id, .. } => id.as_str(),
    }
}

/// Whether `x` comes strictly before `y` in a union search.
pub fn precedes_in_union(x: &SearchMemoryRecord, y: &SearchMemoryRecord) -> (r: bool)
    ensures
        r == union_precedes(*x, *y),
{
    let tx = time_of(x);
    let ty = time_of(y);
    let later = match (tx, ty) {
        (Some(a), Some(b)) => b.is_before(&a),
        (Some(_), None) => true,
        _ => false,
    };
    if later {
        return true;
    }
    let same_time = match (tx, ty) {
        (Some(a), Some(b)) => a == b,
        (None, None) => true,
        _ => false,
    };
    if !same_time {
        return false;
    }
    let rx = rank_of(x);
    let ry = rank_of(y);
    rx < ry || (rx == ry && str_lt(id_of(y), id_of(x)))
}

/// The records ordered for a union search: sorted by the union order, the same
/// records as given; records that tie keep their order.
pub fn sort_union_records(records: Vec<SearchMemoryRecord>) -> (r: Vec<SearchMemoryRecord>)
    ensures
        union_sorted(r@),
        r@.to_multiset() == records@.to_multiset(),
{
    broadcast use vstd::multiset::group_multiset_axioms;
    broadcast use vstd::seq_lib::group_to_multiset_ensures;

    let ghost all = records@.to_multiset();
    let mut src = records;
    let mut pending: Vec<SearchMemoryRecord> = Vec::new();
    assert(pending@.to_multiset() =~= vstd::multiset::Multiset::empty());
    assert(src@.to_multiset().add(pending@.to_multiset()) =~= all);
    // Move the records to `pending` in reverse order, so that popping from it
    // yields them in their original order.
    while src.len() > 0
        invariant
            src@.to_multiset().add(pending@.to_multiset()) == all,
        decreases src@.len(),
    {
        let ghost before_src = src@;
        let ghost before_pending = pending@;
        let x = src.pop().unwrap();
        assert(before_src =~= src@.push(x));
        proof {
            vstd::seq_lib::to_multiset_build(src@, x);
        }
        pending.push(x);
        proof {
            vstd::seq_lib::to_multiset_build(before_pending, x);
        }
        assert(src@.to_multiset().add(pending@.to_multiset()) =~= all);
    }
    assert(src@ =~= Seq::<SearchMemoryRecord>::empty());
    let mut out: Vec<SearchMemoryRecord> = Vec::new();
    assert(src@.to_multiset() =~= vstd::multiset::Multiset::empty());
    assert(out@.to_multiset() =~= vstd::multiset::Multiset::empty());
    while pending.len() > 0
        invariant
            union_sorted(out@),
            out@.to_multiset().add(pending@.to_multiset()) == all,
        decreases pending@.len(),
    {
        let ghost before_pending = pending@;
        let x = pending.pop().unwrap();
        assert(before_pending =~= pending@.push(x));
        proof {
            vstd::seq_lib::to_multiset_build(pending@, x);
        }
        let mut p: usize = 0;
        while p < out.len() && !precedes_in_union(&x, &out[p])
            invariant
                p <= out@.len(),
                forall|k: int| 0 <= k < p ==> !#[trigger] union_precedes(x, out@[k]),
            decreases out@.len() - p,
        {
            p = p + 1;
        }
        let ghost old_out = out@;
        proof {
            if p < old_out.len() {
                assert(union_precedes(x, old_out[p as int]));
            }
        }
        out.insert(p, x);
        proof {
            vstd::seq_lib::to_multiset_insert(old_out, p as int, x);
        }
        assert forall|i: int, j: int| 0 <= i < j < out@.len() implies !#[trigger] union_precedes(
            out@[j],
            out@[i],
        ) by {
            let n = out@;
            if j < p {
                assert(n[i] == old_out[i] && n[j] == old_out[j]);
            } else if j == p {
                assert(n[i] == old_out[i] && n[j] == x);
                lemma_union_precedes_strict(x, old_out[i], x);
            } else if i == p {
                assert(n[i] == x && n[j] == old_out[j - 1]);
                if j - 1 > p {
                    assert(!union_precedes(old_out[j - 1], old_out[p as int]));
                }
                lemma_union_precedes_strict(old_out[j - 1], x, old_out[p as int]);
                lemma_union_precedes_strict(x, old_out[p as int], old_out[j - 1]);
            } else if i < p {
                assert(n[i] == old_out[i] && n[j] == old_out[j - 1]);
            } else {
                assert(n[i] == old_out[i - 1] && n[j] == old_out[j - 1]);
            }
        }
        assert(out@.to_multiset().add(pending@.to_multiset()) =~= all);
    }
    assert(pending@ =~= Seq::<SearchMemoryRecord>::empty());
    assert(pending@.to_multiset() =~= vstd::multiset::Multiset::empty());
    assert(out@.to_multiset() =~= all);
    out
}

/// What a search returns.
#[derive(Debug, Clone, PartialEq, Eq)]
pub struct SearchMemoryResult {
    pub owner: Owner,
    pub namespace: String,
    pub limit: usize,
    pub record_types: Vec<String>,
    pub records: Vec<SearchMemoryRecord>,
}

/// `r` is the first `limit` records of some ordering of `all` by the union order.
pub open spec fn union_cut(
    r: Seq<SearchMemoryRecord>,
    all: Seq<SearchMemoryRecord>,
    limit: usize,
) -> bool {
    exists|sorted: Seq<SearchMemoryRecord>|
        #![trigger take_at_most_seq(sorted, limit)]
        sorted.to_multiset() == all.to_multiset() && union_sorted(sorted) && r == take_at_most_seq(
            sorted,
            limit,
        )
}

/// The labels of a list of record types.
pub open spec fn record_type_labels(types: Seq<MemoryRecordType>) -> Seq<Seq<char>> {
    types.map_values(|t: MemoryRecordType| record_type_label(t))
}

/// The labels of the given record types.
pub fn labels_of(types: &[MemoryRecordType]) -> (r: Vec<String>)
    ensures
        texts(r@) == record_type_labels(types@),
{
    let mut out: Vec<String> = Vec::new();
    let mut i: usize = 0;
    while i < types.len()
        invariant
            i <= types@.len(),
            out@.len() == i,
            forall|k: int| 0 <= k < i ==> #[trigger] out@[k]@ == record_type_label(types@[k]),
        decreases types@.len() - i,
    {
        out.push(crate::text::owned(types[i].as_str()));
        i = i + 1;
    }
    assert(texts(out@) =~= record_type_labels(types@));
    out
}

/// The result of a valid search, from the records each record type's query
/// returned, in the order of the search's record types: a single-type search
/// returns them as they came; a union search orders them all by the union
/// order and keeps the first `limit`.
pub fn finish_search(input: &SearchMemoryInput, typed_records: Vec<Vec<SearchMemoryRecord>>) -> (r:
    SearchMemoryResult)
    ensures
        r.owner == owner_of_namespace(input.namespace@),
        r.namespace@ == input.namespace@,
        r.limit == input.limit,
        texts(r.record_types@) == record_type_labels(input.record_types@),
        !input.spec_is_union() ==> r.records@ == concat_all(vec_views(typed_records@)),
        input.spec_is_union() ==> union_cut(
            r.records@,
            concat_all(vec_views(typed_records@)),
            input.limit,
        ),
{
    let all = concat_vecs(typed_records);
    let records = if input.is_union() {
        let mut sorted = sort_union_records(all);
        let ghost full = sorted@;
        sorted.truncate(input.limit);
        proof {
            assert(sorted@ =~= take_at_most_seq(full, input.limit));
        }
        sorted
    } else {
        all
    };
    SearchMemoryResult {
        owner: input.namespace.owner_of(),
        namespace: crate::text::owned(input.namespace.as_str()),
        limit: input.limit,
        record_types: labels_of(input.record_types.as_slice()),
        records,
    }
}

/// The scope a search reads: its namespace with the namespace's owner.
pub fn search_scope(input: &SearchMemoryInput) -> (r: MemoryScope)
    ensures
        r.spec_namespace() == Some(input.namespace@),
        r.spec_owner() == Some(owner_of_namespace(input.namespace@)),
{
    MemoryScope::for_namespace(input.namespace.duplicate())
}

/// The text of an optional event reference.
pub open spec fn opt_event_ref(o: Option<EventReference>) -> Option<Seq<char>> {
    match o {
        Some(e) => Some(e@),
        None => None,
    }
}

/// The text of an optional claim reference.
pub open spec fn opt_claim_ref(o: Option<ClaimReference>) -> Option<Seq<char>> {
    match o {
        Some(c) => Some(c@),
        None => None,
    }
}

fn copy_opt_event_ref(o: &Option<EventReference>) -> (r: Option<EventReference>)
    ensures
        opt_event_ref(r) == opt_event_ref(*o),
{
    match o {
        Some(e) => Some(e.duplicate()),
        None => None,
    }
}

fn copy_opt_claim_ref(o: &Option<ClaimReference>) -> (r: Option<ClaimReference>)
    ensures
        opt_claim_ref(r) == opt_claim_ref(*o),
{
    match o {
        Some(c) => Some(c.duplicate()),
        None => None,
    }
}

/// The event query of a search: its event filters and limit.
pub fn event_record_query(scope: &MemoryScope, input: &SearchMemoryInput) -> (r: EventRecordQuery)
    ensures
        r.scope.spec_owner() == scope.spec_owner(),
        r.scope.spec_namespace() == scope.spec_namespace(),
        opt_event_ref(r.event_reference) == opt_event_ref(input.event_reference),
        r.kind == input.kind,
        r.recorded_after == input.recorded_after,
        r.recorded_before == input.recorded_before,
        r.limit == input.limit,
{
    EventRecordQuery {
        scope: scope.duplicate(),
        event_reference: copy_opt_event_ref(&input.event_reference),
        kind: input.kind,
        recorded_after: input.recorded_after,
        recorded_before: input.recorded_before,
        limit: input.limit,
    }
}

/// The claim query of a search: its claim filters, the status it asks for
/// (active claims by default in a union search), and its limit.
pub fn claim_record_query(scope: &MemoryScope, input: &SearchMemoryInput) -> (r: ClaimRecordQuery)
    ensures
        r.scope.spec_owner() == scope.spec_owner(),
        r.scope.spec_namespace() == scope.spec_namespace(),
        opt_claim_ref(r.claim_reference) == opt_claim_ref(input.claim_reference),
        r.status == spec_claim_query_status(*input),
        r.mode == input.mode,
        r.limit == input.limit,
{
    ClaimRecordQuery {
        scope: scope.duplicate(),
        claim_reference: copy_opt_claim_ref(&input.claim_reference),
        status: claim_query_status(input),
        mode: input.mode,
        limit: input.limit,
    }
}

/// The episode query of a search.
pub fn episode_record_query(scope: &MemoryScope, input: &SearchMemoryInput) -> (r:
    EpisodeRecordQuery)
    ensures
        r.scope.spec_owner() == scope.spec_owner(),
        r.scope.spec_namespace() == scope.spec_namespace(),
        opt_text(r.episode_reference) == opt_text(input.episode_reference),
        r.limit == input.limit,
{
    EpisodeRecordQuery {
        scope: scope.duplicate(),
        episode_reference: copy_opt_string(&input.episode_reference),
        limit: input.limit,
    }
}

/// The reflection query of a search.
pub fn reflection_record_query(scope: &MemoryScope, input: &SearchMemoryInput) -> (r:
    ReflectionRecordQuery)
    ensures
        r.scope.spec_owner() == scope.spec_owner(),
        r.scope.spec_namespace() == scope.spec_namespace(),
        opt_text(r.reflection_reference) == opt_text(input.reflection_reference),
        r.limit == input.limit,
{
    ReflectionRecordQuery {
        scope: scope.duplicate(),
        reflection_reference: copy_opt_string(&input.reflection_reference),
        limit: input.limit,
    }
}

/// A union search returns at most `limit` records, newest first: no returned
/// record comes strictly before one returned ahead of it.
pub proof fn lemma_union_search_is_ordered_and_bounded(
    r: Seq<SearchMemoryRecord>,
    all: Seq<SearchMemoryRecord>,
    limit: usize,
)
    requires
        union_cut(r, all, limit),
    ensures
        r.len() <= limit,
        r.len() <= all.len(),
        union_sorted(r),
        forall|x: SearchMemoryRecord| r.contains(x) ==> all.contains(x),
{
    broadcast use vstd::seq_lib::group_to_multiset_ensures;

    let sorted = choose|sorted: Seq<SearchMemoryRecord>|
        #![trigger take_at_most_seq(sorted, limit)]
        sorted.to_multiset() == all.to_multiset() && union_sorted(sorted) && r == take_at_most_seq(
            sorted,
            limit,
        );
    assert(sorted.to_multiset().len() == all.to_multiset().len());
    assert(sorted.len() == all.len());
    assert forall|x: SearchMemoryRecord| r.contains(x) implies all.contains(x) by {
        let k = choose|k: int| 0 <= k < r.len() && r[k] == x;
        assert(sorted[k] == x);
        assert(sorted.contains(x));
        assert(sorted.to_multiset().count(x) > 0);
    }
}

/// A union search is recent-first: in a sorted union, a record with a
/// recorded time stands before every record recorded earlier and before every
/// record without a time.
pub proof fn lemma_union_sorted_is_recent_first(s: Seq<SearchMemoryRecord>, i: int, j: int)
    requires
        union_sorted(s),
        0 <= i < s.len(),
        0 <= j < s.len(),
        record_time(s[i]) matches Some(ti) && match record_time(s[j]) {
            Some(tj) => ts_before(tj, ti),
            None => true,
        },
    ensures
        i < j,
{
    if j < i {
        assert(!union_precedes(s[i], s[j]));
    }
}

/// The limit of a union search keeps the most recent records: when a record
/// survives the cut, every record of the union recorded later survives too,
/// and stands before it.
pub proof fn lemma_union_limit_keeps_the_latest(
    r: Seq<SearchMemoryRecord>,
    all: Seq<SearchMemoryRecord>,
    limit: usize,
    x: SearchMemoryRecord,
    k: int,
)
    requires
        union_cut(r, all, limit),
        all.contains(x),
        0 <= k < r.len(),
        record_time(x) matches Some(tx) && match record_time(r[k]) {
            Some(ty) => ts_before(ty, tx),
            None => true,
        },
    ensures
        exists|m: int| 0 <= m < k && r[m] == x,
{
    broadcast use vstd::seq_lib::group_to_multiset_ensures;

    let sorted = choose|sorted: Seq<SearchMemoryRecord>|
        #![trigger take_at_most_seq(sorted, limit)]
        sorted.to_multiset() == all.to_multiset() && union_sorted(sorted) && r == take_at_most_seq(
            sorted,
            limit,
        );
    assert(all.to_multiset().count(x) > 0);
    assert(sorted.contains(x));
    let p = choose|p: int| 0 <= p < sorted.len() && sorted[p] == x;
    assert(sorted[k] == r[k]);
    lemma_union_sorted_is_recent_first(sorted, p, k);
    assert(r[p] == x);
}

} // verus!
