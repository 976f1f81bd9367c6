//! The parameters of the MCP tools, as plain values, and how each becomes an
//! application request: which texts are accepted, how references are
//! normalised, and which defaults apply.
use vstd::prelude::*;

use crate::application::auto_reflect_if_needed::{
    has_any_hint, hints_match, str_texts, AutoReflectInput, RecursionGuard,
};
use crate::application::ingest_interaction::IngestInput;
use crate::application::build_self_snapshot::BuildSelfSnapshotInput;
use crate::application::decide_with_snapshot::DecideWithSnapshotInput;
use crate::application::get_evidence_relation::GetEvidenceRelationInput;
use crate::application::get_memory::{GetMemoryInput, MemoryRecordReference};
use crate::application::get_reflection_history::{
    limit_rejection, GetReflectionHistoryInput, DEFAULT_REFLECTION_HISTORY_LIMIT,
};
use crate::application::get_self_model_history::{
    GetSelfModelHistoryInput, DEFAULT_SELF_MODEL_HISTORY_LIMIT,
};
use crate::application::run_reflection::ReflectionInput;
use crate::application::search_memory::{SearchMemoryInput, DEFAULT_SEARCH_MEMORY_LIMIT};
use crate::application::supersede_memory::raw_ids;
use crate::application::search_memory::MemoryRecordType;
use crate::domain::claim::{claim_ref_id, is_valid_claim_reference_text, ClaimDraft, ClaimReference};
use crate::domain::error::{
    domain_error_view, error_view, invalid_view, outcome, AppError, DomainError,
};
use crate::domain::event::{
    event_ref_id, is_valid_event_reference_text, Event, EventReference,
    MAX_EVIDENCE_MANIFEST_ITEMS,
};
use crate::domain::records::{Commitment, Reflection, ReflectionIdentityUpdate};
use crate::domain::self_revision::TriggerType;
use crate::domain::snapshot::{is_valid_window, SelfSnapshot, SnapshotBudget, SnapshotTimeWindow};
use crate::domain::time::{parse_rfc3339_detailed, rfc3339_timestamp, Timestamp};
use crate::domain::types::{
    default_namespace_of, is_valid_namespace_text, lemma_default_namespace_matches_owner,
    namespace_matches_owner, opt_namespace, owner_of_namespace, EventKind, MemoryScope, Mode,
    Namespace, Owner,
};
use crate::ports::{ClaimStatus, EvidenceQuery, SelfModelHistoryKind};
use crate::seqs::{
    contains_text, copy_opt_string, copy_strings, dedup, insert_sorted_distinct, lemma_dedup_props,
    sorted_listing_of,
    strictly_sorted, texts,
};
use crate::text::{
    all_white_space, concat3, concat_str, decimal, decimal_string, is_blank, is_exact,
    is_exact_token, join_strings, join_texts, lemma_text_lt_strict, owned, text_lt,
};

verus! {

/// An owner as a tool names it.
#[derive(Debug, Clone, Copy, PartialEq, Eq, Structural)]
pub enum OwnerDto {
    Self_,
    User,
    World,
    Unknown,
}

/// The owner a tool's owner names.
pub open spec fn owner_of_dto(o: OwnerDto) -> Owner {
    match o {
        OwnerDto::Self_ => Owner::Self_,
        OwnerDto::User => Owner::User,
        OwnerDto::World => Owner::World,
        OwnerDto::Unknown => Owner::Unknown,
    }
}

impl OwnerDto {
    pub fn to_owner(self) -> (r: Owner)
        ensures
            r == owner_of_dto(self),
    {
        match self {
            OwnerDto::Self_ => Owner::Self_,
            OwnerDto::User => Owner::User,
            OwnerDto::World => Owner::World,
            OwnerDto::Unknown => Owner::Unknown,
        }
    }
}

/// A mode as a tool names it.
#[derive(Debug, Clone, Copy, PartialEq, Eq, Structural)]
pub enum ModeDto {
    Observed,
    Said,
    Acted,
    Inferred,
    Draft,
}

/// The mode a tool's mode names.
pub open spec fn mode_of_dto(m: ModeDto) -> Mode {
    match m {
        ModeDto::Observed => Mode::Observed,
        ModeDto::Said => Mode::Said,
        ModeDto::Acted => Mode::Acted,
        ModeDto::Inferred => Mode::Inferred,
        ModeDto::Draft => Mode::Draft,
    }
}

impl ModeDto {
    pub fn to_mode(self) -> (r: Mode)
        ensures
            r == mode_of_dto(self),
    {
        match self {
            ModeDto::Observed => Mode::Observed,
            ModeDto::Said => Mode::Said,
            ModeDto::Acted => Mode::Acted,
            ModeDto::Inferred => Mode::Inferred,
            ModeDto::Draft => Mode::Draft,
        }
    }
}

/// A record type as `get_memory` names it.
#[derive(Debug, Clone, Copy, PartialEq, Eq, Structural)]
pub enum MemoryRecordTypeDto {
    Event,
    Claim,
    Episode,
    Reflection,
}

/// A record type as `search_memory` names it.
#[derive(Debug, Clone, Copy, PartialEq, Eq, Structural)]
pub enum SearchMemoryRecordTypeDto {
    Event,
    Claim,
    Episode,
    Reflection,
}

/// The record type a `get_memory` record type names.
pub open spec fn record_type_of_dto(t: MemoryRecordTypeDto) -> MemoryRecordType {
    match t {
        MemoryRecordTypeDto::Event => MemoryRecordType::Event,
        MemoryRecordTypeDto::Claim => MemoryRecordType::Claim,
        MemoryRecordTypeDto::Episode => MemoryRecordType::Episode,
        MemoryRecordTypeDto::Reflection => MemoryRecordType::Reflection,
    }
}

/// The record type a `search_memory` record type names.
pub open spec fn search_type_of_dto(t: SearchMemoryRecordTypeDto) -> MemoryRecordType {
    match t {
        SearchMemoryRecordTypeDto::Event => MemoryRecordType::Event,
        SearchMemoryRecordTypeDto::Claim => MemoryRecordType::Claim,
        SearchMemoryRecordTypeDto::Episode => MemoryRecordType::Episode,
        SearchMemoryRecordTypeDto::Reflection => MemoryRecordType::Reflection,
    }
}

impl MemoryRecordTypeDto {
    pub fn to_record_type(self) -> (r: MemoryRecordType)
        ensures
            r == record_type_of_dto(self),
    {
        match self {
            MemoryRecordTypeDto::Event => MemoryRecordType::Event,
            MemoryRecordTypeDto::Claim => MemoryRecordType::Claim,
            MemoryRecordTypeDto::Episode => MemoryRecordType::Episode,
            MemoryRecordTypeDto::Reflection => MemoryRecordType::Reflection,
        }
    }
}

impl SearchMemoryRecordTypeDto {
    pub fn to_record_type(self) -> (r: MemoryRecordType)
        ensures
            r == search_type_of_dto(self),
    {
        match self {
            SearchMemoryRecordTypeDto::Event => MemoryRecordType::Event,
            SearchMemoryRecordTypeDto::Claim => MemoryRecordType::Claim,
            SearchMemoryRecordTypeDto::Episode => MemoryRecordType::Episode,
            SearchMemoryRecordTypeDto::Reflection => MemoryRecordType::Reflection,
        }
    }
}

/// A claim status as a tool names it.
#[derive(Debug, Clone, Copy, PartialEq, Eq, Structural)]
pub enum ClaimStatusDto {
    Active,
    Disputed,
    Superseded,
}

/// The status a tool's claim status names.
pub open spec fn status_of_dto(s: ClaimStatusDto) -> ClaimStatus {
    match s {
        ClaimStatusDto::Active => ClaimStatus::Active,
        ClaimStatusDto::Disputed => ClaimStatus::Disputed,
        ClaimStatusDto::Superseded => ClaimStatus::Superseded,
    }
}

impl ClaimStatusDto {
    pub fn to_status(self) -> (r: ClaimStatus)
        ensures
            r == status_of_dto(self),
    {
        match self {
            ClaimStatusDto::Active => ClaimStatus::Active,
            ClaimStatusDto::Disputed => ClaimStatus::Disputed,
            ClaimStatusDto::Superseded => ClaimStatus::Superseded,
        }
    }
}

/// An event kind as a tool names it.
#[derive(Debug, Clone, Copy, PartialEq, Eq, Structural)]
pub enum EventKindDto {
    Observation,
    Conversation,
    Action,
    Reflection,
}

/// The kind a tool's event kind names.
pub open spec fn kind_of_dto(k: EventKindDto) -> EventKind {
    match k {
        EventKindDto::Observation => EventKind::Observation,
        EventKindDto::Conversation => EventKind::Conversation,
        EventKindDto::Action => EventKind::Action,
        EventKindDto::Reflection => EventKind::Reflection,
    }
}

impl EventKindDto {
    pub fn to_kind(self) -> (r: EventKind)
        ensures
            r == kind_of_dto(self),
    {
        match self {
            EventKindDto::Observation => EventKind::Observation,
            EventKindDto::Conversation => EventKind::Conversation,
            EventKindDto::Action => EventKind::Action,
            EventKindDto::Reflection => EventKind::Reflection,
        }
    }
}

/// A self-model history type as a tool names it.
#[derive(Debug, Clone, Copy, PartialEq, Eq, Structural)]
pub enum SelfModelHistoryTypeDto {
    Identity,
    Commitment,
}

impl SelfModelHistoryTypeDto {
    pub fn to_kind(self) -> (r: SelfModelHistoryKind)
        ensures
            r == match self {
                SelfModelHistoryTypeDto::Identity => SelfModelHistoryKind::Identity,
                SelfModelHistoryTypeDto::Commitment => SelfModelHistoryKind::Commitment,
            },
    {
        match self {
            SelfModelHistoryTypeDto::Identity => SelfModelHistoryKind::Identity,
            SelfModelHistoryTypeDto::Commitment => SelfModelHistoryKind::Commitment,
        }
    }
}

/// Why a write for `owner` in the optional namespace `ns` is refused, if it
/// is: an unknown owner, a namespace that does not parse, or one that cannot
/// hold the owner's memories.
pub open spec fn write_placement_rejection(owner: Owner, ns: Option<Seq<char>>) -> Option<
    DomainError,
> {
    if !owner.spec_accepted_for_new_writes() {
        Some(DomainError::UnknownOwnerNotWritable)
    } else {
        match ns {
            Some(n) => if !is_valid_namespace_text(n) {
                Some(DomainError::InvalidNamespace)
            } else if !namespace_matches_owner(n, owner) {
                Some(DomainError::NamespaceOwnerMismatch)
            } else {
                None
            },
            None => None,
        }
    }
}

/// The namespace a write lands in: the given one, or the owner's default.
pub open spec fn write_namespace(owner: Owner, ns: Option<Seq<char>>) -> Seq<char> {
    match ns {
        Some(n) => n,
        None => default_namespace_of(owner),
    }
}

/// An event as a tool gives it.
#[derive(Debug, Clone, PartialEq, Eq)]
pub struct EventDto {
    pub owner: OwnerDto,
    pub namespace: Option<String>,
    pub kind: EventKindDto,
    pub summary: String,
}

/// The text of an optional string.
pub open spec fn opt_view(o: Option<String>) -> Option<Seq<char>> {
    match o {
        Some(s) => Some(s@),
        None => None,
    }
}

impl EventDto {
    /// The event a tool's event describes; refused for an unknown owner or a
    /// namespace that does not parse or does not fit the owner.
    pub fn to_event(&self) -> (r: Result<Event, DomainError>)
        ensures
            match write_placement_rejection(owner_of_dto(self.owner), opt_view(self.namespace)) {
                Some(e) => r == Err::<Event, DomainError>(e),
                None => r matches Ok(ev) && ev.spec_owner() == owner_of_dto(self.owner)
                    && ev.spec_namespace() == write_namespace(
                    owner_of_dto(self.owner),
                    opt_view(self.namespace),
                ) && ev.spec_kind() == kind_of_dto(self.kind) && ev.spec_summary()
                    == self.summary@,
            },
    {
        let owner = self.owner.to_owner();
        if !owner.is_accepted_for_new_writes() {
            return Err(DomainError::UnknownOwnerNotWritable);
        }
        let kind = self.kind.to_kind();
        match &self.namespace {
            Some(text) => {
                let namespace = match Namespace::parse(text.as_str()) {
                    Ok(ns) => ns,
                    Err(e) => {
                        return Err(e);
                    },
                };
                Event::new_with_namespace(owner, namespace, kind, self.summary.as_str())
            },
            None => Ok(Event::new(owner, kind, self.summary.as_str())),
        }
    }
}

/// A claim as a tool gives it.
#[derive(Debug, Clone, PartialEq, Eq)]
pub struct ClaimDraftDto {
    pub owner: OwnerDto,
    pub namespace: Option<String>,
    pub subject: String,
    pub predicate: String,
    pub object: String,
    pub mode: ModeDto,
}

/// Why a tool's claim is refused, if it is: an unknown owner or a namespace
/// that does not parse (the namespace's fit to the owner is checked when the
/// claim is validated).
pub open spec fn claim_dto_rejection(owner: Owner, ns: Option<Seq<char>>) -> Option<DomainError> {
    if !owner.spec_accepted_for_new_writes() {
        Some(DomainError::UnknownOwnerNotWritable)
    } else {
        match ns {
            Some(n) => if !is_valid_namespace_text(n) {
                Some(DomainError::InvalidNamespace)
            } else {
                None
            },
            None => None,
        }
    }
}

impl ClaimDraftDto {
    /// The claim draft a tool's claim describes.
    pub fn to_claim_draft(&self) -> (r: Result<ClaimDraft, DomainError>)
        ensures
            match claim_dto_rejection(owner_of_dto(self.owner), opt_view(self.namespace)) {
                Some(e) => r == Err::<ClaimDraft, DomainError>(e),
                None => r matches Ok(c) && c.spec_owner() == owner_of_dto(self.owner)
                    && c.spec_namespace() == write_namespace(
                    owner_of_dto(self.owner),
                    opt_view(self.namespace),
                ) && c.spec_subject() == self.subject@ && c.spec_predicate() == self.predicate@
                    && c.spec_object() == self.object@ && c.spec_mode() == mode_of_dto(self.mode),
            },
    {
        let owner = self.owner.to_owner();
        if !owner.is_accepted_for_new_writes() {
            return Err(DomainError::UnknownOwnerNotWritable);
        }
        let mode = self.mode.to_mode();
        match &self.namespace {
            Some(text) => {
                let namespace = match Namespace::parse(text.as_str()) {
                    Ok(ns) => ns,
                    Err(e) => {
                        return Err(e);
                    },
                };
                Ok(
                    ClaimDraft::new_with_namespace(
                        owner,
                        namespace,
                        self.subject.as_str(),
                        self.predicate.as_str(),
                        self.object.as_str(),
                        mode,
                    ),
                )
            },
            None => Ok(
                ClaimDraft::new(
                    owner,
                    self.subject.as_str(),
                    self.predicate.as_str(),
                    self.object.as_str(),
                    mode,
                ),
            ),
        }
    }
}

/// A commitment as a tool gives it.
#[derive(Debug, Clone, PartialEq, Eq)]
pub struct CommitmentDto {
    pub owner: OwnerDto,
    pub description: String,
}

impl CommitmentDto {
    pub fn to_commitment(&self) -> (r: Commitment)
        ensures
            r.owner == owner_of_dto(self.owner),
            r.description@ == self.description@,
    {
        Commitment::new(self.owner.to_owner(), self.description.as_str())
    }
}

/// A snapshot as a tool gives it.
#[derive(Debug, Clone, PartialEq, Eq)]
pub struct SelfSnapshotDto {
    pub identity: Vec<String>,
    pub commitments: Vec<String>,
    pub claims: Vec<String>,
    pub evidence: Vec<String>,
    pub episodes: Vec<String>,
}

impl SelfSnapshotDto {
    pub fn into_snapshot(self) -> (r: SelfSnapshot)
        ensures
            r.identity == self.identity,
            r.commitments == self.commitments,
            r.claims == self.claims,
            r.evidence == self.evidence,
            r.episodes == self.episodes,
    {
        SelfSnapshot {
            identity: self.identity,
            commitments: self.commitments,
            claims: self.claims,
            evidence: self.evidence,
            episodes: self.episodes,
        }
    }
}

/// A reflection as a tool gives it.
#[derive(Debug, Clone, PartialEq, Eq)]
pub struct ReflectionDto {
    pub summary: String,
}

impl ReflectionDto {
    pub fn to_reflection(&self) -> (r: Reflection)
        ensures
            r.spec_summary() == self.summary@,
    {
        Reflection::new(self.summary.as_str())
    }
}

/// An identity update as a tool gives it.
#[derive(Debug, Clone, PartialEq, Eq)]
pub struct ReflectionIdentityUpdateDto {
    pub canonical_claims: Vec<String>,
}

impl ReflectionIdentityUpdateDto {
    pub fn into_update(self) -> (r: ReflectionIdentityUpdate)
        ensures
            r.canonical_claims == self.canonical_claims,
    {
        ReflectionIdentityUpdate::new(self.canonical_claims)
    }
}

/// The parameters of `decide_with_snapshot`.
#[derive(Debug, Clone, PartialEq, Eq)]
pub struct DecideWithSnapshotParams {
    pub task: String,
    pub action: String,
    pub snapshot: SelfSnapshotDto,
    pub trigger_hints: Vec<String>,
    pub auto_reflect_namespace: Option<String>,
}

impl DecideWithSnapshotParams {
    /// The decision request: the task, the action and the snapshot as given.
    pub fn into_input(self) -> (r: DecideWithSnapshotInput)
        ensures
            r.task == self.task,
            r.action == self.action,
            r.snapshot.identity == self.snapshot.identity,
            r.snapshot.commitments == self.snapshot.commitments,
            r.snapshot.claims == self.snapshot.claims,
            r.snapshot.evidence == self.snapshot.evidence,
            r.snapshot.episodes == self.snapshot.episodes,
    {
        DecideWithSnapshotInput {
            task: self.task,
            action: self.action,
            snapshot: self.snapshot.into_snapshot(),
        }
    }
}

/// What a reference parameter must be: non-empty, without edge white space.
pub open spec fn exact_reference_message(field: Seq<char>) -> Seq<char> {
    field + " must be non-empty and have no leading or trailing whitespace"@
}

/// An opaque reference, taken as given when it is non-empty without edge white
/// space.
pub fn parse_opaque_exact_reference(value: String, field: &str) -> (r: Result<String, AppError>)
    ensures
        is_exact_token(value@) ==> r == Ok::<String, AppError>(value),
        !is_exact_token(value@) ==> outcome(r) == Err::<String, (bool, Seq<char>)>(
            invalid_view(exact_reference_message(field@)),
        ),
{
    if !is_exact(value.as_str()) {
        return Err(
            AppError::InvalidParams(
                concat_str(field, " must be non-empty and have no leading or trailing whitespace"),
            ),
        );
    }
    Ok(value)
}

/// An episode reference parameter.
pub fn parse_opaque_episode_reference(value: String) -> (r: Result<String, AppError>)
    ensures
        is_exact_token(value@) ==> r == Ok::<String, AppError>(value),
        !is_exact_token(value@) ==> outcome(r) == Err::<String, (bool, Seq<char>)>(
            invalid_view(exact_reference_message("episode_reference"@)),
        ),
{
    parse_opaque_exact_reference(value, "episode_reference")
}

/// A reflection reference parameter.
pub fn parse_opaque_reflection_reference(value: String) -> (r: Result<String, AppError>)
    ensures
        is_exact_token(value@) ==> r == Ok::<String, AppError>(value),
        !is_exact_token(value@) ==> outcome(r) == Err::<String, (bool, Seq<char>)>(
            invalid_view(exact_reference_message("reflection_reference"@)),
        ),
{
    parse_opaque_exact_reference(value, "reflection_reference")
}

/// What an optional timestamp parameter of the named field yields: nothing,
/// the instant it denotes, or a rejection quoting the parse error.
pub open spec fn timestamp_param(field: Seq<char>, value: Option<Seq<char>>) -> Result<
    Option<Timestamp>,
    (bool, Seq<char>),
> {
    match value {
        None => Ok(None),
        Some(t) => match rfc3339_timestamp(t) {
            Ok(ts) => Ok(Some(ts)),
            Err(m) => Err(invalid_view("invalid "@ + field + " timestamp: "@ + m)),
        },
    }
}

/// An optional RFC 3339 timestamp parameter.
pub fn parse_optional_timestamp(field: &str, value: &Option<String>) -> (r: Result<
    Option<Timestamp>,
    AppError,
>)
    ensures
        outcome(r) == timestamp_param(field@, opt_view(*value)),
{
    match value {
        None => Ok(None),
        Some(text) => match parse_rfc3339_detailed(text.as_str()) {
            Ok(t) => Ok(Some(t)),
            Err(m) => {
                let head = concat3("invalid ", field, " timestamp: ");
                Err(AppError::InvalidParams(concat_str(head.as_str(), m.as_str())))
            },
        },
    }
}

/// The raw ids the reference texts name.
pub open spec fn ref_ids(values: Seq<Seq<char>>) -> Seq<Seq<char>> {
    values.map_values(|v: Seq<char>| event_ref_id(v))
}

/// Every text is an event reference.
pub open spec fn all_event_refs(values: Seq<Seq<char>>) -> bool {
    forall|i: int| 0 <= i < values.len() ==> is_valid_event_reference_text(#[trigger] values[i])
}

/// The event references the texts name, each event once, in order of first
/// mention; refused when a text is not an event reference.
pub fn parse_event_references(values: &[String]) -> (r: Result<Vec<EventReference>, AppError>)
    ensures
        all_event_refs(texts(values@)) ==> (r matches Ok(refs) && raw_ids(refs@) == dedup(
            ref_ids(texts(values@)),
        )),
        !all_event_refs(texts(values@)) ==> outcome(r) == Err::<
            Vec<EventReference>,
            (bool, Seq<char>),
        >(domain_error_view(DomainError::InvalidEventReference)),
{
    let ghost src = ref_ids(texts(values@));
    let mut parsed: Vec<EventReference> = Vec::new();
    let mut ids: Vec<String> = Vec::new();
    let mut i: usize = 0;
    while i < values.len()
        invariant
            src == ref_ids(texts(values@)),
            i <= values@.len(),
            all_event_refs(texts(values@).take(i as int)),
            texts(ids@) == dedup(src.take(i as int)),
            raw_ids(parsed@) == texts(ids@),
        decreases values@.len() - i,
    {
        let reference = match EventReference::parse(values[i].as_str()) {
            Ok(reference) => reference,
            Err(e) => {
                proof {
                    assert(!is_valid_event_reference_text(texts(values@)[i as int]));
                }
                return Err(AppError::from_domain(e));
            },
        };
        assert(src.take(i + 1).drop_last() =~= src.take(i as int));
        assert(src.take(i + 1).last() == reference@);
        assert(texts(values@).take(i + 1) =~= texts(values@).take(i as int).push(values@[i as int]@));
        if !contains_text(ids.as_slice(), reference.event_id()) {
            ids.push(owned(reference.event_id()));
            parsed.push(reference);
            assert(texts(ids@) =~= dedup(src.take(i as int)).push(src[i as int]));
            assert(raw_ids(parsed@) =~= texts(ids@));
        }
        i = i + 1;
    }
    assert(src.take(values@.len() as int) =~= src);
    assert(texts(values@).take(values@.len() as int) =~= texts(values@));
    Ok(parsed)
}

/// The raw event ids that the texts name, each once in order of first
/// mention (`event:e1` and `e1` name the same event); `None` when a text is
/// not an event reference.
pub fn raw_event_ids(values: &[String]) -> (r: Option<Vec<String>>)
    ensures
        all_event_refs(texts(values@)) ==> (r matches Some(ids) && texts(ids@) == dedup(
            ref_ids(texts(values@)),
        )),
        !all_event_refs(texts(values@)) ==> r is None,
{
    let refs = match parse_event_references(values) {
        Ok(refs) => refs,
        Err(_) => {
            return None;
        },
    };
    let mut out: Vec<String> = Vec::new();
    let mut i: usize = 0;
    while i < refs.len()
        invariant
            i <= refs@.len(),
            texts(out@) == raw_ids(refs@).take(i as int),
        decreases refs@.len() - i,
    {
        out.push(owned(refs[i].event_id()));
        proof {
            assert(raw_ids(refs@).take(i + 1) =~= raw_ids(refs@).take(i as int).push(refs@[i as int]@));
            assert(texts(out@) =~= raw_ids(refs@).take(i + 1));
        }
        i = i + 1;
    }
    assert(raw_ids(refs@).take(refs@.len() as int) =~= raw_ids(refs@));
    Some(out)
}

/// The record types a search asks for: the one given, the list given, or
/// events by default; refused when both or an empty list are given.
pub open spec fn resolved_record_types(
    record_type: Option<SearchMemoryRecordTypeDto>,
    record_types: Option<Seq<SearchMemoryRecordTypeDto>>,
) -> Result<Seq<MemoryRecordType>, (bool, Seq<char>)> {
    match (record_type, record_types) {
        (Some(_), Some(_)) => Err(
            invalid_view("record_type and record_types cannot be set together"@),
        ),
        (None, Some(types)) => if types.len() == 0 {
            Err(invalid_view("record_types must contain at least one record type"@))
        } else {
            Ok(types.map_values(|t: SearchMemoryRecordTypeDto| search_type_of_dto(t)))
        },
        (Some(t), None) => Ok(seq![search_type_of_dto(t)]),
        (None, None) => Ok(seq![MemoryRecordType::Event]),
    }
}

/// The record types a search asks for.
pub fn resolve_search_record_types(
    record_type: Option<SearchMemoryRecordTypeDto>,
    record_types: &Option<Vec<SearchMemoryRecordTypeDto>>,
) -> (r: Result<Vec<MemoryRecordType>, AppError>)
    ensures
        match r {
            Ok(v) => resolved_record_types(
                record_type,
                match record_types {
                    Some(t) => Some(t@),
                    None => None,
                },
            ) == Ok::<Seq<MemoryRecordType>, (bool, Seq<char>)>(v@),
            Err(e) => resolved_record_types(
                record_type,
                match record_types {
                    Some(t) => Some(t@),
                    None => None,
                },
            ) == Err::<Seq<MemoryRecordType>, (bool, Seq<char>)>(error_view(e)),
        },
{
    match (record_type, record_types) {
        (Some(_), Some(_)) => Err(
            AppError::invalid("record_type and record_types cannot be set together"),
        ),
        (None, Some(types)) => {
            if types.len() == 0 {
                return Err(AppError::invalid("record_types must contain at least one record type"));
            }
            let mut out: Vec<MemoryRecordType> = Vec::new();
            let mut i: usize = 0;
            while i < types.len()
                invariant
                    i <= types@.len(),
                    out@.len() == i,
                    forall|k: int| 0 <= k < i ==> #[trigger] out@[k] == search_type_of_dto(types@[k]),
                decreases types@.len() - i,
            {
                out.push(types[i].to_record_type());
                i = i + 1;
            }
            assert(out@ =~= types@.map_values(|t: SearchMemoryRecordTypeDto| search_type_of_dto(t)));
            Ok(out)
        },
        (Some(t), None) => {
            let mut out: Vec<MemoryRecordType> = Vec::new();
            out.push(t.to_record_type());
            assert(out@ =~= seq![search_type_of_dto(t)]);
            Ok(out)
        },
        (None, None) => {
            let mut out: Vec<MemoryRecordType> = Vec::new();
            out.push(MemoryRecordType::Event);
            assert(out@ =~= seq![MemoryRecordType::Event]);
            Ok(out)
        },
    }
}

/// The hints that make an ingestion's automatic reflection a conflict one.
pub open spec fn conflict_upgrade_hints() -> Seq<Seq<char>> {
    seq!["conflict"@, "identity"@]
}

/// The trigger an ingestion's automatic reflection runs under: a conflict
/// when a hint is `conflict` or `identity` (any ASCII case), else a failure.
pub fn ingest_trigger_type_from_hints(trigger_hints: &[String]) -> (r: TriggerType)
    ensures
        r == if hints_match(texts(trigger_hints@), conflict_upgrade_hints()) {
            TriggerType::Conflict
        } else {
            TriggerType::Failure
        },
{
    let expected: [&str; 2] = ["conflict", "identity"];
    proof {
        assert(str_texts(expected@) =~= conflict_upgrade_hints());
    }
    if has_any_hint(trigger_hints, expected.as_slice()) {
        TriggerType::Conflict
    } else {
        TriggerType::Failure
    }
}

/// The parameters of `ingest_interaction`.
#[derive(Debug, Clone, PartialEq, Eq)]
pub struct IngestInteractionParams {
    pub event: EventDto,
    pub claim_drafts: Vec<ClaimDraftDto>,
    pub episode_reference: Option<String>,
    pub trigger_hints: Vec<String>,
}

/// The first refusal among the claims a tool gives, in order.
pub open spec fn first_claim_rejection(ds: Seq<ClaimDraftDto>) -> Option<DomainError>
    decreases ds.len(),
{
    if ds.len() == 0 {
        None
    } else {
        match first_claim_rejection(ds.drop_last()) {
            Some(e) => Some(e),
            None => claim_dto_rejection(owner_of_dto(ds.last().owner), opt_view(ds.last().namespace)),
        }
    }
}

/// `c` is the claim draft that the tool's claim `d` describes.
pub open spec fn draft_from_dto(c: ClaimDraft, d: ClaimDraftDto) -> bool {
    &&& c.spec_owner() == owner_of_dto(d.owner)
    &&& c.spec_namespace() == write_namespace(owner_of_dto(d.owner), opt_view(d.namespace))
    &&& c.spec_subject() == d.subject@
    &&& c.spec_predicate() == d.predicate@
    &&& c.spec_object() == d.object@
    &&& c.spec_mode() == mode_of_dto(d.mode)
}

/// The claim drafts the tool's claims describe; refused with the first claim's
/// refusal.
pub fn claim_drafts_from_dtos(dtos: &[ClaimDraftDto]) -> (r: Result<Vec<ClaimDraft>, DomainError>)
    ensures
        match first_claim_rejection(dtos@) {
            Some(e) => r == Err::<Vec<ClaimDraft>, DomainError>(e),
            None => r matches Ok(v) && v@.len() == dtos@.len() && forall|i: int|
                0 <= i < dtos@.len() ==> draft_from_dto(#[trigger] v@[i], dtos@[i]),
        },
{
    let mut out: Vec<ClaimDraft> = Vec::new();
    let mut i: usize = 0;
    while i < dtos.len()
        invariant
            i <= dtos@.len(),
            out@.len() == i,
            first_claim_rejection(dtos@.take(i as int)) is None,
            forall|k: int| 0 <= k < i ==> draft_from_dto(#[trigger] out@[k], dtos@[k]),
        decreases dtos@.len() - i,
    {
        assert(dtos@.take(i + 1).drop_last() =~= dtos@.take(i as int));
        match dtos[i].to_claim_draft() {
            Ok(c) => {
                out.push(c);
            },
            Err(e) => {
                proof {
                    lemma_first_claim_rejection_prefix(dtos@, i as int);
                }
                return Err(e);
            },
        }
        i = i + 1;
    }
    assert(dtos@.take(dtos@.len() as int) =~= dtos@);
    Ok(out)
}

/// A refusal in a prefix is the refusal of the whole list.
pub proof fn lemma_first_claim_rejection_prefix(ds: Seq<ClaimDraftDto>, i: int)
    requires
        0 <= i < ds.len(),
        first_claim_rejection(ds.take(i)) is None,
        claim_dto_rejection(owner_of_dto(ds[i].owner), opt_view(ds[i].namespace)) is Some,
    ensures
        first_claim_rejection(ds) == claim_dto_rejection(
            owner_of_dto(ds[i].owner),
            opt_view(ds[i].namespace),
        ),
    decreases ds.len(),
{
    if i == ds.len() - 1 {
        assert(ds.drop_last() =~= ds.take(i));
    } else {
        assert(ds.drop_last().take(i) =~= ds.take(i));
        lemma_first_claim_rejection_prefix(ds.drop_last(), i);
    }
}

impl IngestInteractionParams {
    /// The ingestion request: the event and claims the tool gives (refused as
    /// `to_event` and `to_claim_draft` refuse them, the event first) and the
    /// episode reference.
    pub fn to_ingest_input(&self) -> (r: Result<IngestInput, DomainError>)
        ensures
            match write_placement_rejection(
                owner_of_dto(self.event.owner),
                opt_view(self.event.namespace),
            ) {
                Some(e) => r == Err::<IngestInput, DomainError>(e),
                None => match first_claim_rejection(self.claim_drafts@) {
                    Some(e) => r == Err::<IngestInput, DomainError>(e),
                    None => r matches Ok(input) && input.spec_event().spec_owner() == owner_of_dto(
                        self.event.owner,
                    ) && input.spec_event().spec_namespace() == write_namespace(
                        owner_of_dto(self.event.owner),
                        opt_view(self.event.namespace),
                    ) && input.spec_event().spec_kind() == kind_of_dto(self.event.kind)
                        && input.spec_event().spec_summary() == self.event.summary@
                        && input.spec_claim_drafts().len() == self.claim_drafts@.len() && (forall|
                        i: int,
                    |
                        0 <= i < self.claim_drafts@.len() ==> draft_from_dto(
                            #[trigger] input.spec_claim_drafts()[i],
                            self.claim_drafts@[i],
                        )) && opt_view(input.spec_episode_reference()) == opt_view(
                        self.episode_reference,
                    ),
                },
            },
    {
        let event = match self.event.to_event() {
            Ok(e) => e,
            Err(e) => {
                return Err(e);
            },
        };
        let drafts = match claim_drafts_from_dtos(self.claim_drafts.as_slice()) {
            Ok(d) => d,
            Err(e) => {
                return Err(e);
            },
        };
        Ok(IngestInput::new(event, drafts, copy_opt_string(&self.episode_reference)))
    }

    /// The namespace of the claim draft `d`: the one it names, or its
    /// owner's default.
    pub open spec fn spec_draft_namespace(d: ClaimDraftDto) -> Seq<char> {
        write_namespace(owner_of_dto(d.owner), opt_view(d.namespace))
    }
}

/// The claim names a namespace that does not parse.
pub open spec fn draft_namespace_invalid(d: ClaimDraftDto) -> bool {
    match opt_view(d.namespace) {
        Some(n) => !is_valid_namespace_text(n),
        None => false,
    }
}

/// Some claim names a namespace that does not parse.
pub open spec fn some_draft_namespace_invalid(ds: Seq<ClaimDraftDto>) -> bool {
    exists|i: int| 0 <= i < ds.len() && #[trigger] draft_namespace_invalid(ds[i])
}

/// The namespaces the claims land in.
pub open spec fn draft_namespaces(ds: Seq<ClaimDraftDto>) -> Seq<Seq<char>> {
    ds.map_values(|d: ClaimDraftDto| IngestInteractionParams::spec_draft_namespace(d))
}

/// Whether an ingestion's automatic-reflection namespace is refused: the
/// event's namespace does not parse (without claims), or a claim's namespace
/// does not parse or the claims land in several namespaces.
pub open spec fn reflect_namespace_fails(p: IngestInteractionParams) -> bool {
    if p.claim_drafts@.len() == 0 {
        match opt_view(p.event.namespace) {
            Some(n) => !is_valid_namespace_text(n),
            None => false,
        }
    } else {
        some_draft_namespace_invalid(p.claim_drafts@) || !(forall|i: int|
            0 <= i < p.claim_drafts@.len() ==> #[trigger] draft_namespaces(p.claim_drafts@)[i]
                == draft_namespaces(p.claim_drafts@)[0])
    }
}

/// The namespace an ingestion's automatic reflection runs in, when it is not
/// refused.
pub open spec fn reflect_namespace_of(p: IngestInteractionParams) -> Seq<char> {
    if p.claim_drafts@.len() == 0 {
        write_namespace(owner_of_dto(p.event.owner), opt_view(p.event.namespace))
    } else {
        draft_namespaces(p.claim_drafts@)[0]
    }
}

/// The namespace a message derives ambiguity from.
pub open spec fn ambiguity_message(listing: Seq<Seq<char>>) -> Seq<char> {
    "ambiguous auto-reflection namespace derived from claim drafts: "@ + join_texts(
        listing,
        ", "@,
    )
}

/// The namespace of a claim draft.
fn draft_namespace(d: &ClaimDraftDto) -> (r: Result<Namespace, DomainError>)
    ensures
        match opt_view(d.namespace) {
            Some(n) => if is_valid_namespace_text(n) {
                r matches Ok(ns) && ns@ == n
            } else {
                r == Err::<Namespace, DomainError>(DomainError::InvalidNamespace)
            },
            None => r matches Ok(ns) && ns@ == default_namespace_of(owner_of_dto(d.owner)),
        },
{
    match &d.namespace {
        Some(text) => Namespace::parse(text.as_str()),
        None => Ok(Namespace::for_owner(d.owner.to_owner())),
    }
}

impl IngestInteractionParams {
    /// The namespace an ingestion's automatic reflection runs in: without
    /// claims, the event's namespace (or its owner's default); with claims,
    /// the one namespace they all land in, refused as ambiguous (listing the
    /// namespaces in order) when they land in several.
    pub fn auto_reflect_namespace(&self) -> (r: Result<Namespace, AppError>)
        ensures
            r is Err <==> reflect_namespace_fails(*self),
            r matches Ok(ns) ==> ns@ == reflect_namespace_of(*self),
            self.claim_drafts@.len() == 0 ==> match opt_view(self.event.namespace) {
                Some(n) => if is_valid_namespace_text(n) {
                    r matches Ok(ns) && ns@ == n
                } else {
                    outcome(r) == Err::<Namespace, (bool, Seq<char>)>(
                        domain_error_view(DomainError::InvalidNamespace),
                    )
                },
                None => r matches Ok(ns) && ns@ == default_namespace_of(
                    owner_of_dto(self.event.owner),
                ),
            },
            self.claim_drafts@.len() > 0 && some_draft_namespace_invalid(self.claim_drafts@)
                ==> outcome(r) == Err::<Namespace, (bool, Seq<char>)>(
                domain_error_view(DomainError::InvalidNamespace),
            ),
            self.claim_drafts@.len() > 0 && !some_draft_namespace_invalid(self.claim_drafts@) ==> {
                let ns = draft_namespaces(self.claim_drafts@);
                if forall|i: int| 0 <= i < ns.len() ==> #[trigger] ns[i] == ns[0] {
                    r matches Ok(namespace) && namespace@ == ns[0]
                } else {
                    r matches Err(e) && e is InvalidParams && exists|l: Seq<Seq<char>>|
                        sorted_listing_of(l, ns) && e.message_view() == ambiguity_message(l)
                }
            },
    {
        if self.claim_drafts.len() == 0 {
            return match &self.event.namespace {
                Some(text) => match Namespace::parse(text.as_str()) {
                    Ok(ns) => Ok(ns),
                    Err(e) => Err(AppError::from_domain(e)),
                },
                None => Ok(Namespace::for_owner(self.event.owner.to_owner())),
            };
        }
        let ghost ds = self.claim_drafts@;
        let ghost ns = draft_namespaces(ds);
        let mut listing: Vec<String> = Vec::new();
        let mut i: usize = 0;
        while i < self.claim_drafts.len()
            invariant
                ds == self.claim_drafts@,
                ns == draft_namespaces(ds),
                i <= ds.len(),
                forall|k: int| 0 <= k < i ==> !#[trigger] draft_namespace_invalid(ds[k]),
                strictly_sorted(texts(listing@)),
                forall|x: Seq<char>|
                    #[trigger] texts(listing@).contains(x) <==> ns.take(i as int).contains(x),
            decreases ds.len() - i,
        {
            let namespace = match draft_namespace(&self.claim_drafts[i]) {
                Ok(n) => n,
                Err(e) => {
                    proof {
                        assert(draft_namespace_invalid(ds[i as int]));
                    }
                    return Err(AppError::from_domain(e));
                },
            };
            assert(namespace@ == ns[i as int]);
            insert_sorted_distinct(&mut listing, owned(namespace.as_str()));
            assert forall|x: Seq<char>| #[trigger] texts(listing@).contains(x) <==> ns.take(
                i + 1,
            ).contains(x) by {
                assert(ns.take(i + 1) =~= ns.take(i as int).push(ns[i as int]));
                crate::seqs::lemma_push_contains(ns.take(i as int), ns[i as int], x);
            }
            i = i + 1;
        }
        assert(ns.take(ds.len() as int) =~= ns);
        assert(!some_draft_namespace_invalid(ds));
        let ghost l = texts(listing@);
        if listing.len() == 1 {
            proof {
                assert forall|k: int| 0 <= k < ns.len() implies #[trigger] ns[k] == ns[0] by {
                    assert(ns.contains(ns[k]));
                    assert(ns.contains(ns[0]));
                    assert(l.contains(ns[k]));
                    assert(l.contains(ns[0]));
                }
                assert(ns.contains(ns[0]));
                assert(l.contains(ns[0]));
                assert(l[0] == ns[0]);
                let d = ds[0];
                lemma_default_namespace_matches_owner(owner_of_dto(d.owner));
                assert(!draft_namespace_invalid(d));
                assert(ns[0] == IngestInteractionParams::spec_draft_namespace(d));
                assert(is_valid_namespace_text(ns[0]));
            }
            return match Namespace::parse(listing[0].as_str()) {
                Ok(n) => Ok(n),
                Err(e) => Err(AppError::from_domain(e)),
            };
        }
        proof {
            assert(ns.contains(ns[0]));
            assert(l.contains(ns[0]));
            if forall|k: int| 0 <= k < ns.len() ==> #[trigger] ns[k] == ns[0] {
                assert(l.len() >= 1);
                if l.len() > 1 {
                    assert(text_lt(l[0], l[1]));
                    lemma_text_lt_strict(l[0], l[0], l[0]);
                    assert(l.contains(l[0]));
                    assert(l.contains(l[1]));
                    assert(ns.contains(l[0]));
                    assert(ns.contains(l[1]));
                    let a = choose|k: int| 0 <= k < ns.len() && ns[k] == l[0];
                    let b = choose|k: int| 0 <= k < ns.len() && ns[k] == l[1];
                    assert(ns[a] == ns[0]);
                    assert(ns[b] == ns[0]);
                }
            }
            assert(sorted_listing_of(l, ns));
        }
        let joined = join_strings(listing.as_slice(), ", ");
        assert(listing@.map_values(|x: String| x@) =~= l);
        let err = AppError::InvalidParams(
            concat_str(
                "ambiguous auto-reflection namespace derived from claim drafts: ",
                joined.as_str(),
            ),
        );
        assert(sorted_listing_of(l, ns) && err.message_view() == ambiguity_message(l));
        Err(err)
    }
}

impl AutoReflectInput {
    /// The automatic reflection an ingestion may run: in the ingestion's
    /// namespace, as a conflict or failure trigger by its hints, with its hints.
    pub fn from_ingest(params: &IngestInteractionParams) -> (r: Result<AutoReflectInput, AppError>)
        ensures
            match r {
                Ok(input) => input.trigger_type == (if hints_match(
                    texts(params.trigger_hints@),
                    conflict_upgrade_hints(),
                ) {
                    TriggerType::Conflict
                } else {
                    TriggerType::Failure
                }) && texts(input.trigger_hints@) == texts(params.trigger_hints@)
                    && input.recursion_guard == RecursionGuard::Allow,
                Err(_) => true,
            },
            r is Err <==> reflect_namespace_fails(*params),
            r matches Ok(input) ==> input.namespace@ == reflect_namespace_of(*params),
            params.claim_drafts@.len() == 0 && r is Err ==> outcome(r) == Err::<
                AutoReflectInput,
                (bool, Seq<char>),
            >(domain_error_view(DomainError::InvalidNamespace)),
            params.claim_drafts@.len() > 0 && some_draft_namespace_invalid(params.claim_drafts@)
                ==> outcome(r) == Err::<AutoReflectInput, (bool, Seq<char>)>(
                domain_error_view(DomainError::InvalidNamespace),
            ),
            params.claim_drafts@.len() > 0 && !some_draft_namespace_invalid(params.claim_drafts@)
                && r is Err ==> (r matches Err(e) && e is InvalidParams && exists|l: Seq<Seq<char>>|
                sorted_listing_of(l, draft_namespaces(params.claim_drafts@)) && e.message_view()
                == ambiguity_message(l)),
    {
        let namespace = match params.auto_reflect_namespace() {
            Ok(n) => n,
            Err(e) => {
                return Err(e);
            },
        };
        Ok(
            AutoReflectInput::new(
                namespace,
                ingest_trigger_type_from_hints(params.trigger_hints.as_slice()),
                copy_strings(params.trigger_hints.as_slice()),
            ),
        )
    }
}

/// What a namespace parameter yields: the namespace, or the error its parse
/// gives.
pub open spec fn namespace_param(text: Seq<char>) -> Result<Seq<char>, (bool, Seq<char>)> {
    if is_valid_namespace_text(text) {
        Ok(text)
    } else {
        Err(domain_error_view(DomainError::InvalidNamespace))
    }
}

/// A namespace parameter.
pub fn parse_namespace_param(text: &str) -> (r: Result<Namespace, AppError>)
    ensures
        match r {
            Ok(ns) => namespace_param(text@) == Ok::<Seq<char>, (bool, Seq<char>)>(ns@),
            Err(e) => namespace_param(text@) == Err::<Seq<char>, (bool, Seq<char>)>(error_view(e)),
        },
{
    match Namespace::parse(text) {
        Ok(ns) => Ok(ns),
        Err(e) => Err(AppError::from_domain(e)),
    }
}

/// An optional namespace parameter.
pub fn parse_optional_namespace_param(text: &Option<String>) -> (r: Result<Option<Namespace>, AppError>)
    ensures
        match (r, opt_view(*text)) {
            (Ok(Some(ns)), Some(t)) => namespace_param(t) == Ok::<Seq<char>, (bool, Seq<char>)>(ns@),
            (Ok(None), None) => true,
            (Err(e), Some(t)) => namespace_param(t) == Err::<Seq<char>, (bool, Seq<char>)>(
                error_view(e),
            ),
            _ => false,
        },
{
    match text {
        Some(t) => match parse_namespace_param(t.as_str()) {
            Ok(ns) => Ok(Some(ns)),
            Err(e) => Err(e),
        },
        None => Ok(None),
    }
}

/// The parameters of `build_self_snapshot`.
#[derive(Debug, Clone, PartialEq, Eq)]
pub struct BuildSelfSnapshotParams {
    pub budget: usize,
    pub namespace: Option<String>,
    pub evidence_manifest: Option<Vec<String>>,
    pub recorded_after: Option<String>,
    pub recorded_before: Option<String>,
    pub auto_reflect_namespace: Option<String>,
}

/// The error of a fallible value, if it failed.
pub open spec fn failure<T>(r: Result<T, (bool, Seq<char>)>) -> Option<(bool, Seq<char>)> {
    match r {
        Ok(_) => None,
        Err(e) => Some(e),
    }
}

/// The instant a timestamp parameter yields, when it parsed.
pub open spec fn parsed_time<T>(r: Result<Option<T>, (bool, Seq<char>)>) -> Option<T> {
    match r {
        Ok(Some(t)) => Some(t),
        _ => None,
    }
}

impl BuildSelfSnapshotParams {
    /// Why the parameters are refused, if they are, as the error's view: a
    /// manifest or a time window without a namespace, a namespace that does
    /// not parse, a manifest of more than 256 entries or with a text that is no
    /// event reference, a timestamp that does not parse, or a reversed window.
    pub open spec fn rejection(&self) -> Option<(bool, Seq<char>)> {
        let after = timestamp_param("recorded_after"@, opt_view(self.recorded_after));
        let before = timestamp_param("recorded_before"@, opt_view(self.recorded_before));
        if self.evidence_manifest is Some && self.namespace is None {
            Some(invalid_view("evidence_manifest requires an explicit namespace"@))
        } else if (self.recorded_after is Some || self.recorded_before is Some)
            && self.namespace is None {
            Some(invalid_view("snapshot time window requires an explicit namespace"@))
        } else if self.namespace matches Some(n) && !is_valid_namespace_text(n@) {
            Some(domain_error_view(DomainError::InvalidNamespace))
        } else if self.evidence_manifest matches Some(m) && m@.len()
            > MAX_EVIDENCE_MANIFEST_ITEMS {
            Some(
                invalid_view(
                    "evidence_manifest must contain at most "@ + decimal(
                        MAX_EVIDENCE_MANIFEST_ITEMS as nat,
                    ) + " entries"@,
                ),
            )
        } else if self.evidence_manifest matches Some(m) && !all_event_refs(texts(m@)) {
            Some(domain_error_view(DomainError::InvalidEventReference))
        } else if failure(after) is Some {
            failure(after)
        } else if failure(before) is Some {
            failure(before)
        } else if !is_valid_window(parsed_time(after), parsed_time(before)) {
            Some(invalid_view("recorded_after must be less than or equal to recorded_before"@))
        } else {
            None
        }
    }

    /// The snapshot request the parameters describe; see `rejection`.
    pub fn to_build_input(&self) -> (r: Result<BuildSelfSnapshotInput, AppError>)
        ensures
            match r {
                Err(e) => self.rejection() == Some(error_view(e)),
                Ok(input) => self.rejection() is None && match opt_view(self.namespace) {
                    Some(n) => input.scope.spec_namespace() == Some(n)
                        && input.scope.spec_owner() == Some(owner_of_namespace(n)),
                    None => input.scope.spec_namespace() is None && input.scope.spec_owner() is None,
                } && match (input.evidence_manifest, self.evidence_manifest) {
                    (Some(refs), Some(m)) => raw_ids(refs@) == dedup(ref_ids(texts(m@))),
                    (None, None) => true,
                    _ => false,
                } && input.time_window.recorded_after == parsed_time(
                    timestamp_param("recorded_after"@, opt_view(self.recorded_after)),
                ) && input.time_window.recorded_before == parsed_time(
                    timestamp_param("recorded_before"@, opt_view(self.recorded_before)),
                ) && input.budget.spec_limit() == self.budget,
            },
    {
        if self.evidence_manifest.is_some() && self.namespace.is_none() {
            return Err(AppError::invalid("evidence_manifest requires an explicit namespace"));
        }
        if (self.recorded_after.is_some() || self.recorded_before.is_some())
            && self.namespace.is_none() {
            return Err(AppError::invalid("snapshot time window requires an explicit namespace"));
        }
        let scope = match parse_optional_namespace_param(&self.namespace) {
            Ok(Some(ns)) => MemoryScope::for_namespace(ns),
            Ok(None) => MemoryScope::legacy_unscoped(),
            Err(e) => {
                return Err(e);
            },
        };
        let evidence_manifest = match &self.evidence_manifest {
            Some(m) => {
                if m.len() > MAX_EVIDENCE_MANIFEST_ITEMS {
                    let digits = decimal_string(MAX_EVIDENCE_MANIFEST_ITEMS);
                    return Err(
                        AppError::InvalidParams(
                            concat3(
                                "evidence_manifest must contain at most ",
                                digits.as_str(),
                                " entries",
                            ),
                        ),
                    );
                }
                match parse_event_references(m.as_slice()) {
                    Ok(refs) => Some(refs),
                    Err(e) => {
                        return Err(e);
                    },
                }
            },
            None => None,
        };
        let after = match parse_optional_timestamp("recorded_after", &self.recorded_after) {
            Ok(t) => t,
            Err(e) => {
                return Err(e);
            },
        };
        let before = match parse_optional_timestamp("recorded_before", &self.recorded_before) {
            Ok(t) => t,
            Err(e) => {
                return Err(e);
            },
        };
        let time_window = match SnapshotTimeWindow::new(after, before) {
            Ok(w) => w,
            Err(_) => {
                return Err(
                    AppError::invalid(
                        "recorded_after must be less than or equal to recorded_before",
                    ),
                );
            },
        };
        Ok(
            BuildSelfSnapshotInput {
                scope,
                evidence_manifest,
                time_window,
                budget: SnapshotBudget::new(self.budget),
            },
        )
    }
}

impl AutoReflectInput {
    /// The periodic reflection a snapshot may trigger: in the namespace it
    /// names, with the hint `periodic`; none without a namespace.
    pub fn from_build_snapshot(params: &BuildSelfSnapshotParams) -> (r: Result<
        Option<AutoReflectInput>,
        AppError,
    >)
        ensures
            match (r, opt_view(params.auto_reflect_namespace)) {
                (Ok(None), None) => true,
                (Ok(Some(input)), Some(n)) => is_valid_namespace_text(n) && input.namespace@ == n
                    && input.trigger_type == TriggerType::Periodic && texts(input.trigger_hints@)
                    == seq!["periodic"@] && input.recursion_guard == RecursionGuard::Allow,
                (Err(e), Some(n)) => namespace_param(n) == Err::<Seq<char>, (bool, Seq<char>)>(
                    error_view(e),
                ),
                _ => false,
            },
    {
        match parse_optional_namespace_param(&params.auto_reflect_namespace) {
            Ok(Some(ns)) => {
                let mut hints: Vec<String> = Vec::new();
                hints.push(owned("periodic"));
                assert(texts(hints@) =~= seq!["periodic"@]);
                Ok(Some(AutoReflectInput::for_periodic(ns, hints)))
            },
            Ok(None) => Ok(None),
            Err(e) => Err(e),
        }
    }

    /// The conflict reflection a decision may trigger: in the namespace it
    /// names, with its hints; none without a namespace.
    pub fn from_decide(params: &DecideWithSnapshotParams) -> (r: Result<
        Option<AutoReflectInput>,
        AppError,
    >)
        ensures
            match (r, opt_view(params.auto_reflect_namespace)) {
                (Ok(None), None) => true,
                (Ok(Some(input)), Some(n)) => is_valid_namespace_text(n) && input.namespace@ == n
                    && input.trigger_type == TriggerType::Conflict && texts(input.trigger_hints@)
                    == texts(params.trigger_hints@) && input.recursion_guard
                    == RecursionGuard::Allow,
                (Err(e), Some(n)) => namespace_param(n) == Err::<Seq<char>, (bool, Seq<char>)>(
                    error_view(e),
                ),
                _ => false,
            },
    {
        match parse_optional_namespace_param(&params.auto_reflect_namespace) {
            Ok(Some(ns)) => Ok(
                Some(
                    AutoReflectInput::for_conflict(
                        ns,
                        copy_strings(params.trigger_hints.as_slice()),
                    ),
                ),
            ),
            Ok(None) => Ok(None),
            Err(e) => Err(e),
        }
    }
}

/// An evidence query as a tool gives it.
#[derive(Debug, Clone, PartialEq, Eq)]
pub struct EvidenceQueryDto {
    pub namespace: Option<String>,
    pub owner: Option<OwnerDto>,
    pub kind: Option<EventKindDto>,
    pub limit: Option<usize>,
    pub recorded_after: Option<String>,
    pub recorded_before: Option<String>,
    pub event_id_prefix: Option<String>,
}

impl EvidenceQueryDto {
    /// Why the query is refused, if it is: a limit of zero or beyond what the
    /// store can bind, a blank id prefix, a namespace or timestamp that does
    /// not parse.
    pub open spec fn rejection(&self) -> Option<(bool, Seq<char>)> {
        if self.limit == Some(0usize) {
            Some(invalid_view("replacement evidence query limit must be at least 1"@))
        } else if self.limit matches Some(l) && l > i64::MAX {
            Some(invalid_view("replacement evidence query limit exceeds the supported maximum"@))
        } else if self.event_id_prefix matches Some(p) && all_white_space(p@) {
            Some(invalid_view("evidence query event_id_prefix must not be empty"@))
        } else if self.namespace matches Some(n) && !is_valid_namespace_text(n@) {
            Some(domain_error_view(DomainError::InvalidNamespace))
        } else if failure(timestamp_param("recorded_after"@, opt_view(self.recorded_after))) is Some {
            failure(timestamp_param("recorded_after"@, opt_view(self.recorded_after)))
        } else {
            failure(timestamp_param("recorded_before"@, opt_view(self.recorded_before)))
        }
    }

    /// The evidence query the tool's query describes; see `rejection`.
    pub fn to_evidence_query(&self) -> (r: Result<EvidenceQuery, AppError>)
        ensures
            match r {
                Err(e) => self.rejection() == Some(error_view(e)),
                Ok(q) => self.rejection() is None && opt_namespace(q.namespace) == opt_view(
                    self.namespace,
                ) && q.owner == match self.owner {
                    Some(o) => Some(owner_of_dto(o)),
                    None => None,
                } && q.kind == match self.kind {
                    Some(k) => Some(kind_of_dto(k)),
                    None => None,
                } && q.limit == self.limit && q.recorded_after == parsed_time(
                    timestamp_param("recorded_after"@, opt_view(self.recorded_after)),
                ) && q.recorded_before == parsed_time(
                    timestamp_param("recorded_before"@, opt_view(self.recorded_before)),
                ) && opt_view(q.event_id_prefix) == opt_view(self.event_id_prefix),
            },
    {
        if let Some(limit) = self.limit {
            if limit == 0 {
                return Err(
                    AppError::invalid("replacement evidence query limit must be at least 1"),
                );
            }
            if limit as u128 > i64::MAX as u128 {
                return Err(
                    AppError::invalid(
                        "replacement evidence query limit exceeds the supported maximum",
                    ),
                );
            }
        }
        let blank_prefix = match &self.event_id_prefix {
            Some(p) => is_blank(p.as_str()),
            None => false,
        };
        if blank_prefix {
            return Err(AppError::invalid("evidence query event_id_prefix must not be empty"));
        }
        let namespace = match parse_optional_namespace_param(&self.namespace) {
            Ok(ns) => ns,
            Err(e) => {
                return Err(e);
            },
        };
        let recorded_after = match parse_optional_timestamp("recorded_after", &self.recorded_after) {
            Ok(t) => t,
            Err(e) => {
                return Err(e);
            },
        };
        let recorded_before = match parse_optional_timestamp(
            "recorded_before",
            &self.recorded_before,
        ) {
            Ok(t) => t,
            Err(e) => {
                return Err(e);
            },
        };
        Ok(
            EvidenceQuery {
                namespace,
                owner: match self.owner {
                    Some(o) => Some(o.to_owner()),
                    None => None,
                },
                kind: match self.kind {
                    Some(k) => Some(k.to_kind()),
                    None => None,
                },
                limit: self.limit,
                recorded_after,
                recorded_before,
                event_id_prefix: copy_opt_string(&self.event_id_prefix),
            },
        )
    }
}

/// The parameters of `search_memory`.
#[derive(Debug, Clone, PartialEq, Eq)]
pub struct SearchMemoryParams {
    pub namespace: String,
    pub record_type: Option<SearchMemoryRecordTypeDto>,
    pub record_types: Option<Vec<SearchMemoryRecordTypeDto>>,
    pub event_reference: Option<String>,
    pub kind: Option<EventKindDto>,
    pub limit: Option<usize>,
    pub recorded_after: Option<String>,
    pub recorded_before: Option<String>,
    pub claim_reference: Option<String>,
    pub claim_status: Option<ClaimStatusDto>,
    pub mode: Option<ModeDto>,
    pub episode_reference: Option<String>,
    pub reflection_reference: Option<String>,
}

/// An event reference parameter.
fn parse_optional_event_reference(text: &Option<String>) -> (r: Result<
    Option<EventReference>,
    AppError,
>)
    ensures
        match (r, opt_view(*text)) {
            (Ok(None), None) => true,
            (Ok(Some(e)), Some(t)) => is_valid_event_reference_text(t) && e@ == event_ref_id(t),
            (Err(e), Some(t)) => !is_valid_event_reference_text(t) && error_view(e)
                == domain_error_view(DomainError::InvalidEventReference),
            _ => false,
        },
{
    match text {
        Some(t) => match EventReference::parse(t.as_str()) {
            Ok(e) => Ok(Some(e)),
            Err(e) => Err(AppError::from_domain(e)),
        },
        None => Ok(None),
    }
}

/// A claim reference parameter.
fn parse_optional_claim_reference(text: &Option<String>) -> (r: Result<
    Option<ClaimReference>,
    AppError,
>)
    ensures
        match (r, opt_view(*text)) {
            (Ok(None), None) => true,
            (Ok(Some(c)), Some(t)) => is_valid_claim_reference_text(t) && c@ == claim_ref_id(t),
            (Err(e), Some(t)) => !is_valid_claim_reference_text(t) && error_view(e)
                == domain_error_view(DomainError::InvalidClaimReference),
            _ => false,
        },
{
    match text {
        Some(t) => match ClaimReference::parse(t.as_str()) {
            Ok(c) => Ok(Some(c)),
            Err(e) => Err(AppError::from_domain(e)),
        },
        None => Ok(None),
    }
}

impl SearchMemoryParams {
    /// The record types the parameters resolve to.
    pub open spec fn spec_types(&self) -> Result<Seq<MemoryRecordType>, (bool, Seq<char>)> {
        resolved_record_types(
            self.record_type,
            match self.record_types {
                Some(t) => Some(t@),
                None => None,
            },
        )
    }

    /// Why the parameters are refused before the search's own rules apply:
    /// record types given both ways or as an empty list, or a namespace,
    /// reference or timestamp that does not parse.
    pub open spec fn parse_rejection(&self) -> Option<(bool, Seq<char>)> {
        if failure(self.spec_types()) is Some {
            failure(self.spec_types())
        } else if !is_valid_namespace_text(self.namespace@) {
            Some(domain_error_view(DomainError::InvalidNamespace))
        } else if self.event_reference matches Some(t) && !is_valid_event_reference_text(t@) {
            Some(domain_error_view(DomainError::InvalidEventReference))
        } else if failure(timestamp_param("recorded_after"@, opt_view(self.recorded_after))) is Some {
            failure(timestamp_param("recorded_after"@, opt_view(self.recorded_after)))
        } else if failure(timestamp_param("recorded_before"@, opt_view(self.recorded_before))) is Some {
            failure(timestamp_param("recorded_before"@, opt_view(self.recorded_before)))
        } else if self.claim_reference matches Some(t) && !is_valid_claim_reference_text(t@) {
            Some(domain_error_view(DomainError::InvalidClaimReference))
        } else {
            None
        }
    }

    /// `input` is the search these parameters describe: their namespace,
    /// types, filters and limit (20 by default), with active claims asked for
    /// by default in a claim-only search.
    pub open spec fn describes(&self, input: SearchMemoryInput) -> bool {
        &&& input.namespace@ == self.namespace@
        &&& self.spec_types() == Ok::<Seq<MemoryRecordType>, (bool, Seq<char>)>(
            input.record_types@,
        )
        &&& match (input.event_reference, self.event_reference) {
            (Some(e), Some(t)) => e@ == event_ref_id(t@),
            (None, None) => true,
            _ => false,
        }
        &&& input.kind == match self.kind {
            Some(k) => Some(kind_of_dto(k)),
            None => None,
        }
        &&& input.recorded_after == parsed_time(
            timestamp_param("recorded_after"@, opt_view(self.recorded_after)),
        )
        &&& input.recorded_before == parsed_time(
            timestamp_param("recorded_before"@, opt_view(self.recorded_before)),
        )
        &&& match (input.claim_reference, self.claim_reference) {
            (Some(c), Some(t)) => c@ == claim_ref_id(t@),
            (None, None) => true,
            _ => false,
        }
        &&& input.claim_status == match self.claim_status {
            Some(st) => Some(status_of_dto(st)),
            None => if input.record_types@ == seq![MemoryRecordType::Claim] {
                Some(ClaimStatus::Active)
            } else {
                None
            },
        }
        &&& input.mode == match self.mode {
            Some(m) => Some(mode_of_dto(m)),
            None => None,
        }
        &&& opt_view(input.episode_reference) == opt_view(self.episode_reference)
        &&& opt_view(input.reflection_reference) == opt_view(self.reflection_reference)
        &&& input.limit == match self.limit {
            Some(l) => l,
            None => DEFAULT_SEARCH_MEMORY_LIMIT,
        }
    }

    /// The search the parameters describe, checked against the search's own
    /// rules.
    pub fn to_search_input(&self) -> (r: Result<SearchMemoryInput, AppError>)
        ensures
            match self.parse_rejection() {
                Some(e) => r matches Err(err) && error_view(err) == e,
                None => match r {
                    Ok(input) => self.describes(input) && input.rejection() is None,
                    Err(err) => err is InvalidParams && exists|input: SearchMemoryInput|
                        self.describes(input) && input.rejection() == Some(err.message_view()),
                },
            },
    {
        let record_types = match resolve_search_record_types(self.record_type, &self.record_types) {
            Ok(t) => t,
            Err(e) => {
                return Err(e);
            },
        };
        let namespace = match parse_namespace_param(self.namespace.as_str()) {
            Ok(ns) => ns,
            Err(e) => {
                return Err(e);
            },
        };
        let event_reference = match parse_optional_event_reference(&self.event_reference) {
            Ok(e) => e,
            Err(e) => {
                return Err(e);
            },
        };
        let recorded_after = match parse_optional_timestamp("recorded_after", &self.recorded_after) {
            Ok(t) => t,
            Err(e) => {
                return Err(e);
            },
        };
        let recorded_before = match parse_optional_timestamp(
            "recorded_before",
            &self.recorded_before,
        ) {
            Ok(t) => t,
            Err(e) => {
                return Err(e);
            },
        };
        let claim_reference = match parse_optional_claim_reference(&self.claim_reference) {
            Ok(c) => c,
            Err(e) => {
                return Err(e);
            },
        };
        let claim_only = record_types.len() == 1 && record_types[0] == MemoryRecordType::Claim;
        proof {
            if claim_only {
                assert(record_types@ =~= seq![MemoryRecordType::Claim]);
            }
            if record_types@ == seq![MemoryRecordType::Claim] {
                assert(record_types@[0] == MemoryRecordType::Claim);
            }
        }
        let claim_status = match self.claim_status {
            Some(st) => Some(st.to_status()),
            None => if claim_only {
                Some(ClaimStatus::Active)
            } else {
                None
            },
        };
        let input = SearchMemoryInput {
            namespace,
            record_types,
            event_reference,
            kind: match self.kind {
                Some(k) => Some(k.to_kind()),
                None => None,
            },
            recorded_after,
            recorded_before,
            claim_reference,
            claim_status,
            mode: match self.mode {
                Some(m) => Some(m.to_mode()),
                None => None,
            },
            episode_reference: copy_opt_string(&self.episode_reference),
            reflection_reference: copy_opt_string(&self.reflection_reference),
            limit: match self.limit {
                Some(l) => l,
                None => DEFAULT_SEARCH_MEMORY_LIMIT,
            },
        };
        assert(self.describes(input));
        match input.validate() {
            Ok(()) => Ok(input),
            Err(e) => Err(e),
        }
    }
}

/// The parameters of `get_memory`.
#[derive(Debug, Clone, PartialEq, Eq)]
pub struct GetMemoryParams {
    pub namespace: String,
    pub id: String,
    pub record_type: Option<MemoryRecordTypeDto>,
}

impl GetMemoryParams {
    /// The record type asked for: events by default.
    pub open spec fn spec_record_type(&self) -> MemoryRecordTypeDto {
        match self.record_type {
            Some(t) => t,
            None => MemoryRecordTypeDto::Event,
        }
    }

    /// Why the parameters are refused, if they are: an id that is no reference
    /// of the asked type, or a namespace that does not parse (checked second).
    pub open spec fn rejection(&self) -> Option<(bool, Seq<char>)> {
        let id_rejection = match self.spec_record_type() {
            MemoryRecordTypeDto::Event => if is_valid_event_reference_text(self.id@) {
                None
            } else {
                Some(domain_error_view(DomainError::InvalidEventReference))
            },
            MemoryRecordTypeDto::Claim => if is_valid_claim_reference_text(self.id@) {
                None
            } else {
                Some(domain_error_view(DomainError::InvalidClaimReference))
            },
            MemoryRecordTypeDto::Episode => if is_exact_token(self.id@) {
                None
            } else {
                Some(invalid_view(exact_reference_message("episode_reference"@)))
            },
            MemoryRecordTypeDto::Reflection => if is_exact_token(self.id@) {
                None
            } else {
                Some(invalid_view(exact_reference_message("reflection_reference"@)))
            },
        };
        if id_rejection is Some {
            id_rejection
        } else {
            failure(namespace_param(self.namespace@))
        }
    }

    /// The read the parameters describe; see `rejection`.
    pub fn to_get_memory_input(&self) -> (r: Result<GetMemoryInput, AppError>)
        ensures
            match r {
                Err(e) => self.rejection() == Some(error_view(e)),
                Ok(input) => self.rejection() is None && input.namespace@ == self.namespace@
                    && match (input.id, self.spec_record_type()) {
                    (MemoryRecordReference::Event(e), MemoryRecordTypeDto::Event) => e@
                        == event_ref_id(self.id@),
                    (MemoryRecordReference::Claim(c), MemoryRecordTypeDto::Claim) => c@
                        == claim_ref_id(self.id@),
                    (MemoryRecordReference::Episode(s), MemoryRecordTypeDto::Episode) => s@
                        == self.id@,
                    (MemoryRecordReference::Reflection(s), MemoryRecordTypeDto::Reflection) => s@
                        == self.id@,
                    _ => false,
                },
            },
    {
        let record_type = match self.record_type {
            Some(t) => t,
            None => MemoryRecordTypeDto::Event,
        };
        let id = match record_type {
            MemoryRecordTypeDto::Event => match EventReference::parse(self.id.as_str()) {
                Ok(e) => MemoryRecordReference::Event(e),
                Err(e) => {
                    return Err(AppError::from_domain(e));
                },
            },
            MemoryRecordTypeDto::Claim => match ClaimReference::parse(self.id.as_str()) {
                Ok(c) => MemoryRecordReference::Claim(c),
                Err(e) => {
                    return Err(AppError::from_domain(e));
                },
            },
            MemoryRecordTypeDto::Episode => match parse_opaque_episode_reference(self.id.clone()) {
                Ok(s) => MemoryRecordReference::Episode(s),
                Err(e) => {
                    return Err(e);
                },
            },
            MemoryRecordTypeDto::Reflection => match parse_opaque_reflection_reference(
                self.id.clone(),
            ) {
                Ok(s) => MemoryRecordReference::Reflection(s),
                Err(e) => {
                    return Err(e);
                },
            },
        };
        let namespace = match parse_namespace_param(self.namespace.as_str()) {
            Ok(ns) => ns,
            Err(e) => {
                return Err(e);
            },
        };
        Ok(GetMemoryInput { namespace, id })
    }
}

/// The parameters of `get_evidence_relation`.
#[derive(Debug, Clone, PartialEq, Eq)]
pub struct GetEvidenceRelationParams {
    pub namespace: String,
    pub trigger_window_event_ids: Vec<String>,
    pub selected_evidence_event_ids: Option<Vec<String>>,
    pub selection_basis: Option<String>,
}

impl GetEvidenceRelationParams {
    /// The selected evidence texts (none by default).
    pub open spec fn spec_selected(&self) -> Seq<Seq<char>> {
        match self.selected_evidence_event_ids {
            Some(v) => texts(v@),
            None => Seq::empty(),
        }
    }

    /// Why the parameters are refused, if they are: more than 256 window or
    /// selected ids, a namespace or id that does not parse, or a selection
    /// basis that is empty or has edge white space.
    pub open spec fn rejection(&self) -> Option<(bool, Seq<char>)> {
        if self.trigger_window_event_ids@.len() > MAX_EVIDENCE_MANIFEST_ITEMS {
            Some(
                invalid_view(
                    "trigger_window_event_ids must contain at most "@ + decimal(
                        MAX_EVIDENCE_MANIFEST_ITEMS as nat,
                    ) + " entries"@,
                ),
            )
        } else if self.spec_selected().len() > MAX_EVIDENCE_MANIFEST_ITEMS {
            Some(
                invalid_view(
                    "selected_evidence_event_ids must contain at most "@ + decimal(
                        MAX_EVIDENCE_MANIFEST_ITEMS as nat,
                    ) + " entries"@,
                ),
            )
        } else if !is_valid_namespace_text(self.namespace@) {
            Some(domain_error_view(DomainError::InvalidNamespace))
        } else if !all_event_refs(texts(self.trigger_window_event_ids@)) || !all_event_refs(
            self.spec_selected(),
        ) {
            Some(domain_error_view(DomainError::InvalidEventReference))
        } else if self.selection_basis matches Some(b) && !is_exact_token(b@) {
            Some(
                invalid_view(
                    "selection_basis must be non-empty and have no leading or trailing whitespace"@,
                ),
            )
        } else {
            None
        }
    }

    /// The request the parameters describe: window and selection each
    /// de-duplicated by event; see `rejection`.
    pub fn to_evidence_relation_input(&self) -> (r: Result<GetEvidenceRelationInput, AppError>)
        ensures
            match r {
                Err(e) => self.rejection() == Some(error_view(e)),
                Ok(input) => self.rejection() is None && input.namespace@ == self.namespace@
                    && raw_ids(input.trigger_window@) == dedup(
                    ref_ids(texts(self.trigger_window_event_ids@)),
                ) && raw_ids(input.selected_evidence@) == dedup(ref_ids(self.spec_selected()))
                    && opt_view(input.selection_basis) == opt_view(self.selection_basis),
            },
    {
        if self.trigger_window_event_ids.len() > MAX_EVIDENCE_MANIFEST_ITEMS {
            let digits = decimal_string(MAX_EVIDENCE_MANIFEST_ITEMS);
            return Err(
                AppError::InvalidParams(
                    concat3(
                        "trigger_window_event_ids must contain at most ",
                        digits.as_str(),
                        " entries",
                    ),
                ),
            );
        }
        let selected: Vec<String> = match &self.selected_evidence_event_ids {
            Some(v) => copy_strings(v.as_slice()),
            None => Vec::new(),
        };
        assert(texts(selected@) =~= self.spec_selected());
        if selected.len() > MAX_EVIDENCE_MANIFEST_ITEMS {
            let digits = decimal_string(MAX_EVIDENCE_MANIFEST_ITEMS);
            return Err(
                AppError::InvalidParams(
                    concat3(
                        "selected_evidence_event_ids must contain at most ",
                        digits.as_str(),
                        " entries",
                    ),
                ),
            );
        }
        let namespace = match parse_namespace_param(self.namespace.as_str()) {
            Ok(ns) => ns,
            Err(e) => {
                return Err(e);
            },
        };
        let trigger_window = match parse_event_references(self.trigger_window_event_ids.as_slice()) {
            Ok(refs) => refs,
            Err(e) => {
                return Err(e);
            },
        };
        let selected_evidence = match parse_event_references(selected.as_slice()) {
            Ok(refs) => refs,
            Err(e) => {
                return Err(e);
            },
        };
        let input = GetEvidenceRelationInput {
            namespace,
            trigger_window,
            selected_evidence,
            selection_basis: copy_opt_string(&self.selection_basis),
        };
        proof {
            lemma_dedup_props(ref_ids(texts(self.trigger_window_event_ids@)));
            lemma_dedup_props(ref_ids(self.spec_selected()));
        }
        match input.validate() {
            Ok(()) => Ok(input),
            Err(e) => Err(e),
        }
    }
}

/// The parameters of `get_reflection_history`.
#[derive(Debug, Clone, PartialEq, Eq)]
pub struct GetReflectionHistoryParams {
    pub namespace: String,
    pub claim_reference: String,
    pub limit: Option<usize>,
}

/// A limit parameter, with its default.
pub open spec fn limit_or(limit: Option<usize>, default: usize) -> usize {
    match limit {
        Some(l) => l,
        None => default,
    }
}

impl GetReflectionHistoryParams {
    /// Why the parameters are refused, if they are: a namespace or claim
    /// reference that does not parse, or a limit outside 1 to 100 (20 by default).
    pub open spec fn rejection(&self) -> Option<(bool, Seq<char>)> {
        if !is_valid_namespace_text(self.namespace@) {
            Some(domain_error_view(DomainError::InvalidNamespace))
        } else if !is_valid_claim_reference_text(self.claim_reference@) {
            Some(domain_error_view(DomainError::InvalidClaimReference))
        } else {
            match limit_rejection(
                "get_reflection_history"@,
                limit_or(self.limit, DEFAULT_REFLECTION_HISTORY_LIMIT),
            ) {
                Some(m) => Some(invalid_view(m)),
                None => None,
            }
        }
    }

    /// The history request the parameters describe; see `rejection`.
    pub fn to_history_input(&self) -> (r: Result<GetReflectionHistoryInput, AppError>)
        ensures
            match r {
                Err(e) => self.rejection() == Some(error_view(e)),
                Ok(input) => self.rejection() is None && input.namespace@ == self.namespace@
                    && input.claim_reference@ == claim_ref_id(self.claim_reference@) && input.limit
                    == limit_or(self.limit, DEFAULT_REFLECTION_HISTORY_LIMIT),
            },
    {
        let namespace = match parse_namespace_param(self.namespace.as_str()) {
            Ok(ns) => ns,
            Err(e) => {
                return Err(e);
            },
        };
        let claim_reference = match ClaimReference::parse(self.claim_reference.as_str()) {
            Ok(c) => c,
            Err(e) => {
                return Err(AppError::from_domain(e));
            },
        };
        let input = GetReflectionHistoryInput {
            namespace,
            claim_reference,
            limit: match self.limit {
                Some(l) => l,
                None => DEFAULT_REFLECTION_HISTORY_LIMIT,
            },
        };
        match input.validate() {
            Ok(()) => Ok(input),
            Err(e) => Err(e),
        }
    }
}

/// The parameters of `get_self_model_history`.
#[derive(Debug, Clone, PartialEq, Eq)]
pub struct GetSelfModelHistoryParams {
    pub namespace: String,
    pub history_type: SelfModelHistoryTypeDto,
    pub limit: Option<usize>,
}

impl GetSelfModelHistoryParams {
    /// Why the parameters are refused, if they are: a namespace that does not
    /// parse, or a limit outside 1 to 100 (20 by default).
    pub open spec fn rejection(&self) -> Option<(bool, Seq<char>)> {
        if !is_valid_namespace_text(self.namespace@) {
            Some(domain_error_view(DomainError::InvalidNamespace))
        } else {
            match limit_rejection(
                "get_self_model_history"@,
                limit_or(self.limit, DEFAULT_SELF_MODEL_HISTORY_LIMIT),
            ) {
                Some(m) => Some(invalid_view(m)),
                None => None,
            }
        }
    }

    /// The history request the parameters describe; see `rejection`.
    pub fn to_history_input(&self) -> (r: Result<GetSelfModelHistoryInput, AppError>)
        ensures
            match r {
                Err(e) => self.rejection() == Some(error_view(e)),
                Ok(input) => self.rejection() is None && input.namespace@ == self.namespace@
                    && input.history_kind == match self.history_type {
                    SelfModelHistoryTypeDto::Identity => SelfModelHistoryKind::Identity,
                    SelfModelHistoryTypeDto::Commitment => SelfModelHistoryKind::Commitment,
                } && input.limit == limit_or(self.limit, DEFAULT_SELF_MODEL_HISTORY_LIMIT),
            },
    {
        let namespace = match parse_namespace_param(self.namespace.as_str()) {
            Ok(ns) => ns,
            Err(e) => {
                return Err(e);
            },
        };
        let input = GetSelfModelHistoryInput {
            namespace,
            history_kind: self.history_type.to_kind(),
            limit: match self.limit {
                Some(l) => l,
                None => DEFAULT_SELF_MODEL_HISTORY_LIMIT,
            },
        };
        match input.validate() {
            Ok(()) => Ok(input),
            Err(e) => Err(e),
        }
    }
}

/// The parameters of `run_reflection`.
#[derive(Debug, Clone, PartialEq, Eq)]
pub struct RunReflectionParams {
    pub reflection: ReflectionDto,
    pub supersede_claim_id: String,
    pub replacement_claim: Option<ClaimDraftDto>,
    pub replacement_evidence_event_ids: Vec<String>,
    pub replacement_evidence_query: Option<EvidenceQueryDto>,
    pub identity_update: Option<ReflectionIdentityUpdateDto>,
    pub commitment_updates: Option<Vec<CommitmentDto>>,
}

/// The commitments the tool's commitments describe.
pub fn commitments_from_dtos(dtos: &[CommitmentDto]) -> (r: Vec<Commitment>)
    ensures
        r@.len() == dtos@.len(),
        forall|i: int|
            0 <= i < dtos@.len() ==> (#[trigger] r@[i]).owner == owner_of_dto(dtos@[i].owner)
                && r@[i].description@ == dtos@[i].description@,
{
    let mut out: Vec<Commitment> = Vec::new();
    let mut i: usize = 0;
    while i < dtos.len()
        invariant
            i <= dtos@.len(),
            out@.len() == i,
            forall|k: int|
                0 <= k < i ==> (#[trigger] out@[k]).owner == owner_of_dto(dtos@[k].owner)
                    && out@[k].description@ == dtos@[k].description@,
        decreases dtos@.len() - i,
    {
        out.push(dtos[i].to_commitment());
        i = i + 1;
    }
    out
}

impl RunReflectionParams {
    /// Why the parameters are refused, if they are: a replacement claim its
    /// rules refuse, or an evidence query that `to_evidence_query` refuses.
    pub open spec fn rejection(&self) -> Option<(bool, Seq<char>)> {
        let claim_rejection = match self.replacement_claim {
            Some(c) => claim_dto_rejection(owner_of_dto(c.owner), opt_view(c.namespace)),
            None => None,
        };
        match claim_rejection {
            Some(d) => Some(domain_error_view(d)),
            None => match self.replacement_evidence_query {
                Some(q) => q.rejection(),
                None => None,
            },
        }
    }

    /// The reflection request the parameters describe.
    pub fn to_reflection_input(&self) -> (r: Result<ReflectionInput, AppError>)
        ensures
            match r {
                Err(e) => self.rejection() == Some(error_view(e)),
                Ok(input) => self.rejection() is None && input.spec_reflection().spec_summary()
                    == self.reflection.summary@ && (input.spec_target_claim_id() matches Some(t)
                    && t@ == self.supersede_claim_id@) && match (
                    input.spec_replacement_claim(),
                    self.replacement_claim,
                ) {
                    (Some(c), Some(d)) => draft_from_dto(c, d),
                    (None, None) => true,
                    _ => false,
                } && input.spec_evidence_event_ids() == texts(
                    self.replacement_evidence_event_ids@,
                ) && (input.spec_evidence_query() is Some
                    == self.replacement_evidence_query is Some) && match (
                    input.spec_identity_update(),
                    self.identity_update,
                ) {
                    (Some(u), Some(d)) => texts(u.canonical_claims@) == texts(d.canonical_claims@),
                    (None, None) => true,
                    _ => false,
                } && match (input.spec_commitment_updates(), self.commitment_updates) {
                    (Some(cs), Some(ds)) => cs@.len() == ds@.len() && forall|i: int|
                        0 <= i < ds@.len() ==> (#[trigger] cs@[i]).owner == owner_of_dto(
                            ds@[i].owner,
                        ) && cs@[i].description@ == ds@[i].description@,
                    (None, None) => true,
                    _ => false,
                },
            },
    {
        let replacement = match &self.replacement_claim {
            Some(d) => match d.to_claim_draft() {
                Ok(c) => Some(c),
                Err(e) => {
                    return Err(AppError::from_domain(e));
                },
            },
            None => None,
        };
        let mut input = ReflectionInput::new(
            self.reflection.to_reflection(),
            self.supersede_claim_id.as_str(),
            replacement,
            copy_strings(self.replacement_evidence_event_ids.as_slice()),
        );
        if let Some(q) = &self.replacement_evidence_query {
            match q.to_evidence_query() {
                Ok(query) => {
                    input = input.with_replacement_evidence_query(query);
                },
                Err(e) => {
                    return Err(e);
                },
            }
        }
        if let Some(u) = &self.identity_update {
            input = input.with_identity_update(copy_strings(u.canonical_claims.as_slice()));
        }
        if let Some(cs) = &self.commitment_updates {
            input = input.with_commitment_updates(commitments_from_dtos(cs.as_slice()));
        }
        Ok(input)
    }
}

} // verus!
