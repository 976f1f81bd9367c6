//! The plain records that the stores and the model exchange with the
//! application layer.
use vstd::prelude::*;

use crate::domain::claim::{ClaimDraft, ClaimReference};
use crate::domain::event::{Event, EventReference};
use crate::domain::self_revision::TriggerType;
use crate::domain::time::Timestamp;
use crate::domain::types::{EventKind, MemoryScope, Mode, Namespace, Owner};
use crate::seqs::{copy_opt_string, copy_strings, opt_text, texts};
use crate::domain::records::{Commitment, Reflection, ReflectionIdentityUpdate};
use crate::text::{concat3, concat_str, owned};

verus! {

/// The largest page that a record query may ask for.
pub const MAX_EVENT_RECORD_QUERY_LIMIT: usize = 100;

/// The lifecycle state of a stored claim.
#[derive(Debug, Clone, Copy, PartialEq, Eq, Hash, Structural)]
pub enum ClaimStatus {
    Active,
    Disputed,
    Superseded,
}

/// The stored label of a claim status.
pub open spec fn claim_status_label(status: ClaimStatus) -> Seq<char> {
    match status {
        ClaimStatus::Active => "active"@,
        ClaimStatus::Disputed => "disputed"@,
        ClaimStatus::Superseded => "superseded"@,
    }
}

impl ClaimStatus {
    pub fn as_str(self) -> (r: &'static str)
        ensures
            r@ == claim_status_label(self),
    {
        match self {
            ClaimStatus::Active => "active",
            ClaimStatus::Disputed => "disputed",
            ClaimStatus::Superseded => "superseded",
        }
    }
}

/// The state of a trigger-ledger entry.
#[derive(Debug, Clone, Copy, PartialEq, Eq, Hash, Structural)]
pub enum TriggerLedgerStatus {
    Pending,
    Handled,
    Rejected,
    Suppressed,
}

/// The stored label of a trigger-ledger state.
pub open spec fn trigger_ledger_status_label(status: TriggerLedgerStatus) -> Seq<char> {
    match status {
        TriggerLedgerStatus::Pending => "pending"@,
        TriggerLedgerStatus::Handled => "handled"@,
        TriggerLedgerStatus::Rejected => "rejected"@,
        TriggerLedgerStatus::Suppressed => "suppressed"@,
    }
}

impl TriggerLedgerStatus {
    pub fn as_str(self) -> (r: &'static str)
        ensures
            r@ == trigger_ledger_status_label(self),
    {
        match self {
            TriggerLedgerStatus::Pending => "pending",
            TriggerLedgerStatus::Handled => "handled",
            TriggerLedgerStatus::Rejected => "rejected",
            TriggerLedgerStatus::Suppressed => "suppressed",
        }
    }
}

/// Which self-model history a query reads.
#[derive(Debug, Clone, Copy, PartialEq, Eq, Structural)]
pub enum SelfModelHistoryKind {
    Identity,
    Commitment,
}

impl SelfModelHistoryKind {
    pub fn as_str(self) -> (r: &'static str)
        ensures
            r@ == match self {
                SelfModelHistoryKind::Identity => "identity"@,
                SelfModelHistoryKind::Commitment => "commitment"@,
            },
    {
        match self {
            SelfModelHistoryKind::Identity => "identity",
            SelfModelHistoryKind::Commitment => "commitment",
        }
    }
}

/// A query for evidence events.
#[derive(Debug, Clone, PartialEq, Eq)]
pub struct EvidenceQuery {
    pub namespace: Option<Namespace>,
    pub owner: Option<Owner>,
    pub kind: Option<EventKind>,
    pub limit: Option<usize>,
    pub recorded_after: Option<Timestamp>,
    pub recorded_before: Option<Timestamp>,
    pub event_id_prefix: Option<String>,
}

/// A query for operation-log entries: each filter that is present must hold,
/// `after` and `before` bound the time of the operation strictly, and `limit`
/// caps the number of entries.
#[derive(Debug, Clone, PartialEq, Eq)]
pub struct OperationLogQuery {
    pub operation_id: Option<String>,
    pub namespace: Option<String>,
    pub operation_kind: Option<String>,
    pub status: Option<String>,
    pub correlation_id: Option<String>,
    pub after: Option<Timestamp>,
    pub before: Option<Timestamp>,
    pub limit: Option<usize>,
}

/// A stored event with its id and recording time.
#[derive(Debug, Clone, PartialEq, Eq)]
pub struct StoredEvent {
    pub event_id: String,
    pub recorded_at: Timestamp,
    pub event: Event,
}

impl StoredEvent {
    pub fn new(event_id: String, recorded_at: Timestamp, event: Event) -> (r: StoredEvent)
        ensures
            r.event_id == event_id,
            r.recorded_at == recorded_at,
            r.event == event,
    {
        StoredEvent { event_id, recorded_at, event }
    }
}

/// A stored claim with its id and status.
#[derive(Debug, Clone, PartialEq, Eq)]
pub struct StoredClaim {
    pub claim_id: String,
    pub claim: ClaimDraft,
    pub status: ClaimStatus,
}

impl StoredClaim {
    pub fn new(claim_id: String, claim: ClaimDraft, status: ClaimStatus) -> (r: StoredClaim)
        ensures
            r.claim_id == claim_id,
            r.claim == claim,
            r.status == status,
    {
        StoredClaim { claim_id, claim, status }
    }
}

impl StoredClaim {
    /// The form a claim takes in a snapshot: `claim:<subject>=<object>`.
    pub fn snapshot_value(&self) -> (r: String)
        ensures
            r@ == "claim:"@ + self.claim.spec_subject() + "="@ + self.claim.spec_object(),
    {
        let head = concat_str("claim:", self.claim.subject());
        concat3(head.as_str(), "=", self.claim.object())
    }
}

/// A reflection as the store keeps it: its id and time, the claims it
/// superseded and introduced, the events it rests on, and the self-model
/// updates it asked for.
#[derive(Debug, Clone, PartialEq, Eq)]
pub struct StoredReflection {
    pub reflection_id: String,
    pub recorded_at: Timestamp,
    pub reflection: Reflection,
    pub superseded_claim_id: Option<String>,
    pub replacement_claim_id: Option<String>,
    pub supporting_evidence_event_ids: Vec<String>,
    pub requested_identity_update: Option<ReflectionIdentityUpdate>,
    pub requested_commitment_updates: Option<Vec<Commitment>>,
}

/// A query for the reflections that revised one claim.
#[derive(Debug, Clone, PartialEq, Eq)]
pub struct ClaimReflectionHistoryQuery {
    pub scope: MemoryScope,
    pub claim_reference: ClaimReference,
    pub limit: usize,
}

/// A reflection that revised a claim.
#[derive(Debug, Clone, PartialEq, Eq)]
pub struct ClaimReflectionHistoryRecord {
    pub reflection_id: String,
    pub recorded_at: Timestamp,
    pub summary: String,
    pub superseded_claim_reference: Option<ClaimReference>,
    pub replacement_claim_reference: Option<ClaimReference>,
    pub supporting_evidence_event_references: Vec<EventReference>,
}

/// One page of a claim's reflection history.
#[derive(Debug, Clone, PartialEq, Eq)]
pub struct ClaimReflectionHistoryPage {
    pub records: Vec<ClaimReflectionHistoryRecord>,
    pub has_more: bool,
}

/// A query for the identity or commitment history of one scope.
#[derive(Debug, Clone, PartialEq, Eq)]
pub struct SelfModelHistoryQuery {
    pub scope: MemoryScope,
    pub history_kind: SelfModelHistoryKind,
    pub limit: usize,
}

/// A reflection that revised the self model.
#[derive(Debug, Clone, PartialEq, Eq)]
pub struct SelfModelHistoryReadRecord {
    pub reflection_id: String,
    pub recorded_at: Timestamp,
    pub summary: String,
    pub superseded_claim_reference: Option<ClaimReference>,
    pub replacement_claim_reference: Option<ClaimReference>,
    pub supporting_evidence_event_references: Vec<EventReference>,
    pub identity_update: Option<ReflectionIdentityUpdate>,
    pub commitment_updates: Option<Vec<Commitment>>,
}

/// One page of a self-model history.
#[derive(Debug, Clone, PartialEq, Eq)]
pub struct SelfModelHistoryPage {
    pub records: Vec<SelfModelHistoryReadRecord>,
    pub has_more: bool,
}

/// One attempt of an automatic reflection trigger, as the ledger keeps it.
#[derive(Debug, Clone, PartialEq, Eq)]
pub struct StoredTriggerLedgerEntry {
    pub ledger_id: String,
    pub trigger_type: TriggerType,
    pub namespace: Namespace,
    pub trigger_key: String,
    pub status: TriggerLedgerStatus,
    pub evidence_window: Vec<String>,
    pub handled_at: Option<Timestamp>,
    pub cooldown_until: Option<Timestamp>,
    pub episode_watermark: Option<u64>,
    pub reflection_id: Option<String>,
}

/// Two ledger entries that hold the same values.
pub open spec fn same_entry(a: StoredTriggerLedgerEntry, b: StoredTriggerLedgerEntry) -> bool {
    &&& a.ledger_id@ == b.ledger_id@
    &&& a.trigger_type == b.trigger_type
    &&& a.namespace@ == b.namespace@
    &&& a.trigger_key@ == b.trigger_key@
    &&& a.status == b.status
    &&& texts(a.evidence_window@) == texts(b.evidence_window@)
    &&& a.handled_at == b.handled_at
    &&& a.cooldown_until == b.cooldown_until
    &&& a.episode_watermark == b.episode_watermark
    &&& opt_text(a.reflection_id) == opt_text(b.reflection_id)
}

impl StoredTriggerLedgerEntry {
    /// A copy of this entry.
    pub fn duplicate(&self) -> (r: StoredTriggerLedgerEntry)
        ensures
            same_entry(r, *self),
    {
        StoredTriggerLedgerEntry {
            ledger_id: self.ledger_id.clone(),
            trigger_type: self.trigger_type,
            namespace: self.namespace.duplicate(),
            trigger_key: self.trigger_key.clone(),
            status: self.status,
            evidence_window: copy_strings(self.evidence_window.as_slice()),
            handled_at: self.handled_at,
            cooldown_until: self.cooldown_until,
            episode_watermark: self.episode_watermark,
            reflection_id: copy_opt_string(&self.reflection_id),
        }
    }
}

/// A query for the event records of one scope.
#[derive(Debug, Clone, PartialEq, Eq)]
pub struct EventRecordQuery {
    pub scope: MemoryScope,
    pub event_reference: Option<EventReference>,
    pub kind: Option<EventKind>,
    pub recorded_after: Option<Timestamp>,
    pub recorded_before: Option<Timestamp>,
    pub limit: usize,
}

/// A query for the claim records of one scope.
#[derive(Debug, Clone, PartialEq, Eq)]
pub struct ClaimRecordQuery {
    pub scope: MemoryScope,
    pub claim_reference: Option<ClaimReference>,
    pub status: Option<ClaimStatus>,
    pub mode: Option<Mode>,
    pub limit: usize,
}

/// A query for the episode records of one scope.
#[derive(Debug, Clone, PartialEq, Eq)]
pub struct EpisodeRecordQuery {
    pub scope: MemoryScope,
    pub episode_reference: Option<String>,
    pub limit: usize,
}

/// A query for the reflection records of one scope.
#[derive(Debug, Clone, PartialEq, Eq)]
pub struct ReflectionRecordQuery {
    pub scope: MemoryScope,
    pub reflection_reference: Option<String>,
    pub limit: usize,
}

/// A query for which of the given raw event ids exist in one scope.
#[derive(Debug, Clone, PartialEq, Eq)]
pub struct ScopedEventIdQuery {
    pub scope: MemoryScope,
    pub event_ids: Vec<String>,
}

impl StoredEvent {
    /// The canonical reference `event:<id>` of the stored event.
    pub fn event_reference(&self) -> (r: String)
        ensures
            r@ == "event:"@ + self.event_id@,
    {
        concat_str("event:", self.event_id.as_str())
    }
}

/// An event record with the claims it supports and the episodes it belongs to.
#[derive(Debug, Clone, PartialEq, Eq)]
pub struct EventReadRecord {
    pub event: StoredEvent,
    pub claim_ids: Vec<String>,
    pub episode_references: Vec<String>,
}

impl EventReadRecord {
    pub fn new(event: StoredEvent, claim_ids: Vec<String>, episode_references: Vec<String>) -> (r:
        EventReadRecord)
        ensures
            r.event == event,
            r.claim_ids == claim_ids,
            r.episode_references == episode_references,
    {
        EventReadRecord { event, claim_ids, episode_references }
    }
}

/// The reflections that produced or superseded a claim, and the claims on the
/// other side of them.
#[derive(Debug, Clone, PartialEq, Eq)]
pub struct ClaimRevisionLinks {
    pub source_reflection_id: Option<String>,
    pub supersedes_claim_reference: Option<ClaimReference>,
    pub superseded_by_reflection_id: Option<String>,
    pub replacement_claim_reference: Option<ClaimReference>,
}

impl Default for ClaimRevisionLinks {
    fn default() -> (r: ClaimRevisionLinks)
        ensures
            r.source_reflection_id is None,
            r.supersedes_claim_reference is None,
            r.superseded_by_reflection_id is None,
            r.replacement_claim_reference is None,
    {
        ClaimRevisionLinks {
            source_reflection_id: None,
            supersedes_claim_reference: None,
            superseded_by_reflection_id: None,
            replacement_claim_reference: None,
        }
    }
}

/// A claim record with its evidence, episodes and revision links.
#[derive(Debug, Clone, PartialEq, Eq)]
pub struct ClaimReadRecord {
    pub claim: StoredClaim,
    pub evidence_event_references: Vec<EventReference>,
    pub episode_references: Vec<String>,
    pub revision: ClaimRevisionLinks,
}

impl ClaimReadRecord {
    pub fn new(
        claim: StoredClaim,
        evidence_event_references: Vec<EventReference>,
        episode_references: Vec<String>,
        revision: ClaimRevisionLinks,
    ) -> (r: ClaimReadRecord)
        ensures
            r.claim == claim,
            r.evidence_event_references == evidence_event_references,
            r.episode_references == episode_references,
            r.revision == revision,
    {
        ClaimReadRecord { claim, evidence_event_references, episode_references, revision }
    }
}

/// An episode record with the events and claims it groups.
#[derive(Debug, Clone, PartialEq, Eq)]
pub struct EpisodeReadRecord {
    pub episode_reference: String,
    pub recorded_at: Timestamp,
    pub owner: Owner,
    pub namespace: Namespace,
    pub event_references: Vec<EventReference>,
    pub claim_references: Vec<ClaimReference>,
}

/// The claims a reflection superseded and produced, and its evidence.
#[derive(Debug, Clone, PartialEq, Eq)]
pub struct ReflectionReadProvenance {
    pub superseded_claim_reference: Option<ClaimReference>,
    pub replacement_claim_reference: Option<ClaimReference>,
    pub supporting_evidence_event_references: Vec<EventReference>,
}

/// A reflection record with its provenance.
#[derive(Debug, Clone, PartialEq, Eq)]
pub struct ReflectionReadRecord {
    pub reflection_id: String,
    pub recorded_at: Timestamp,
    pub owner: Owner,
    pub namespace: Namespace,
    pub summary: String,
    pub provenance: ReflectionReadProvenance,
}

/// The action a model chose.
#[derive(Debug, Clone, PartialEq, Eq)]
pub struct ModelDecision {
    pub action: String,
}

impl ModelDecision {
    pub fn new(action: &str) -> (r: ModelDecision)
        ensures
            r.action@ == action@,
    {
        ModelDecision { action: owned(action) }
    }
}

} // verus!
