//! Commitments, episodes, evidence links, the identity core and reflections.
use vstd::prelude::*;

use crate::domain::event::Event;
use crate::domain::types::{Mode, Owner};
use crate::text::owned;

verus! {

/// A standing commitment of an owner, written as a rule such as
/// `forbid:write_identity_core_directly`.
#[derive(Debug, Clone, PartialEq, Eq)]
pub struct Commitment {
    pub owner: Owner,
    pub description: String,
}

impl Commitment {
    pub fn new(owner: Owner, description: &str) -> (r: Commitment)
        ensures
            r.owner == owner,
            r.description@ == description@,
    {
        Commitment { owner, description: owned(description) }
    }

    /// The rule text of the commitment.
    pub fn description(&self) -> (r: &str)
        ensures
            r@ == self.description@,
    {
        self.description.as_str()
    }

    /// A copy of this commitment.
    pub fn duplicate(&self) -> (r: Commitment)
        ensures
            r.owner == self.owner,
            r.description@ == self.description@,
    {
        Commitment { owner: self.owner, description: self.description.clone() }
    }
}

/// A titled group of events.
#[derive(Debug, Clone, PartialEq, Eq)]
pub struct Episode {
    pub title: String,
    pub events: Vec<Event>,
}

impl Episode {
    pub fn new(title: &str, events: Vec<Event>) -> (r: Episode)
        ensures
            r.title@ == title@,
            r.events@ == events@,
    {
        Episode { title: owned(title), events }
    }
}

/// A link from a source event to the claim it supports.
#[derive(Debug, Clone, PartialEq, Eq)]
pub struct EvidenceLink {
    source_event_id: String,
    target_claim_id: String,
}

impl EvidenceLink {
    pub closed spec fn spec_source_event_id(&self) -> Seq<char> {
        self.source_event_id@
    }

    pub closed spec fn spec_target_claim_id(&self) -> Seq<char> {
        self.target_claim_id@
    }

    pub fn new(source_event_id: &str, target_claim_id: &str) -> (r: EvidenceLink)
        ensures
            r.spec_source_event_id() == source_event_id@,
            r.spec_target_claim_id() == target_claim_id@,
    {
        EvidenceLink { source_event_id: owned(source_event_id), target_claim_id: owned(target_claim_id) }
    }

    pub fn source_event_id(&self) -> (r: &str)
        ensures
            r@ == self.spec_source_event_id(),
    {
        self.source_event_id.as_str()
    }

    pub fn target_claim_id(&self) -> (r: &str)
        ensures
            r@ == self.spec_target_claim_id(),
    {
        self.target_claim_id.as_str()
    }
}

/// The canonical identity claims of the self.
#[derive(Debug, Clone, PartialEq, Eq)]
pub struct IdentityCore {
    pub canonical_claims: Vec<String>,
}

impl IdentityCore {
    pub fn new(canonical_claims: Vec<String>) -> (r: IdentityCore)
        ensures
            r.canonical_claims@ == canonical_claims@,
    {
        IdentityCore { canonical_claims }
    }

    /// The identity claims.
    pub fn canonical_claims(&self) -> (r: &[String])
        ensures
            r@ == self.canonical_claims@,
    {
        self.canonical_claims.as_slice()
    }
}

/// Whether an ingested claim of the given mode may update the identity core
/// directly: never; identity changes go through reflection.
pub fn allow_direct_ingest_update(mode: Mode) -> (r: bool)
    ensures
        !r,
{
    match mode {
        Mode::Draft => false,
        Mode::Observed | Mode::Said | Mode::Acted | Mode::Inferred => false,
    }
}

/// A reflection: a summary of why memory was revised.
#[derive(Debug, Clone, PartialEq, Eq)]
pub struct Reflection {
    summary: String,
}

impl Reflection {
    pub closed spec fn spec_summary(&self) -> Seq<char> {
        self.summary@
    }

    pub fn new(summary: &str) -> (r: Reflection)
        ensures
            r.spec_summary() == summary@,
    {
        Reflection { summary: owned(summary) }
    }

    pub fn summary(&self) -> (r: &str)
        ensures
            r@ == self.spec_summary(),
    {
        self.summary.as_str()
    }
}

/// The identity claims that a reflection writes.
#[derive(Debug, Clone, PartialEq, Eq)]
pub struct ReflectionIdentityUpdate {
    pub canonical_claims: Vec<String>,
}

impl ReflectionIdentityUpdate {
    pub fn new(canonical_claims: Vec<String>) -> (r: ReflectionIdentityUpdate)
        ensures
            r.canonical_claims == canonical_claims,
    {
        ReflectionIdentityUpdate { canonical_claims }
    }
}

/// The self-model updates that a reflection asked for.
#[derive(Debug, Clone, PartialEq, Eq)]
pub struct ReflectionUpdates {
    pub identity: Option<ReflectionIdentityUpdate>,
    pub commitments: Option<Vec<Commitment>>,
}

impl Default for ReflectionUpdates {
    fn default() -> (r: ReflectionUpdates)
        ensures
            r.identity is None,
            r.commitments is None,
    {
        ReflectionUpdates { identity: None, commitments: None }
    }
}

} // verus!
