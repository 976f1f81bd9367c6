//! Reading one memory record of a namespace by its reference.
use vstd::prelude::*;

use crate::application::search_memory::{
    reference_ok, MemoryRecordType, SearchMemoryInput, SearchMemoryRecord, SearchMemoryResult,
};
use crate::domain::claim::ClaimReference;
use crate::domain::event::EventReference;
use crate::domain::types::{Namespace, Owner};

verus! {

/// A reference to one memory record of a given type.
#[derive(Debug, Clone, PartialEq, Eq)]
pub enum MemoryRecordReference {
    Event(EventReference),
    Claim(ClaimReference),
    Episode(String),
    Reflection(String),
}

/// A request for one memory record.
#[derive(Debug, Clone, PartialEq, Eq)]
pub struct GetMemoryInput {
    pub namespace: Namespace,
    pub id: MemoryRecordReference,
}

/// The record found, if any.
#[derive(Debug, Clone, PartialEq, Eq)]
pub struct GetMemoryResult {
    pub owner: Owner,
    pub namespace: String,
    pub record: Option<SearchMemoryRecord>,
}

/// The record type a reference names.
pub open spec fn reference_type(id: MemoryRecordReference) -> MemoryRecordType {
    match id {
        MemoryRecordReference::Event(_) => MemoryRecordType::Event,
        MemoryRecordReference::Claim(_) => MemoryRecordType::Claim,
        MemoryRecordReference::Episode(_) => MemoryRecordType::Episode,
        MemoryRecordReference::Reflection(_) => MemoryRecordType::Reflection,
    }
}

/// The search that reads the record: a search of the namespace for the
/// reference's type, filtered by the reference, with a limit of one.
pub fn get_memory_search(input: GetMemoryInput) -> (r: SearchMemoryInput)
    ensures
        r.namespace == input.namespace,
        r.record_types@ == seq![reference_type(input.id)],
        r.event_reference == match input.id {
            MemoryRecordReference::Event(e) => Some(e),
            _ => None,
        },
        r.claim_reference == match input.id {
            MemoryRecordReference::Claim(c) => Some(c),
            _ => None,
        },
        r.episode_reference == match input.id {
            MemoryRecordReference::Episode(s) => Some(s),
            _ => None,
        },
        r.reflection_reference == match input.id {
            MemoryRecordReference::Reflection(s) => Some(s),
            _ => None,
        },
        r.kind is None,
        r.recorded_after is None,
        r.recorded_before is None,
        r.claim_status is None,
        r.mode is None,
        r.limit == 1,
        lookup_reference_ok(input.id) ==> r.rejection() is None,
{
    let record_type = match &input.id {
        MemoryRecordReference::Event(_) => MemoryRecordType::Event,
        MemoryRecordReference::Claim(_) => MemoryRecordType::Claim,
        MemoryRecordReference::Episode(_) => MemoryRecordType::Episode,
        MemoryRecordReference::Reflection(_) => MemoryRecordType::Reflection,
    };
    let mut types: Vec<MemoryRecordType> = Vec::new();
    types.push(record_type);
    let (event_reference, claim_reference, episode_reference, reflection_reference) = match input.id {
        MemoryRecordReference::Event(e) => (Some(e), None, None, None),
        MemoryRecordReference::Claim(c) => (None, Some(c), None, None),
        MemoryRecordReference::Episode(s) => (None, None, Some(s), None),
        MemoryRecordReference::Reflection(s) => (None, None, None, Some(s)),
    };
    let r = SearchMemoryInput {
        namespace: input.namespace,
        record_types: types,
        event_reference,
        kind: None,
        recorded_after: None,
        recorded_before: None,
        claim_reference,
        claim_status: None,
        mode: None,
        episode_reference,
        reflection_reference,
        limit: 1,
    };
    assert(r.record_types@ =~= seq![record_type]);
    assert(r.record_types@.no_duplicates());
    r
}

/// An episode or reflection reference is non-empty without edge white space
/// (event and claim references are parsed already).
pub open spec fn lookup_reference_ok(id: MemoryRecordReference) -> bool {
    match id {
        MemoryRecordReference::Episode(s) => reference_ok(Some(s)),
        MemoryRecordReference::Reflection(s) => reference_ok(Some(s)),
        _ => true,
    }
}

/// The search that reads a record reads the record type its reference
/// names, filtered by that reference alone, and the search validation accepts
/// it: an event reference searches events, a claim reference claims, an
/// episode reference episodes and a reflection reference reflections.
pub proof fn lemma_lookup_reads_the_named_record_type(id: MemoryRecordReference, s: SearchMemoryInput)
    requires
        lookup_reference_ok(id),
        s.record_types@ == seq![reference_type(id)],
        s.event_reference == match id {
            MemoryRecordReference::Event(e) => Some(e),
            _ => None,
        },
        s.claim_reference == match id {
            MemoryRecordReference::Claim(c) => Some(c),
            _ => None,
        },
        s.episode_reference == match id {
            MemoryRecordReference::Episode(x) => Some(x),
            _ => None,
        },
        s.reflection_reference == match id {
            MemoryRecordReference::Reflection(x) => Some(x),
            _ => None,
        },
        s.kind is None,
        s.recorded_after is None,
        s.recorded_before is None,
        s.claim_status is None,
        s.mode is None,
        s.limit == 1,
    ensures
        s.rejection() is None,
        id is Event ==> s.record_types@ == seq![MemoryRecordType::Event],
        id is Claim ==> s.record_types@ == seq![MemoryRecordType::Claim],
        id is Episode ==> s.record_types@ == seq![MemoryRecordType::Episode],
        id is Reflection ==> s.record_types@ == seq![MemoryRecordType::Reflection],
{
    assert(s.record_types@.no_duplicates());
}

/// The result of the read: the search's owner and namespace, and its first
/// record if it found one.
pub fn get_memory_result(result: SearchMemoryResult) -> (r: GetMemoryResult)
    ensures
        r.owner == result.owner,
        r.namespace == result.namespace,
        r.record == if result.records@.len() > 0 {
            Some(result.records@[0])
        } else {
            None
        },
{
    let mut records = result.records;
    let record = if records.len() > 0 {
        Some(records.remove(0))
    } else {
        None
    };
    GetMemoryResult { owner: result.owner, namespace: result.namespace, record }
}

} // verus!
