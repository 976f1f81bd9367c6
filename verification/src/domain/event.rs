//! Events (recorded interactions) and references to them.
use vstd::prelude::*;

use crate::domain::error::DomainError;
use crate::domain::types::{
    default_namespace_of, namespace_matches_owner, EventKind, Namespace, Owner,
};
use crate::text::{
    chars_of, concat_str, contains_whitespace, has_white_space, owned, seq_starts_with,
    string_of, vec_starts_with,
};

verus! {

/// The most entries an evidence manifest or a trigger window may hold.
pub const MAX_EVIDENCE_MANIFEST_ITEMS: usize = 256;

/// The raw id that a reference text names: the text with one `event:` prefix removed.
pub open spec fn event_ref_id(s: Seq<char>) -> Seq<char> {
    if seq_starts_with(s, "event:"@) {
        s.subrange("event:"@.len() as int, s.len() as int)
    } else {
        s
    }
}

/// Raw event ids that a reference can hold: non-empty, without white space, and
/// not themselves starting with `event:`.
pub open spec fn is_raw_event_id(id: Seq<char>) -> bool {
    id.len() > 0 && !has_white_space(id) && !seq_starts_with(id, "event:"@)
}

/// The texts that `EventReference::parse` accepts: a raw id, or `event:` followed
/// by a raw id.
pub open spec fn is_valid_event_reference_text(s: Seq<char>) -> bool {
    s.len() > 0 && !has_white_space(s) && is_raw_event_id(event_ref_id(s))
}

/// A reference to a stored event, holding its raw id.
#[derive(Debug, Clone, PartialEq, Eq, Hash)]
pub struct EventReference(String);

impl View for EventReference {
    type V = Seq<char>;

    /// The raw event id.
    closed spec fn view(&self) -> Seq<char> {
        self.0@
    }
}

impl EventReference {
    /// Parses `<id>` or `event:<id>`; rejects empty text, text with white space,
    /// an empty id and a repeated `event:` prefix.
    pub fn parse(value: &str) -> (r: Result<EventReference, DomainError>)
        ensures
            is_valid_event_reference_text(value@) ==> (r matches Ok(reference) && reference@
                == event_ref_id(value@)),
            !is_valid_event_reference_text(value@) ==> r == Err::<EventReference, DomainError>(
                DomainError::InvalidEventReference,
            ),
    {
        let chars = chars_of(value);
        if chars.len() == 0 || contains_whitespace(value) {
            return Err(DomainError::InvalidEventReference);
        }
        let prefix = chars_of("event:");
        let mut id: Vec<char> = Vec::new();
        if vec_starts_with(&chars, &prefix) {
            let mut i = prefix.len();
            while i < chars.len()
                invariant
                    prefix.len() <= i <= chars.len(),
                    prefix@ == "event:"@,
                    id@ == chars@.subrange(prefix@.len() as int, i as int),
                decreases chars.len() - i,
            {
                id.push(chars[i]);
                i = i + 1;
            }
        } else {
            let mut i: usize = 0;
            while i < chars.len()
                invariant
                    i <= chars.len(),
                    id@ == chars@.subrange(0, i as int),
                decreases chars.len() - i,
            {
                id.push(chars[i]);
                i = i + 1;
            }
            assert(id@ =~= chars@);
        }
        assert(id@ == event_ref_id(value@));
        if id.len() == 0 || vec_starts_with(&id, &prefix) {
            return Err(DomainError::InvalidEventReference);
        }
        assert(!has_white_space(id@)) by {
            if has_white_space(id@) {
                let k = choose|k: int| 0 <= k < id@.len() && crate::text::is_white_space(#[trigger] id@[k]);
                if seq_starts_with(value@, "event:"@) {
                    assert(id@[k] == value@[k + "event:"@.len()]);
                } else {
                    assert(id@[k] == value@[k]);
                }
            }
        }
        Ok(EventReference(string_of(&id)))
    }

    /// A reference to a raw event id, taken as it is.
    pub(crate) fn from_event_id(event_id: &str) -> (r: EventReference)
        ensures
            r@ == event_id@,
    {
        EventReference(owned(event_id))
    }

    /// The raw event id.
    pub fn event_id(&self) -> (r: &str)
        ensures
            r@ == self@,
    {
        self.0.as_str()
    }

    /// The canonical form `event:<id>`.
    pub fn canonical(&self) -> (r: String)
        ensures
            r@ == "event:"@ + self@,
    {
        concat_str("event:", self.0.as_str())
    }

    /// A copy of this reference.
    pub fn duplicate(&self) -> (r: EventReference)
        ensures
            r@ == self@,
    {
        EventReference(self.0.clone())
    }
}

/// Parsing the canonical form of a reference gives the reference back, and so
/// does parsing its raw id: both forms name the same event.
pub proof fn lemma_event_reference_canonical_roundtrip(id: Seq<char>)
    requires
        is_raw_event_id(id),
    ensures
        is_valid_event_reference_text("event:"@ + id),
        event_ref_id("event:"@ + id) == id,
        is_valid_event_reference_text(id),
        event_ref_id(id) == id,
{
    reveal_strlit("event:");
    let s = "event:"@ + id;
    assert(s.subrange(0, 6) =~= "event:"@);
    assert(s.subrange(6, s.len() as int) =~= id);
    assert(!has_white_space(s)) by {
        if has_white_space(s) {
            let k = choose|k: int| 0 <= k < s.len() && crate::text::is_white_space(#[trigger] s[k]);
            if k >= 6 {
                assert(s[k] == id[k - 6]);
            }
        }
    }
}

/// A recorded interaction: who it is about, where it is kept, what kind it is,
/// and a summary.
#[derive(Debug, Clone, PartialEq, Eq)]
pub struct Event {
    owner: Owner,
    namespace: Namespace,
    kind: EventKind,
    summary: String,
}

impl Event {
    /// The owner of the event.
    pub closed spec fn spec_owner(&self) -> Owner {
        self.owner
    }

    /// The namespace of the event.
    pub closed spec fn spec_namespace(&self) -> Seq<char> {
        self.namespace@
    }

    /// The kind of the event.
    pub closed spec fn spec_kind(&self) -> EventKind {
        self.kind
    }

    /// The summary of the event.
    pub closed spec fn spec_summary(&self) -> Seq<char> {
        self.summary@
    }

    /// An event in the owner's default namespace.
    pub fn new(owner: Owner, kind: EventKind, summary: &str) -> (r: Event)
        ensures
            r.spec_owner() == owner,
            r.spec_namespace() == default_namespace_of(owner),
            r.spec_kind() == kind,
            r.spec_summary() == summary@,
    {
        Event { owner, namespace: Namespace::for_owner(owner), kind, summary: owned(summary) }
    }

    /// An event in an explicit namespace; fails with `NamespaceOwnerMismatch`
    /// exactly when the namespace cannot hold the owner's memories.
    pub fn new_with_namespace(owner: Owner, namespace: Namespace, kind: EventKind, summary: &str) -> (r:
        Result<Event, DomainError>)
        ensures
            namespace_matches_owner(namespace@, owner) ==> (r matches Ok(e) && e.spec_owner() == owner
                && e.spec_namespace() == namespace@ && e.spec_kind() == kind && e.spec_summary()
                == summary@),
            !namespace_matches_owner(namespace@, owner) ==> r == Err::<Event, DomainError>(
                DomainError::NamespaceOwnerMismatch,
            ),
    {
        if !namespace.matches_owner(owner) {
            return Err(DomainError::NamespaceOwnerMismatch);
        }
        Ok(Event { owner, namespace, kind, summary: owned(summary) })
    }

    /// The owner of the event.
    pub fn owner(&self) -> (r: Owner)
        ensures
            r == self.spec_owner(),
    {
        self.owner
    }

    /// The namespace of the event.
    pub fn namespace(&self) -> (r: &Namespace)
        ensures
            r@ == self.spec_namespace(),
    {
        &self.namespace
    }

    /// The kind of the event.
    pub fn kind(&self) -> (r: EventKind)
        ensures
            r == self.spec_kind(),
    {
        self.kind
    }

    /// The summary of the event.
    pub fn summary(&self) -> (r: &str)
        ensures
            r@ == self.spec_summary(),
    {
        self.summary.as_str()
    }

    /// A copy of this event.
    pub fn duplicate(&self) -> (r: Event)
        ensures
            r.spec_owner() == self.spec_owner(),
            r.spec_namespace() == self.spec_namespace(),
            r.spec_kind() == self.spec_kind(),
            r.spec_summary() == self.spec_summary(),
    {
        Event {
            owner: self.owner,
            namespace: self.namespace.duplicate(),
            kind: self.kind,
            summary: self.summary.clone(),
        }
    }
}

} // verus!
