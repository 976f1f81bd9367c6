//! Claims (statements held about an owner) and references to them.
use vstd::prelude::*;

use crate::domain::error::DomainError;
use crate::domain::types::{default_namespace_of, namespace_matches_owner, Mode, Namespace, Owner};
use crate::text::{
    chars_of, concat_str, contains_whitespace, has_white_space, owned, seq_starts_with,
    string_of, vec_starts_with,
};

verus! {

/// The raw id that a claim reference text names: the text with one `claim:`
/// prefix removed.
pub open spec fn claim_ref_id(s: Seq<char>) -> Seq<char> {
    if seq_starts_with(s, "claim:"@) {
        s.subrange("claim:"@.len() as int, s.len() as int)
    } else {
        s
    }
}

/// The texts that `ClaimReference::parse` accepts: non-empty, without white
/// space, and naming a non-empty id.
pub open spec fn is_valid_claim_reference_text(s: Seq<char>) -> bool {
    s.len() > 0 && !has_white_space(s) && claim_ref_id(s).len() > 0
}

/// A reference to a stored claim, holding its raw id.
#[derive(Debug, Clone, PartialEq, Eq, Hash)]
pub struct ClaimReference(String);

impl View for ClaimReference {
    type V = Seq<char>;

    /// The raw claim id.
    closed spec fn view(&self) -> Seq<char> {
        self.0@
    }
}

impl ClaimReference {
    /// Parses `<id>` or `claim:<id>`; rejects empty text, text with white space
    /// and an empty id.
    pub fn parse(value: &str) -> (r: Result<ClaimReference, DomainError>)
        ensures
            is_valid_claim_reference_text(value@) ==> (r matches Ok(reference) && reference@
                == claim_ref_id(value@)),
            !is_valid_claim_reference_text(value@) ==> r == Err::<ClaimReference, DomainError>(
                DomainError::InvalidClaimReference,
            ),
    {
        let chars = chars_of(value);
        if chars.len() == 0 || contains_whitespace(value) {
            return Err(DomainError::InvalidClaimReference);
        }
        let prefix = chars_of("claim:");
        let start: usize = if vec_starts_with(&chars, &prefix) {
            prefix.len()
        } else {
            0
        };
        let mut id: Vec<char> = Vec::new();
        let mut i = start;
        while i < chars.len()
            invariant
                start <= i <= chars.len(),
                id@ == chars@.subrange(start as int, i as int),
            decreases chars.len() - i,
        {
            id.push(chars[i]);
            i = i + 1;
        }
        assert(id@ =~= claim_ref_id(value@));
        if id.len() == 0 {
            return Err(DomainError::InvalidClaimReference);
        }
        Ok(ClaimReference(string_of(&id)))
    }

    /// A reference to a raw claim id, taken as it is.
    pub(crate) fn from_claim_id(claim_id: &str) -> (r: ClaimReference)
        ensures
            r@ == claim_id@,
    {
        ClaimReference(owned(claim_id))
    }

    /// The raw claim id.
    pub fn claim_id(&self) -> (r: &str)
        ensures
            r@ == self@,
    {
        self.0.as_str()
    }

    /// A copy of this reference.
    pub fn duplicate(&self) -> (r: ClaimReference)
        ensures
            r@ == self@,
    {
        ClaimReference(self.0.clone())
    }

    /// The canonical form `claim:<id>`.
    pub fn canonical(&self) -> (r: String)
        ensures
            r@ == "claim:"@ + self@,
    {
        concat_str("claim:", self.0.as_str())
    }
}

/// Parsing the canonical form of a claim reference gives its id back.
pub proof fn lemma_claim_reference_canonical_roundtrip(id: Seq<char>)
    requires
        id.len() > 0,
        !has_white_space(id),
    ensures
        is_valid_claim_reference_text("claim:"@ + id),
        claim_ref_id("claim:"@ + id) == id,
{
    reveal_strlit("claim:");
    let s = "claim:"@ + id;
    assert(s.subrange(0, 6) =~= "claim:"@);
    assert(s.subrange(6, s.len() as int) =~= id);
    assert(!has_white_space(s)) by {
        if has_white_space(s) {
            let k = choose|k: int| 0 <= k < s.len() && crate::text::is_white_space(#[trigger] s[k]);
            if k >= 6 {
                assert(s[k] == id[k - 6]);
            }
        }
    }
}

/// A claim before it is stored: an owner, a namespace, a subject-predicate-object
/// triple and the mode it was come by.
#[derive(Debug, Clone, PartialEq, Eq)]
pub struct ClaimDraft {
    owner: Owner,
    namespace: Namespace,
    subject: String,
    predicate: String,
    object: String,
    mode: Mode,
}

/// Why a claim draft with a given number of supporting events is refused, if it is.
pub open spec fn claim_draft_rejection(
    owner: Owner,
    namespace: Seq<char>,
    mode: Mode,
    evidence_count: nat,
) -> Option<DomainError> {
    if mode == Mode::Inferred && evidence_count == 0 {
        Some(DomainError::InsufficientEvidence)
    } else if !owner.spec_accepted_for_new_writes() {
        Some(DomainError::UnknownOwnerNotWritable)
    } else if !namespace_matches_owner(namespace, owner) {
        Some(DomainError::NamespaceOwnerMismatch)
    } else {
        None
    }
}

impl ClaimDraft {
    pub closed spec fn spec_owner(&self) -> Owner {
        self.owner
    }

    pub closed spec fn spec_namespace(&self) -> Seq<char> {
        self.namespace@
    }

    pub closed spec fn spec_subject(&self) -> Seq<char> {
        self.subject@
    }

    pub closed spec fn spec_predicate(&self) -> Seq<char> {
        self.predicate@
    }

    pub closed spec fn spec_object(&self) -> Seq<char> {
        self.object@
    }

    pub closed spec fn spec_mode(&self) -> Mode {
        self.mode
    }

    /// A claim in the owner's default namespace.
    pub fn new(owner: Owner, subject: &str, predicate: &str, object: &str, mode: Mode) -> (r:
        ClaimDraft)
        ensures
            r.spec_owner() == owner,
            r.spec_namespace() == default_namespace_of(owner),
            r.spec_subject() == subject@,
            r.spec_predicate() == predicate@,
            r.spec_object() == object@,
            r.spec_mode() == mode,
    {
        Self::new_with_namespace(owner, Namespace::for_owner(owner), subject, predicate, object, mode)
    }

    /// A claim in an explicit namespace (not checked against the owner here;
    /// `validate` checks it).
    pub fn new_with_namespace(
        owner: Owner,
        namespace: Namespace,
        subject: &str,
        predicate: &str,
        object: &str,
        mode: Mode,
    ) -> (r: ClaimDraft)
        ensures
            r.spec_owner() == owner,
            r.spec_namespace() == namespace@,
            r.spec_subject() == subject@,
            r.spec_predicate() == predicate@,
            r.spec_object() == object@,
            r.spec_mode() == mode,
    {
        ClaimDraft {
            owner,
            namespace,
            subject: owned(subject),
            predicate: owned(predicate),
            object: owned(object),
            mode,
        }
    }

    /// An inferred claim in the owner's default namespace.
    pub fn new_inferred(owner: Owner, subject: &str, predicate: &str, object: &str) -> (r:
        ClaimDraft)
        ensures
            r.spec_owner() == owner,
            r.spec_namespace() == default_namespace_of(owner),
            r.spec_subject() == subject@,
            r.spec_predicate() == predicate@,
            r.spec_object() == object@,
            r.spec_mode() == Mode::Inferred,
    {
        Self::new(owner, subject, predicate, object, Mode::Inferred)
    }

    /// The same claim in another namespace.
    pub fn with_namespace(self, namespace: Namespace) -> (r: ClaimDraft)
        ensures
            r.spec_owner() == self.spec_owner(),
            r.spec_namespace() == namespace@,
            r.spec_subject() == self.spec_subject(),
            r.spec_predicate() == self.spec_predicate(),
            r.spec_object() == self.spec_object(),
            r.spec_mode() == self.spec_mode(),
    {
        ClaimDraft { namespace, ..self }
    }

    /// Checks the claim against the write rules, with `evidence_count` supporting
    /// events: an inferred claim needs evidence, an unknown owner cannot be
    /// written, and the namespace must belong to the owner (checked in that order).
    pub fn validate(&self, evidence_count: usize) -> (r: Result<(), DomainError>)
        ensures
            match claim_draft_rejection(
                self.spec_owner(),
                self.spec_namespace(),
                self.spec_mode(),
                evidence_count as nat,
            ) {
                Some(e) => r == Err::<(), DomainError>(e),
                None => r is Ok,
            },
    {
        if self.mode == Mode::Inferred && evidence_count == 0 {
            return Err(DomainError::InsufficientEvidence);
        }
        if !self.owner.is_accepted_for_new_writes() {
            return Err(DomainError::UnknownOwnerNotWritable);
        }
        self.validate_namespace_owner()
    }

    /// Fails with `NamespaceOwnerMismatch` exactly when the namespace cannot hold
    /// the owner's memories.
    pub fn validate_namespace_owner(&self) -> (r: Result<(), DomainError>)
        ensures
            namespace_matches_owner(self.spec_namespace(), self.spec_owner()) ==> r is Ok,
            !namespace_matches_owner(self.spec_namespace(), self.spec_owner()) ==> r == Err::<
                (),
                DomainError,
            >(DomainError::NamespaceOwnerMismatch),
    {
        if !self.namespace.matches_owner(self.owner) {
            return Err(DomainError::NamespaceOwnerMismatch);
        }
        Ok(())
    }

    pub fn owner(&self) -> (r: Owner)
        ensures
            r == self.spec_owner(),
    {
        self.owner
    }

    pub fn namespace(&self) -> (r: &Namespace)
        ensures
            r@ == self.spec_namespace(),
    {
        &self.namespace
    }

    pub fn subject(&self) -> (r: &str)
        ensures
            r@ == self.spec_subject(),
    {
        self.subject.as_str()
    }

    pub fn predicate(&self) -> (r: &str)
        ensures
            r@ == self.spec_predicate(),
    {
        self.predicate.as_str()
    }

    pub fn object(&self) -> (r: &str)
        ensures
            r@ == self.spec_object(),
    {
        self.object.as_str()
    }

    pub fn mode(&self) -> (r: Mode)
        ensures
            r == self.spec_mode(),
    {
        self.mode
    }

    /// A copy of this claim.
    pub fn duplicate(&self) -> (r: ClaimDraft)
        ensures
            r.spec_owner() == self.spec_owner(),
            r.spec_namespace() == self.spec_namespace(),
            r.spec_subject() == self.spec_subject(),
            r.spec_predicate() == self.spec_predicate(),
            r.spec_object() == self.spec_object(),
            r.spec_mode() == self.spec_mode(),
    {
        ClaimDraft {
            owner: self.owner,
            namespace: self.namespace.duplicate(),
            subject: self.subject.clone(),
            predicate: self.predicate.clone(),
            object: self.object.clone(),
            mode: self.mode,
        }
    }
}

/// A claim that passes validation is in a namespace of its owner, has a writable
/// owner, and, when inferred, has evidence.
pub proof fn lemma_valid_claim_is_well_placed(
    owner: Owner,
    namespace: Seq<char>,
    mode: Mode,
    evidence_count: nat,
)
    requires
        claim_draft_rejection(owner, namespace, mode, evidence_count) is None,
    ensures
        namespace_matches_owner(namespace, owner),
        owner.spec_accepted_for_new_writes(),
        mode == Mode::Inferred ==> evidence_count > 0,
{
}

} // verus!
