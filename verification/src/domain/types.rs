//! Owners, modes, event kinds, namespaces and memory scopes.
use vstd::prelude::*;

use crate::domain::error::DomainError;
use crate::text::{concat_str, owned, same_text, seq_starts_with, str_starts_with};

verus! {

/// Who a memory is about.
#[derive(Debug, Clone, Copy, PartialEq, Eq, Hash, Structural)]
pub enum Owner {
    Self_,
    User,
    World,
    Unknown,
}

impl Owner {
    /// Owners that new events and claims may be written for: every owner but `Unknown`.
    pub open spec fn spec_accepted_for_new_writes(self) -> bool {
        !(self is Unknown)
    }

    /// Whether new events and claims may be written for this owner.
    pub fn is_accepted_for_new_writes(self) -> (r: bool)
        ensures
            r == self.spec_accepted_for_new_writes(),
    {
        match self {
            Owner::Unknown => false,
            _ => true,
        }
    }
}

/// How a claim was come by.
#[derive(Debug, Clone, Copy, PartialEq, Eq, Hash, Structural)]
pub enum Mode {
    Observed,
    Said,
    Acted,
    Inferred,
    Draft,
}

/// What kind of interaction an event records.
#[derive(Debug, Clone, Copy, PartialEq, Eq, Hash, Structural)]
pub enum EventKind {
    Observation,
    Conversation,
    Action,
    Reflection,
}

/// The shapes a namespace can take: `self`, `world`, `user/...` or `project/...`.
pub open spec fn is_namespace_shape(s: Seq<char>) -> bool {
    ||| s == "self"@
    ||| s == "world"@
    ||| seq_starts_with(s, "user/"@)
    ||| seq_starts_with(s, "project/"@)
}

/// The namespaces that `Namespace::parse` accepts: `self`, `world`, or
/// `user/<id>` / `project/<id>` with a non-empty id.
pub open spec fn is_valid_namespace_text(s: Seq<char>) -> bool {
    ||| s == "self"@
    ||| s == "world"@
    ||| (seq_starts_with(s, "user/"@) && s.len() > "user/"@.len())
    ||| (seq_starts_with(s, "project/"@) && s.len() > "project/"@.len())
}

/// The owner that a namespace of a given shape belongs to.
pub open spec fn owner_of_namespace(s: Seq<char>) -> Owner {
    if s == "self"@ {
        Owner::Self_
    } else if seq_starts_with(s, "user/"@) {
        Owner::User
    } else {
        Owner::World
    }
}

/// Whether a namespace may hold memories of an owner.
pub open spec fn namespace_matches_owner(s: Seq<char>, owner: Owner) -> bool {
    match owner {
        Owner::Self_ => s == "self"@,
        Owner::User => seq_starts_with(s, "user/"@),
        Owner::World | Owner::Unknown => s == "world"@ || seq_starts_with(s, "project/"@),
    }
}

/// The namespace that an owner's memories go to by default.
pub open spec fn default_namespace_of(owner: Owner) -> Seq<char> {
    match owner {
        Owner::Self_ => "self"@,
        Owner::User => "user/default"@,
        Owner::World | Owner::Unknown => "world"@,
    }
}

/// A memory namespace: `self`, `world`, `user/<id>` or `project/<id>`.
#[derive(Debug, Clone, PartialEq, Eq, Hash)]
pub struct Namespace(String);

impl View for Namespace {
    type V = Seq<char>;

    closed spec fn view(&self) -> Seq<char> {
        self.0@
    }
}

impl Namespace {
    /// The `self` namespace.
    pub fn self_() -> (r: Namespace)
        ensures
            r@ == "self"@,
    {
        Namespace(owned("self"))
    }

    /// The `world` namespace.
    pub fn world() -> (r: Namespace)
        ensures
            r@ == "world"@,
    {
        Namespace(owned("world"))
    }

    /// The namespace `user/<user_id>`.
    pub fn for_user(user_id: &str) -> (r: Namespace)
        ensures
            r@ == "user/"@ + user_id@,
    {
        let text = concat_str("user/", user_id);
        assert(seq_starts_with(text@, "user/"@)) by {
            assert(text@.subrange(0, "user/"@.len() as int) =~= "user/"@);
        }
        Namespace(text)
    }

    /// The namespace `project/<project_id>`.
    pub fn for_project(project_id: &str) -> (r: Namespace)
        ensures
            r@ == "project/"@ + project_id@,
    {
        let text = concat_str("project/", project_id);
        assert(seq_starts_with(text@, "project/"@)) by {
            assert(text@.subrange(0, "project/"@.len() as int) =~= "project/"@);
        }
        Namespace(text)
    }

    /// The default namespace of an owner: `self`, `user/default`, or `world`.
    pub fn for_owner(owner: Owner) -> (r: Namespace)
        ensures
            r@ == default_namespace_of(owner),
    {
        match owner {
            Owner::Self_ => Self::self_(),
            Owner::User => {
                let r = Self::for_user("default");
                proof {
                    reveal_strlit("user/");
                    reveal_strlit("default");
                    reveal_strlit("user/default");
                    assert(r@ =~= "user/default"@);
                }
                r
            },
            Owner::World | Owner::Unknown => Self::world(),
        }
    }

    /// Parses a namespace; fails with `InvalidNamespace` exactly when the text is
    /// not `self`, `world`, `user/<id>` or `project/<id>` with a non-empty id.
    pub fn parse(value: &str) -> (r: Result<Namespace, DomainError>)
        ensures
            is_valid_namespace_text(value@) ==> (r matches Ok(ns) && ns@ == value@),
            !is_valid_namespace_text(value@) ==> r == Err::<Namespace, DomainError>(DomainError::InvalidNamespace),
    {
        proof {
            reveal_strlit("user/");
            reveal_strlit("project/");
        }
        let is_valid = same_text(value, "self") || same_text(value, "world") || (str_starts_with(
            value,
            "user/",
        ) && value.unicode_len() > 5) || (str_starts_with(value, "project/") && value.unicode_len()
            > 8);
        if is_valid {
            Ok(Namespace(owned(value)))
        } else {
            Err(DomainError::InvalidNamespace)
        }
    }

    /// The text of the namespace.
    pub fn as_str(&self) -> (r: &str)
        ensures
            r@ == self@,
    {
        self.0.as_str()
    }

    /// Whether this namespace may hold memories of `owner`: `self` for the self,
    /// `user/...` for users, and `world` or `project/...` otherwise.
    pub fn matches_owner(&self, owner: Owner) -> (r: bool)
        ensures
            r == namespace_matches_owner(self@, owner),
    {
        match owner {
            Owner::Self_ => same_text(self.as_str(), "self"),
            Owner::User => str_starts_with(self.as_str(), "user/"),
            Owner::World | Owner::Unknown => same_text(self.as_str(), "world") || str_starts_with(
                self.as_str(),
                "project/",
            ),
        }
    }

    /// Whether two namespaces are the same.
    pub fn same_as(&self, other: &Namespace) -> (r: bool)
        ensures
            r == (self@ == other@),
    {
        same_text(self.as_str(), other.as_str())
    }

    /// A copy of this namespace.
    pub fn duplicate(&self) -> (r: Namespace)
        ensures
            r@ == self@,
    {
        Namespace(self.0.clone())
    }

    /// The owner whose memories this namespace holds.
    pub fn owner_of(&self) -> (r: Owner)
        ensures
            r == owner_of_namespace(self@),
            is_namespace_shape(self@) ==> namespace_matches_owner(self@, r),
    {
        proof {
            reveal_strlit("self");
            reveal_strlit("world");
            reveal_strlit("user/");
            reveal_strlit("project/");
        }
        if same_text(self.as_str(), "self") {
            Owner::Self_
        } else if str_starts_with(self.as_str(), "user/") {
            Owner::User
        } else {
            Owner::World
        }
    }
}

/// The text of an optional namespace.
pub open spec fn opt_namespace(o: Option<Namespace>) -> Option<Seq<char>> {
    match o {
        Some(n) => Some(n@),
        None => None,
    }
}

/// A copy of an optional namespace.
pub fn copy_opt_namespace(o: &Option<Namespace>) -> (r: Option<Namespace>)
    ensures
        opt_namespace(r) == opt_namespace(*o),
{
    match o {
        Some(n) => Some(n.duplicate()),
        None => None,
    }
}

/// Why a pair of owner and namespace is not a memory scope.
#[derive(Debug, Clone, Copy, PartialEq, Eq, Structural)]
pub enum ScopeRejection {
    /// The owner is not the owner of the namespace.
    OwnerMismatch,
    /// Only one of owner and namespace was given.
    PartiallyScoped,
}

/// The scope of a memory read: one owner with its namespace, or the legacy
/// unscoped state with neither.
#[derive(Debug, PartialEq, Eq)]
pub struct MemoryScope {
    owner: Option<Owner>,
    namespace: Option<Namespace>,
}

impl MemoryScope {
    /// The owner of the scope.
    pub closed spec fn spec_owner(&self) -> Option<Owner> {
        self.owner
    }

    /// Every scope is the legacy unscoped state or a namespace with the owner
    /// it belongs to.
    #[verifier::type_invariant]
    spec fn legacy_or_matching(self) -> bool {
        match (self.owner, self.namespace) {
            (None, None) => true,
            (Some(o), Some(ns)) => o == owner_of_namespace(ns@),
            _ => false,
        }
    }

    /// The namespace of the scope.
    pub closed spec fn spec_namespace(&self) -> Option<Seq<char>> {
        match self.namespace {
            Some(ns) => Some(ns@),
            None => None,
        }
    }

    /// A copy of this scope.
    pub fn duplicate(&self) -> (r: MemoryScope)
        ensures
            r.spec_owner() == self.spec_owner(),
            r.spec_namespace() == self.spec_namespace(),
    {
        proof {
            use_type_invariant(self);
        }
        MemoryScope { owner: self.owner, namespace: copy_opt_namespace(&self.namespace) }
    }

    /// The scope of a namespace: the namespace with the owner it belongs to.
    pub fn for_namespace(namespace: Namespace) -> (r: MemoryScope)
        ensures
            r.spec_namespace() == Some(namespace@),
            r.spec_owner() == Some(owner_of_namespace(namespace@)),
            is_namespace_shape(namespace@) ==> namespace_matches_owner(
                namespace@,
                owner_of_namespace(namespace@),
            ),
    {
        let owner = namespace.owner_of();
        MemoryScope { owner: Some(owner), namespace: Some(namespace) }
    }

    /// The legacy unscoped state: neither owner nor namespace.
    pub fn legacy_unscoped() -> (r: MemoryScope)
        ensures
            r.spec_owner() is None,
            r.spec_namespace() is None,
    {
        MemoryScope { owner: None, namespace: None }
    }

    /// The scope of the `self` namespace.
    pub fn self_() -> (r: MemoryScope)
        ensures
            r.spec_owner() == Some(Owner::Self_),
            r.spec_namespace() == Some("self"@),
    {
        Self::for_namespace(Namespace::self_())
    }

    /// The owner of the scope.
    pub fn owner(&self) -> (r: Option<Owner>)
        ensures
            r == self.spec_owner(),
    {
        self.owner
    }

    /// The namespace of the scope.
    pub fn namespace(&self) -> (r: Option<&Namespace>)
        ensures
            match r {
                Some(ns) => self.spec_namespace() == Some(ns@),
                None => self.spec_namespace() is None,
            },
    {
        self.namespace.as_ref()
    }

    /// Whether the scope is the legacy unscoped state. A scope is exactly
    /// one of the legacy unscoped state and an explicit scope, whose owner is
    /// the owner of its namespace.
    pub fn is_legacy_unscoped(&self) -> (r: bool)
        ensures
            r == (self.spec_owner() is None && self.spec_namespace() is None),
            r == !(self.spec_owner() is Some && self.spec_namespace() is Some),
            self.spec_owner() matches Some(o) ==> self.spec_namespace() matches Some(ns) && o
                == owner_of_namespace(ns),
    {
        proof {
            use_type_invariant(self);
        }
        self.owner.is_none() && self.namespace.is_none()
    }

    /// Whether the scope names an owner and a namespace. A scope that names
    /// either names both, and its owner is the owner of its namespace.
    pub fn is_explicitly_scoped(&self) -> (r: bool)
        ensures
            r == (self.spec_owner() is Some && self.spec_namespace() is Some),
            r == (self.spec_owner() is Some),
            r == (self.spec_namespace() is Some),
            r ==> self.spec_owner() == Some(owner_of_namespace(self.spec_namespace()->0)),
    {
        proof {
            use_type_invariant(self);
        }
        self.owner.is_some() && self.namespace.is_some()
    }

    /// Builds a scope from a stored owner and namespace: both absent gives the
    /// unscoped state, both present gives the namespace's scope when the owner is
    /// the namespace's owner, anything else is rejected.
    pub fn from_parts(owner: Option<Owner>, namespace: Option<Namespace>) -> (r: Result<
        MemoryScope,
        ScopeRejection,
    >)
        ensures
            match (owner, namespace) {
                (None, None) => (r matches Ok(s) && s.spec_owner() is None && s.spec_namespace() is None),
                (Some(o), Some(ns)) => if o == owner_of_namespace(ns@) {
                    (r matches Ok(s) && s.spec_owner() == Some(o) && s.spec_namespace() == Some(ns@))
                } else {
                    r == Err::<MemoryScope, ScopeRejection>(ScopeRejection::OwnerMismatch)
                },
                _ => r == Err::<MemoryScope, ScopeRejection>(ScopeRejection::PartiallyScoped),
            },
    {
        match (owner, namespace) {
            (None, None) => Ok(Self::legacy_unscoped()),
            (Some(owner), Some(namespace)) => {
                let scope = Self::for_namespace(namespace);
                if scope.owner() == Some(owner) {
                    Ok(scope)
                } else {
                    Err(ScopeRejection::OwnerMismatch)
                }
            },
            _ => Err(ScopeRejection::PartiallyScoped),
        }
    }
}

impl Clone for MemoryScope {
    fn clone(&self) -> (r: MemoryScope)
        ensures
            r.spec_owner() == self.spec_owner(),
            r.spec_namespace() == self.spec_namespace(),
    {
        self.duplicate()
    }
}

/// The default namespace of every owner holds that owner's memories.
pub proof fn lemma_default_namespace_matches_owner(owner: Owner)
    ensures
        namespace_matches_owner(default_namespace_of(owner), owner),
        is_valid_namespace_text(default_namespace_of(owner)),
{
    reveal_strlit("self");
    reveal_strlit("world");
    reveal_strlit("user/");
    reveal_strlit("project/");
    reveal_strlit("user/default");
    assert("user/default"@.subrange(0, 5) =~= "user/"@);
    assert("world"@.subrange(0, 5) != "user/"@) by {
        assert("world"@.subrange(0, 5)[0] != "user/"@[0]);
    }
}

/// Every valid namespace text has a namespace shape, and its owner's namespaces
/// include it.
pub proof fn lemma_valid_namespace_owner(s: Seq<char>)
    requires
        is_namespace_shape(s),
    ensures
        namespace_matches_owner(s, owner_of_namespace(s)),
{
    reveal_strlit("self");
    reveal_strlit("world");
    reveal_strlit("user/");
    reveal_strlit("project/");
}

} // verus!
