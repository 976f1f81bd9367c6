//! Errors of the memory model and of the application layer.
use vstd::prelude::*;

use crate::text::owned;

verus! {

/// A rule of the memory model that an input broke.
#[derive(Debug, Clone, Copy, PartialEq, Eq, Structural)]
pub enum DomainError {
    InsufficientEvidence,
    InvalidEventReference,
    InvalidClaimReference,
    InvalidNamespace,
    NamespaceOwnerMismatch,
    InvalidSnapshotTimeWindow,
    UnknownOwnerNotWritable,
}

/// The name of a domain error variant, as its `Debug` form prints it.
pub open spec fn domain_error_name(e: DomainError) -> Seq<char> {
    match e {
        DomainError::InsufficientEvidence => "InsufficientEvidence"@,
        DomainError::InvalidEventReference => "InvalidEventReference"@,
        DomainError::InvalidClaimReference => "InvalidClaimReference"@,
        DomainError::InvalidNamespace => "InvalidNamespace"@,
        DomainError::NamespaceOwnerMismatch => "NamespaceOwnerMismatch"@,
        DomainError::InvalidSnapshotTimeWindow => "InvalidSnapshotTimeWindow"@,
        DomainError::UnknownOwnerNotWritable => "UnknownOwnerNotWritable"@,
    }
}

impl DomainError {
    /// The name of the variant, as the `Debug` form prints it.
    pub fn name(self) -> (r: &'static str)
        ensures
            r@ == domain_error_name(self),
    {
        match self {
            DomainError::InsufficientEvidence => "InsufficientEvidence",
            DomainError::InvalidEventReference => "InvalidEventReference",
            DomainError::InvalidClaimReference => "InvalidClaimReference",
            DomainError::InvalidNamespace => "InvalidNamespace",
            DomainError::NamespaceOwnerMismatch => "NamespaceOwnerMismatch",
            DomainError::InvalidSnapshotTimeWindow => "InvalidSnapshotTimeWindow",
            DomainError::UnknownOwnerNotWritable => "UnknownOwnerNotWritable",
        }
    }
}

/// An application error: either a rejected request (invalid parameters) or an
/// internal failure, each with its message.
#[derive(Debug)]
pub enum AppError {
    Message(String),
    InvalidParams(String),
}

/// An error as its kind and message: whether it rejects the caller's
/// parameters, and its text.
pub open spec fn error_view(e: AppError) -> (bool, Seq<char>) {
    (e is InvalidParams, e.message_view())
}

/// The view of the application error a domain error becomes.
pub open spec fn domain_error_view(d: DomainError) -> (bool, Seq<char>) {
    (false, domain_error_name(d))
}

/// A rejected request with the given message, as an error view.
pub open spec fn invalid_view(message: Seq<char>) -> (bool, Seq<char>) {
    (true, message)
}

/// The outcome of a fallible step, with the error as its view.
pub open spec fn outcome<T>(r: Result<T, AppError>) -> Result<T, (bool, Seq<char>)> {
    match r {
        Ok(v) => Ok(v),
        Err(e) => Err(error_view(e)),
    }
}

impl AppError {
    /// Whether this error rejects the caller's parameters.
    pub open spec fn is_invalid_params(&self) -> bool {
        self is InvalidParams
    }

    /// The message of the error.
    pub open spec fn message_view(&self) -> Seq<char> {
        match self {
            AppError::Message(m) => m@,
            AppError::InvalidParams(m) => m@,
        }
    }

    /// An internal error that carries the name of a domain error, as the
    /// `From<DomainError>` conversion writes it.
    pub fn from_domain(value: DomainError) -> (r: AppError)
        ensures
            r is Message,
            r.message_view() == domain_error_name(value),
    {
        let text = match value {
            DomainError::InsufficientEvidence => owned("InsufficientEvidence"),
            DomainError::InvalidEventReference => owned("InvalidEventReference"),
            DomainError::InvalidClaimReference => owned("InvalidClaimReference"),
            DomainError::InvalidNamespace => owned("InvalidNamespace"),
            DomainError::NamespaceOwnerMismatch => owned("NamespaceOwnerMismatch"),
            DomainError::InvalidSnapshotTimeWindow => owned("InvalidSnapshotTimeWindow"),
            DomainError::UnknownOwnerNotWritable => owned("UnknownOwnerNotWritable"),
        };
        AppError::Message(text)
    }

    /// A rejected request with the given message.
    pub fn invalid(message: &str) -> (r: AppError)
        ensures
            r is InvalidParams,
            r.message_view() == message@,
    {
        AppError::InvalidParams(owned(message))
    }

    /// An internal error with the given message.
    pub fn internal(message: &str) -> (r: AppError)
        ensures
            r is Message,
            r.message_view() == message@,
    {
        AppError::Message(owned(message))
    }

    /// The message of the error (what its `Display` form prints).
    pub fn message(&self) -> (r: String)
        ensures
            r@ == self.message_view(),
    {
        match self {
            AppError::Message(m) => m.clone(),
            AppError::InvalidParams(m) => m.clone(),
        }
    }
}

} // verus!
