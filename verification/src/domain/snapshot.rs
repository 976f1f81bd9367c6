//! Self snapshots: the bounded view of identity, commitments, claims, evidence
//! and episodes that decisions and reflections are made from.
use vstd::prelude::*;

use crate::domain::error::DomainError;
use crate::domain::time::{ts_before, Timestamp};
use crate::seqs::texts;
use crate::text::owned;

verus! {

/// An inclusive window of recording times; either bound may be absent.
#[derive(Debug, Clone, Copy, PartialEq, Eq, Structural)]
pub struct SnapshotTimeWindow {
    pub recorded_after: Option<Timestamp>,
    pub recorded_before: Option<Timestamp>,
}

/// A window is valid unless both bounds are present and the lower one is later.
pub open spec fn is_valid_window(after: Option<Timestamp>, before: Option<Timestamp>) -> bool {
    match (after, before) {
        (Some(a), Some(b)) => !ts_before(b, a),
        _ => true,
    }
}

impl SnapshotTimeWindow {
    /// A window from the given bounds; fails with `InvalidSnapshotTimeWindow`
    /// exactly when `recorded_after` is later than `recorded_before`.
    pub fn new(recorded_after: Option<Timestamp>, recorded_before: Option<Timestamp>) -> (r: Result<
        SnapshotTimeWindow,
        DomainError,
    >)
        ensures
            is_valid_window(recorded_after, recorded_before) ==> r == Ok::<
                SnapshotTimeWindow,
                DomainError,
            >(SnapshotTimeWindow { recorded_after, recorded_before }),
            !is_valid_window(recorded_after, recorded_before) ==> r == Err::<
                SnapshotTimeWindow,
                DomainError,
            >(DomainError::InvalidSnapshotTimeWindow),
    {
        let window = SnapshotTimeWindow { recorded_after, recorded_before };
        match window.validate() {
            Ok(()) => Ok(window),
            Err(e) => Err(e),
        }
    }

    /// The window without bounds.
    pub fn unbounded() -> (r: SnapshotTimeWindow)
        ensures
            r.recorded_after is None,
            r.recorded_before is None,
    {
        SnapshotTimeWindow { recorded_after: None, recorded_before: None }
    }

    /// Fails with `InvalidSnapshotTimeWindow` exactly when the lower bound is later
    /// than the upper bound.
    pub fn validate(&self) -> (r: Result<(), DomainError>)
        ensures
            is_valid_window(self.recorded_after, self.recorded_before) ==> r is Ok,
            !is_valid_window(self.recorded_after, self.recorded_before) ==> r == Err::<
                (),
                DomainError,
            >(DomainError::InvalidSnapshotTimeWindow),
    {
        match (self.recorded_after, self.recorded_before) {
            (Some(after), Some(before)) => {
                if before.is_before(&after) {
                    Err(DomainError::InvalidSnapshotTimeWindow)
                } else {
                    Ok(())
                }
            },
            _ => Ok(()),
        }
    }

    /// Whether the window has no bound.
    pub fn is_unbounded(&self) -> (r: bool)
        ensures
            r == (self.recorded_after is None && self.recorded_before is None),
    {
        self.recorded_after.is_none() && self.recorded_before.is_none()
    }
}

impl Default for SnapshotTimeWindow {
    fn default() -> (r: SnapshotTimeWindow)
        ensures
            r.recorded_after is None,
            r.recorded_before is None,
    {
        SnapshotTimeWindow::unbounded()
    }
}

/// How many evidence references a snapshot may hold.
#[derive(Debug, Clone, Copy, PartialEq, Eq, Structural)]
pub struct SnapshotBudget {
    limit: usize,
}

impl SnapshotBudget {
    pub closed spec fn spec_limit(&self) -> usize {
        self.limit
    }

    pub fn new(limit: usize) -> (r: SnapshotBudget)
        ensures
            r.spec_limit() == limit,
    {
        SnapshotBudget { limit }
    }

    /// The limit, but at least `minimum`.
    pub fn max(&self, minimum: usize) -> (r: usize)
        ensures
            r == if self.spec_limit() >= minimum {
                self.spec_limit()
            } else {
                minimum
            },
    {
        if self.limit >= minimum {
            self.limit
        } else {
            minimum
        }
    }
}

/// The inputs of a snapshot before the budget is applied.
#[derive(Debug, Clone, PartialEq, Eq)]
pub struct SnapshotRequest {
    pub identity: Vec<String>,
    pub commitments: Vec<String>,
    pub claims: Vec<String>,
    pub evidence: Vec<String>,
    pub episodes: Vec<String>,
    pub budget: SnapshotBudget,
    pub allow_empty_evidence: bool,
}

impl SnapshotRequest {
    /// The smallest complete request: one identity claim, the baseline
    /// commitment, one claim, one event and one episode, with a budget of one.
    pub fn fixture_minimal() -> (r: SnapshotRequest)
        ensures
            texts(r.identity@) == seq!["identity:self=architect"@],
            texts(r.commitments@) == seq!["forbid:write_identity_core_directly"@],
            texts(r.claims@) == seq!["claim:self.role=architect"@],
            texts(r.evidence@) == seq!["event:evt-minimal"@],
            texts(r.episodes@) == seq!["episode:minimal"@],
            r.budget.spec_limit() == 1,
            !r.allow_empty_evidence,
    {
        let r = SnapshotRequest {
            identity: vec![owned("identity:self=architect")],
            commitments: vec![owned("forbid:write_identity_core_directly")],
            claims: vec![owned("claim:self.role=architect")],
            evidence: vec![owned("event:evt-minimal")],
            episodes: vec![owned("episode:minimal")],
            budget: SnapshotBudget::new(1),
            allow_empty_evidence: false,
        };
        assert(texts(r.identity@) =~= seq!["identity:self=architect"@]);
        assert(texts(r.commitments@) =~= seq!["forbid:write_identity_core_directly"@]);
        assert(texts(r.claims@) =~= seq!["claim:self.role=architect"@]);
        assert(texts(r.evidence@) =~= seq!["event:evt-minimal"@]);
        assert(texts(r.episodes@) =~= seq!["episode:minimal"@]);
        r
    }

    /// The request itself, unless it has no evidence and does not allow that, in
    /// which case `InsufficientEvidence`.
    pub fn validate(self) -> (r: Result<SnapshotRequest, DomainError>)
        ensures
            (self.evidence@.len() == 0 && !self.allow_empty_evidence) ==> r == Err::<
                SnapshotRequest,
                DomainError,
            >(DomainError::InsufficientEvidence),
            !(self.evidence@.len() == 0 && !self.allow_empty_evidence) ==> r == Ok::<
                SnapshotRequest,
                DomainError,
            >(self),
    {
        if self.evidence.len() == 0 && !self.allow_empty_evidence {
            return Err(DomainError::InsufficientEvidence);
        }
        Ok(self)
    }
}

/// A bounded self snapshot.
#[derive(Debug, Clone, PartialEq, Eq)]
pub struct SelfSnapshot {
    pub identity: Vec<String>,
    pub commitments: Vec<String>,
    pub claims: Vec<String>,
    pub evidence: Vec<String>,
    pub episodes: Vec<String>,
}

} // verus!
