//! Building a self snapshot: which requests are accepted, and how the stored
//! identity, commitments, active claims, evidence and episodes become a
//! bounded snapshot.
use vstd::prelude::*;

use crate::domain::error::{domain_error_name, AppError};
use crate::domain::event::{EventReference, MAX_EVIDENCE_MANIFEST_ITEMS};
use crate::domain::records::{Commitment, IdentityCore};
use crate::domain::rules::snapshot_builder::{budgeted_evidence, build_snapshot, evidence_cap};
use crate::domain::snapshot::{
    is_valid_window, SelfSnapshot, SnapshotBudget, SnapshotRequest, SnapshotTimeWindow,
};
use crate::domain::types::MemoryScope;
use crate::ports::{ClaimStatus, StoredClaim};
use crate::seqs::{copy_strings, texts};
use crate::text::{concat3, decimal, decimal_string, owned};

verus! {

/// A request for a snapshot of one scope, optionally limited to an evidence
/// manifest and a time window.
#[derive(Debug, Clone, PartialEq, Eq)]
pub struct BuildSelfSnapshotInput {
    pub scope: MemoryScope,
    pub evidence_manifest: Option<Vec<EventReference>>,
    pub time_window: SnapshotTimeWindow,
    pub budget: SnapshotBudget,
}

impl BuildSelfSnapshotInput {
    /// The unscoped snapshot a revision of `evidence_window_len` events is built
    /// on: no manifest, no time window, a budget of the window size (at least one).
    pub fn for_revision_window(evidence_window_len: usize) -> (r: BuildSelfSnapshotInput)
        ensures
            r.scope.spec_owner() is None,
            r.scope.spec_namespace() is None,
            r.evidence_manifest is None,
            r.time_window.recorded_after is None,
            r.time_window.recorded_before is None,
            r.budget.spec_limit() == if evidence_window_len >= 1 {
                evidence_window_len
            } else {
                1
            },
    {
        BuildSelfSnapshotInput {
            scope: MemoryScope::legacy_unscoped(),
            evidence_manifest: None,
            time_window: SnapshotTimeWindow::unbounded(),
            budget: SnapshotBudget::new(
                if evidence_window_len >= 1 {
                    evidence_window_len
                } else {
                    1
                },
            ),
        }
    }

    /// The window has a bound.
    pub open spec fn is_windowed(&self) -> bool {
        self.time_window.recorded_after is Some || self.time_window.recorded_before is Some
    }

    /// The scope names an owner and a namespace.
    pub open spec fn is_explicit(&self) -> bool {
        self.scope.spec_owner() is Some && self.scope.spec_namespace() is Some
    }

    /// Why the request is refused, if it is: a reversed time window, a
    /// manifest of more than 256 events, or a manifest or time window without
    /// an explicit namespace.
    pub open spec fn rejection(&self) -> Option<Seq<char>> {
        if !is_valid_window(self.time_window.recorded_after, self.time_window.recorded_before) {
            Some("recorded_after must be less than or equal to recorded_before"@)
        } else if self.evidence_manifest matches Some(m) && m@.len()
            > MAX_EVIDENCE_MANIFEST_ITEMS {
            Some(
                "evidence_manifest must contain at most "@ + decimal(
                    MAX_EVIDENCE_MANIFEST_ITEMS as nat,
                ) + " entries"@,
            )
        } else if self.evidence_manifest is Some && !self.is_explicit() {
            Some("evidence_manifest requires an explicit namespace"@)
        } else if self.is_windowed() && !self.is_explicit() {
            Some("snapshot time window requires an explicit namespace"@)
        } else {
            None
        }
    }

    /// Checks the request; see `rejection`.
    pub fn validate(&self) -> (r: Result<(), AppError>)
        ensures
            match r {
                Ok(_) => self.rejection() is None,
                Err(e) => e is InvalidParams && self.rejection() == Some(e.message_view()),
            },
    {
        if self.time_window.validate().is_err() {
            return Err(
                AppError::invalid("recorded_after must be less than or equal to recorded_before"),
            );
        }
        let too_many = match &self.evidence_manifest {
            Some(m) => m.len() > MAX_EVIDENCE_MANIFEST_ITEMS,
            None => false,
        };
        if too_many {
            let digits = decimal_string(MAX_EVIDENCE_MANIFEST_ITEMS);
            return Err(
                AppError::InvalidParams(
                    concat3("evidence_manifest must contain at most ", digits.as_str(), " entries"),
                ),
            );
        }
        if self.evidence_manifest.is_some() && !self.scope.is_explicitly_scoped() {
            return Err(AppError::invalid("evidence_manifest requires an explicit namespace"));
        }
        if !self.time_window.is_unbounded() && !self.scope.is_explicitly_scoped() {
            return Err(AppError::invalid("snapshot time window requires an explicit namespace"));
        }
        Ok(())
    }

    /// Whether the snapshot may have no evidence: only when a manifest or a
    /// time window narrows it.
    pub fn allow_empty_evidence(&self) -> (r: bool)
        ensures
            r == (self.evidence_manifest is Some || self.is_windowed()),
    {
        self.evidence_manifest.is_some() || !self.time_window.is_unbounded()
    }
}

/// A snapshot, as built.
#[derive(Debug, Clone, PartialEq, Eq)]
pub struct BuildSelfSnapshotResult {
    pub snapshot: SelfSnapshot,
}

/// The snapshot forms of the active claims among `claims`, in order.
pub open spec fn active_claim_values(claims: Seq<StoredClaim>) -> Seq<Seq<char>>
    decreases claims.len(),
{
    if claims.len() == 0 {
        Seq::empty()
    } else {
        let rest = active_claim_values(claims.drop_last());
        let c = claims.last();
        if c.status == ClaimStatus::Active {
            rest.push("claim:"@ + c.claim.spec_subject() + "="@ + c.claim.spec_object())
        } else {
            rest
        }
    }
}

/// The rule texts of a list of commitments.
pub open spec fn descriptions(commitments: Seq<Commitment>) -> Seq<Seq<char>> {
    commitments.map_values(|c: Commitment| c.description@)
}

/// The snapshot forms of the active claims among `claims`.
pub fn active_claim_snapshot_values(claims: &[StoredClaim]) -> (r: Vec<String>)
    ensures
        texts(r@) == active_claim_values(claims@),
{
    let mut out: Vec<String> = Vec::new();
    let mut i: usize = 0;
    while i < claims.len()
        invariant
            i <= claims@.len(),
            texts(out@) == active_claim_values(claims@.take(i as int)),
        decreases claims@.len() - i,
    {
        assert(claims@.take(i + 1).drop_last() =~= claims@.take(i as int));
        let c = &claims[i];
        if c.status == ClaimStatus::Active {
            let v = c.snapshot_value();
            out.push(v);
            assert(texts(out@) =~= active_claim_values(claims@.take(i as int)).push(v@));
        }
        i = i + 1;
    }
    assert(claims@.take(claims@.len() as int) =~= claims@);
    out
}

/// The rule texts of the given commitments.
pub fn commitment_descriptions(commitments: &[Commitment]) -> (r: Vec<String>)
    ensures
        texts(r@) == descriptions(commitments@),
{
    let mut out: Vec<String> = Vec::new();
    let mut i: usize = 0;
    while i < commitments.len()
        invariant
            i <= commitments@.len(),
            out@.len() == i,
            forall|k: int| 0 <= k < i ==> #[trigger] out@[k]@ == commitments@[k].description@,
        decreases commitments@.len() - i,
    {
        out.push(owned(commitments[i].description()));
        i = i + 1;
    }
    assert(texts(out@) =~= descriptions(commitments@));
    out
}

/// The snapshot of a valid request, from the stored identity, the stored
/// commitments, the claims of the scope, and the evidence and episode
/// references the stores listed for it: the active claims in snapshot form,
/// the evidence de-duplicated and cut to the budget; refused with
/// `InsufficientEvidence` when there is no evidence and neither a manifest nor
/// a time window narrows the request (then an empty result stays empty).
pub fn assemble_self_snapshot(
    input: &BuildSelfSnapshotInput,
    identity: &IdentityCore,
    commitments: &[Commitment],
    claims: &[StoredClaim],
    evidence: Vec<String>,
    episodes: Vec<String>,
) -> (r: Result<BuildSelfSnapshotResult, AppError>)
    ensures
        evidence@.len() == 0 && !(input.evidence_manifest is Some || input.is_windowed()) ==> (r matches Err(e)
            && e is Message && e.message_view() == "InsufficientEvidence"@),
        !(evidence@.len() == 0 && !(input.evidence_manifest is Some || input.is_windowed())) ==> (r matches Ok(res) && texts(res.snapshot.identity@) == texts(
            identity.canonical_claims@,
        ) && texts(res.snapshot.commitments@) == descriptions(commitments@) && texts(
            res.snapshot.claims@,
        ) == active_claim_values(claims@) && texts(res.snapshot.evidence@) == budgeted_evidence(
            texts(evidence@),
            evidence_cap(input.budget.spec_limit()),
        ) && res.snapshot.episodes@ == episodes@),
{
    let request = SnapshotRequest {
        identity: copy_strings(identity.canonical_claims()),
        commitments: commitment_descriptions(commitments),
        claims: active_claim_snapshot_values(claims),
        evidence,
        episodes,
        budget: input.budget,
        allow_empty_evidence: input.allow_empty_evidence(),
    };
    match build_snapshot(request) {
        Ok(snapshot) => Ok(BuildSelfSnapshotResult { snapshot }),
        Err(e) => {
            let err = AppError::from_domain(e);
            assert(err.message_view() == domain_error_name(e));
            Err(err)
        },
    }
}

/// The snapshot's claims are exactly the active claims: the snapshot form
/// `claim:<subject>=<object>` of each claim whose status is Active, in order,
/// and of no other claim.
pub proof fn lemma_snapshot_claims_are_the_active_claims(claims: Seq<StoredClaim>)
    ensures
        active_claim_values(claims) == claims.filter(
            |c: StoredClaim| c.status == ClaimStatus::Active,
        ).map_values(|c: StoredClaim| "claim:"@ + c.claim.spec_subject() + "="@ + c.claim.spec_object()),
    decreases claims.len(),
{
    let pred = |c: StoredClaim| c.status == ClaimStatus::Active;
    let form = |c: StoredClaim| "claim:"@ + c.claim.spec_subject() + "="@ + c.claim.spec_object();
    if claims.len() > 0 {
        lemma_snapshot_claims_are_the_active_claims(claims.drop_last());
        let rest = claims.drop_last().filter(pred);
        reveal(Seq::filter);
        assert(claims.filter(pred) == if pred(claims.last()) {
            rest.push(claims.last())
        } else {
            rest
        });
        if pred(claims.last()) {
            assert(rest.push(claims.last()).map_values(form) =~= rest.map_values(form).push(
                form(claims.last()),
            ));
        }
    } else {
        reveal(Seq::filter);
        assert(claims.filter(pred).map_values(form) =~= Seq::<Seq<char>>::empty());
    }
}

/// Every active claim appears in the snapshot, and every claim the snapshot
/// shows is the snapshot form of an active claim.
pub proof fn lemma_snapshot_shows_each_active_claim(claims: Seq<StoredClaim>)
    ensures
        forall|i: int|
            0 <= i < claims.len() && claims[i].status == ClaimStatus::Active ==> active_claim_values(
                claims,
            ).contains("claim:"@ + claims[i].claim.spec_subject() + "="@ + claims[i].claim.spec_object()),
        forall|v: Seq<char>|
            active_claim_values(claims).contains(v) ==> exists|i: int|
                0 <= i < claims.len() && claims[i].status == ClaimStatus::Active && v == "claim:"@
                    + claims[i].claim.spec_subject() + "="@ + claims[i].claim.spec_object(),
{
    let pred = |c: StoredClaim| c.status == ClaimStatus::Active;
    let form = |c: StoredClaim| "claim:"@ + c.claim.spec_subject() + "="@ + c.claim.spec_object();
    lemma_snapshot_claims_are_the_active_claims(claims);
    let f = claims.filter(pred);
    assert forall|i: int|
        0 <= i < claims.len() && claims[i].status == ClaimStatus::Active implies active_claim_values(
            claims,
        ).contains(form(claims[i])) by {
        claims.lemma_filter_contains(pred, i);
        let k = choose|k: int| 0 <= k < f.len() && f[k] == claims[i];
        assert(f.map_values(form)[k] == form(claims[i]));
    }
    assert forall|v: Seq<char>| active_claim_values(claims).contains(v) implies exists|i: int|
        0 <= i < claims.len() && claims[i].status == ClaimStatus::Active && v == form(claims[i]) by {
        let k = choose|k: int| 0 <= k < f.map_values(form).len() && f.map_values(form)[k] == v;
        claims.lemma_filter_pred(pred, k);
        assert(f.contains(f[k]));
        claims.lemma_filter_contains_rev(pred, f[k]);
        let i = choose|i: int| 0 <= i < claims.len() && claims[i] == f[k];
        assert(claims[i].status == ClaimStatus::Active && v == form(claims[i]));
    }
}

} // verus!
