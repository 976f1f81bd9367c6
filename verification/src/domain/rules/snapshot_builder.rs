//! Applies the evidence budget to a snapshot request.
use vstd::prelude::*;

use crate::domain::error::DomainError;
use crate::domain::snapshot::{SelfSnapshot, SnapshotRequest};
use crate::seqs::{contains_text, dedup, lemma_dedup_prefix, lemma_dedup_props, texts};

verus! {

/// The evidence a snapshot keeps: the first occurrences of the requested
/// evidence, in order, cut to `cap` entries.
pub open spec fn budgeted_evidence(evidence: Seq<Seq<char>>, cap: nat) -> Seq<Seq<char>> {
    let d = dedup(evidence);
    if d.len() <= cap {
        d
    } else {
        d.take(cap as int)
    }
}

/// The evidence cap of a budget limit: the limit, but at least one.
pub open spec fn evidence_cap(limit: usize) -> nat {
    if limit >= 1 {
        limit as nat
    } else {
        1
    }
}

/// Builds a snapshot: identity, commitments, claims and episodes are kept as
/// given; the evidence is de-duplicated in order and cut to the budget (at least
/// one). Fails with `InsufficientEvidence` exactly when there is no evidence
/// and the request does not allow that; a request that allows it (a scoped
/// manifest or time window that matched nothing) gets a snapshot without
/// evidence.
pub fn build_snapshot(input: SnapshotRequest) -> (r: Result<SelfSnapshot, DomainError>)
    ensures
        input.evidence@.len() == 0 && !input.allow_empty_evidence ==> r == Err::<
            SelfSnapshot,
            DomainError,
        >(DomainError::InsufficientEvidence),
        !(input.evidence@.len() == 0 && !input.allow_empty_evidence) ==> (r matches Ok(s) && texts(s.evidence@) == budgeted_evidence(
            texts(input.evidence@),
            evidence_cap(input.budget.spec_limit()),
        ) && s.identity@ == input.identity@ && s.commitments@ == input.commitments@ && s.claims@
            == input.claims@ && s.episodes@ == input.episodes@),
{
    let input = match input.validate() {
        Ok(input) => input,
        Err(e) => return Err(e),
    };
    let cap = input.budget.max(1);
    let ghost src = texts(input.evidence@);
    let mut evidence: Vec<String> = Vec::new();
    let mut i: usize = 0;
    while i < input.evidence.len() && evidence.len() < cap
        invariant
            src == texts(input.evidence@),
            cap == evidence_cap(input.budget.spec_limit()),
            i <= input.evidence@.len(),
            evidence@.len() <= cap,
            texts(evidence@) == dedup(src.take(i as int)),
        decreases input.evidence@.len() - i,
    {
        let reference = &input.evidence[i];
        assert(src.take(i + 1).drop_last() =~= src.take(i as int));
        assert(src.take(i + 1).last() == reference@);
        if !contains_text(&evidence, reference.as_str()) {
            evidence.push(reference.clone());
            assert(texts(evidence@) =~= dedup(src.take(i as int)).push(reference@));
        }
        i = i + 1;
    }
    proof {
        lemma_dedup_prefix(src, i as int);
        lemma_dedup_props(src);
        if i == input.evidence.len() {
            assert(src.take(i as int) =~= src);
        } else {
            assert(texts(evidence@).len() == cap);
            assert(dedup(src).take(cap as int) =~= texts(evidence@));
        }
    }
    Ok(
        SelfSnapshot {
            identity: input.identity,
            commitments: input.commitments,
            claims: input.claims,
            evidence,
            episodes: input.episodes,
        },
    )
}

} // verus!
