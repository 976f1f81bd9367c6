//! The commitment gate: an action is blocked when any commitment forbids it.
use vstd::prelude::*;

use crate::domain::rules::conflict::{conflicts_with_commitment, spec_conflicts};
use crate::seqs::texts;

verus! {

/// The verdict of the commitment gate.
#[derive(Debug, Clone, Copy, PartialEq, Eq, Structural)]
pub struct GateResult {
    pub blocked: bool,
}

/// Some commitment of the list forbids the action.
pub open spec fn gate_blocks(action: Seq<char>, commitments: Seq<Seq<char>>) -> bool {
    exists|i: int| 0 <= i < commitments.len() && spec_conflicts(action, #[trigger] commitments[i])
}

/// Blocks `action` exactly when one of `commitments` conflicts with it.
pub fn gate_decision(action: &str, commitments: &[String]) -> (r: GateResult)
    ensures
        r.blocked == gate_blocks(action@, texts(commitments@)),
{
    let ghost c = texts(commitments@);
    let mut i: usize = 0;
    while i < commitments.len()
        invariant
            c == texts(commitments@),
            i <= commitments@.len(),
            forall|j: int| 0 <= j < i ==> !spec_conflicts(action@, #[trigger] c[j]),
        decreases commitments@.len() - i,
    {
        if conflicts_with_commitment(action, commitments[i].as_str()) {
            assert(spec_conflicts(action@, c[i as int]));
            return GateResult { blocked: true };
        }
        i = i + 1;
    }
    GateResult { blocked: false }
}

/// Every commitment of the list counts, at any position: an action that any
/// one of them conflicts with is blocked, an action that none of them
/// conflicts with passes, and adding commitments, before or after the others,
/// never lets a blocked action pass.
pub proof fn lemma_gate_consults_every_commitment(
    action: Seq<char>,
    commitments: Seq<Seq<char>>,
    extra: Seq<Seq<char>>,
)
    ensures
        forall|i: int|
            0 <= i < commitments.len() && spec_conflicts(action, #[trigger] commitments[i])
                ==> gate_blocks(action, commitments),
        (forall|i: int| 0 <= i < commitments.len() ==> !spec_conflicts(action, #[trigger] commitments[i]))
            ==> !gate_blocks(action, commitments),
        gate_blocks(action, commitments) ==> gate_blocks(action, commitments + extra) && gate_blocks(
            action,
            extra + commitments,
        ),
{
    if gate_blocks(action, commitments) {
        let i = choose|i: int| 0 <= i < commitments.len() && spec_conflicts(action, #[trigger] commitments[i]);
        assert((commitments + extra)[i] == commitments[i]);
        assert((extra + commitments)[extra.len() + i] == commitments[i]);
    }
}

} // verus!
