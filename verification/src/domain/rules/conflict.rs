//! When an action conflicts with a commitment.
use vstd::prelude::*;

use crate::text::same_text;

verus! {

/// An action conflicts with a commitment when the commitment forbids writing
/// the identity core directly and the action is exactly that.
pub open spec fn spec_conflicts(action: Seq<char>, rule: Seq<char>) -> bool {
    rule == "forbid:write_identity_core_directly"@ && action == "write_identity_core_directly"@
}

/// Whether `action` conflicts with the commitment `rule`.
pub fn conflicts_with_commitment(action: &str, rule: &str) -> (r: bool)
    ensures
        r == spec_conflicts(action@, rule@),
{
    same_text(rule, "forbid:write_identity_core_directly") && same_text(
        action,
        "write_identity_core_directly",
    )
}

} // verus!
