//! A read-only view of which memory capabilities exist and how much they hold.
use vstd::prelude::*;

use crate::text::owned;

verus! {

/// How much of each memory capability was observed.
#[derive(Debug, Clone, PartialEq, Eq)]
pub struct MemorySemanticsProjectionInput {
    pub evidence_relation_count: usize,
    pub episode_summary_count: usize,
    pub semantic_claim_count: usize,
    pub procedural_memory_count: usize,
    pub self_model_write_migration_present: bool,
}

/// The status of each memory capability, and what the projection does not claim.
#[derive(Debug, Clone, PartialEq, Eq)]
pub struct MemorySemanticsProjection {
    pub read_only: bool,
    pub writes_performed: bool,
    pub durable_self_model_write_path: String,
    pub capabilities: Vec<MemorySemanticCapability>,
    pub non_claims: Vec<String>,
}

/// One capability: its status and observed count; it allows no writes.
#[derive(Debug, Clone, PartialEq, Eq)]
pub struct MemorySemanticCapability {
    pub capability: String,
    pub status: String,
    pub observed_count: usize,
    pub writes_allowed: bool,
}

/// The status of a capability with a given observed count.
pub open spec fn capability_count_status(count: nat) -> Seq<char> {
    if count == 0 {
        "not_implemented"@
    } else {
        "partial"@
    }
}

/// A capability entry with the given name, status and count.
pub open spec fn is_capability(c: MemorySemanticCapability, name: Seq<char>, status: Seq<char>, count: nat) -> bool {
    c.capability@ == name && c.status@ == status && c.observed_count == count && !c.writes_allowed
}

/// The capabilities: evidence relations, episode summaries, semantic claims and
/// procedural memory by their counts, and durable self-model writes (`partial`
/// with the migration, `blocked` without, count 0); two non-claims follow.
pub fn build_memory_semantics_projection(input: MemorySemanticsProjectionInput) -> (r:
    MemorySemanticsProjection)
    ensures
        r.read_only,
        !r.writes_performed,
        r.durable_self_model_write_path@ == "run_reflection"@,
        r.capabilities@.len() == 5,
        is_capability(
            r.capabilities@[0],
            "evidence_relations"@,
            capability_count_status(input.evidence_relation_count as nat),
            input.evidence_relation_count as nat,
        ),
        is_capability(
            r.capabilities@[1],
            "episode_summaries"@,
            capability_count_status(input.episode_summary_count as nat),
            input.episode_summary_count as nat,
        ),
        is_capability(
            r.capabilities@[2],
            "semantic_claims"@,
            capability_count_status(input.semantic_claim_count as nat),
            input.semantic_claim_count as nat,
        ),
        is_capability(
            r.capabilities@[3],
            "procedural_memory"@,
            capability_count_status(input.procedural_memory_count as nat),
            input.procedural_memory_count as nat,
        ),
        is_capability(
            r.capabilities@[4],
            "durable_self_model_writes"@,
            if input.self_model_write_migration_present {
                "partial"@
            } else {
                "blocked"@
            },
            0,
        ),
        r.non_claims@.len() == 2,
        r.non_claims@[0]@ == "not full ranking engine"@,
        r.non_claims@[1]@ == "not durable self-model write migration"@,
{
    let mut capabilities: Vec<MemorySemanticCapability> = Vec::new();
    capabilities.push(count_based_capability("evidence_relations", input.evidence_relation_count));
    capabilities.push(count_based_capability("episode_summaries", input.episode_summary_count));
    capabilities.push(count_based_capability("semantic_claims", input.semantic_claim_count));
    capabilities.push(count_based_capability("procedural_memory", input.procedural_memory_count));
    capabilities.push(
        capability(
            "durable_self_model_writes",
            durable_self_model_write_status(input.self_model_write_migration_present),
            0,
        ),
    );
    let mut non_claims: Vec<String> = Vec::new();
    non_claims.push(owned("not full ranking engine"));
    non_claims.push(owned("not durable self-model write migration"));
    MemorySemanticsProjection {
        read_only: true,
        writes_performed: false,
        durable_self_model_write_path: owned("run_reflection"),
        capabilities,
        non_claims,
    }
}

/// A capability whose status follows its count.
fn count_based_capability(capability_name: &str, observed_count: usize) -> (r:
    MemorySemanticCapability)
    ensures
        is_capability(
            r,
            capability_name@,
            capability_count_status(observed_count as nat),
            observed_count as nat,
        ),
{
    capability(capability_name, status_for_count(observed_count), observed_count)
}

/// A capability entry that allows no writes.
fn capability(capability_name: &str, status: &str, observed_count: usize) -> (r:
    MemorySemanticCapability)
    ensures
        is_capability(r, capability_name@, status@, observed_count as nat),
{
    MemorySemanticCapability {
        capability: owned(capability_name),
        status: owned(status),
        observed_count,
        writes_allowed: false,
    }
}

/// `not_implemented` for a zero count, `partial` otherwise.
fn status_for_count(count: usize) -> (r: &'static str)
    ensures
        r@ == capability_count_status(count as nat),
{
    if count == 0 {
        "not_implemented"
    } else {
        "partial"
    }
}

/// `partial` when the self-model write migration exists, `blocked` otherwise.
fn durable_self_model_write_status(migration_present: bool) -> (r: &'static str)
    ensures
        r@ == (if migration_present {
            "partial"@
        } else {
            "blocked"@
        }),
{
    if migration_present {
        "partial"
    } else {
        "blocked"
    }
}

} // verus!
