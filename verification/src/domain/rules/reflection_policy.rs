//! What a reflection does to the claim it targets.
use vstd::prelude::*;

verus! {

/// Why a reflection was run.
#[derive(Debug, Clone, Copy, PartialEq, Eq, Structural)]
pub enum ReflectionTrigger {
    Conflict,
    Failure,
    Manual,
}

/// What a reflection does to its target claim.
#[derive(Debug, Clone, Copy, PartialEq, Eq, Structural)]
pub enum ReflectionDecision {
    MarkDisputed,
    SupersedeWithReplacement,
    RecordOnly,
}

/// The decision for a trigger: a conflict disputes the claim, a failure
/// supersedes it with a replacement, a manual reflection only records.
pub open spec fn spec_classify(trigger: ReflectionTrigger) -> ReflectionDecision {
    match trigger {
        ReflectionTrigger::Conflict => ReflectionDecision::MarkDisputed,
        ReflectionTrigger::Failure => ReflectionDecision::SupersedeWithReplacement,
        ReflectionTrigger::Manual => ReflectionDecision::RecordOnly,
    }
}

pub fn classify_reflection(trigger: ReflectionTrigger) -> (r: ReflectionDecision)
    ensures
        r == spec_classify(trigger),
{
    match trigger {
        ReflectionTrigger::Conflict => ReflectionDecision::MarkDisputed,
        ReflectionTrigger::Failure => ReflectionDecision::SupersedeWithReplacement,
        ReflectionTrigger::Manual => ReflectionDecision::RecordOnly,
    }
}

} // verus!
