//! A read-only summary of one episode.
use vstd::prelude::*;

use crate::domain::error::AppError;
use crate::interfaces::mcp::dto::{all_event_refs, raw_event_ids, ref_ids};
use crate::seqs::{dedup, find_first_missing, first_missing, texts};
use crate::text::{all_white_space, concat3, is_blank, owned};

verus! {

/// An episode's events, its optional narrative and the evidence linked to it.
#[derive(Debug, Clone, PartialEq, Eq)]
pub struct EpisodeProjectionInput {
    pub episode_reference: String,
    pub episode_event_ids: Vec<String>,
    pub objective: Option<String>,
    pub outcome: Option<String>,
    pub lesson: Option<String>,
    pub linked_evidence_ids: Vec<String>,
}

/// The summary of an episode; it performs no writes.
#[derive(Debug, Clone, PartialEq, Eq)]
pub struct EpisodeSummaryProjection {
    pub episode_reference: String,
    pub objective: Option<String>,
    pub outcome: Option<String>,
    pub lesson: Option<String>,
    pub linked_evidence_ids: Vec<String>,
    pub event_count: usize,
    pub writes_performed: bool,
    pub durable_self_model_write_path: String,
    pub identity_or_commitment_updates: Vec<String>,
}

/// Summarizes an episode: the reference must not be blank, every event id
/// and linked id must be an event reference (`<id>` or `event:<id>`), and
/// every linked event must be one of the episode's events, compared by raw id
/// (the first one that is not is named). The summary counts the distinct
/// events, lists the distinct linked raw ids in order of first mention, and
/// performs no writes.
pub fn build_episode_summary_projection(input: EpisodeProjectionInput) -> (r: Result<
    EpisodeSummaryProjection,
    AppError,
>)
    ensures
        all_white_space(input.episode_reference@) ==> (r matches Err(e) && e is InvalidParams
            && e.message_view() == "episode projection requires an episode reference"@),
        !all_white_space(input.episode_reference@) && !(all_event_refs(
            texts(input.episode_event_ids@),
        ) && all_event_refs(texts(input.linked_evidence_ids@))) ==> (r matches Err(e)
            && e is InvalidParams && e.message_view() == "InvalidEventReference"@),
        !all_white_space(input.episode_reference@) && all_event_refs(
            texts(input.episode_event_ids@),
        ) && all_event_refs(texts(input.linked_evidence_ids@)) ==> ({
            let events = dedup(ref_ids(texts(input.episode_event_ids@)));
            let linked = dedup(ref_ids(texts(input.linked_evidence_ids@)));
            match first_missing(linked, events) {
                Some(k) => (r matches Err(e) && e is InvalidParams && e.message_view() == "linked evidence "@
                    + linked[k] + " is outside the episode event set"@),
                None => (r matches Ok(p) && p.episode_reference == input.episode_reference
                    && p.objective == input.objective && p.outcome == input.outcome && p.lesson
                    == input.lesson && texts(p.linked_evidence_ids@) == linked
                    && p.event_count == events.len() && !p.writes_performed
                    && p.durable_self_model_write_path@ == "run_reflection"@
                    && p.identity_or_commitment_updates@.len() == 0),
            }
        }),
{
    if is_blank(input.episode_reference.as_str()) {
        return Err(AppError::invalid("episode projection requires an episode reference"));
    }
    let EpisodeProjectionInput {
        episode_reference,
        episode_event_ids,
        objective,
        outcome,
        lesson,
        linked_evidence_ids,
    } = input;
    let episode_ids = match raw_event_ids(&episode_event_ids) {
        Some(ids) => ids,
        None => {
            return Err(AppError::invalid("InvalidEventReference"));
        },
    };
    let linked_ids = match raw_event_ids(&linked_evidence_ids) {
        Some(ids) => ids,
        None => {
            return Err(AppError::invalid("InvalidEventReference"));
        },
    };
    if let Some(k) = find_first_missing(&linked_ids, &episode_ids) {
        let message = concat3(
            "linked evidence ",
            linked_ids[k].as_str(),
            " is outside the episode event set",
        );
        return Err(AppError::InvalidParams(message));
    }
    let event_count = episode_ids.len();
    Ok(
        EpisodeSummaryProjection {
            episode_reference,
            objective,
            outcome,
            lesson,
            linked_evidence_ids: linked_ids,
            event_count,
            writes_performed: false,
            durable_self_model_write_path: owned("run_reflection"),
            identity_or_commitment_updates: Vec::new(),
        },
    )
}

} // verus!
