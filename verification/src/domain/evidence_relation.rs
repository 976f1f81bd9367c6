//! How the evidence that a reflection selected relates to its trigger window.
use vstd::prelude::*;

use crate::domain::error::AppError;
use crate::interfaces::mcp::dto::{all_event_refs, raw_event_ids, ref_ids};
use crate::seqs::{
    copy_opt_string, dedup, dedupe_strings, find_first_missing, lemma_dedup_idempotent, first_missing, lemma_dedup_props,
    lemma_distinct_subset_len, opt_text, texts,
};
use crate::text::{concat3, owned};

verus! {

pub const EVIDENCE_RELATION_PROTOCOL_VERSION: u32 = 2;

pub const EVIDENCE_RELATION_NO_WIDENING_POLICY: &'static str = "selected_subset_of_trigger_window";

pub const EVIDENCE_RELATION_WEIGHT_POLICY: &'static str = "bounded_selected_binary_weight";

pub const EVIDENCE_RELATION_SELECTED_STATUS: &'static str = "selected";

pub const EVIDENCE_RELATION_AVAILABLE_NOT_SELECTED_STATUS: &'static str = "available_not_selected";

pub const EVIDENCE_RELATION_NOT_SELECTED_REASON: &'static str = "not_selected_by_current_policy";

pub const SELECTED_EVIDENCE_WEIGHT: u8 = 100;

pub const UNSELECTED_EVIDENCE_WEIGHT: u8 = 0;

/// A trigger window and the evidence selected from it (raw event ids).
#[derive(Debug, Clone, PartialEq, Eq)]
pub struct EvidenceRelationInput {
    pub trigger_window_event_ids: Vec<String>,
    pub selected_evidence_event_ids: Vec<String>,
    pub selection_basis: Option<String>,
}

/// The relation of every event of a trigger window to the selection.
#[derive(Debug, Clone, PartialEq, Eq)]
pub struct EvidenceRelationReport {
    pub protocol_version: u32,
    pub trigger_window_size: usize,
    pub selected_count: usize,
    pub rejected_count: usize,
    pub no_widening_policy: &'static str,
    pub weight_policy: &'static str,
    pub relations: Vec<EvidenceRelation>,
}

/// How one event of the window relates to the selection.
#[derive(Debug, Clone, PartialEq, Eq)]
pub struct EvidenceRelation {
    pub event_id: String,
    pub window_rank: usize,
    pub selected: bool,
    pub relation_status: String,
    pub selection_weight: u8,
    pub selection_basis: Option<String>,
    pub rejection_reason: Option<String>,
}

/// The status label of a selected or unselected event.
pub open spec fn spec_relation_status(selected: bool) -> Seq<char> {
    if selected {
        "selected"@
    } else {
        "available_not_selected"@
    }
}

/// The relation that an event at a window rank has, given whether it was selected.
pub open spec fn is_relation(
    rel: EvidenceRelation,
    event_id: Seq<char>,
    rank: int,
    selected: bool,
    basis: Option<Seq<char>>,
) -> bool {
    &&& rel.event_id@ == event_id
    &&& rel.window_rank == rank
    &&& rel.selected == selected
    &&& rel.relation_status@ == spec_relation_status(selected)
    &&& rel.selection_weight == (if selected {
        100u8
    } else {
        0u8
    })
    &&& opt_text(rel.selection_basis) == (if selected {
        basis
    } else {
        None
    })
    &&& opt_text(rel.rejection_reason) == (if selected {
        None
    } else {
        Some("not_selected_by_current_policy"@)
    })
}

/// The message that rejects a selected event outside the window.
pub open spec fn outside_window_message(event_id: Seq<char>) -> Seq<char> {
    "selected evidence "@ + event_id + " is outside the trigger window"@
}

/// The spec of a relation report over raw ids: each event of the
/// de-duplicated window with its rank, whether the de-duplicated selection
/// holds it, and the selection basis; refused when the selection leaves the
/// window (the first such id is named).
pub open spec fn relation_report_of(
    r: Result<EvidenceRelationReport, AppError>,
    w: Seq<Seq<char>>,
    s: Seq<Seq<char>>,
    basis: Option<Seq<char>>,
) -> bool {
    match first_missing(s, w) {
        Some(k) => (r matches Err(e) && e is InvalidParams && e.message_view()
            == outside_window_message(s[k])),
        None => (r matches Ok(rep) && rep.protocol_version == 2 && rep.trigger_window_size
            == w.len() && rep.selected_count == s.len() && rep.rejected_count == w.len()
            - s.len() && rep.no_widening_policy@ == "selected_subset_of_trigger_window"@
            && rep.weight_policy@ == "bounded_selected_binary_weight"@
            && rep.relations@.len() == w.len() && forall|i: int|
            0 <= i < w.len() ==> is_relation(
                #[trigger] rep.relations@[i],
                w[i],
                i + 1,
                s.contains(w[i]),
                basis,
            )),
    }
}

/// Relates each event of the trigger window to the selection, both raw event
/// ids de-duplicated in order: rank (from one), selected or not, weight 100
/// or 0, the selection basis for selected events and a rejection reason for
/// the others. A selected event outside the window is refused (the first one
/// is named): the selection never widens the window.
pub fn relation_report_of_raw_ids(input: EvidenceRelationInput) -> (r: Result<
    EvidenceRelationReport,
    AppError,
>)
    ensures
        relation_report_of(
            r,
            dedup(texts(input.trigger_window_event_ids@)),
            dedup(texts(input.selected_evidence_event_ids@)),
            opt_text(input.selection_basis),
        ),
{
    let ghost basis = opt_text(input.selection_basis);
    let EvidenceRelationInput {
        trigger_window_event_ids,
        selected_evidence_event_ids,
        selection_basis,
    } = input;
    let selected_ids = dedupe_strings(selected_evidence_event_ids);
    let window_ids = dedupe_strings(trigger_window_event_ids);
    let ghost w = texts(window_ids@);
    let ghost s = texts(selected_ids@);
    if let Some(k) = find_first_missing(&selected_ids, &window_ids) {
        let message = concat3(
            "selected evidence ",
            selected_ids[k].as_str(),
            " is outside the trigger window",
        );
        return Err(AppError::InvalidParams(message));
    }
    proof {
        lemma_dedup_props(texts(trigger_window_event_ids@));
        lemma_dedup_props(texts(selected_evidence_event_ids@));
        assert forall|x: Seq<char>| s.contains(x) implies w.contains(x) by {
            let k = choose|k: int| 0 <= k < s.len() && s[k] == x;
            if !w.contains(x) {
                assert(exists|i: int| 0 <= i < s.len() && !w.contains(s[i]));
            }
        }
        lemma_distinct_subset_len(s, w);
    }
    let mut relations: Vec<EvidenceRelation> = Vec::new();
    let mut index: usize = 0;
    while index < window_ids.len()
        invariant
            w == texts(window_ids@),
            s == texts(selected_ids@),
            basis == opt_text(selection_basis),
            index <= window_ids@.len(),
            relations@.len() == index,
            forall|i: int|
                0 <= i < index ==> is_relation(
                    #[trigger] relations@[i],
                    w[i],
                    i + 1,
                    s.contains(w[i]),
                    basis,
                ),
        decreases window_ids@.len() - index,
    {
        let event_id = &window_ids[index];
        let selected = crate::seqs::contains_text(&selected_ids, event_id.as_str());
        let relation = EvidenceRelation {
            event_id: event_id.clone(),
            window_rank: index + 1,
            selected,
            relation_status: owned(relation_status(selected)),
            selection_weight: selection_weight(selected),
            selection_basis: if selected {
                copy_opt_string(&selection_basis)
            } else {
                None
            },
            rejection_reason: match rejection_reason(selected) {
                Some(reason) => Some(owned(reason)),
                None => None,
            },
        };
        relations.push(relation);
        index = index + 1;
    }
    Ok(
        EvidenceRelationReport {
            protocol_version: EVIDENCE_RELATION_PROTOCOL_VERSION,
            trigger_window_size: window_ids.len(),
            selected_count: selected_ids.len(),
            rejected_count: window_ids.len() - selected_ids.len(),
            no_widening_policy: EVIDENCE_RELATION_NO_WIDENING_POLICY,
            weight_policy: EVIDENCE_RELATION_WEIGHT_POLICY,
            relations,
        },
    )
}

/// Relates each event of the trigger window to the selection, both read as
/// event references (`<id>` or `event:<id>`) and de-duplicated by raw id in
/// order of first mention (see `relation_report_of_raw_ids`). A text that is
/// not an event reference is refused.
pub fn build_evidence_relation_report(input: EvidenceRelationInput) -> (r: Result<
    EvidenceRelationReport,
    AppError,
>)
    ensures
        !(all_event_refs(texts(input.trigger_window_event_ids@)) && all_event_refs(
            texts(input.selected_evidence_event_ids@),
        )) ==> (r matches Err(e) && e is InvalidParams && e.message_view()
            == "InvalidEventReference"@),
        all_event_refs(texts(input.trigger_window_event_ids@)) && all_event_refs(
            texts(input.selected_evidence_event_ids@),
        ) ==> relation_report_of(
            r,
            dedup(ref_ids(texts(input.trigger_window_event_ids@))),
            dedup(ref_ids(texts(input.selected_evidence_event_ids@))),
            opt_text(input.selection_basis),
        ),
{
    let window_ids = match raw_event_ids(&input.trigger_window_event_ids) {
        Some(ids) => ids,
        None => {
            return Err(AppError::invalid("InvalidEventReference"));
        },
    };
    let selected_ids = match raw_event_ids(&input.selected_evidence_event_ids) {
        Some(ids) => ids,
        None => {
            return Err(AppError::invalid("InvalidEventReference"));
        },
    };
    proof {
        lemma_dedup_idempotent(ref_ids(texts(input.trigger_window_event_ids@)));
        lemma_dedup_idempotent(ref_ids(texts(input.selected_evidence_event_ids@)));
    }
    relation_report_of_raw_ids(
        EvidenceRelationInput {
            trigger_window_event_ids: window_ids,
            selected_evidence_event_ids: selected_ids,
            selection_basis: input.selection_basis,
        },
    )
}

/// The status label of a selected or unselected event.
pub fn relation_status(selected: bool) -> (r: &'static str)
    ensures
        r@ == spec_relation_status(selected),
{
    if selected {
        EVIDENCE_RELATION_SELECTED_STATUS
    } else {
        EVIDENCE_RELATION_AVAILABLE_NOT_SELECTED_STATUS
    }
}

/// The weight of a selected (100) or unselected (0) event.
pub fn selection_weight(selected: bool) -> (r: u8)
    ensures
        r == (if selected {
            100u8
        } else {
            0u8
        }),
{
    if selected {
        SELECTED_EVIDENCE_WEIGHT
    } else {
        UNSELECTED_EVIDENCE_WEIGHT
    }
}

/// Why an event was not selected, if it was not.
pub fn rejection_reason(selected: bool) -> (r: Option<&'static str>)
    ensures
        selected ==> r is None,
        !selected ==> (r matches Some(t) && t@ == "not_selected_by_current_policy"@),
{
    if selected {
        None
    } else {
        Some(EVIDENCE_RELATION_NOT_SELECTED_REASON)
    }
}

/// Every event that a report marks selected was in the trigger window, and the
/// selected and rejected counts add up to the window size.
pub proof fn lemma_relation_report_no_widening(
    window: Seq<Seq<char>>,
    selected: Seq<Seq<char>>,
)
    requires
        first_missing(dedup(selected), dedup(window)) is None,
    ensures
        forall|x: Seq<char>| selected.contains(x) ==> window.contains(x),
        dedup(selected).len() <= dedup(window).len(),
{
    let s = dedup(selected);
    let w = dedup(window);
    lemma_dedup_props(selected);
    lemma_dedup_props(window);
    assert forall|x: Seq<char>| s.contains(x) implies w.contains(x) by {
        if !w.contains(x) {
            let k = choose|k: int| 0 <= k < s.len() && s[k] == x;
            assert(exists|i: int| 0 <= i < s.len() && !w.contains(s[i]));
        }
    }
    assert forall|x: Seq<char>| selected.contains(x) implies window.contains(x) by {
        assert(s.contains(x));
        assert(w.contains(x));
    }
    lemma_distinct_subset_len(s, w);
}

} // verus!
