//! Reading how the evidence a reflection selected relates to its trigger
//! window, within one namespace.
use vstd::prelude::*;

use crate::application::supersede_memory::{raw_event_ids, raw_ids};
use crate::domain::error::AppError;
use crate::domain::event::{EventReference, MAX_EVIDENCE_MANIFEST_ITEMS};
use crate::domain::evidence_relation::{
    relation_report_of, relation_report_of_raw_ids, outside_window_message, spec_relation_status,
    EvidenceRelation, EvidenceRelationInput,
};
use crate::domain::types::{owner_of_namespace, MemoryScope, Namespace, Owner};
use crate::ports::ScopedEventIdQuery;
use crate::seqs::{
    copy_opt_string, dedup, first_missing, keep_in, keep_listed, opt_text, texts,
};
use crate::text::{concat3, concat_str, decimal, decimal_string, is_exact, is_exact_token, owned};

verus! {

/// A request for the evidence relation of a trigger window and a selection.
#[derive(Debug, Clone, PartialEq, Eq)]
pub struct GetEvidenceRelationInput {
    pub namespace: Namespace,
    pub trigger_window: Vec<EventReference>,
    pub selected_evidence: Vec<EventReference>,
    pub selection_basis: Option<String>,
}

impl GetEvidenceRelationInput {
    /// Why the request is refused, if it is: more than 256 window or selected
    /// events, or a selection basis that is empty or has edge white space.
    pub open spec fn rejection(&self) -> Option<Seq<char>> {
        if self.trigger_window@.len() > MAX_EVIDENCE_MANIFEST_ITEMS {
            Some(
                "trigger_window_event_ids must contain at most "@ + decimal(
                    MAX_EVIDENCE_MANIFEST_ITEMS as nat,
                ) + " entries"@,
            )
        } else if self.selected_evidence@.len() > MAX_EVIDENCE_MANIFEST_ITEMS {
            Some(
                "selected_evidence_event_ids must contain at most "@ + decimal(
                    MAX_EVIDENCE_MANIFEST_ITEMS as nat,
                ) + " entries"@,
            )
        } else if self.selection_basis matches Some(b) && !is_exact_token(b@) {
            Some("selection_basis must be non-empty and have no leading or trailing whitespace"@)
        } else {
            None
        }
    }

    /// Checks the request; see `rejection`.
    pub fn validate(&self) -> (r: Result<(), AppError>)
        ensures
            match r {
                Ok(_) => self.rejection() is None,
                Err(e) => e is InvalidParams && self.rejection() == Some(e.message_view()),
            },
    {
        if self.trigger_window.len() > MAX_EVIDENCE_MANIFEST_ITEMS {
            let digits = decimal_string(MAX_EVIDENCE_MANIFEST_ITEMS);
            return Err(
                AppError::InvalidParams(
                    concat3(
                        "trigger_window_event_ids must contain at most ",
                        digits.as_str(),
                        " entries",
                    ),
                ),
            );
        }
        if self.selected_evidence.len() > MAX_EVIDENCE_MANIFEST_ITEMS {
            let digits = decimal_string(MAX_EVIDENCE_MANIFEST_ITEMS);
            return Err(
                AppError::InvalidParams(
                    concat3(
                        "selected_evidence_event_ids must contain at most ",
                        digits.as_str(),
                        " entries",
                    ),
                ),
            );
        }
        let bad_basis = match &self.selection_basis {
            Some(b) => !is_exact(b.as_str()),
            None => false,
        };
        if bad_basis {
            return Err(
                AppError::invalid(
                    "selection_basis must be non-empty and have no leading or trailing whitespace",
                ),
            );
        }
        Ok(())
    }
}

/// How one event of the window relates to the selection.
#[derive(Debug, Clone, PartialEq, Eq)]
pub struct EvidenceRelationRecord {
    pub event_reference: String,
    pub window_rank: usize,
    pub selected: bool,
    pub relation_status: String,
    pub selection_weight: u8,
    pub selection_basis: Option<String>,
    pub rejection_reason: Option<String>,
}

/// The evidence relation of a window and a selection in one namespace.
#[derive(Debug, Clone, PartialEq, Eq)]
pub struct GetEvidenceRelationResult {
    pub owner: Owner,
    pub namespace: String,
    pub protocol_version: u32,
    pub trigger_window_size: usize,
    pub selected_count: usize,
    pub rejected_count: usize,
    pub no_widening_policy: &'static str,
    pub weight_policy: &'static str,
    pub relations: Vec<EvidenceRelationRecord>,
}

/// The record of the event `event_id` at `rank` of the window.
pub open spec fn is_relation_record(
    rec: EvidenceRelationRecord,
    event_id: Seq<char>,
    rank: int,
    selected: bool,
    basis: Option<Seq<char>>,
) -> bool {
    &&& rec.event_reference@ == "event:"@ + event_id
    &&& rec.window_rank == rank
    &&& rec.selected == selected
    &&& rec.relation_status@ == spec_relation_status(selected)
    &&& rec.selection_weight == (if selected {
        100u8
    } else {
        0u8
    })
    &&& opt_text(rec.selection_basis) == (if selected {
        basis
    } else {
        None
    })
    &&& opt_text(rec.rejection_reason) == (if selected {
        None
    } else {
        Some("not_selected_by_current_policy"@)
    })
}

/// The query that finds which window events exist in the request's namespace.
pub fn window_scope_query(input: &GetEvidenceRelationInput) -> (r: ScopedEventIdQuery)
    ensures
        r.scope.spec_namespace() == Some(input.namespace@),
        r.scope.spec_owner() == Some(owner_of_namespace(input.namespace@)),
        texts(r.event_ids@) == raw_ids(input.trigger_window@),
{
    ScopedEventIdQuery {
        scope: MemoryScope::for_namespace(input.namespace.duplicate()),
        event_ids: raw_event_ids(input.trigger_window.as_slice()),
    }
}

fn relation_record(rel: EvidenceRelation) -> (r: EvidenceRelationRecord)
    ensures
        r.event_reference@ == "event:"@ + rel.event_id@,
        r.window_rank == rel.window_rank,
        r.selected == rel.selected,
        r.relation_status == rel.relation_status,
        r.selection_weight == rel.selection_weight,
        r.selection_basis == rel.selection_basis,
        r.rejection_reason == rel.rejection_reason,
{
    EvidenceRelationRecord {
        event_reference: concat_str("event:", rel.event_id.as_str()),
        window_rank: rel.window_rank,
        selected: rel.selected,
        relation_status: rel.relation_status,
        selection_weight: rel.selection_weight,
        selection_basis: rel.selection_basis,
        rejection_reason: rel.rejection_reason,
    }
}

/// The evidence relation of a (valid) request, given which window events the
/// namespace holds: the window is narrowed to them (and de-duplicated), the
/// selection is de-duplicated, and a selected event outside that window is
/// refused.
pub fn evidence_relation_result(input: &GetEvidenceRelationInput, scoped_ids: &[String]) -> (r:
    Result<GetEvidenceRelationResult, AppError>)
    ensures
        ({
            let w = dedup(keep_in(raw_ids(input.trigger_window@), texts(scoped_ids@)));
            let s = dedup(raw_ids(input.selected_evidence@));
            match first_missing(s, w) {
                Some(k) => (r matches Err(e) && e is InvalidParams && e.message_view()
                    == outside_window_message(s[k])),
                None => (r matches Ok(res) && res.owner == owner_of_namespace(input.namespace@)
                    && res.namespace@ == input.namespace@ && res.protocol_version == 2
                    && res.trigger_window_size == w.len() && res.selected_count == s.len()
                    && res.rejected_count == w.len() - s.len() && res.no_widening_policy@
                    == "selected_subset_of_trigger_window"@ && res.weight_policy@
                    == "bounded_selected_binary_weight"@ && res.relations@.len() == w.len()
                    && forall|i: int|
                    0 <= i < w.len() ==> is_relation_record(
                        #[trigger] res.relations@[i],
                        w[i],
                        i + 1,
                        s.contains(w[i]),
                        opt_text(input.selection_basis),
                    )),
            }
        }),
{
    let trigger_ids = raw_event_ids(input.trigger_window.as_slice());
    let selected_ids = raw_event_ids(input.selected_evidence.as_slice());
    let scoped_trigger_ids = keep_listed(trigger_ids.as_slice(), scoped_ids);
    let outcome = relation_report_of_raw_ids(
        EvidenceRelationInput {
            trigger_window_event_ids: scoped_trigger_ids,
            selected_evidence_event_ids: selected_ids,
            selection_basis: copy_opt_string(&input.selection_basis),
        },
    );
    let report = match outcome {
        Ok(report) => {
            proof {
                let w = dedup(keep_in(raw_ids(input.trigger_window@), texts(scoped_ids@)));
                let sel = dedup(raw_ids(input.selected_evidence@));
                assert(relation_report_of(outcome, w, sel, opt_text(input.selection_basis)));
                assert(first_missing(sel, w) is None);
                assert(forall|i: int|
                    0 <= i < w.len() ==> crate::domain::evidence_relation::is_relation(
                        #[trigger] report.relations@[i],
                        w[i],
                        i + 1,
                        sel.contains(w[i]),
                        opt_text(input.selection_basis),
                    ));
            }
            report
        },
        Err(e) => {
            return Err(e);
        },
    };
    let ghost rels = report.relations@;
    let mut relations: Vec<EvidenceRelationRecord> = Vec::new();
    let mut source = report.relations;
    let mut pending: Vec<EvidenceRelation> = Vec::new();
    while source.len() > 0
        invariant
            pending@.len() + source@.len() == rels.len(),
            source@ == rels.take(source@.len() as int),
            forall|k: int| 0 <= k < pending@.len() ==> #[trigger] pending@[k] == rels[rels.len() - 1 - k],
        decreases source@.len(),
    {
        let rel = source.pop().unwrap();
        pending.push(rel);
    }
    while pending.len() > 0
        invariant
            relations@.len() + pending@.len() == rels.len(),
            forall|k: int| 0 <= k < pending@.len() ==> #[trigger] pending@[k] == rels[rels.len() - 1 - k],
            forall|k: int|
                0 <= k < relations@.len() ==> #[trigger] relations@[k].event_reference@ == "event:"@
                    + rels[k].event_id@ && relations@[k].window_rank == rels[k].window_rank
                    && relations@[k].selected == rels[k].selected && relations@[k].relation_status
                    == rels[k].relation_status && relations@[k].selection_weight
                    == rels[k].selection_weight && relations@[k].selection_basis
                    == rels[k].selection_basis && relations@[k].rejection_reason
                    == rels[k].rejection_reason,
        decreases pending@.len(),
    {
        let rel = pending.pop().unwrap();
        relations.push(relation_record(rel));
    }
    proof {
        let w = dedup(keep_in(raw_ids(input.trigger_window@), texts(scoped_ids@)));
        let sel = dedup(raw_ids(input.selected_evidence@));
        assert(first_missing(sel, w) is None);
        assert forall|i: int| 0 <= i < w.len() implies is_relation_record(
            #[trigger] relations@[i],
            w[i],
            i + 1,
            sel.contains(w[i]),
            opt_text(input.selection_basis),
        ) by {
            assert(crate::domain::evidence_relation::is_relation(
                rels[i],
                w[i],
                i + 1,
                sel.contains(w[i]),
                opt_text(input.selection_basis),
            ));
        }
    }
    Ok(
        GetEvidenceRelationResult {
            owner: input.namespace.owner_of(),
            namespace: owned(input.namespace.as_str()),
            protocol_version: report.protocol_version,
            trigger_window_size: report.trigger_window_size,
            selected_count: report.selected_count,
            rejected_count: report.rejected_count,
            no_widening_policy: report.no_widening_policy,
            weight_policy: report.weight_policy,
            relations,
        },
    )
}

} // verus!
