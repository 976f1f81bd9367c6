//! How the SQLite store puts its read records together from the rows of
//! several statements, and how its transactions refuse work after a failure.
use vstd::prelude::*;

use crate::adapters::sqlite::rows::{json_string_list, strings_from_json};
use crate::domain::claim::ClaimReference;
use crate::domain::error::{domain_error_name, AppError, DomainError};
use crate::domain::event::{event_ref_id, is_valid_event_reference_text, EventReference};
use crate::domain::time::{rfc3339_timestamp, Timestamp};
use crate::ports::{
    ClaimReadRecord, ClaimReflectionHistoryRecord, ClaimRevisionLinks, EventReadRecord,
    StoredClaim, StoredEvent,
};
use crate::seqs::{dedup, dedupe_strings, keep_in, keep_listed, opt_text, strictly_sorted, insert_sorted_distinct, texts};
use crate::adapters::sqlite::rows::parse_stored_timestamp;

verus! {

/// A pair of texts as plain values.
pub open spec fn pair_view(p: (String, String)) -> (Seq<char>, Seq<char>) {
    (p.0@, p.1@)
}

/// Pairs of texts as plain values.
pub open spec fn pairs_view(s: Seq<(String, String)>) -> Seq<(Seq<char>, Seq<char>)> {
    s.map_values(|p: (String, String)| pair_view(p))
}

/// The second texts of the pairs whose first text is `key`, in order.
pub open spec fn values_of(pairs: Seq<(Seq<char>, Seq<char>)>, key: Seq<char>) -> Seq<Seq<char>>
    decreases pairs.len(),
{
    if pairs.len() == 0 {
        Seq::empty()
    } else {
        let rest = values_of(pairs.drop_last(), key);
        if pairs.last().0 == key {
            rest.push(pairs.last().1)
        } else {
            rest
        }
    }
}

/// The second texts of the rows whose first text is `key`, in row order.
pub fn values_for_key(pairs: &[(String, String)], key: &str) -> (r: Vec<String>)
    ensures
        texts(r@) == values_of(pairs_view(pairs@), key@),
{
    let ghost all = pairs_view(pairs@);
    let mut r: Vec<String> = Vec::new();
    let mut i: usize = 0;
    assert(all.take(0) =~= Seq::<(Seq<char>, Seq<char>)>::empty());
    assert(texts(r@) =~= Seq::<Seq<char>>::empty());
    while i < pairs.len()
        invariant
            all == pairs_view(pairs@),
            i <= pairs@.len(),
            texts(r@) == values_of(all.take(i as int), key@),
        decreases pairs@.len() - i,
    {
        assert(all.take(i + 1).drop_last() =~= all.take(i as int));
        assert(all.take(i + 1).last() == pair_view(pairs@[i as int]));
        if crate::text::same_text(pairs[i].0.as_str(), key) {
            let ghost before = r@;
            r.push(pairs[i].1.clone());
            assert(texts(r@) =~= texts(before).push(pairs@[i as int].1@));
        }
        i = i + 1;
    }
    assert(all.take(pairs@.len() as int) =~= all);
    r
}

/// The read records of events, each with the claims of the scope that it
/// supports and the episodes that hold it (from rows of event id and claim
/// id, and of event id and episode).
pub fn event_read_records(
    events: Vec<StoredEvent>,
    claim_links: &[(String, String)],
    episode_links: &[(String, String)],
) -> (r: Vec<EventReadRecord>)
    ensures
        r@.len() == events@.len(),
        forall|i: int|
            0 <= i < r@.len() ==> (#[trigger] r@[i]).event == events@[i] && texts(r@[i].claim_ids@)
                == values_of(pairs_view(claim_links@), events@[i].event_id@) && texts(
                r@[i].episode_references@,
            ) == values_of(pairs_view(episode_links@), events@[i].event_id@),
{
    let ghost all = events@;
    let mut rest = events;
    let mut r: Vec<EventReadRecord> = Vec::new();
    while rest.len() > 0
        invariant
            r@.len() + rest@.len() == all.len(),
            rest@ == all.subrange(r@.len() as int, all.len() as int),
            forall|i: int|
                0 <= i < r@.len() ==> (#[trigger] r@[i]).event == all[i] && texts(
                    r@[i].claim_ids@,
                ) == values_of(pairs_view(claim_links@), all[i].event_id@) && texts(
                    r@[i].episode_references@,
                ) == values_of(pairs_view(episode_links@), all[i].event_id@),
        decreases rest@.len(),
    {
        let ghost k = r@.len() as int;
        let event = rest.remove(0);
        assert(event == all[k]);
        assert(rest@ =~= all.subrange(k + 1, all.len() as int));
        let claim_ids = values_for_key(claim_links, event.event_id.as_str());
        let episodes = values_for_key(episode_links, event.event_id.as_str());
        r.push(EventReadRecord::new(event, claim_ids, episodes));
    }
    r
}

/// Event ids parsed as references; the first that does not parse fails the
/// whole read with the domain error's name.
pub open spec fn all_references_valid(pairs: Seq<(Seq<char>, Seq<char>)>) -> bool {
    forall|i: int| 0 <= i < pairs.len() ==> is_valid_event_reference_text(#[trigger] pairs[i].1)
}

/// The rows of claim id and event id, with each event id read as an event
/// reference; an id that is no reference fails the read.
pub fn parse_evidence_rows(pairs: &[(String, String)]) -> (r: Result<
    Vec<(String, EventReference)>,
    AppError,
>)
    ensures
        r is Ok <==> all_references_valid(pairs_view(pairs@)),
        match r {
            Ok(v) => v@.len() == pairs@.len() && forall|i: int|
                0 <= i < v@.len() ==> (#[trigger] v@[i]).0@ == pairs@[i].0@ && v@[i].1@
                    == event_ref_id(pairs@[i].1@),
            Err(e) => e is Message && e.message_view() == domain_error_name(
                DomainError::InvalidEventReference,
            ),
        },
{
    let mut v: Vec<(String, EventReference)> = Vec::new();
    let mut i: usize = 0;
    while i < pairs.len()
        invariant
            i <= pairs@.len(),
            v@.len() == i,
            forall|j: int| 0 <= j < i ==> is_valid_event_reference_text(
                #[trigger] pairs_view(pairs@)[j].1,
            ),
            forall|j: int|
                0 <= j < i ==> (#[trigger] v@[j]).0@ == pairs@[j].0@ && v@[j].1@ == event_ref_id(
                    pairs@[j].1@,
                ),
        decreases pairs@.len() - i,
    {
        match EventReference::parse(pairs[i].1.as_str()) {
            Ok(reference) => {
                v.push((pairs[i].0.clone(), reference));
            },
            Err(error) => {
                assert(!is_valid_event_reference_text(pairs_view(pairs@)[i as int].1));
                return Err(AppError::from_domain(error));
            },
        }
        assert(pairs_view(pairs@)[i as int].1 == pairs@[i as int].1@);
        i = i + 1;
    }
    Ok(v)
}

/// The references of the parsed rows whose claim id is `key`, in order.
pub open spec fn refs_of(pairs: Seq<(String, EventReference)>, key: Seq<char>) -> Seq<Seq<char>>
    decreases pairs.len(),
{
    if pairs.len() == 0 {
        Seq::empty()
    } else {
        let rest = refs_of(pairs.drop_last(), key);
        if pairs.last().0@ == key {
            rest.push(pairs.last().1@)
        } else {
            rest
        }
    }
}

/// The views of a list of event references.
pub open spec fn ref_views(s: Seq<EventReference>) -> Seq<Seq<char>> {
    s.map_values(|r: EventReference| r@)
}

/// The references of the parsed rows for one claim, in row order.
pub fn references_for_key(pairs: &[(String, EventReference)], key: &str) -> (r: Vec<
    EventReference,
>)
    ensures
        ref_views(r@) == refs_of(pairs@, key@),
{
    let mut r: Vec<EventReference> = Vec::new();
    let mut i: usize = 0;
    assert(pairs@.take(0) =~= Seq::<(String, EventReference)>::empty());
    assert(ref_views(r@) =~= Seq::<Seq<char>>::empty());
    while i < pairs.len()
        invariant
            i <= pairs@.len(),
            ref_views(r@) == refs_of(pairs@.take(i as int), key@),
        decreases pairs@.len() - i,
    {
        assert(pairs@.take(i + 1).drop_last() =~= pairs@.take(i as int));
        if crate::text::same_text(pairs[i].0.as_str(), key) {
            let ghost before = r@;
            r.push(pairs[i].1.duplicate());
            assert(ref_views(r@) =~= ref_views(before).push(pairs@[i as int].1@));
        }
        i = i + 1;
    }
    assert(pairs@.take(pairs@.len() as int) =~= pairs@);
    r
}

/// A row of the revision-links statement: a reflection, the claims it
/// superseded and introduced, and those of them that lie in the scope.
#[derive(Debug, Clone, PartialEq, Eq)]
pub struct RevisionRow {
    pub reflection_id: String,
    pub superseded_claim_id: Option<String>,
    pub replacement_claim_id: Option<String>,
    pub scoped_superseded_claim_id: Option<String>,
    pub scoped_replacement_claim_id: Option<String>,
}

/// The reflection of the first row that introduced `claim`.
pub open spec fn first_source(rows: Seq<RevisionRow>, claim: Seq<char>) -> Option<Seq<char>>
    decreases rows.len(),
{
    if rows.len() == 0 {
        None
    } else if opt_text(rows[0].replacement_claim_id) == Some(claim) {
        Some(rows[0].reflection_id@)
    } else {
        first_source(rows.subrange(1, rows.len() as int), claim)
    }
}

/// The first scoped superseded claim among the rows that introduced `claim`.
pub open spec fn first_supersedes(rows: Seq<RevisionRow>, claim: Seq<char>) -> Option<Seq<char>>
    decreases rows.len(),
{
    if rows.len() == 0 {
        None
    } else if opt_text(rows[0].replacement_claim_id) == Some(claim)
        && rows[0].scoped_superseded_claim_id is Some {
        opt_text(rows[0].scoped_superseded_claim_id)
    } else {
        first_supersedes(rows.subrange(1, rows.len() as int), claim)
    }
}

/// The reflection of the first row that superseded `claim`.
pub open spec fn first_superseder(rows: Seq<RevisionRow>, claim: Seq<char>) -> Option<Seq<char>>
    decreases rows.len(),
{
    if rows.len() == 0 {
        None
    } else if opt_text(rows[0].superseded_claim_id) == Some(claim) {
        Some(rows[0].reflection_id@)
    } else {
        first_superseder(rows.subrange(1, rows.len() as int), claim)
    }
}

/// The first scoped replacement claim among the rows that superseded
/// `claim`.
pub open spec fn first_replacement(rows: Seq<RevisionRow>, claim: Seq<char>) -> Option<Seq<char>>
    decreases rows.len(),
{
    if rows.len() == 0 {
        None
    } else if opt_text(rows[0].superseded_claim_id) == Some(claim)
        && rows[0].scoped_replacement_claim_id is Some {
        opt_text(rows[0].scoped_replacement_claim_id)
    } else {
        first_replacement(rows.subrange(1, rows.len() as int), claim)
    }
}

/// The view of an optional claim reference.
pub open spec fn opt_claim(o: Option<ClaimReference>) -> Option<Seq<char>> {
    match o {
        Some(c) => Some(c@),
        None => None,
    }
}

/// Whether an optional text equals `key`.
fn opt_is(o: &Option<String>, key: &str) -> (r: bool)
    ensures
        r == (opt_text(*o) == Some(key@)),
{
    match o {
        Some(s) => crate::text::same_text(s.as_str(), key),
        None => false,
    }
}

/// The revision links of one claim, from the rows in their order (latest
/// reflection first): the first reflection that introduced it and the first
/// scoped claim such a reflection superseded, and likewise the first that
/// superseded it and the first scoped claim that replaced it.
pub fn revision_links_for(rows: &[RevisionRow], claim_id: &str) -> (r: ClaimRevisionLinks)
    ensures
        opt_text(r.source_reflection_id) == first_source(rows@, claim_id@),
        opt_claim(r.supersedes_claim_reference) == first_supersedes(rows@, claim_id@),
        opt_text(r.superseded_by_reflection_id) == first_superseder(rows@, claim_id@),
        opt_claim(r.replacement_claim_reference) == first_replacement(rows@, claim_id@),
{
    let mut links = ClaimRevisionLinks {
        source_reflection_id: None,
        supersedes_claim_reference: None,
        superseded_by_reflection_id: None,
        replacement_claim_reference: None,
    };
    let mut i: usize = 0;
    assert(rows@.subrange(0, rows@.len() as int) =~= rows@);
    while i < rows.len()
        invariant
            i <= rows@.len(),
            ({
                let rest = rows@.subrange(i as int, rows@.len() as int);
                &&& first_source(rows@, claim_id@) == match opt_text(links.source_reflection_id) {
                    Some(s) => Some(s),
                    None => first_source(rest, claim_id@),
                }
                &&& first_supersedes(rows@, claim_id@) == match opt_claim(
                    links.supersedes_claim_reference,
                ) {
                    Some(s) => Some(s),
                    None => first_supersedes(rest, claim_id@),
                }
                &&& first_superseder(rows@, claim_id@) == match opt_text(
                    links.superseded_by_reflection_id,
                ) {
                    Some(s) => Some(s),
                    None => first_superseder(rest, claim_id@),
                }
                &&& first_replacement(rows@, claim_id@) == match opt_claim(
                    links.replacement_claim_reference,
                ) {
                    Some(s) => Some(s),
                    None => first_replacement(rest, claim_id@),
                }
            }),
        decreases rows@.len() - i,
    {
        let ghost rest = rows@.subrange(i as int, rows@.len() as int);
        assert(rest[0] == rows@[i as int]);
        assert(rest.subrange(1, rest.len() as int) =~= rows@.subrange(i + 1, rows@.len() as int));
        let row = &rows[i];
        if opt_is(&row.replacement_claim_id, claim_id) {
            if links.source_reflection_id.is_none() {
                links.source_reflection_id = Some(row.reflection_id.clone());
            }
            if links.supersedes_claim_reference.is_none() {
                links.supersedes_claim_reference = match &row.scoped_superseded_claim_id {
                    Some(id) => Some(ClaimReference::from_claim_id(id.as_str())),
                    None => None,
                };
            }
        }
        if opt_is(&row.superseded_claim_id, claim_id) {
            if links.superseded_by_reflection_id.is_none() {
                links.superseded_by_reflection_id = Some(row.reflection_id.clone());
            }
            if links.replacement_claim_reference.is_none() {
                links.replacement_claim_reference = match &row.scoped_replacement_claim_id {
                    Some(id) => Some(ClaimReference::from_claim_id(id.as_str())),
                    None => None,
                };
            }
        }
        i = i + 1;
    }
    links
}

/// The read records of claims, each with its evidence references of the
/// scope, its episodes and its revision links.
pub fn claim_read_records(
    claims: Vec<StoredClaim>,
    evidence: &[(String, EventReference)],
    episodes: &[(String, String)],
    revisions: &[RevisionRow],
) -> (r: Vec<ClaimReadRecord>)
    ensures
        r@.len() == claims@.len(),
        forall|i: int|
            0 <= i < r@.len() ==> {
                let c = claims@[i].claim_id@;
                &&& (#[trigger] r@[i]).claim == claims@[i]
                &&& ref_views(r@[i].evidence_event_references@) == refs_of(evidence@, c)
                &&& texts(r@[i].episode_references@) == values_of(pairs_view(episodes@), c)
                &&& opt_text(r@[i].revision.source_reflection_id) == first_source(revisions@, c)
                &&& opt_claim(r@[i].revision.supersedes_claim_reference) == first_supersedes(
                    revisions@,
                    c,
                )
                &&& opt_text(r@[i].revision.superseded_by_reflection_id) == first_superseder(
                    revisions@,
                    c,
                )
                &&& opt_claim(r@[i].revision.replacement_claim_reference) == first_replacement(
                    revisions@,
                    c,
                )
            },
{
    let ghost all = claims@;
    let mut rest = claims;
    let mut r: Vec<ClaimReadRecord> = Vec::new();
    while rest.len() > 0
        invariant
            r@.len() + rest@.len() == all.len(),
            rest@ == all.subrange(r@.len() as int, all.len() as int),
            forall|i: int|
                0 <= i < r@.len() ==> {
                    let c = all[i].claim_id@;
                    &&& (#[trigger] r@[i]).claim == all[i]
                    &&& ref_views(r@[i].evidence_event_references@) == refs_of(evidence@, c)
                    &&& texts(r@[i].episode_references@) == values_of(pairs_view(episodes@), c)
                    &&& opt_text(r@[i].revision.source_reflection_id) == first_source(
                        revisions@,
                        c,
                    )
                    &&& opt_claim(r@[i].revision.supersedes_claim_reference) == first_supersedes(
                        revisions@,
                        c,
                    )
                    &&& opt_text(r@[i].revision.superseded_by_reflection_id) == first_superseder(
                        revisions@,
                        c,
                    )
                    &&& opt_claim(r@[i].revision.replacement_claim_reference)
                        == first_replacement(revisions@, c)
                },
        decreases rest@.len(),
    {
        let ghost k = r@.len() as int;
        let claim = rest.remove(0);
        assert(claim == all[k]);
        assert(rest@ =~= all.subrange(k + 1, all.len() as int));
        let refs = references_for_key(evidence, claim.claim_id.as_str());
        let eps = values_for_key(episodes, claim.claim_id.as_str());
        let links = revision_links_for(revisions, claim.claim_id.as_str());
        r.push(ClaimReadRecord::new(claim, refs, eps, links));
    }
    r
}

/// A page of at most `limit` records from a list fetched with one extra
/// record, and whether more records follow.
pub fn split_page<T>(records: Vec<T>, limit: usize) -> (r: (Vec<T>, bool))
    ensures
        r.1 == (records@.len() > limit),
        r.0@ == if records@.len() > limit {
            records@.subrange(0, limit as int)
        } else {
            records@
        },
{
    let has_more = records.len() > limit;
    let mut page = records;
    if has_more {
        page.truncate(limit);
    }
    (page, has_more)
}

/// A reflection-history row read back, before its evidence is limited to
/// the scope.
#[derive(Debug, Clone, PartialEq, Eq)]
pub struct UnfilteredHistoryRecord {
    pub reflection_id: String,
    pub recorded_at: Timestamp,
    pub summary: String,
    pub superseded_claim_id: Option<String>,
    pub replacement_claim_id: Option<String>,
    pub supporting_evidence_event_ids: Vec<String>,
}

/// A row of the reflection-history statement.
#[derive(Debug, Clone, PartialEq, Eq)]
pub struct HistoryRow {
    pub reflection_id: String,
    pub recorded_at: String,
    pub summary: String,
    pub superseded_claim_id: Option<String>,
    pub replacement_claim_id: Option<String>,
    pub supporting_evidence_event_ids: String,
}

/// A reflection-history row read back: its time must parse, and its
/// evidence ids must be a JSON array of strings.
pub fn unfiltered_history_record(row: &HistoryRow) -> (r: Result<
    UnfilteredHistoryRecord,
    AppError,
>)
    ensures
        match rfc3339_timestamp(row.recorded_at@) {
            Err(m) => (r matches Err(e) && e is Message && e.message_view() == m),
            Ok(t) => match json_string_list(row.supporting_evidence_event_ids@) {
                Err(m) => (r matches Err(e) && e is Message && e.message_view() == m),
                Ok(ids) => (r matches Ok(rec) && rec.reflection_id@ == row.reflection_id@
                    && rec.recorded_at == t && rec.summary@ == row.summary@ && opt_text(
                    rec.superseded_claim_id,
                ) == opt_text(row.superseded_claim_id) && opt_text(rec.replacement_claim_id)
                    == opt_text(row.replacement_claim_id) && texts(
                    rec.supporting_evidence_event_ids@,
                ) == ids),
            },
        },
{
    let recorded_at = match parse_stored_timestamp(row.recorded_at.as_str()) {
        Ok(t) => t,
        Err(e) => {
            return Err(e);
        },
    };
    let ids = match strings_from_json(row.supporting_evidence_event_ids.as_str()) {
        Ok(v) => v,
        Err(e) => {
            return Err(e);
        },
    };
    Ok(
        UnfilteredHistoryRecord {
            reflection_id: row.reflection_id.clone(),
            recorded_at,
            summary: row.summary.clone(),
            superseded_claim_id: match &row.superseded_claim_id {
                Some(s) => Some(s.clone()),
                None => None,
            },
            replacement_claim_id: match &row.replacement_claim_id {
                Some(s) => Some(s.clone()),
                None => None,
            },
            supporting_evidence_event_ids: ids,
        },
    )
}

/// The distinct evidence ids of a page of history records, sorted, as the
/// scope check reads them.
pub fn distinct_evidence_ids(records: &[UnfilteredHistoryRecord]) -> (r: Vec<String>)
    ensures
        strictly_sorted(texts(r@)),
        forall|x: Seq<char>| texts(r@).contains(x) <==> exists|i: int, j: int|
            0 <= i < records@.len() && 0 <= j < records@[i].supporting_evidence_event_ids@.len()
                && #[trigger] records@[i].supporting_evidence_event_ids@[j]@ == x,
{
    let mut r: Vec<String> = Vec::new();
    let mut i: usize = 0;
    while i < records.len()
        invariant
            i <= records@.len(),
            strictly_sorted(texts(r@)),
            forall|x: Seq<char>| texts(r@).contains(x) <==> exists|a: int, b: int|
                0 <= a < i && 0 <= b < records@[a].supporting_evidence_event_ids@.len()
                    && #[trigger] records@[a].supporting_evidence_event_ids@[b]@ == x,
        decreases records@.len() - i,
    {
        let ids = &records[i].supporting_evidence_event_ids;
        let mut j: usize = 0;
        while j < ids.len()
            invariant
                i < records@.len(),
                ids@ == records@[i as int].supporting_evidence_event_ids@,
                j <= ids@.len(),
                strictly_sorted(texts(r@)),
                forall|x: Seq<char>| texts(r@).contains(x) <==> (exists|a: int, b: int|
                    0 <= a < i && 0 <= b < records@[a].supporting_evidence_event_ids@.len()
                        && #[trigger] records@[a].supporting_evidence_event_ids@[b]@ == x) || (
                    exists|b: int| 0 <= b < j && #[trigger] ids@[b]@ == x),
            decreases ids@.len() - j,
        {
            let ghost before = texts(r@);
            insert_sorted_distinct(&mut r, ids[j].clone());
            assert forall|x: Seq<char>| texts(r@).contains(x) <==> (exists|a: int, b: int|
                0 <= a < i && 0 <= b < records@[a].supporting_evidence_event_ids@.len()
                    && #[trigger] records@[a].supporting_evidence_event_ids@[b]@ == x) || (exists|
                b: int,
            | 0 <= b < j + 1 && #[trigger] ids@[b]@ == x) by {
                if x == ids@[j as int]@ {
                    assert(texts(r@).contains(x));
                }
                if exists|b: int| 0 <= b < j + 1 && #[trigger] ids@[b]@ == x {
                    let b = choose|b: int| 0 <= b < j + 1 && #[trigger] ids@[b]@ == x;
                    if b < j {
                        assert(before.contains(x));
                    }
                }
            }
            j = j + 1;
        }
        assert forall|x: Seq<char>| texts(r@).contains(x) <==> exists|a: int, b: int|
            0 <= a < i + 1 && 0 <= b < records@[a].supporting_evidence_event_ids@.len()
                && #[trigger] records@[a].supporting_evidence_event_ids@[b]@ == x by {
            if exists|b: int| 0 <= b < ids@.len() && #[trigger] ids@[b]@ == x {
                let b = choose|b: int| 0 <= b < ids@.len() && #[trigger] ids@[b]@ == x;
                assert(records@[i as int].supporting_evidence_event_ids@[b]@ == x);
            }
            if exists|a: int, b: int|
                0 <= a < i + 1 && 0 <= b < records@[a].supporting_evidence_event_ids@.len()
                    && #[trigger] records@[a].supporting_evidence_event_ids@[b]@ == x {
                let (a, b) = choose|a: int, b: int|
                    0 <= a < i + 1 && 0 <= b < records@[a].supporting_evidence_event_ids@.len()
                        && #[trigger] records@[a].supporting_evidence_event_ids@[b]@ == x;
                if a == i {
                    assert(ids@[b]@ == x);
                }
            }
        }
        i = i + 1;
    }
    r
}

/// A history record with its evidence limited to the events of the scope
/// (`scoped_ids`): each such id once, in the order first given.
pub fn scoped_history_record(record: UnfilteredHistoryRecord, scoped_ids: &[String]) -> (r:
    ClaimReflectionHistoryRecord)
    ensures
        r.reflection_id == record.reflection_id,
        r.recorded_at == record.recorded_at,
        r.summary == record.summary,
        opt_claim(r.superseded_claim_reference) == opt_text(record.superseded_claim_id),
        opt_claim(r.replacement_claim_reference) == opt_text(record.replacement_claim_id),
        ref_views(r.supporting_evidence_event_references@) == dedup(
            keep_in(texts(record.supporting_evidence_event_ids@), texts(scoped_ids@)),
        ),
{
    let kept = keep_listed(&record.supporting_evidence_event_ids, scoped_ids);
    let distinct = dedupe_strings(kept);
    let mut refs: Vec<EventReference> = Vec::new();
    let mut i: usize = 0;
    while i < distinct.len()
        invariant
            i <= distinct@.len(),
            ref_views(refs@) == texts(distinct@).take(i as int),
        decreases distinct@.len() - i,
    {
        let ghost before = refs@;
        refs.push(EventReference::from_event_id(distinct[i].as_str()));
        i = i + 1;
        assert(ref_views(refs@) =~= ref_views(before).push(distinct@[i - 1]@));
        assert(texts(distinct@).take(i as int) =~= texts(distinct@).take(i - 1).push(
            distinct@[i - 1]@,
        ));
    }
    assert(texts(distinct@).take(distinct@.len() as int) =~= texts(distinct@));
    ClaimReflectionHistoryRecord {
        reflection_id: record.reflection_id,
        recorded_at: record.recorded_at,
        summary: record.summary,
        superseded_claim_reference: match &record.superseded_claim_id {
            Some(id) => Some(ClaimReference::from_claim_id(id.as_str())),
            None => None,
        },
        replacement_claim_reference: match &record.replacement_claim_id {
            Some(id) => Some(ClaimReference::from_claim_id(id.as_str())),
            None => None,
        },
        supporting_evidence_event_references: refs,
    }
}


/// Where a store transaction stands: whether it is still open, and whether a
/// write in it has failed, which poisons it.
#[derive(Debug, Clone, Copy, PartialEq, Eq, Structural)]
pub struct TransactionState {
    pub open: bool,
    pub poisoned: bool,
}

/// What is asked of a store transaction: a write, with whether the database
/// carried it out, or the commit.
#[derive(Debug, Clone, Copy, PartialEq, Eq, Structural)]
pub enum TransactionRequest {
    Write(bool),
    Commit,
}

/// A transaction accepts a request only while it is open and unpoisoned.
pub open spec fn accepts(s: TransactionState) -> bool {
    s.open && !s.poisoned
}

/// The state after a request: a refused request changes nothing; a failed
/// write poisons the transaction; a commit closes it.
pub open spec fn next_state(s: TransactionState, req: TransactionRequest) -> TransactionState {
    if !accepts(s) {
        s
    } else {
        match req {
            TransactionRequest::Write(succeeded) => if succeeded {
                s
            } else {
                TransactionState { open: s.open, poisoned: true }
            },
            TransactionRequest::Commit => TransactionState { open: false, poisoned: false },
        }
    }
}

/// The state after a run of requests.
pub open spec fn run_requests(s: TransactionState, reqs: Seq<TransactionRequest>) -> TransactionState
    decreases reqs.len(),
{
    if reqs.len() == 0 {
        s
    } else {
        run_requests(next_state(s, reqs[0]), reqs.subrange(1, reqs.len() as int))
    }
}

/// The message for a request that a transaction refuses in state `s`.
pub open spec fn refusal_message(s: TransactionState, req: TransactionRequest) -> Seq<char> {
    if s.poisoned {
        match req {
            TransactionRequest::Write(_) => "transaction is poisoned and cannot accept more writes"@,
            TransactionRequest::Commit => "transaction is poisoned and cannot be committed"@,
        }
    } else {
        "transaction already closed"@
    }
}

impl TransactionState {
    /// A transaction that has just begun.
    pub fn begin() -> (r: TransactionState)
        ensures
            r.open && !r.poisoned,
    {
        TransactionState { open: true, poisoned: false }
    }

    /// Checks that the transaction takes another write.
    pub fn check_write(&self) -> (r: Result<(), AppError>)
        ensures
            r is Ok <==> accepts(*self),
            match r {
                Err(e) => e is Message && e.message_view() == refusal_message(
                    *self,
                    TransactionRequest::Write(true),
                ),
                Ok(_) => true,
            },
    {
        if self.poisoned {
            return Err(AppError::internal("transaction is poisoned and cannot accept more writes"));
        }
        if !self.open {
            return Err(AppError::internal("transaction already closed"));
        }
        Ok(())
    }

    /// Notes the outcome of an accepted write: a failure poisons the
    /// transaction.
    pub fn record_write(&mut self, succeeded: bool)
        requires
            accepts(*old(self)),
        ensures
            *final(self) == next_state(*old(self), TransactionRequest::Write(succeeded)),
    {
        if !succeeded {
            self.poisoned = true;
        }
    }

    /// Closes the transaction for its commit, unless it is poisoned or
    /// already closed.
    pub fn commit(&mut self) -> (r: Result<(), AppError>)
        ensures
            r is Ok <==> accepts(*old(self)),
            *final(self) == next_state(*old(self), TransactionRequest::Commit),
            match r {
                Err(e) => e is Message && e.message_view() == refusal_message(
                    *old(self),
                    TransactionRequest::Commit,
                ),
                Ok(_) => true,
            },
    {
        if self.poisoned {
            return Err(AppError::internal("transaction is poisoned and cannot be committed"));
        }
        if !self.open {
            return Err(AppError::internal("transaction already closed"));
        }
        self.open = false;
        Ok(())
    }
}

/// Once a write has failed, the transaction refuses every later write and
/// its commit: it stays poisoned whatever is asked of it, so nothing of it
/// is ever committed.
pub proof fn lemma_poisoned_transaction_refuses_everything(
    s: TransactionState,
    reqs: Seq<TransactionRequest>,
)
    requires
        s.poisoned,
    ensures
        run_requests(s, reqs) == s,
        !accepts(run_requests(s, reqs)),
    decreases reqs.len(),
{
    if reqs.len() > 0 {
        lemma_poisoned_transaction_refuses_everything(
            next_state(s, reqs[0]),
            reqs.subrange(1, reqs.len() as int),
        );
    }
}

/// A transaction whose writes all succeed can still be committed, and is
/// closed afterwards.
pub proof fn lemma_successful_writes_commit(s: TransactionState, n: nat)
    requires
        accepts(s),
    ensures
        accepts(run_requests(s, Seq::new(n, |i: int| TransactionRequest::Write(true)))),
        !run_requests(
            s,
            Seq::new(n, |i: int| TransactionRequest::Write(true)).push(TransactionRequest::Commit),
        ).open,
    decreases n,
{
    let writes = Seq::new(n, |i: int| TransactionRequest::Write(true));
    let shorter = Seq::new((n - 1) as nat, |i: int| TransactionRequest::Write(true));
    let with_commit = writes.push(TransactionRequest::Commit);
    if n > 0 {
        lemma_successful_writes_commit(s, (n - 1) as nat);
        assert(next_state(s, TransactionRequest::Write(true)) == s);
        assert(writes.subrange(1, n as int) =~= shorter);
        assert(run_requests(s, writes) == run_requests(s, shorter));
        assert(with_commit.subrange(1, (n + 1) as int) =~= shorter.push(
            TransactionRequest::Commit,
        ));
        assert(run_requests(s, with_commit) == run_requests(
            s,
            shorter.push(TransactionRequest::Commit),
        ));
    } else {
        let closed = next_state(s, TransactionRequest::Commit);
        assert(with_commit.subrange(1, 1) =~= Seq::<TransactionRequest>::empty());
        assert(run_requests(closed, Seq::<TransactionRequest>::empty()) == closed);
        assert(run_requests(s, with_commit) == closed);
        assert(run_requests(s, writes) == s);
    }
}

} // verus!
