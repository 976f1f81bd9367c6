//! Ingesting an interaction: the event is stored, linked to its episode, and
//! each claim drawn from it is checked and stored with the event as evidence.
use vstd::prelude::*;

use crate::domain::claim::{claim_draft_rejection, ClaimDraft};
use crate::domain::error::{domain_error_name, AppError};
use crate::domain::event::Event;
use crate::domain::time::Timestamp;
use crate::ports::{ClaimStatus, StoredClaim, StoredEvent};
use crate::text::{concat3, decimal, decimal_string};

verus! {

/// An interaction to ingest: the event, the claims drawn from it, and the
/// episode it belongs to.
#[derive(Debug, Clone, PartialEq, Eq)]
pub struct IngestInput {
    event: Event,
    claim_drafts: Vec<ClaimDraft>,
    episode_reference: Option<String>,
}

impl IngestInput {
    pub closed spec fn spec_event(&self) -> Event {
        self.event
    }

    pub closed spec fn spec_claim_drafts(&self) -> Seq<ClaimDraft> {
        self.claim_drafts@
    }

    pub closed spec fn spec_episode_reference(&self) -> Option<String> {
        self.episode_reference
    }

    pub fn new(event: Event, claim_drafts: Vec<ClaimDraft>, episode_reference: Option<String>) -> (r:
        IngestInput)
        ensures
            r.spec_event() == event,
            r.spec_claim_drafts() == claim_drafts@,
            r.spec_episode_reference() == episode_reference,
    {
        IngestInput { event, claim_drafts, episode_reference }
    }

    /// The event, the claim drafts and the episode reference.
    pub fn into_parts(self) -> (r: (Event, Vec<ClaimDraft>, Option<String>))
        ensures
            r.0 == self.spec_event(),
            r.1@ == self.spec_claim_drafts(),
            r.2 == self.spec_episode_reference(),
    {
        (self.event, self.claim_drafts, self.episode_reference)
    }
}

/// What an ingestion reports.
#[derive(Debug, Clone, PartialEq, Eq)]
pub struct IngestResult {
    pub event_id: String,
}

impl IngestResult {
    pub fn from_event(event: &StoredEvent) -> (r: IngestResult)
        ensures
            r.event_id@ == event.event_id@,
    {
        IngestResult { event_id: event.event_id.clone() }
    }
}

/// The event as stored, with its id and recording time.
pub fn build_event(event_id: String, recorded_at: Timestamp, event: Event) -> (r: StoredEvent)
    ensures
        r.event_id == event_id,
        r.recorded_at == recorded_at,
        r.event == event,
{
    StoredEvent::new(event_id, recorded_at, event)
}

/// The id of the claim drawn at `index` from the event `event_id`:
/// `<event_id>:claim:<index>`.
pub open spec fn derived_claim_id(event_id: Seq<char>, index: nat) -> Seq<char> {
    event_id + ":claim:"@ + decimal(index)
}

/// `c` is the claim drawn at `index` from the event `event_id` out of `draft`.
pub open spec fn is_derived_claim(c: StoredClaim, draft: ClaimDraft, event_id: Seq<char>, index: int) -> bool {
    c.claim == draft && c.claim_id@ == derived_claim_id(event_id, index as nat) && c.status
        == ClaimStatus::Active
}

/// The first draft, if any, that its rules refuse with the event as its one
/// piece of evidence.
pub open spec fn first_refused_draft(drafts: Seq<ClaimDraft>) -> Option<int> {
    if exists|i: int|
        0 <= i < drafts.len() && (#[trigger] claim_draft_rejection(
            drafts[i].spec_owner(),
            drafts[i].spec_namespace(),
            drafts[i].spec_mode(),
            1,
        )) is Some {
        Some(
            choose|i: int|
                0 <= i < drafts.len() && (#[trigger] claim_draft_rejection(
                    drafts[i].spec_owner(),
                    drafts[i].spec_namespace(),
                    drafts[i].spec_mode(),
                    1,
                )) is Some && forall|j: int|
                    0 <= j < i ==> (#[trigger] claim_draft_rejection(
                        drafts[j].spec_owner(),
                        drafts[j].spec_namespace(),
                        drafts[j].spec_mode(),
                        1,
                    )) is None,
        )
    } else {
        None
    }
}

/// The claims drawn from the event `event_id`, each active, with the id
/// `<event_id>:claim:<index>`; refused with the name of the rule that the
/// first refused draft breaks.
pub fn derive_claims(event_id: &str, drafts: Vec<ClaimDraft>) -> (r: Result<
    Vec<StoredClaim>,
    AppError,
>)
    ensures
        match first_refused_draft(drafts@) {
            Some(k) => r matches Err(e) && e is Message && Some(e.message_view())
                == match claim_draft_rejection(
                drafts@[k].spec_owner(),
                drafts@[k].spec_namespace(),
                drafts@[k].spec_mode(),
                1,
            ) {
                Some(de) => Some(domain_error_name(de)),
                None => None::<Seq<char>>,
            },
            None => r matches Ok(claims) && claims@.len() == drafts@.len() && forall|i: int|
                0 <= i < drafts@.len() ==> is_derived_claim(#[trigger] claims@[i], drafts@[i], event_id@, i),
        },
{
    let ghost all = drafts@;
    let total: usize = drafts.len();
    let mut claims: Vec<StoredClaim> = Vec::new();
    let mut rest = drafts;
    // Reverse so that popping yields the drafts in order.
    let mut pending: Vec<ClaimDraft> = Vec::new();
    while rest.len() > 0
        invariant
            pending@.len() + rest@.len() == all.len(),
            rest@ == all.take(rest@.len() as int),
            forall|k: int| 0 <= k < pending@.len() ==> #[trigger] pending@[k] == all[all.len() - 1 - k],
        decreases rest@.len(),
    {
        let d = rest.pop().unwrap();
        pending.push(d);
    }
    let mut index: usize = 0;
    while pending.len() > 0
        invariant
            all == drafts@,
            total == all.len(),
            index == claims@.len(),
            index + pending@.len() == all.len(),
            forall|k: int| 0 <= k < pending@.len() ==> #[trigger] pending@[k] == all[all.len() - 1 - k],
            forall|j: int|
                0 <= j < index ==> (#[trigger] claim_draft_rejection(
                    all[j].spec_owner(),
                    all[j].spec_namespace(),
                    all[j].spec_mode(),
                    1,
                )) is None,
            forall|i: int| 0 <= i < index ==> is_derived_claim(#[trigger] claims@[i], all[i], event_id@, i),
        decreases pending@.len(),
    {
        let draft = pending.pop().unwrap();
        assert(draft == all[index as int]);
        match draft.validate(1) {
            Ok(()) => {},
            Err(e) => {
                proof {
                    let k = index as int;
                    let c = choose|i: int|
                        0 <= i < all.len() && (#[trigger] claim_draft_rejection(
                            all[i].spec_owner(),
                            all[i].spec_namespace(),
                            all[i].spec_mode(),
                            1,
                        )) is Some && forall|j: int|
                            0 <= j < i ==> (#[trigger] claim_draft_rejection(
                                all[j].spec_owner(),
                                all[j].spec_namespace(),
                                all[j].spec_mode(),
                                1,
                            )) is None;
                    assert(claim_draft_rejection(
                        all[k].spec_owner(),
                        all[k].spec_namespace(),
                        all[k].spec_mode(),
                        1,
                    ) is Some);
                    if c < k {
                        assert(claim_draft_rejection(
                            all[c].spec_owner(),
                            all[c].spec_namespace(),
                            all[c].spec_mode(),
                            1,
                        ) is None);
                    }
                    if c > k {
                        assert(claim_draft_rejection(
                            all[k].spec_owner(),
                            all[k].spec_namespace(),
                            all[k].spec_mode(),
                            1,
                        ) is None);
                    }
                    assert(first_refused_draft(all) == Some(k));
                    assert(claim_draft_rejection(
                        all[k].spec_owner(),
                        all[k].spec_namespace(),
                        all[k].spec_mode(),
                        1,
                    ) == Some(e));
                }
                let err = AppError::from_domain(e);
                assert(Some(err.message_view()) == Some(domain_error_name(e)));
                return Err(err);
            },
        }
        let digits = decimal_string(index);
        let id = concat3(event_id, ":claim:", digits.as_str());
        let ghost before = claims@;
        let stored = StoredClaim::new(id, draft, ClaimStatus::Active);
        assert(stored.claim == all[index as int]);
        assert(stored.claim_id@ == derived_claim_id(event_id@, index as nat));
        claims.push(stored);
        assert(claims@[index as int] == stored);
        assert forall|i: int| 0 <= i < index + 1 implies is_derived_claim(#[trigger] claims@[i], all[i], event_id@, i) by {
            if i < index {
                assert(claims@[i] == before[i]);
                assert(is_derived_claim(before[i], all[i], event_id@, i));
            }
        }
        index = index + 1;
    }
    proof {
        assert(!exists|i: int|
            0 <= i < all.len() && (#[trigger] claim_draft_rejection(
                all[i].spec_owner(),
                all[i].spec_namespace(),
                all[i].spec_mode(),
                1,
            )) is Some);
    }
    Ok(claims)
}

/// One write of an ingest, in the transaction that records it.
#[derive(Debug)]
pub enum IngestWrite {
    /// Store the event.
    AppendEvent(StoredEvent),
    /// Put the event (second) in the episode (first).
    RecordEventInEpisode(String, String),
    /// Store the claim.
    UpsertClaim(StoredClaim),
    /// Link the claim (first) to the event (second) as its evidence.
    LinkEvidence(String, String),
}

/// `ws` records the claims, each followed by its evidence link to the event
/// `event_id`, starting at position `off`.
pub open spec fn claim_writes_at(
    ws: Seq<IngestWrite>,
    off: int,
    drafts: Seq<ClaimDraft>,
    event_id: Seq<char>,
) -> bool {
    &&& ws.len() == off + 2 * drafts.len()
    &&& forall|i: int|
        0 <= i < drafts.len() ==> {
            &&& (#[trigger] ws[off + 2 * i]) matches IngestWrite::UpsertClaim(c) && is_derived_claim(
                c,
                drafts[i],
                event_id,
                i,
            )
            &&& ws[off + 2 * i + 1] matches IngestWrite::LinkEvidence(a, b) && a@ == derived_claim_id(
                event_id,
                i as nat,
            ) && b@ == event_id
        }
}

/// The writes that record an ingest of `input` as the event `event_id`
/// recorded at `recorded_at`, in order: the event, its place in its episode
/// when it has one, then each drawn claim followed by its evidence link.
/// Refused, with nothing to write, when a claim draft is refused.
pub fn ingest_writes(event_id: String, recorded_at: Timestamp, input: IngestInput) -> (r: Result<
    (Vec<IngestWrite>, IngestResult),
    AppError,
>)
    ensures
        match first_refused_draft(input.spec_claim_drafts()) {
            Some(k) => r matches Err(e) && e is Message && Some(e.message_view())
                == match claim_draft_rejection(
                input.spec_claim_drafts()[k].spec_owner(),
                input.spec_claim_drafts()[k].spec_namespace(),
                input.spec_claim_drafts()[k].spec_mode(),
                1,
            ) {
                Some(de) => Some(domain_error_name(de)),
                None => None::<Seq<char>>,
            },
            None => r matches Ok((ws, res)) && {
                let off: int = if input.spec_episode_reference() is Some {
                    2
                } else {
                    1
                };
                &&& ws@.len() >= 1
                &&& ws@[0] matches IngestWrite::AppendEvent(ev) && ev.event_id == event_id
                    && ev.recorded_at == recorded_at && ev.event == input.spec_event()
                &&& input.spec_episode_reference() matches Some(ep) ==> ws@[1] matches IngestWrite::RecordEventInEpisode(a, b)
                    && a@ == ep@ && b@ == event_id@
                &&& claim_writes_at(ws@, off, input.spec_claim_drafts(), event_id@)
                &&& res.event_id@ == event_id@
            },
        },
{
    let ghost ds = input.spec_claim_drafts();
    let ghost eid_view = event_id@;
    let ghost ev0 = input.spec_event();
    let (event, drafts, episode_reference) = input.into_parts();
    let stored = build_event(event_id, recorded_at, event);
    let claims = match derive_claims(stored.event_id.as_str(), drafts) {
        Ok(claims) => claims,
        Err(e) => {
            return Err(e);
        },
    };
    let result = IngestResult::from_event(&stored);
    let eid = stored.event_id.clone();
    let mut writes: Vec<IngestWrite> = Vec::new();
    writes.push(IngestWrite::AppendEvent(stored));
    match episode_reference {
        Some(ep) => {
            writes.push(IngestWrite::RecordEventInEpisode(ep, eid.clone()));
        },
        None => {},
    }
    let off: usize = writes.len();
    let ghost head = writes@;
    let ghost all = claims@;
    let mut rest = claims;
    let count = rest.len();
    let mut i: usize = 0;
    while rest.len() > 0
        invariant
            off == head.len(),
            off == 1 || off == 2,
            eid@ == eid_view,
            all.len() == ds.len(),
            all.len() == count,
            forall|j: int| 0 <= j < ds.len() ==> is_derived_claim(#[trigger] all[j], ds[j], eid_view, j),
            writes@.len() == off + 2 * i,
            writes@.subrange(0, off as int) == head,
            i + rest@.len() == all.len(),
            rest@ == all.subrange(i as int, all.len() as int),
            forall|j: int|
                0 <= j < i ==> {
                    &&& (#[trigger] writes@[off + 2 * j]) matches IngestWrite::UpsertClaim(c)
                        && is_derived_claim(c, ds[j], eid_view, j)
                    &&& writes@[off + 2 * j + 1] matches IngestWrite::LinkEvidence(a, b) && a@
                        == derived_claim_id(eid_view, j as nat) && b@ == eid_view
                },
        decreases rest@.len(),
    {
        let ghost before = writes@;
        let c = rest.remove(0);
        assert(c == all[i as int]);
        let cid = c.claim_id.clone();
        writes.push(IngestWrite::UpsertClaim(c));
        writes.push(IngestWrite::LinkEvidence(cid, eid.clone()));
        proof {
            assert(writes@.subrange(0, off as int) =~= before.subrange(0, off as int));
            assert forall|j: int| 0 <= j < i + 1 implies {
                &&& (#[trigger] writes@[off + 2 * j]) matches IngestWrite::UpsertClaim(c)
                    && is_derived_claim(c, ds[j], eid_view, j)
                &&& writes@[off + 2 * j + 1] matches IngestWrite::LinkEvidence(a, b) && a@
                    == derived_claim_id(eid_view, j as nat) && b@ == eid_view
            } by {
                if j < i {
                    assert(writes@[off + 2 * j] == before[off + 2 * j]);
                    assert(writes@[off + 2 * j + 1] == before[off + 2 * j + 1]);
                }
            }
        }
        i = i + 1;
    }
    assert(writes@[0] == head[0]);
    assert(off == 2 ==> writes@[1] == head[1]);
    Ok((writes, result))
}

} // verus!
