//! The bounded buffer of recent dashboard events: the oldest event leaves when
//! a new one arrives at capacity, and a query reads the latest matching ones,
//! oldest first.
use std::collections::VecDeque;
use vstd::prelude::*;

use crate::domain::json_tree::{copy_tree, tree_view, JsonView};
use crate::domain::time::Timestamp;
use crate::interfaces::dashboard::event::{
    EventQuery, OperationEvent, OperationKind, OperationStatus,
};
use crate::seqs::{copy_opt_string, opt_text};
use crate::text::same_text;

verus! {

/// The fields of an event that the dashboard shows and filters on, its
/// payload last.
pub type EventView = (
    Seq<char>,
    u64,
    Timestamp,
    OperationKind,
    OperationStatus,
    Seq<char>,
    Option<Seq<char>>,
    Seq<char>,
    Option<Seq<char>>,
    JsonView,
);

/// The shown fields and the payload of an event.
pub open spec fn event_view(e: OperationEvent) -> EventView {
    (
        e.id@,
        e.sequence,
        e.timestamp,
        e.kind,
        e.status,
        e.operation@,
        opt_text(e.namespace),
        e.summary@,
        opt_text(e.correlation_id),
        tree_view(e.payload),
    )
}

/// The shown fields of a list of events.
pub open spec fn event_views(s: Seq<OperationEvent>) -> Seq<EventView> {
    s.map_values(|e: OperationEvent| event_view(e))
}

/// A copy of an event: the same shown fields and a copy of its payload.
pub fn duplicate_event(e: &OperationEvent) -> (r: OperationEvent)
    ensures
        event_view(r) == event_view(*e),
{
    OperationEvent {
        id: e.id.clone(),
        sequence: e.sequence,
        timestamp: e.timestamp,
        kind: e.kind,
        status: e.status,
        operation: e.operation.clone(),
        namespace: copy_opt_string(&e.namespace),
        summary: e.summary.clone(),
        correlation_id: copy_opt_string(&e.correlation_id),
        payload: copy_tree(&e.payload),
    }
}

/// The event passes the query's kind, status and namespace filters.
pub open spec fn matches_query(e: EventView, q: EventQuery) -> bool {
    &&& match q.kind {
        Some(k) => e.3 == k,
        None => true,
    }
    &&& match q.status {
        Some(st) => e.4 == st,
        None => true,
    }
    &&& match q.namespace {
        Some(ns) => e.6 == Some(ns@),
        None => true,
    }
}

/// The events that pass the query's filters, in order.
pub open spec fn matching(s: Seq<EventView>, q: EventQuery) -> Seq<EventView>
    decreases s.len(),
{
    if s.len() == 0 {
        Seq::empty()
    } else {
        let rest = matching(s.drop_last(), q);
        if matches_query(s.last(), q) {
            rest.push(s.last())
        } else {
            rest
        }
    }
}

/// The last `n` elements of `s` (all of them when it has fewer).
pub open spec fn last_n<A>(s: Seq<A>, n: nat) -> Seq<A> {
    if s.len() <= n {
        s
    } else {
        s.skip(s.len() - n)
    }
}

/// The recent events of the dashboard, at most `capacity` of them, oldest
/// first.
#[derive(Debug)]
pub struct RecentEvents {
    capacity: usize,
    events: VecDeque<OperationEvent>,
}

impl RecentEvents {
    /// How many events the buffer keeps.
    pub closed spec fn spec_capacity(&self) -> usize {
        self.capacity
    }

    /// The buffered events, oldest first.
    pub closed spec fn spec_events(&self) -> Seq<EventView> {
        event_views(self.events@)
    }

    /// The buffer keeps some events and never more than its capacity.
    #[verifier::type_invariant]
    spec fn well_formed(self) -> bool {
        self.capacity > 0 && self.events@.len() <= self.capacity
    }

    /// An empty buffer for `capacity` events.
    pub fn new(capacity: usize) -> (r: RecentEvents)
        requires
            capacity > 0,
        ensures
            r.spec_capacity() == capacity,
            r.spec_events() == Seq::<EventView>::empty(),
    {
        let r = RecentEvents { capacity, events: VecDeque::new() };
        assert(event_views(r.events@) =~= Seq::<EventView>::empty());
        r
    }

    /// Adds an event; at capacity the oldest event leaves first. The buffer
    /// never holds more than its capacity.
    pub fn append(&mut self, event: OperationEvent)
        ensures
            final(self).spec_capacity() == old(self).spec_capacity(),
            final(self).spec_events() == if old(self).spec_events().len()
                == old(self).spec_capacity() {
                old(self).spec_events().drop_first().push(event_view(event))
            } else {
                old(self).spec_events().push(event_view(event))
            },
            final(self).spec_events().len() <= final(self).spec_capacity(),
    {
        proof {
            use_type_invariant(&*self);
        }
        let mut events: VecDeque<OperationEvent> = VecDeque::new();
        std::mem::swap(&mut events, &mut self.events);
        let ghost before = events@;
        if events.len() == self.capacity {
            let _ = events.pop_front();
            assert(event_views(events@) =~= event_views(before).drop_first());
        }
        let ghost mid = events@;
        events.push_back(event);
        assert(event_views(events@) =~= event_views(mid).push(event_view(event)));
        self.events = events;
    }

    /// The latest events that pass the query's filters, at most its limit (the
    /// capacity by default), oldest first.
    pub fn recent(&self, query: &EventQuery) -> (r: Vec<OperationEvent>)
        ensures
            event_views(r@) == last_n(
                matching(self.spec_events(), *query),
                match query.limit {
                    Some(l) => l as nat,
                    None => self.spec_capacity() as nat,
                },
            ),
    {
        proof {
            use_type_invariant(self);
        }
        let limit: usize = match query.limit {
            Some(l) => l,
            None => self.capacity,
        };
        let ghost views = event_views(self.events@);
        let mut total: usize = 0;
        let mut i: usize = 0;
        while i < self.events.len()
            invariant
                views == event_views(self.events@),
                i <= self.events@.len(),
                total == matching(views.take(i as int), *query).len(),
                total <= i,
            decreases self.events@.len() - i,
        {
            assert(views.take(i + 1).drop_last() =~= views.take(i as int));
            if event_passes(&self.events[i], query) {
                total = total + 1;
            }
            i = i + 1;
        }
        assert(views.take(self.events@.len() as int) =~= views);
        let ghost all = matching(views, *query);
        let start: usize = if total <= limit {
            0
        } else {
            total - limit
        };
        let mut out: Vec<OperationEvent> = Vec::new();
        let mut seen: usize = 0;
        let mut j: usize = 0;
        while j < self.events.len()
            invariant
                views == event_views(self.events@),
                all == matching(views, *query),
                total == all.len(),
                start <= total,
                j <= self.events@.len(),
                seen == matching(views.take(j as int), *query).len(),
                matching(views.take(j as int), *query) == all.take(seen as int),
                event_views(out@) == if seen <= start {
                    Seq::<EventView>::empty()
                } else {
                    all.subrange(start as int, seen as int)
                },
            decreases self.events@.len() - j,
        {
            assert(views.take(j + 1).drop_last() =~= views.take(j as int));
            proof {
                lemma_matching_prefix(views, *query, j as int);
                lemma_matching_is_prefix(views, *query, j + 1);
            }
            if event_passes(&self.events[j], query) {
                let ghost before = out@;
                if seen >= start {
                    out.push(duplicate_event(&self.events[j]));
                    assert(event_views(out@) =~= event_views(before).push(views[j as int]));
                }
                seen = seen + 1;
                assert(all.take(seen as int) =~= all.take(seen - 1).push(views[j as int]));
                assert(all.take(seen as int)[seen - 1] == views[j as int]);
                assert(all[seen - 1] == views[j as int]);
                if seen > start {
                    assert(all.subrange(start as int, seen as int) =~= (if seen - 1 <= start {
                        Seq::<EventView>::empty()
                    } else {
                        all.subrange(start as int, seen - 1)
                    }).push(views[j as int]));
                }
            }
            j = j + 1;
        }
        assert(views.take(self.events@.len() as int) =~= views);
        assert(all.take(total as int) =~= all);
        assert(event_views(out@) =~= last_n(all, limit as nat));
        out
    }
}

/// Whether an event passes the query's filters.
pub fn event_passes(event: &OperationEvent, query: &EventQuery) -> (r: bool)
    ensures
        r == matches_query(event_view(*event), *query),
{
    let kind_ok = match query.kind {
        Some(k) => event.kind == k,
        None => true,
    };
    let status_ok = match query.status {
        Some(st) => event.status == st,
        None => true,
    };
    let namespace_ok = match &query.namespace {
        Some(ns) => match &event.namespace {
            Some(en) => same_text(en.as_str(), ns.as_str()),
            None => false,
        },
        None => true,
    };
    kind_ok && status_ok && namespace_ok
}

/// The matching events of a prefix are a prefix of the matching events.
pub proof fn lemma_matching_is_prefix(s: Seq<EventView>, q: EventQuery, j: int)
    requires
        0 <= j <= s.len(),
    ensures
        matching(s.take(j), q).len() <= matching(s, q).len(),
        matching(s.take(j), q) == matching(s, q).take(matching(s.take(j), q).len() as int),
{
    if j == s.len() {
        assert(s.take(j) =~= s);
        let m = matching(s, q);
        assert(m.take(m.len() as int) =~= m);
    } else {
        lemma_matching_prefix(s, q, j);
    }
}

/// How the matching events grow by one element of the sequence, and that the
/// matching events of a prefix are a prefix of the matching events.
pub proof fn lemma_matching_prefix(s: Seq<EventView>, q: EventQuery, j: int)
    requires
        0 <= j < s.len(),
    ensures
        matching(s.take(j + 1), q) == if matches_query(s[j], q) {
            matching(s.take(j), q).push(s[j])
        } else {
            matching(s.take(j), q)
        },
        matching(s.take(j), q).len() <= matching(s, q).len(),
        matching(s.take(j), q) == matching(s, q).take(matching(s.take(j), q).len() as int),
    decreases s.len(),
{
    assert(s.take(j + 1).drop_last() =~= s.take(j));
    if j == s.len() - 1 {
        assert(s.take(j + 1) =~= s);
        assert(s.drop_last() =~= s.take(j));
        let m = matching(s.take(j), q);
        assert(m.take(m.len() as int) =~= m);
        if matches_query(s[j], q) {
            assert(m.push(s[j]).take(m.len() as int) =~= m);
        }
    } else {
        assert(s.drop_last().take(j) =~= s.take(j));
        assert(s.drop_last().take(j + 1) =~= s.take(j + 1));
        lemma_matching_prefix(s.drop_last(), q, j);
        let m = matching(s.drop_last(), q);
        let k = matching(s.take(j), q).len();
        if matches_query(s.last(), q) {
            assert(m.push(s.last()).take(k as int) =~= m.take(k as int));
        }
    }
}

} // verus!
