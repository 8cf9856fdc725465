//! The event store: an append-only log of timeline events, read by project
//! with optional filters, newest first and page by page.

use crate::error::ErrorKind;
use crate::ids::{parse_uuid, uuid_parse};
use crate::order::{
    is_newest_first, lemma_newest_first_order, newest_first, newest_first_order, reorder,
};
use crate::text::{chars_of, contains_text, part_contains, same_text};
use crate::time::Timestamp;
use crate::timeline::{TimelineEvent, TimelineEventView};
use vstd::prelude::*;

verus! {

/// The event mentions `needle`: its title or its description contains it,
/// in any mix of upper and lower case.
pub open spec fn mentions(event: TimelineEventView, needle: Seq<char>) -> bool {
    contains_text(event.title, needle, true) || (event.description matches Some(d)
        && contains_text(d, needle, true))
}

/// The event belongs to project `project_id` and passes the filters that are
/// given: it mentions `search`, and the name of its variant is one of
/// `event_types`.
pub open spec fn selected(
    event: TimelineEventView,
    project_id: u128,
    search: Option<Seq<char>>,
    event_types: Option<Seq<Seq<char>>>,
) -> bool {
    &&& event.project_id == project_id
    &&& search matches Some(needle) ==> mentions(event, needle)
    &&& event_types matches Some(names) ==> names.contains(event.event_type.tag())
}

/// `selected` as a predicate on events.
pub open spec fn selector(
    project_id: u128,
    search: Option<Seq<char>>,
    event_types: Option<Seq<Seq<char>>>,
) -> spec_fn(TimelineEventView) -> bool {
    |event: TimelineEventView| selected(event, project_id, search, event_types)
}

/// The instants of the events.
pub open spec fn event_times(events: Seq<TimelineEventView>) -> Seq<Timestamp> {
    Seq::new(events.len(), |i: int| events[i].timestamp)
}

/// The selected events of the log `events`, newest first; events of the same
/// instant keep the order in which they were stored.
pub open spec fn timeline_of(
    events: Seq<TimelineEventView>,
    project_id: u128,
    search: Option<Seq<char>>,
    event_types: Option<Seq<Seq<char>>>,
) -> Seq<TimelineEventView> {
    let chosen = events.filter(selector(project_id, search, event_types));
    reorder(chosen, newest_first_order(event_times(chosen)))
}

/// Where the page that skips `offset` items begins in a list of `len` items.
pub open spec fn page_start(len: nat, offset: nat) -> int {
    if offset < len {
        offset as int
    } else {
        len as int
    }
}

/// Where the page of at most `limit` items after `offset` ends.
pub open spec fn page_end(len: nat, offset: nat, limit: nat) -> int {
    if offset + limit < len {
        (offset + limit) as int
    } else {
        len as int
    }
}

/// The page of `items` that skips `offset` items and holds the next `limit`,
/// or as many as are left.
pub open spec fn page<A>(items: Seq<A>, offset: nat, limit: nat) -> Seq<A> {
    items.subrange(page_start(items.len(), offset), page_end(items.len(), offset, limit))
}

/// The log after the appending of `event`: with `event` at the end, and
/// unchanged where it holds an event with that id.
pub open spec fn after_append(events: Seq<TimelineEventView>, event: TimelineEventView) -> Seq<
    TimelineEventView,
> {
    if holds_event(events, event.id) {
        events
    } else {
        events.push(event)
    }
}

/// Some event in `events` has the id `id`.
pub open spec fn holds_event(events: Seq<TimelineEventView>, id: u128) -> bool {
    exists|i: int| 0 <= i < events.len() && (#[trigger] events[i]).id == id
}

/// No two events in `events` share an id.
pub open spec fn distinct_event_ids(events: Seq<TimelineEventView>) -> bool {
    forall|i: int, j: int|
        0 <= i < j < events.len() ==> (#[trigger] events[i]).id != (#[trigger] events[j]).id
}

/// A page holds at most `limit` items, and the page that begins where
/// another ends continues it: the two together are the page of twice the
/// size, so that nothing is listed twice and nothing is left out.
pub proof fn lemma_pages_follow_each_other<A>(items: Seq<A>, offset: nat, limit: nat)
    ensures
        page(items, offset, limit).len() <= limit,
        page(items, offset, limit) + page(items, offset + limit, limit) == page(
            items,
            offset,
            2 * limit,
        ),
        page(items, 0, limit) + page(items, limit, limit) == items.take(
            page_end(items.len(), 0, 2 * limit),
        ),
{
    assert(page(items, offset, limit) + page(items, offset + limit, limit) =~= page(
        items,
        offset,
        2 * limit,
    ));
    assert(page(items, 0, limit) + page(items, limit, limit) =~= items.take(
        page_end(items.len(), 0, 2 * limit),
    ));
}

/// Every item of a list stands on exactly the page that its position gives:
/// item `i` is item `i % limit` of the page at offset `i - i % limit`.
pub proof fn lemma_every_item_is_on_its_page<A>(items: Seq<A>, limit: nat, i: int)
    requires
        0 <= i < items.len(),
        limit > 0,
    ensures
        i % (limit as int) < page(items, (i - i % (limit as int)) as nat, limit).len(),
        page(items, (i - i % (limit as int)) as nat, limit)[i % (limit as int)] == items[i],
{
    let l = limit as int;
    assert(0 <= i % l < l && i % l <= i) by (nonlinear_arith)
        requires
            l > 0,
            i >= 0,
    ;
}

/// A timeline lists its events newest first, and events of one instant in
/// the order in which the log holds them: of two listed events, the later
/// one never carries the later instant.
pub proof fn lemma_timeline_is_newest_first(
    events: Seq<TimelineEventView>,
    project_id: u128,
    search: Option<Seq<char>>,
    event_types: Option<Seq<Seq<char>>>,
    a: int,
    b: int,
)
    requires
        0 <= a < b < timeline_of(events, project_id, search, event_types).len(),
    ensures
        !timeline_of(events, project_id, search, event_types)[a].timestamp.is_before(
            timeline_of(events, project_id, search, event_types)[b].timestamp,
        ),
{
    let chosen = events.filter(selector(project_id, search, event_types));
    lemma_newest_first_order(event_times(chosen));
    let order = newest_first_order(event_times(chosen));
    assert(crate::order::stands_ahead(event_times(chosen), order[a], order[b]));
}

/// Every page of a timeline lists its events newest first.
pub proof fn lemma_page_is_newest_first(
    events: Seq<TimelineEventView>,
    project_id: u128,
    search: Option<Seq<char>>,
    event_types: Option<Seq<Seq<char>>>,
    offset: nat,
    limit: nat,
    a: int,
    b: int,
)
    requires
        0 <= a < b < page(
            timeline_of(events, project_id, search, event_types),
            offset,
            limit,
        ).len(),
    ensures
        ({
            let shown = page(timeline_of(events, project_id, search, event_types), offset, limit);
            !shown[a].timestamp.is_before(shown[b].timestamp)
        }),
{
    let listed = timeline_of(events, project_id, search, event_types);
    let start = page_start(listed.len(), offset);
    lemma_timeline_is_newest_first(events, project_id, search, event_types, start + a, start + b);
}

/// A timeline holds the selected events of the log and no others.
pub proof fn lemma_timeline_holds_the_selected(
    events: Seq<TimelineEventView>,
    project_id: u128,
    search: Option<Seq<char>>,
    event_types: Option<Seq<Seq<char>>>,
)
    ensures
        timeline_of(events, project_id, search, event_types).len() == events.filter(
            selector(project_id, search, event_types),
        ).len(),
        forall|a: int|
            0 <= a < timeline_of(events, project_id, search, event_types).len() ==> selected(
                #[trigger] timeline_of(events, project_id, search, event_types)[a],
                project_id,
                search,
                event_types,
            ) && events.contains(timeline_of(events, project_id, search, event_types)[a]),
        forall|i: int|
            0 <= i < events.len() && selected(
                #[trigger] events[i],
                project_id,
                search,
                event_types,
            ) ==> timeline_of(events, project_id, search, event_types).contains(events[i]),
{
    let pred = selector(project_id, search, event_types);
    let chosen = events.filter(pred);
    let order = newest_first_order(event_times(chosen));
    let listed = timeline_of(events, project_id, search, event_types);
    lemma_newest_first_order(event_times(chosen));
    assert forall|a: int| 0 <= a < listed.len() implies selected(
        #[trigger] listed[a],
        project_id,
        search,
        event_types,
    ) && events.contains(listed[a]) by {
        let k = order[a];
        events.lemma_filter_pred(pred, k);
        assert(chosen.contains(chosen[k]));
        events.lemma_filter_contains_rev(pred, chosen[k]);
    }
    assert forall|i: int|
        0 <= i < events.len() && selected(
            #[trigger] events[i],
            project_id,
            search,
            event_types,
        ) implies listed.contains(events[i]) by {
        events.lemma_filter_contains(pred, i);
        let k = choose|k: int| 0 <= k < chosen.len() && chosen[k] == events[i];
        assert(order.contains(k));
        let a = choose|a: int| 0 <= a < order.len() && order[a] == k;
        assert(listed[a] == events[i]);
    }
}

/// The timeline events of all projects, in the order in which they were
/// stored. Events are added and read; none is changed or removed.
pub struct TimelineService {
    events: Vec<TimelineEvent>,
}

impl View for TimelineService {
    type V = Seq<TimelineEventView>;

    closed spec fn view(&self) -> Seq<TimelineEventView> {
        self.events.deep_view()
    }
}

fn name_is_listed(name: &str, names: &Vec<String>) -> (r: bool)
    ensures
        r == names.deep_view().contains(name@),
{
    let mut i: usize = 0;
    while i < names.len()
        invariant
            i <= names@.len(),
            forall|k: int| 0 <= k < i ==> names.deep_view()[k] != name@,
        decreases names@.len() - i,
    {
        if same_text(names[i].as_str(), name) {
            assert(names.deep_view()[i as int] == name@);
            return true;
        }
        i = i + 1;
    }
    false
}

fn is_selected(
    event: &TimelineEvent,
    project_id: u128,
    needle: &Option<Vec<char>>,
    event_types: &Option<Vec<String>>,
) -> (r: bool)
    ensures
        r == selected(
            event@,
            project_id,
            match *needle {
                Some(n) => Some(n@),
                None => None,
            },
            event_types.deep_view(),
        ),
{
    if event.project_id != project_id {
        return false;
    }
    let mentioned = match needle {
        None => true,
        Some(n) => {
            let title = chars_of(event.title.as_str());
            assert(title@.subrange(0, title@.len() as int) =~= title@);
            if part_contains(&title, 0, title.len(), n, true) {
                true
            } else {
                match &event.description {
                    Some(d) => {
                        let text = chars_of(d.as_str());
                        assert(text@.subrange(0, text@.len() as int) =~= text@);
                        part_contains(&text, 0, text.len(), n, true)
                    },
                    None => false,
                }
            }
        },
    };
    if !mentioned {
        return false;
    }
    match event_types {
        None => true,
        Some(names) => name_is_listed(event.event_type.tag(), names),
    }
}

impl TimelineService {
    /// The log is well formed: no two of its events share an id.
    pub open spec fn wf(&self) -> bool {
        distinct_event_ids(self@)
    }

    /// An empty log.
    pub fn new() -> (service: TimelineService)
        ensures
            service@ == Seq::<TimelineEventView>::empty(),
            service.wf(),
    {
        let service = TimelineService { events: Vec::new() };
        assert(service@ =~= Seq::<TimelineEventView>::empty());
        service
    }

    /// The number of events in the log.
    pub fn len(&self) -> (n: usize)
        ensures
            n == self@.len(),
    {
        self.events.len()
    }

    /// Appends an event to the log. An event whose id the log already holds
    /// is refused with `Storage`. The events that the log held stay as they
    /// were, in their places.
    pub fn add_event(&mut self, event: &TimelineEvent) -> (r: Result<(), ErrorKind>)
        requires
            old(self).wf(),
        ensures
            final(self).wf(),
            r is Ok <==> !holds_event(old(self)@, event.id),
            r matches Err(e) ==> e == ErrorKind::Storage,
            final(self)@ == after_append(old(self)@, event@),
            old(self)@.is_prefix_of(final(self)@),
    {
        let mut i: usize = 0;
        while i < self.events.len()
            invariant
                i <= self.events@.len(),
                self@ == old(self)@,
                distinct_event_ids(self@),
                forall|k: int| 0 <= k < i ==> (#[trigger] self@[k]).id != event.id,
            decreases self.events@.len() - i,
        {
            if self.events[i].id == event.id {
                assert(self@[i as int].id == event.id);
                return Err(ErrorKind::Storage);
            }
            i = i + 1;
        }
        self.events.push(event.clone());
        assert(self@ =~= old(self)@.push(event@));
        Ok(())
    }

    /// A page of the timeline of project `project_id`: of its events that
    /// pass the given filters, newest first, the `limit` events after the
    /// first `offset`, or as many as are left.
    pub fn get_project_timeline(
        &self,
        project_id: u128,
        offset: usize,
        limit: usize,
        search: Option<String>,
        event_types: Option<Vec<String>>,
    ) -> (events: Vec<TimelineEvent>)
        ensures
            events.deep_view() == page(
                timeline_of(self@, project_id, search.deep_view(), event_types.deep_view()),
                offset as nat,
                limit as nat,
            ),
    {
        let needle: Option<Vec<char>> = match &search {
            Some(s) => Some(chars_of(s.as_str())),
            None => None,
        };
        let ghost pred = selector(project_id, search.deep_view(), event_types.deep_view());
        let mut picked: Vec<usize> = Vec::new();
        let mut keys: Vec<Timestamp> = Vec::new();
        let mut i: usize = 0;
        proof {
            reveal(Seq::filter);
            assert(self@.take(0).filter(pred) =~= Seq::empty());
        }
        while i < self.events.len()
            invariant
                i <= self.events@.len(),
                self@.len() == self.events@.len(),
                pred == selector(project_id, search.deep_view(), event_types.deep_view()),
                match needle {
                    Some(n) => search.deep_view() == Some(n@),
                    None => search.deep_view() == None::<Seq<char>>,
                },
                picked@.len() == keys@.len(),
                picked@.len() == self@.take(i as int).filter(pred).len(),
                forall|a: int|
                    0 <= a < picked@.len() ==> (#[trigger] picked@[a]) < i
                        && self@[picked@[a] as int] == self@.take(i as int).filter(pred)[a],
                forall|a: int|
                    0 <= a < picked@.len() ==> #[trigger] keys@[a] == self@.take(i as int).filter(
                        pred,
                    )[a].timestamp,
            decreases self.events@.len() - i,
        {
            proof {
                reveal(Seq::filter);
                assert(self@.take(i as int + 1).drop_last() =~= self@.take(i as int));
            }
            if is_selected(&self.events[i], project_id, &needle, &event_types) {
                picked.push(i);
                keys.push(self.events[i].timestamp);
            }
            i = i + 1;
        }
        let ghost chosen = self@.filter(pred);
        proof {
            assert(self@.take(self@.len() as int) =~= self@);
            assert(keys@ =~= event_times(chosen));
        }
        let order = newest_first(&keys);
        let ghost listed = timeline_of(
            self@,
            project_id,
            search.deep_view(),
            event_types.deep_view(),
        );
        let start: usize = if offset < order.len() {
            offset
        } else {
            order.len()
        };
        let end: usize = if limit < order.len() - start {
            start + limit
        } else {
            order.len()
        };
        proof {
            lemma_newest_first_order(keys@);
        }
        let mut events: Vec<TimelineEvent> = Vec::new();
        let mut a: usize = start;
        while a < end
            invariant
                start <= a <= end <= order@.len(),
                listed.len() == order@.len(),
                is_newest_first(keys@, newest_first_order(keys@)),
                events@.len() == a - start,
                order@.len() == keys@.len(),
                picked@.len() == keys@.len(),
                chosen.len() == keys@.len(),
                self@.len() == self.events@.len(),
                keys@ == event_times(chosen),
                listed == reorder(chosen, newest_first_order(keys@)),
                forall|b: int| 0 <= b < order@.len() ==> #[trigger] order@[b] < keys@.len(),
                forall|b: int|
                    0 <= b < order@.len() ==> #[trigger] order@[b] as int == newest_first_order(
                        keys@,
                    )[b],
                forall|b: int|
                    0 <= b < picked@.len() ==> (#[trigger] picked@[b]) < self@.len()
                        && self@[picked@[b] as int] == chosen[b],
                forall|b: int| 0 <= b < a - start ==> (#[trigger] events@[b])@ == listed[start + b],
            decreases end - a,
        {
            let source = picked[order[a]];
            proof {
                assert(listed[a as int] == chosen[newest_first_order(keys@)[a as int]]);
            }
            events.push(self.events[source].clone());
            a = a + 1;
        }
        proof {
            assert(start == page_start(listed.len(), offset as nat));
            assert(end == page_end(listed.len(), offset as nat, limit as nat));
            assert(events.deep_view() =~= page(listed, offset as nat, limit as nat));
        }
        events
    }
}

/// Appends an event to the log. An event whose id the log already holds is
/// refused with `Storage`. The events that the log held stay as they were,
/// in their places.
pub fn add_timeline_event(service: &mut TimelineService, event: TimelineEvent) -> (r: Result<
    (),
    ErrorKind,
>)
    requires
        old(service).wf(),
    ensures
        final(service).wf(),
        r is Ok <==> !holds_event(old(service)@, event.id),
        r matches Err(e) ==> e == ErrorKind::Storage,
        final(service)@ == after_append(old(service)@, event@),
        old(service)@.is_prefix_of(final(service)@),
{
    service.add_event(&event)
}

/// A page of the timeline of the project that `project_id` names. A
/// `project_id` that is no UUID gives `Parse`.
pub fn get_project_timeline(
    service: &TimelineService,
    project_id: &str,
    offset: usize,
    limit: usize,
    search: Option<String>,
    event_types: Option<Vec<String>>,
) -> (r: Result<Vec<TimelineEvent>, ErrorKind>)
    ensures
        match uuid_parse(project_id@) {
            None => r matches Err(e) && e == ErrorKind::Parse,
            Some(id) => r matches Ok(events) && events.deep_view() == page(
                timeline_of(service@, id, search.deep_view(), event_types.deep_view()),
                offset as nat,
                limit as nat,
            ),
        },
{
    match parse_uuid(project_id) {
        Some(id) => Ok(service.get_project_timeline(id, offset, limit, search, event_types)),
        None => Err(ErrorKind::Parse),
    }
}

} // verus!
