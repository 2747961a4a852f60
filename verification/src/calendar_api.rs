//! Calendar events as the assistant reads them, the draft of an event that
//! it writes, and the text that tells the language model about the week.

use vstd::prelude::*;
use vstd::multiset::Multiset;
use vstd::string::*;
use crate::instant::{calendar_day, day_instant, day_start, instant_le, instant_precedes};
use crate::instant::{parse_day, parse_moment, rfc3339_instant};

verus! {

/// When an event starts or ends: a whole day, or a moment with its time
/// zone.
#[derive(Clone, Debug, PartialEq, Eq)]
pub struct EventDateTime {
    pub date: Option<String>,
    pub date_time: Option<String>,
    pub time_zone: Option<String>,
}

/// Who created an event.
#[derive(Clone, Debug, PartialEq, Eq)]
pub struct EventCreator {
    pub email: Option<String>,
    pub display_name: Option<String>,
}

/// Who organizes an event.
#[derive(Clone, Debug, PartialEq, Eq)]
pub struct EventOrganizer {
    pub email: Option<String>,
    pub display_name: Option<String>,
}

/// One event of a calendar.
#[derive(Clone, Debug, PartialEq, Eq)]
pub struct CalendarEvent {
    pub id: Option<String>,
    pub summary: Option<String>,
    pub description: Option<String>,
    pub html_link: Option<String>,
    pub status: Option<String>,
    pub start: Option<EventDateTime>,
    pub end: Option<EventDateTime>,
    pub creator: Option<EventCreator>,
    pub organizer: Option<EventOrganizer>,
}

/// An event to be written: whole-day dates, a fixed description, public
/// visibility, and the one calendar that the assistant writes to.
#[derive(Clone, Debug, PartialEq, Eq)]
pub struct EventDraft {
    pub summary: String,
    pub description: String,
    pub visibility: String,
    pub start_date: String,
    pub end_date: String,
    pub calendar_id: String,
}

/// The description that marks an event as written by the assistant.
pub open spec fn draft_description() -> Seq<char> {
    "Made by MirrorAI"@
}

/// The visibility of every event that the assistant writes.
pub open spec fn draft_visibility() -> Seq<char> {
    "public"@
}

/// The calendar that the assistant writes to.
pub open spec fn target_calendar() -> Seq<char> {
    "c_02f23b407241b05d9235403f1821745ee55848bcc35019ed95ca20c3551e5d5b@group.calendar.google.com"@
}

/// Drafts a whole-day event from its name and its first and last day.
pub fn create_basic_event(name: String, start: String, end: String) -> (draft: EventDraft)
    ensures
        draft.summary@ == name@,
        draft.start_date@ == start@,
        draft.end_date@ == end@,
        draft.description@ == draft_description(),
        draft.visibility@ == draft_visibility(),
        draft.calendar_id@ == target_calendar(),
{
    EventDraft {
        summary: name,
        description: String::from_str("Made by MirrorAI"),
        visibility: String::from_str("public"),
        start_date: start,
        end_date: end,
        calendar_id: String::from_str(
            "c_02f23b407241b05d9235403f1821745ee55848bcc35019ed95ca20c3551e5d5b@group.calendar.google.com",
        ),
    }
}

/// The length of the window in which events are read: seven days of 86400
/// seconds each.
pub open spec fn week_seconds() -> int {
    604800
}

/// The window in which events are read, from a moment given in seconds: it
/// opens at that moment and closes seven days later. There is none where
/// its end cannot be told in 64 bits.
pub fn week_window(now: i64) -> (window: Option<(i64, i64)>)
    ensures
        now + week_seconds() <= i64::MAX ==> window == Some((now, (now + week_seconds()) as i64)),
        now + week_seconds() > i64::MAX ==> window.is_none(),
{
    let week: i64 = 604800;
    if now <= i64::MAX - week {
        Some((now, now + week))
    } else {
        None
    }
}

/// What stands for the start of an event that has none.
pub open spec fn missing_start() -> Seq<char> {
    "NO_START"@
}

/// What stands for the summary of an event that has none.
pub open spec fn missing_summary() -> Seq<char> {
    "NO_SUMMARY"@
}

/// The start of an event as it is shown: the date-time where there is one,
/// else the whole-day date, else the placeholder.
pub open spec fn start_text(event: CalendarEvent) -> Seq<char> {
    match event.start {
        Some(start) => match start.date_time {
            Some(moment) => moment@,
            None => match start.date {
                Some(date) => date@,
                None => missing_start(),
            },
        },
        None => missing_start(),
    }
}

/// The instant at which an event starts: that of its date-time where there
/// is one, else the midnight in UTC that opens its whole-day date. An event
/// without a start, or with one that cannot be read, has none.
pub open spec fn start_instant(event: CalendarEvent) -> Option<(i64, u32)> {
    match event.start {
        Some(start) => match start.date_time {
            Some(moment) => rfc3339_instant(moment@),
            None => match start.date {
                Some(date) => match calendar_day(date@) {
                    Some(day) => Some(day_start(day)),
                    None => None,
                },
                None => None,
            },
        },
        None => None,
    }
}

/// The summary of an event as it is shown.
pub open spec fn summary_text(event: CalendarEvent) -> Seq<char> {
    match event.summary {
        Some(summary) => summary@,
        None => missing_summary(),
    }
}

/// The block of one event: its summary, its start, and a blank line.
pub open spec fn event_block(event: CalendarEvent) -> Seq<char> {
    "Summary:"@ + summary_text(event) + "\nDate:"@ + start_text(event) + "\n\n"@
}

/// The blocks of all events, in the order of the events.
pub open spec fn events_text(events: Seq<CalendarEvent>) -> Seq<char>
    decreases events.len(),
{
    if events.len() == 0 {
        Seq::<char>::empty()
    } else {
        events_text(events.drop_last()) + event_block(events.last())
    }
}

/// The start of an event as text.
pub fn event_start(event: &CalendarEvent) -> (text: String)
    ensures
        text@ == start_text(*event),
{
    match &event.start {
        Some(start) => match &start.date_time {
            Some(moment) => moment.clone(),
            None => match &start.date {
                Some(date) => date.clone(),
                None => String::from_str("NO_START"),
            },
        },
        None => String::from_str("NO_START"),
    }
}

/// Reads the instant at which an event starts.
pub fn event_instant(event: &CalendarEvent) -> (instant: Option<(i64, u32)>)
    ensures
        instant == start_instant(*event),
{
    match &event.start {
        Some(start) => match &start.date_time {
            Some(moment) => parse_moment(moment.as_str()),
            None => match &start.date {
                Some(date) => match parse_day(date.as_str()) {
                    Some(day) => Some(day_instant(day)),
                    None => None,
                },
                None => None,
            },
        },
        None => None,
    }
}

/// Renders the events as `Summary` / `Date` blocks, one per event and in the
/// order given. No event is left out: one without a start shows the
/// placeholder instead.
pub fn events_string(events: &Vec<CalendarEvent>) -> (text: String)
    ensures
        text@ == events_text(events@),
{
    let mut text = String::new();
    let n: usize = events.len();
    let mut i: usize = 0;
    while i < n
        invariant
            n == events@.len(),
            i <= n,
            text@ == events_text(events@.take(i as int)),
        decreases n - i,
    {
        let event = &events[i];
        let start = event_start(event);
        text.append("Summary:");
        match &event.summary {
            Some(summary) => text.append(summary.as_str()),
            None => text.append("NO_SUMMARY"),
        }
        text.append("\nDate:");
        text.append(start.as_str());
        text.append("\n\n");
        proof {
            let next = events@.take(i + 1);
            assert(next.drop_last() =~= events@.take(i as int));
            assert(next.last() == events@[i as int]);
            assert(text@ =~= events_text(events@.take(i as int)) + event_block(events@[i as int]));
        }
        i = i + 1;
    }
    assert(events@.take(n as int) =~= events@);
    text
}

/// Whether the events stand in the order of the instants at which they
/// start, those without an instant last.
pub open spec fn sorted_by_start(events: Seq<CalendarEvent>) -> bool {
    forall|i: int, j: int|
        0 <= i < j < events.len() ==> instant_le(
            #[trigger] start_instant(events[i]),
            #[trigger] start_instant(events[j]),
        )
}

/// The events of several calendars, one calendar after the other.
pub open spec fn all_events(calendars: Seq<Vec<CalendarEvent>>) -> Seq<CalendarEvent>
    decreases calendars.len(),
{
    if calendars.len() == 0 {
        Seq::<CalendarEvent>::empty()
    } else {
        all_events(calendars.drop_last()) + calendars.last()@
    }
}

/// The events whose start is `start`, in the order in which they stand.
pub open spec fn with_start(events: Seq<CalendarEvent>, start: Option<(i64, u32)>) -> Seq<CalendarEvent>
    decreases events.len(),
{
    if events.len() == 0 {
        Seq::<CalendarEvent>::empty()
    } else if start_instant(events.last()) == start {
        with_start(events.drop_last(), start).push(events.last())
    } else {
        with_start(events.drop_last(), start)
    }
}

/// Whether `sorted` holds the events of `given` with equal starts in the
/// order in which `given` has them.
pub open spec fn keeps_order_of(sorted: Seq<CalendarEvent>, given: Seq<CalendarEvent>) -> bool {
    forall|start: Option<(i64, u32)>| #[trigger] with_start(sorted, start) == with_start(given, start)
}

/// The events that start at `start` in two lists, one after the other, are
/// those of the first followed by those of the second.
pub proof fn lemma_with_start_concat(
    a: Seq<CalendarEvent>,
    b: Seq<CalendarEvent>,
    start: Option<(i64, u32)>,
)
    ensures
        with_start(a + b, start) == with_start(a, start) + with_start(b, start),
    decreases b.len(),
{
    if b.len() == 0 {
        assert(a + b =~= a);
        assert(with_start(a, start) + with_start(b, start) =~= with_start(a, start));
    } else {
        lemma_with_start_concat(a, b.drop_last(), start);
        assert((a + b).drop_last() =~= a + b.drop_last());
        assert((a + b).last() == b.last());
        assert(with_start(a + b, start) =~= with_start(a, start) + with_start(b, start));
    }
}

/// A list in which no event starts at `start` has no event that does.
pub proof fn lemma_with_start_none(events: Seq<CalendarEvent>, start: Option<(i64, u32)>)
    requires
        forall|i: int| 0 <= i < events.len() ==> start_instant(#[trigger] events[i]) != start,
    ensures
        with_start(events, start) == Seq::<CalendarEvent>::empty(),
    decreases events.len(),
{
    if events.len() > 0 {
        assert(start_instant(events[events.len() - 1]) != start);
        lemma_with_start_none(events.drop_last(), start);
    }
}

/// The events that start at `start` in a list of one event: that event
/// where it starts there, none where it does not.
pub proof fn lemma_with_start_single(event: CalendarEvent, start: Option<(i64, u32)>)
    ensures
        with_start(seq![event], start) == if start_instant(event) == start {
            seq![event]
        } else {
            Seq::<CalendarEvent>::empty()
        },
{
    let one = seq![event];
    assert(one.last() == event);
    assert(one.drop_last() =~= Seq::<CalendarEvent>::empty());
    assert(with_start(one.drop_last(), start) =~= Seq::<CalendarEvent>::empty());
    if start_instant(event) == start {
        assert(with_start(one, start) =~= seq![event]);
    }
}

/// Putting an event in front of every event that does not start before it
/// keeps, for each start, the order of the events with that start, with the
/// new event first among its equals.
proof fn lemma_with_start_insert(
    placed: Seq<CalendarEvent>,
    at: int,
    event: CalendarEvent,
    start: Option<(i64, u32)>,
)
    requires
        0 <= at <= placed.len(),
        forall|i: int| 0 <= i < at ==> start_instant(#[trigger] placed[i]) != start_instant(event),
    ensures
        with_start(placed.insert(at, event), start) == with_start(seq![event], start) + with_start(
            placed,
            start,
        ),
{
    let front = placed.take(at);
    let back = placed.skip(at);
    assert(placed.insert(at, event) =~= (front + seq![event]) + back);
    assert(placed =~= front + back);
    lemma_with_start_concat(front + seq![event], back, start);
    lemma_with_start_concat(front, seq![event], start);
    lemma_with_start_concat(front, back, start);
    lemma_with_start_single(event, start);
    if start == start_instant(event) {
        lemma_with_start_none(front, start);
    }
    assert(with_start(placed.insert(at, event), start) =~= with_start(seq![event], start)
        + with_start(placed, start));
}

/// Puts the events in the order of the instants at which they start, with
/// the events that have no such instant last. Every event stays: the result
/// holds exactly the events given, each as often as it was given, and
/// events that start at the same instant keep the order in which they were
/// given.
pub fn sort_by_start(events: Vec<CalendarEvent>) -> (sorted: Vec<CalendarEvent>)
    ensures
        sorted_by_start(sorted@),
        sorted@.to_multiset() == events@.to_multiset(),
        sorted@.len() == events@.len(),
        keeps_order_of(sorted@, events@),
{
    let mut rest = events;
    let mut sorted: Vec<CalendarEvent> = Vec::new();
    proof {
        broadcast use vstd::seq_lib::group_to_multiset_ensures;

        assert(sorted@.to_multiset().add(rest@.to_multiset()) =~= events@.to_multiset());
        assert forall|start: Option<(i64, u32)>|
            with_start(rest@, start) + with_start(sorted@, start) == #[trigger] with_start(
                events@,
                start,
            ) by {
            assert(with_start(rest@, start) + with_start(sorted@, start) =~= with_start(
                events@,
                start,
            ));
        }
    }
    while rest.len() > 0
        invariant
            sorted_by_start(sorted@),
            sorted@.to_multiset().add(rest@.to_multiset()) == events@.to_multiset(),
            forall|start: Option<(i64, u32)>|
                with_start(rest@, start) + with_start(sorted@, start) == #[trigger] with_start(
                    events@,
                    start,
                ),
        decreases rest.len(),
    {
        let ghost before = rest@;
        let ghost placed = sorted@;
        let event = rest.pop().unwrap();
        let key = event_instant(&event);
        let n: usize = sorted.len();
        let mut at: usize = 0;
        while at < n && !instant_precedes(key, event_instant(&sorted[at]))
            invariant
                n == sorted@.len(),
                at <= n,
                sorted@ == placed,
                key == start_instant(event),
                forall|k: int| 0 <= k < at ==> !instant_le(key, #[trigger] start_instant(sorted@[k])),
            decreases n - at,
        {
            at = at + 1;
        }
        sorted.insert(at, event);
        proof {
            broadcast use vstd::seq_lib::group_to_multiset_ensures;

            vstd::seq_lib::to_multiset_insert(placed, at as int, event);
            assert(before =~= rest@.push(event));
            assert(sorted@.to_multiset().add(rest@.to_multiset()) =~= events@.to_multiset());
            assert forall|start: Option<(i64, u32)>|
                with_start(rest@, start) + with_start(sorted@, start) == #[trigger] with_start(
                    events@,
                    start,
                ) by {
                lemma_with_start_insert(placed, at as int, event, start);
                lemma_with_start_single(event, start);
                assert(before.drop_last() =~= rest@);
                assert(before.last() == event);
                assert(with_start(before, start) + with_start(placed, start) == with_start(
                    events@,
                    start,
                ));
                assert(with_start(rest@, start) + with_start(sorted@, start) =~= with_start(
                    before,
                    start,
                ) + with_start(placed, start));
            }
            assert forall|i: int, j: int| 0 <= i < j < sorted@.len() implies instant_le(
                #[trigger] start_instant(sorted@[i]),
                #[trigger] start_instant(sorted@[j]),
            ) by {
                if j == at {
                    assert(!instant_le(key, start_instant(placed[i])));
                } else if i == at {
                    assert(sorted@[j] == placed[j - 1]);
                    if at < j - 1 {
                        assert(instant_le(
                            start_instant(placed[at as int]),
                            start_instant(placed[j - 1]),
                        ));
                    }
                } else {
                    let pi = if i < at { i } else { i - 1 };
                    let pj = if j < at { j } else { j - 1 };
                    assert(sorted@[i] == placed[pi]);
                    assert(sorted@[j] == placed[pj]);
                    assert(instant_le(start_instant(placed[pi]), start_instant(placed[pj])));
                }
            }
        }
    }
    proof {
        assert(rest@.to_multiset() =~= Multiset::<CalendarEvent>::empty()) by {
            broadcast use vstd::seq_lib::group_to_multiset_ensures;

            assert(rest@ =~= Seq::<CalendarEvent>::empty());
        }
        assert(sorted@.to_multiset() =~= events@.to_multiset());
        sorted@.to_multiset_ensures();
        events@.to_multiset_ensures();
        assert forall|start: Option<(i64, u32)>| #[trigger]
            with_start(sorted@, start) == with_start(events@, start) by {
            assert(with_start(rest@, start) + with_start(sorted@, start) =~= with_start(
                sorted@,
                start,
            ));
        }
    }
    sorted
}

/// Merges what the calendars hold into one list in the order of the
/// instants at which the events start. No event is lost and none is added,
/// and events that start at the same instant stand as the calendars had
/// them, an earlier calendar first.
pub fn merge_events(calendars: Vec<Vec<CalendarEvent>>) -> (merged: Vec<CalendarEvent>)
    ensures
        sorted_by_start(merged@),
        merged@.to_multiset() == all_events(calendars@).to_multiset(),
        merged@.len() == all_events(calendars@).len(),
        keeps_order_of(merged@, all_events(calendars@)),
{
    let mut rest = calendars;
    let mut gathered: Vec<CalendarEvent> = Vec::new();
    assert(all_events(rest@) + gathered@ =~= all_events(calendars@));
    while rest.len() > 0
        invariant
            all_events(rest@) + gathered@ == all_events(calendars@),
        decreases rest.len(),
    {
        let ghost before = rest@;
        let mut list = rest.pop().unwrap();
        assert(before.drop_last() =~= rest@);
        list.append(&mut gathered);
        gathered = list;
        assert(all_events(rest@) + gathered@ =~= all_events(calendars@));
    }
    assert(gathered@ =~= all_events(calendars@));
    sort_by_start(gathered)
}

} // verus!
