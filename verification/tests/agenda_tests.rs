use mirror_ai::calendar_api::{
    event_instant, events_string, merge_events, sort_by_start, CalendarEvent, EventDateTime,
};
use mirror_ai::instant::{day_instant, instant_precedes};
use mirror_ai::chat::{command_of, ChatResponse, Command};
use mirror_ai::conversation::{role_name, Role};

fn event(summary: &str, date: Option<&str>, moment: Option<&str>) -> CalendarEvent {
    CalendarEvent {
        id: None,
        summary: Some(summary.to_string()),
        description: None,
        html_link: None,
        status: None,
        start: Some(EventDateTime {
            date: date.map(|d| d.to_string()),
            date_time: moment.map(|m| m.to_string()),
            time_zone: None,
        }),
        end: None,
        creator: None,
        organizer: None,
    }
}

fn summaries(events: &[CalendarEvent]) -> Vec<String> {
    events.iter().map(|e| e.summary.clone().unwrap()).collect()
}

#[test]
fn day_instant_is_the_midnight_in_utc() {
    assert_eq!(day_instant(719163), (0, 0));
    assert_eq!(day_instant(719164), (86400, 0));
    assert_eq!(day_instant(719162), (-86400, 0));
    assert_eq!(day_instant(1), (-62135596800, 0));
    assert_eq!(day_instant(i32::MAX), ((i32::MAX as i64 - 719163) * 86400, 0));
    assert_eq!(day_instant(i32::MIN), ((i32::MIN as i64 - 719163) * 86400, 0));
}

#[test]
fn instant_precedes_orders_instants_then_the_rest() {
    assert!(instant_precedes(Some((5, 0)), Some((6, 0))));
    assert!(!instant_precedes(Some((6, 0)), Some((5, 999_999_999))));
    assert!(instant_precedes(Some((5, 1)), Some((5, 2))));
    assert!(!instant_precedes(Some((5, 2)), Some((5, 1))));
    assert!(instant_precedes(Some((5, 2)), Some((5, 2))));
    assert!(instant_precedes(Some((-7, 0)), Some((0, 0))));
    assert!(instant_precedes(Some((i64::MAX, u32::MAX)), None));
    assert!(!instant_precedes(None, Some((i64::MIN, 0))));
    assert!(instant_precedes(None, None));
}

#[test]
fn event_instant_reads_date_times_and_whole_days() {
    assert_eq!(event_instant(&event("e", None, Some("1970-01-01T00:00:00Z"))), Some((0, 0)));
    assert_eq!(event_instant(&event("e", None, Some("2024-01-06T10:00:00Z"))), Some((1704535200, 0)));
    assert_eq!(
        event_instant(&event("e", None, Some("2024-01-06T10:00:00.250-08:00"))),
        Some((1704564000, 250_000_000))
    );
    assert_eq!(event_instant(&event("e", Some("1970-01-02"), None)), Some((86400, 0)));
    assert_eq!(event_instant(&event("e", Some("2024-01-05"), None)), Some((1704412800, 0)));
}

#[test]
fn event_instant_prefers_the_date_time() {
    assert_eq!(
        event_instant(&event("e", Some("2024-01-05"), Some("2024-01-06T10:00:00Z"))),
        Some((1704535200, 0))
    );
    assert_eq!(event_instant(&event("e", Some("2024-01-05"), Some("soon"))), None);
}

#[test]
fn event_instant_is_none_for_a_start_that_cannot_be_read() {
    assert_eq!(event_instant(&event("e", None, None)), None);
    assert_eq!(event_instant(&event("e", Some("tomorrow"), None)), None);
    assert_eq!(event_instant(&event("e", None, Some("2024-01-06 10:00"))), None);
    assert_eq!(event_instant(&event("e", Some("2024-02-30"), None)), None);
    let mut loose = event("e", None, None);
    loose.start = None;
    assert_eq!(event_instant(&loose), None);
}

#[test]
fn sort_by_start_goes_by_the_instant_not_the_text() {
    let sorted = sort_by_start(vec![
        event("west", None, Some("2024-01-06T23:00:00-08:00")),
        event("utc", None, Some("2024-01-07T01:00:00Z")),
    ]);
    assert_eq!(summaries(&sorted), vec!["utc", "west"]);
}

#[test]
fn sort_by_start_puts_unreadable_starts_last() {
    let sorted = sort_by_start(vec![
        event("odd", Some("someday"), None),
        event("none", None, None),
        event("b", Some("2024-01-07"), None),
        event("a", None, Some("2024-01-06T10:00:00Z")),
    ]);
    assert_eq!(summaries(&sorted), vec!["a", "b", "odd", "none"]);
}

#[test]
fn sort_by_start_keeps_one_instant_written_two_ways_in_order() {
    let sorted = sort_by_start(vec![
        event("later", None, Some("2024-01-08T00:00:00Z")),
        event("offset", None, Some("2024-01-07T02:00:00+02:00")),
        event("day", Some("2024-01-07"), None),
        event("zulu", None, Some("2024-01-07T00:00:00Z")),
    ]);
    assert_eq!(summaries(&sorted), vec!["offset", "day", "zulu", "later"]);
}

#[test]
fn sort_by_start_orders_and_keeps_every_event() {
    let sorted = sort_by_start(vec![
        event("c", Some("2024-01-07"), None),
        event("a", Some("2024-01-05"), None),
        event("d", None, Some("2024-01-09T08:00:00Z")),
        event("b", None, Some("2024-01-06T10:00:00Z")),
        event("a2", Some("2024-01-05"), None),
    ]);
    assert_eq!(summaries(&sorted), vec!["a", "a2", "b", "c", "d"]);
}

#[test]
fn sort_by_start_keeps_equal_starts_in_the_given_order() {
    let sorted = sort_by_start(vec![
        event("late", Some("2024-01-09"), None),
        event("first", Some("2024-01-05"), None),
        event("second", Some("2024-01-05"), None),
        event("third", Some("2024-01-05"), None),
        event("early", Some("2024-01-01"), None),
    ]);
    assert_eq!(summaries(&sorted), vec!["early", "first", "second", "third", "late"]);
}

#[test]
fn sort_by_start_of_nothing_is_nothing() {
    assert!(sort_by_start(vec![]).is_empty());
}

#[test]
fn merge_events_interleaves_calendars() {
    let work = vec![
        event("standup", None, Some("2024-01-06T10:00:00Z")),
        event("retro", None, Some("2024-01-08T15:00:00Z")),
    ];
    let home = vec![
        event("holiday", Some("2024-01-05"), None),
        event("dinner", None, Some("2024-01-07T19:00:00Z")),
    ];
    let merged = merge_events(vec![work, vec![], home]);
    assert_eq!(summaries(&merged), vec!["holiday", "standup", "dinner", "retro"]);
}

#[test]
fn merge_events_puts_an_earlier_calendar_first_among_equals() {
    let one = vec![event("one", Some("2024-01-05"), None)];
    let two = vec![event("two", Some("2024-01-05"), None), event("zero", Some("2024-01-04"), None)];
    let merged = merge_events(vec![one, two]);
    assert_eq!(summaries(&merged), vec!["zero", "one", "two"]);
}

#[test]
fn merge_events_of_no_calendar_is_empty() {
    assert!(merge_events(vec![]).is_empty());
    assert!(merge_events(vec![vec![], vec![]]).is_empty());
}

#[test]
fn merged_week_is_reported_in_ascending_order() {
    let later = vec![event("Standup", None, Some("2024-01-06T10:00:00Z"))];
    let sooner = vec![event("Holiday", Some("2024-01-05"), None)];
    let text = events_string(&merge_events(vec![later, sooner]));
    assert_eq!(
        text,
        "Summary:Holiday\nDate:2024-01-05\n\nSummary:Standup\nDate:2024-01-06T10:00:00Z\n\n"
    );
}

#[test]
fn command_of_knows_the_five_commands() {
    let kind = |name: &str| {
        command_of(&ChatResponse {
            command: name.to_string(),
            parameters: serde_json::Value::Null,
            text: String::new(),
        })
    };
    assert_eq!(kind("none"), Command::NoCommand);
    assert_eq!(kind("get_weather"), Command::GetWeather);
    assert_eq!(kind("get_events"), Command::GetEvents);
    assert_eq!(kind("add_event"), Command::AddEvent);
    assert_eq!(kind("play_song"), Command::PlaySong);
    assert_eq!(kind("None"), Command::Unrecognized);
    assert_eq!(kind(""), Command::Unrecognized);
}

#[test]
fn role_name_is_the_wire_name() {
    assert_eq!(role_name(Role::System), "system");
    assert_eq!(role_name(Role::User), "user");
    assert_eq!(role_name(Role::Assistant), "assistant");
}
