//! Instants: the moment at which an event starts, as seconds and
//! nanoseconds since the first of January 1970 in UTC, read from the texts
//! in which a calendar gives dates and date-times.

use vstd::prelude::*;

verus! {

/// What `chrono::DateTime::parse_from_rfc3339` makes of a text: the instant
/// it denotes, as whole seconds since the epoch and the nanoseconds past
/// them, or `None` where it rejects the text.
pub uninterp spec fn rfc3339_instant(text: Seq<char>) -> Option<(i64, u32)>;

/// What parsing a text as a `chrono::NaiveDate` gives: the number of the
/// day, counted from the first of January of the year 1 as day 1, or `None`
/// where the text is no date.
pub uninterp spec fn calendar_day(text: Seq<char>) -> Option<i32>;

/// Trusted: `chrono::DateTime::parse_from_rfc3339`, with the instant handed
/// out by `timestamp` and `timestamp_subsec_nanos`. The contract only names
/// the outcome: the parser is a function of the text alone.
#[verifier::external_body]
pub(crate) fn parse_moment(text: &str) -> (r: Option<(i64, u32)>)
    ensures
        r == rfc3339_instant(text@),
{
    match chrono::DateTime::parse_from_rfc3339(text) {
        Ok(moment) => Some((moment.timestamp(), moment.timestamp_subsec_nanos())),
        Err(_) => None,
    }
}

/// Trusted: `str::parse` at `chrono::NaiveDate`, with the day handed out by
/// `chrono::Datelike::num_days_from_ce`. The contract only names the
/// outcome: the parser is a function of the text alone.
#[verifier::external_body]
pub(crate) fn parse_day(text: &str) -> (r: Option<i32>)
    ensures
        r == calendar_day(text@),
{
    match text.parse::<chrono::NaiveDate>() {
        Ok(day) => Some(chrono::Datelike::num_days_from_ce(&day)),
        Err(_) => None,
    }
}

/// The number of the first of January 1970 among the days.
pub open spec fn epoch_day() -> int {
    719163
}

/// The instant at which a whole day starts: its midnight in UTC.
pub open spec fn day_start(day: i32) -> (i64, u32) {
    (((day - epoch_day()) * 86400) as i64, 0u32)
}

/// Tells the instant at which the day with the given number starts.
pub fn day_instant(day: i32) -> (instant: (i64, u32))
    ensures
        instant == day_start(day),
{
    let days: i64 = day as i64 - 719163;
    (days * 86400, 0)
}

/// The order of starts: earlier instants first, then the starts that are
/// no instant.
pub open spec fn instant_le(a: Option<(i64, u32)>, b: Option<(i64, u32)>) -> bool {
    match (a, b) {
        (Some(x), Some(y)) => x.0 < y.0 || (x.0 == y.0 && x.1 <= y.1),
        (Some(_), None) => true,
        (None, Some(_)) => false,
        (None, None) => true,
    }
}

/// Tells whether a start comes no later than another.
pub fn instant_precedes(a: Option<(i64, u32)>, b: Option<(i64, u32)>) -> (le: bool)
    ensures
        le == instant_le(a, b),
{
    match (a, b) {
        (Some(x), Some(y)) => x.0 < y.0 || (x.0 == y.0 && x.1 <= y.1),
        (Some(_), None) => true,
        (None, Some(_)) => false,
        (None, None) => true,
    }
}

} // verus!
