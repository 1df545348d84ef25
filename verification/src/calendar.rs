//! Instants, the local calendar week of an instant, and reading date filters.
//!
//! An instant is a number of microseconds since the Unix epoch, in UTC. A
//! time zone is given by its IANA name, such as `Europe/London`. What the
//! local calendar says about an instant comes from `chrono` and `chrono-tz`.
use chrono::Datelike;
use chrono::TimeZone;
use vstd::prelude::*;
use vstd::string::*;

use crate::error::{failure, ApiError, ErrorKind, ErrorView};

verus! {

/// How many days after Monday the instant `at` falls, on the calendar of the
/// named time zone; `None` for an unknown zone or an instant out of range.
pub uninterp spec fn zone_days_from_monday(zone: Seq<char>, at: i64) -> Option<u32>;

/// The instant with the same local time of day as `at`, `days` calendar days
/// earlier in the named zone; `None` where that local time does not name
/// exactly one instant.
pub uninterp spec fn zone_minus_days(zone: Seq<char>, at: i64, days: u64) -> Option<i64>;

/// The instant with the same local time of day as `at`, `days` calendar days
/// later in the named zone; `None` where that local time does not name
/// exactly one instant.
pub uninterp spec fn zone_plus_days(zone: Seq<char>, at: i64, days: u64) -> Option<i64>;

/// The instant on the local date of `at` at `seconds` after local midnight in
/// the named zone; `None` where that local time does not name exactly one
/// instant.
pub uninterp spec fn zone_at_time_of_day(zone: Seq<char>, at: i64, seconds: u32) -> Option<i64>;

/// What an RFC 3339 timestamp denotes: its instant, or the parser's complaint.
pub uninterp spec fn rfc3339_reading(text: Seq<char>) -> Result<i64, Seq<char>>;

/// Calls `chrono::Datelike::weekday` and `Weekday::num_days_from_monday` on
/// the instant as `chrono_tz` shows it in the named zone. The result is what
/// chrono computes from the zone and the instant alone.
#[verifier::external_body]
fn days_from_monday(zone: &str, at: i64) -> (days: Option<u32>)
    ensures
        days == zone_days_from_monday(zone@, at),
{
    let tz: chrono_tz::Tz = zone.parse().ok()?;
    let utc = chrono::DateTime::from_timestamp_micros(at)?;
    Some(tz.from_utc_datetime(&utc.naive_utc()).weekday().num_days_from_monday())
}

/// Calls `chrono::DateTime::checked_sub_days` on the instant as `chrono_tz`
/// shows it in the named zone. The result is what chrono computes from the
/// zone, the instant and the number of days alone.
#[verifier::external_body]
fn minus_days(zone: &str, at: i64, days: u64) -> (earlier: Option<i64>)
    ensures
        earlier == zone_minus_days(zone@, at, days),
{
    let tz: chrono_tz::Tz = zone.parse().ok()?;
    let utc = chrono::DateTime::from_timestamp_micros(at)?;
    let local = tz.from_utc_datetime(&utc.naive_utc());
    Some(local.checked_sub_days(chrono::Days::new(days))?.timestamp_micros())
}

/// Calls `chrono::DateTime::checked_add_days` on the instant as `chrono_tz`
/// shows it in the named zone. The result is what chrono computes from the
/// zone, the instant and the number of days alone.
#[verifier::external_body]
fn plus_days(zone: &str, at: i64, days: u64) -> (later: Option<i64>)
    ensures
        later == zone_plus_days(zone@, at, days),
{
    let tz: chrono_tz::Tz = zone.parse().ok()?;
    let utc = chrono::DateTime::from_timestamp_micros(at)?;
    let local = tz.from_utc_datetime(&utc.naive_utc());
    Some(local.checked_add_days(chrono::Days::new(days))?.timestamp_micros())
}

/// Calls `chrono::DateTime::with_time` on the instant as `chrono_tz` shows it
/// in the named zone, and keeps the answer where it is a single instant. The
/// result is what chrono computes from the zone, the instant and the time of
/// day alone.
#[verifier::external_body]
fn at_time_of_day(zone: &str, at: i64, seconds: u32) -> (moved: Option<i64>)
    ensures
        moved == zone_at_time_of_day(zone@, at, seconds),
{
    let tz: chrono_tz::Tz = zone.parse().ok()?;
    let utc = chrono::DateTime::from_timestamp_micros(at)?;
    let time = chrono::NaiveTime::from_num_seconds_from_midnight_opt(seconds, 0)?;
    let local = tz.from_utc_datetime(&utc.naive_utc());
    Some(local.with_time(time).single()?.timestamp_micros())
}

/// Calls `chrono::DateTime::parse_from_rfc3339`. The result is what chrono
/// reads from the text alone: the instant in microseconds, or the text of
/// its parse error.
#[verifier::external_body]
fn read_rfc3339(text: &str) -> (reading: Result<i64, String>)
    ensures
        match reading {
            Ok(at) => rfc3339_reading(text@) == Ok::<i64, Seq<char>>(at),
            Err(complaint) => rfc3339_reading(text@) == Err::<i64, Seq<char>>(complaint@),
        },
{
    match chrono::DateTime::parse_from_rfc3339(text) {
        Ok(parsed) => Ok(parsed.timestamp_micros()),
        Err(e) => Err(e.to_string()),
    }
}

/// Calls `chrono::Utc::now`. Nothing is promised of the instant it reads.
#[verifier::external_body]
fn clock() -> (now: i64) {
    chrono::Utc::now().timestamp_micros()
}

/// The current instant.
pub fn now() -> i64 {
    clock()
}

/// A calendar week: from its first instant up to, but not including, the
/// first instant of the next week.
#[derive(Clone, Copy, Debug, PartialEq, Eq, Structural)]
pub struct WeekBounds {
    pub start: i64,
    pub end: i64,
}

impl WeekBounds {
    /// Whether the instant lies in this week.
    pub open spec fn holds(self, at: i64) -> bool {
        self.start <= at < self.end
    }

    /// Whether the instant lies in this week.
    #[verifier::when_used_as_spec(holds)]
    pub fn contains(self, at: i64) -> (inside: bool)
        ensures
            inside == self.holds(at),
    {
        self.start <= at && at < self.end
    }
}

/// The week of an instant in the named zone: it starts at local midnight of
/// the Monday on or before the instant's local date and ends seven calendar
/// days later. There is none where one of these local times does not name
/// exactly one instant.
pub open spec fn week_of(zone: Seq<char>, at: i64) -> Option<WeekBounds> {
    match zone_days_from_monday(zone, at) {
        None => None,
        Some(days) => match zone_minus_days(zone, at, days as u64) {
            None => None,
            Some(monday) => match zone_at_time_of_day(zone, monday, 0) {
                None => None,
                Some(start) => match zone_plus_days(zone, start, 7) {
                    None => None,
                    Some(end) => Some(WeekBounds { start, end }),
                },
            },
        },
    }
}

/// The week of an instant in the named zone.
pub fn week_bounds(zone: &str, at: i64) -> (week: Option<WeekBounds>)
    ensures
        week == week_of(zone@, at),
{
    let days: u32 = match days_from_monday(zone, at) {
        Some(d) => d,
        None => { return None; },
    };
    let monday: i64 = match minus_days(zone, at, days as u64) {
        Some(m) => m,
        None => { return None; },
    };
    let start: i64 = match at_time_of_day(zone, monday, 0) {
        Some(s) => s,
        None => { return None; },
    };
    match plus_days(zone, start, 7) {
        Some(end) => Some(WeekBounds { start, end }),
        None => None,
    }
}

/// What an optional date filter denotes, given what its text reads as: no
/// filter when absent, the instant when the text is a timestamp, and a
/// refusal that quotes the parser otherwise.
pub open spec fn filter_of(reading: Option<Result<i64, Seq<char>>>) -> Result<Option<i64>, ErrorView> {
    match reading {
        None => Ok(None),
        Some(Ok(at)) => Ok(Some(at)),
        Some(Err(complaint)) => Err(failure(ErrorKind::UnprocessableInput, complaint)),
    }
}

/// The reading of an optional date filter.
pub open spec fn reading_of(text: Option<Seq<char>>) -> Option<Result<i64, Seq<char>>> {
    match text {
        None => None,
        Some(t) => Some(rfc3339_reading(t)),
    }
}

/// Turns what a date filter's text reads as into the filter.
pub fn date_filter(reading: Option<Result<i64, String>>) -> (filter: Result<Option<i64>, ApiError>)
    ensures
        match filter {
            Ok(at) => filter_of(reading_view(reading)) == Ok::<Option<i64>, ErrorView>(at),
            Err(e) => filter_of(reading_view(reading)) == Err::<Option<i64>, ErrorView>(e@),
        },
{
    match reading {
        None => Ok(None),
        Some(Ok(at)) => Ok(Some(at)),
        Some(Err(complaint)) => Err(ApiError::with_message(ErrorKind::UnprocessableInput, complaint)),
    }
}

/// A reading with its complaint as a sequence of characters.
pub open spec fn reading_view(reading: Option<Result<i64, String>>) -> Option<Result<i64, Seq<char>>> {
    match reading {
        None => None,
        Some(Ok(at)) => Some(Ok(at)),
        Some(Err(complaint)) => Some(Err(complaint@)),
    }
}

/// The text of an optional string.
pub open spec fn text_of(text: Option<String>) -> Option<Seq<char>> {
    match text {
        None => None,
        Some(t) => Some(t@),
    }
}

/// Reads an optional RFC 3339 date filter.
pub fn parse_opt_date(text: &Option<String>) -> (filter: Result<Option<i64>, ApiError>)
    ensures
        match filter {
            Ok(at) => filter_of(reading_of(text_of(*text))) == Ok::<Option<i64>, ErrorView>(at),
            Err(e) => filter_of(reading_of(text_of(*text))) == Err::<Option<i64>, ErrorView>(e@),
        },
{
    match text {
        None => date_filter(None),
        Some(t) => date_filter(Some(read_rfc3339(t.as_str()))),
    }
}

} // verus!
