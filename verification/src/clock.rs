//! Wall-clock readings and instants, both as whole seconds, and the calls
//! into `chrono` and `chrono-tz` that relate them.
//!
//! A reading is what a clock on the wall shows, counted in seconds from
//! 1970-01-01 00:00:00 on that same clock. An instant is a count of seconds
//! from 1970-01-01 00:00:00 UTC.

use chrono::DateTime;
use chrono::MappedLocalTime;
use chrono::NaiveDateTime;
use chrono::TimeZone;
use chrono_tz::Tz;
use std::fmt::Write;
use vstd::prelude::*;

verus! {

/// The instants at which the clocks of one zone show one reading.
#[derive(Clone, Copy, Debug, PartialEq, Eq)]
pub enum LocalInstant {
    /// No instant: the clocks skipped the reading.
    Never,
    /// Exactly one instant.
    Once(i64),
    /// Two instants, the earlier first: the clocks showed the reading twice.
    Twice(i64, i64),
}

/// The reading that `chrono` parses out of `text` under the strftime
/// pattern `pattern`, or `None` where it rejects the text.
pub uninterp spec fn wall_clock_reading(text: Seq<char>, pattern: Seq<char>) -> Option<int>;

/// The instants at which the clocks of the zone that `chrono-tz` knows as
/// `zone` show `reading`; `LocalInstant::Never` also where it knows no such
/// zone or `chrono` cannot hold the reading.
pub uninterp spec fn zone_resolution(zone: Seq<char>, reading: int) -> LocalInstant;

/// The text that `chrono` writes for `instant`, taken as UTC, under the
/// strftime pattern `pattern`; `None` where it cannot hold the instant or
/// rejects the pattern.
pub uninterp spec fn instant_rendering(instant: int, pattern: Seq<char>) -> Option<Seq<char>>;

/// `chrono::NaiveDateTime::parse_from_str`: parses `text` under `pattern`
/// into a date and time without zone, or rejects it. The date and time are
/// handed back as a reading, counted by `and_utc().timestamp()`. The result
/// is a function of the two texts alone.
#[verifier::external_body]
pub(crate) fn read_wall_clock(text: &str, pattern: &str) -> (reading: Option<i64>)
    ensures
        reading matches Some(r) ==> wall_clock_reading(text@, pattern@) == Some(r as int),
        reading is None ==> wall_clock_reading(text@, pattern@) is None,
{
    NaiveDateTime::parse_from_str(text, pattern).ok().map(|t| t.and_utc().timestamp())
}

/// `chrono::TimeZone::from_local_datetime` on a `chrono_tz::Tz`: the
/// instants at which the named zone shows `reading`, by the zone rules
/// compiled into the crate. The zone is looked up by its name and the
/// reading is turned into a date and time by `DateTime::from_timestamp`;
/// where either fails there is no instant. The result is a function of the
/// zone's name and the reading alone.
#[verifier::external_body]
pub(crate) fn resolve_in_zone(zone: &str, reading: i64) -> (found: LocalInstant)
    ensures
        found == zone_resolution(zone@, reading as int),
{
    match zone.parse::<Tz>().ok().zip(DateTime::from_timestamp(reading, 0)) {
        None => LocalInstant::Never,
        Some((tz, t)) => match tz.from_local_datetime(&t.naive_utc()) {
            MappedLocalTime::None => LocalInstant::Never,
            MappedLocalTime::Single(a) => LocalInstant::Once(a.timestamp()),
            MappedLocalTime::Ambiguous(a, b) => LocalInstant::Twice(a.timestamp(), b.timestamp()),
        },
    }
}

/// `chrono::DateTime::format`: writes `instant`, taken as UTC, under
/// `pattern`; `None` where `DateTime::from_timestamp` cannot hold the
/// instant or the pattern is rejected in writing. The result is a function
/// of the instant and the pattern alone.
#[verifier::external_body]
pub(crate) fn render_instant(instant: i64, pattern: &str) -> (text: Option<String>)
    ensures
        text matches Some(t) ==> instant_rendering(instant as int, pattern@) == Some(t@),
        text is None ==> instant_rendering(instant as int, pattern@) is None,
{
    let mut out = String::new();
    let t = DateTime::from_timestamp(instant, 0)?;
    write!(out, "{}", t.format(pattern)).ok()?;
    Some(out)
}

} // verus!
