//! From the text of a date cell to a UTC timestamp.

use crate::clock::instant_rendering;
use crate::clock::read_wall_clock;
use crate::clock::render_instant;
use crate::clock::resolve_in_zone;
use crate::clock::wall_clock_reading;
use crate::clock::zone_resolution;
use crate::clock::LocalInstant;
use crate::text::date_stem;
use crate::text::stem_of;
use vstd::prelude::*;

verus! {

/// The strftime pattern of the date in a date cell.
pub const LOCAL_PATTERN: &'static str = "%Y-%m-%d %H:%M";

/// The strftime pattern of a timestamp in the feed.
pub const UTC_PATTERN: &'static str = "%Y-%m-%dT%H:%M:%SZ";

/// The zone whose clocks the dates of the page are read on.
pub const ZONE: &'static str = "America/Los_Angeles";

/// Why the text of a date cell gave no timestamp.
#[derive(Clone, Copy, Debug, PartialEq, Eq)]
pub enum DateError {
    /// The text holds no `PT`.
    MissingMarker,
    /// What precedes the marker is not a date and time of the expected
    /// pattern.
    Malformed,
    /// The clocks of the zone never showed the reading.
    Nonexistent,
    /// The clocks of the zone showed the reading twice.
    Ambiguous,
    /// The instant cannot be written as a timestamp.
    OutOfRange,
}

/// The one instant of a resolution, or the error that says why there is
/// not exactly one.
pub open spec fn settled(found: LocalInstant) -> Result<int, DateError> {
    match found {
        LocalInstant::Never => Err(DateError::Nonexistent),
        LocalInstant::Once(t) => Ok(t as int),
        LocalInstant::Twice(_, _) => Err(DateError::Ambiguous),
    }
}

/// The timestamp that the text of a date cell stands for.
pub open spec fn stamp_of(text: Seq<char>) -> Result<Seq<char>, DateError> {
    match stem_of(text) {
        None => Err(DateError::MissingMarker),
        Some(stem) => match wall_clock_reading(stem, LOCAL_PATTERN@) {
            None => Err(DateError::Malformed),
            Some(reading) => match settled(zone_resolution(ZONE@, reading)) {
                Err(e) => Err(e),
                Ok(instant) => match instant_rendering(instant, UTC_PATTERN@) {
                    None => Err(DateError::OutOfRange),
                    Some(stamp) => Ok(stamp),
                },
            },
        },
    }
}

/// What a computed timestamp says in terms of characters.
pub open spec fn stamp_view(out: Result<String, DateError>) -> Result<Seq<char>, DateError> {
    match out {
        Ok(s) => Ok(s@),
        Err(e) => Err(e),
    }
}

/// Picks the instant of a resolution that has exactly one.
pub fn settle(found: LocalInstant) -> (out: Result<i64, DateError>)
    ensures
        out is Ok ==> settled(found) == Ok::<int, DateError>(out->Ok_0 as int),
        out is Err ==> settled(found) == Err::<int, DateError>(out->Err_0),
{
    match found {
        LocalInstant::Never => Err(DateError::Nonexistent),
        LocalInstant::Once(t) => Ok(t),
        LocalInstant::Twice(_, _) => Err(DateError::Ambiguous),
    }
}

/// Reads the text of a date cell as a time on Pacific clocks and writes it
/// as a UTC timestamp.
pub fn utc_stamp(text: &str) -> (out: Result<String, DateError>)
    ensures
        stamp_view(out) == stamp_of(text@),
{
    let stem = match date_stem(text) {
        Some(stem) => stem,
        None => {
            return Err(DateError::MissingMarker);
        },
    };
    let reading = match read_wall_clock(stem.as_str(), LOCAL_PATTERN) {
        Some(reading) => reading,
        None => {
            return Err(DateError::Malformed);
        },
    };
    let instant = match settle(resolve_in_zone(ZONE, reading)) {
        Ok(instant) => instant,
        Err(e) => {
            return Err(e);
        },
    };
    match render_instant(instant, UTC_PATTERN) {
        Some(stamp) => Ok(stamp),
        None => Err(DateError::OutOfRange),
    }
}

} // verus!
