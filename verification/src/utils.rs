//! Wall-clock readings and their ISO 8601 text.

use std::time::{Duration, SystemTime, UNIX_EPOCH};
use vstd::prelude::*;

verus! {

/// `std::time::SystemTime`, carried through as an opaque value.
#[verifier::external_type_specification]
#[verifier::external_body]
pub struct ExSystemTime(std::time::SystemTime);

/// `SystemTime::now`. The reading depends on the machine's clock, so nothing
/// is claimed of it.
pub assume_specification[ SystemTime::now ]() -> (now: SystemTime)
;

/// The time from the Unix epoch to `time`, or `None` where `time` lies
/// before the epoch.
pub uninterp spec fn unix_elapsed(time: SystemTime) -> Option<Duration>;

/// The whole seconds of `elapsed`.
pub uninterp spec fn whole_secs(elapsed: Duration) -> u64;

/// The nanoseconds of `elapsed` beyond its whole seconds.
pub uninterp spec fn fraction_nanos(elapsed: Duration) -> u32;

/// `Duration::as_secs`, the whole seconds of a duration. They depend on the
/// duration alone; the contract gives the number its name, `whole_secs`, and
/// claims nothing else of it.
pub assume_specification[ Duration::as_secs ](elapsed: &Duration) -> (secs: u64)
    ensures
        secs == whole_secs(*elapsed),
;

/// `Duration::subsec_nanos`, the fraction of a second that `as_secs` leaves
/// out. It depends on the duration alone; the contract gives the number its
/// name, `fraction_nanos`, and claims nothing else of it.
pub assume_specification[ Duration::subsec_nanos ](elapsed: &Duration) -> (nanos: u32)
    ensures
        nanos == fraction_nanos(*elapsed),
;

/// `SystemTime::duration_since` against `UNIX_EPOCH`: the time elapsed since
/// the epoch, or `None` where `time` lies before it. It depends on `time`
/// alone; the contract gives the outcome its name, `unix_elapsed`, and claims
/// nothing else of it.
#[verifier::external_body]
fn since_unix_epoch(time: &SystemTime) -> (elapsed: Option<Duration>)
    ensures
        elapsed == unix_elapsed(*time),
{
    time.duration_since(UNIX_EPOCH).ok()
}

/// The text that chrono writes for the UTC instant `secs` seconds and
/// `nanos` nanoseconds after the Unix epoch, or `None` where chrono has no
/// date for that instant.
pub uninterp spec fn rfc3339_utc(secs: i64, nanos: u32) -> Option<Seq<char>>;

/// chrono's `DateTime::to_rfc3339`, applied to the UTC date-time that
/// `DateTime::from_timestamp` makes of `secs` and `nanos`. Both are functions
/// of their arguments alone; the contract only gives the outcome its name,
/// `rfc3339_utc`, and claims nothing of the text itself.
#[verifier::external_body]
fn format_rfc3339(secs: i64, nanos: u32) -> (text: Option<String>)
    ensures
        match text {
            Some(t) => rfc3339_utc(secs, nanos) == Some(t@),
            None => rfc3339_utc(secs, nanos) is None,
        },
{
    match chrono::DateTime::from_timestamp(secs, nanos) {
        Some(instant) => Some(instant.to_rfc3339()),
        None => None,
    }
}

/// One reading of the wall clock: the time elapsed since the Unix epoch.
#[derive(Clone, Copy, Debug, PartialEq, Eq, Structural)]
pub struct ClockReading {
    pub secs: u64,
    pub nanos: u32,
}

/// The ISO 8601 text of a clock reading, where it has one.
pub open spec fn iso8601_text(reading: ClockReading) -> Option<Seq<char>> {
    if reading.secs <= i64::MAX {
        rfc3339_utc(reading.secs as i64, reading.nanos)
    } else {
        None
    }
}

/// The reading that the instant `time` gives: the seconds and nanoseconds
/// elapsed since the Unix epoch, or `None` where `time` lies before it.
pub open spec fn reading_at(time: SystemTime) -> Option<ClockReading> {
    match unix_elapsed(time) {
        Some(elapsed) => Some(
            ClockReading { secs: whole_secs(elapsed), nanos: fraction_nanos(elapsed) },
        ),
        None => None,
    }
}

/// The ISO 8601 text of the instant `time`, where it has one: where it lies
/// neither before the Unix epoch nor beyond the dates that can be written.
pub open spec fn text_at(time: SystemTime) -> Option<Seq<char>> {
    match reading_at(time) {
        Some(reading) => iso8601_text(reading),
        None => None,
    }
}

/// The text of a string that may be missing.
pub open spec fn text_or_none(text: Option<String>) -> Option<Seq<char>> {
    match text {
        Some(t) => Some(t@),
        None => None,
    }
}

/// The reading that the instant `time` gives.
pub fn reading_of(time: &SystemTime) -> (reading: Option<ClockReading>)
    ensures
        reading == reading_at(*time),
{
    match since_unix_epoch(time) {
        Some(elapsed) => Some(
            ClockReading { secs: elapsed.as_secs(), nanos: elapsed.subsec_nanos() },
        ),
        None => None,
    }
}

/// Reads the wall clock: what comes back is the reading of one instant of
/// the system's clock, the instant of the call, and `None` exactly where
/// that instant lies before the Unix epoch. Every call reads anew, so two
/// calls may differ.
pub fn read_clock() -> (reading: Option<ClockReading>)
    ensures
        exists|now: SystemTime| reading == #[trigger] reading_at(now),
{
    let now = SystemTime::now();
    reading_of(&now)
}

/// The ISO 8601 (RFC 3339) text of `reading` in UTC, such as
/// `2015-05-15T00:00:00+00:00`. `None` exactly where the reading is beyond
/// the dates that can be written.
pub fn iso8601_at(reading: ClockReading) -> (text: Option<String>)
    ensures
        match text {
            Some(t) => iso8601_text(reading) == Some(t@),
            None => iso8601_text(reading) is None,
        },
{
    if reading.secs <= i64::MAX as u64 {
        format_rfc3339(reading.secs as i64, reading.nanos)
    } else {
        None
    }
}

/// A source of the current time as ISO 8601 text in UTC.
pub trait Iso8601Utc {
    /// The text of the moment of the call; `None` where the clock gives no
    /// time that can be written.
    fn iso8601_now() -> Option<String>;
}

impl Iso8601Utc for SystemTime {
    /// What comes back is the text of one instant of the system's clock, the
    /// instant of the call, and `None` exactly where that instant has no
    /// text.
    fn iso8601_now() -> (text: Option<String>)
        ensures
            exists|now: SystemTime| text_or_none(text) == #[trigger] text_at(now),
    {
        let reading = read_clock();
        let text = match reading {
            Some(reading) => iso8601_at(reading),
            None => None,
        };
        proof {
            let now = choose|now: SystemTime| reading == #[trigger] reading_at(now);
            assert(text_or_none(text) == text_at(now));
        }
        text
    }
}

} // verus!
