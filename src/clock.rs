//! Readings of the system clock, through chrono.

use vstd::prelude::*;
use chrono::{Datelike, Timelike};
use crate::datetime::{date_exists, date_text, time_exists, NANOS_PER_SECOND};
use crate::text::zero_pad;

verus! {

/// A reading of the clock as calendar fields.
#[derive(Debug, Clone, Copy, PartialEq, Eq, Structural)]
pub struct ClockReading {
    pub year: i32,
    pub month: u32,
    pub day: u32,
    pub hour: u32,
    pub minute: u32,
    pub second: u32,
    pub nanosecond: u32,
}

/// A reading names a day of chrono's calendar and a time of day.
pub open spec fn reading_valid(r: ClockReading) -> bool {
    &&& date_exists(r.year as int, r.month as int, r.day as int)
    &&& time_exists(r.hour, r.minute, r.second, r.nanosecond)
}

/// Relies on chrono's `Utc::now` and its `Datelike` / `Timelike` accessors,
/// read from one chrono date and time, which only ever hold existing days of
/// chrono's calendar and valid times of day.
#[verifier::external_body]
pub(crate) fn utc_reading() -> (r: ClockReading)
    ensures
        reading_valid(r),
{
    let t = chrono::Utc::now();
    ClockReading {
        year: t.year(),
        month: t.month(),
        day: t.day(),
        hour: t.hour(),
        minute: t.minute(),
        second: t.second(),
        nanosecond: t.nanosecond(),
    }
}

/// The text chrono's `format` writes for `%Y-%m-%d %H:%M:%S`: the date as
/// chrono writes it, then two-digit hour, minute and second, a leap second
/// showing as second 60.
pub open spec fn stamp_text(r: ClockReading) -> Seq<char> {
    let sec = r.second + r.nanosecond / NANOS_PER_SECOND;
    date_text(r.year as int, r.month as nat, r.day as nat) + " "@ + zero_pad(r.hour as nat, 2) + ":"@
        + zero_pad(r.minute as nat, 2) + ":"@ + zero_pad(sec as nat, 2)
}

/// Relies on chrono's `Local::now`, its `Datelike` / `Timelike` accessors, and
/// `format` with `%Y-%m-%d %H:%M:%S`, all on one reading: the fields come from
/// a chrono date and time, which only ever hold existing days of chrono's
/// calendar and valid times of day, and the format writes the year as its
/// `Display` for dates does and each other field as two zero-padded digits.
#[verifier::external_body]
pub(crate) fn local_reading() -> (r: (ClockReading, String))
    ensures
        reading_valid(r.0),
        r.1@ == stamp_text(r.0),
{
    let t = chrono::Local::now();
    let reading = ClockReading {
        year: t.year(),
        month: t.month(),
        day: t.day(),
        hour: t.hour(),
        minute: t.minute(),
        second: t.second(),
        nanosecond: t.nanosecond(),
    };
    (reading, t.format("%Y-%m-%d %H:%M:%S").to_string())
}

} // verus!
