//! Dates, times of day and UTC date-times that always hold valid values.

use vstd::prelude::*;
use chrono::{Datelike, TimeZone, Timelike};
use crate::clock::{local_reading, utc_reading};
use crate::text::{push_zero_padded, zero_pad};
use crate::time::{days_in, gregorian_leap, Day, Hour, Minute, Month, Second, TryFromTimeError, Year};

verus! {

/// The earliest year of chrono's calendar (262144 BCE).
pub const MIN_YEAR: i32 = -262143;

/// The latest year of chrono's calendar (262142 CE).
pub const MAX_YEAR: i32 = 262142;

/// Nanoseconds in one second.
pub const NANOS_PER_SECOND: u32 = 1_000_000_000;

/// Whether year `y`, month `m` and day `d` name a day of chrono's calendar.
pub open spec fn date_exists(y: int, m: int, d: int) -> bool {
    &&& MIN_YEAR <= y <= MAX_YEAR
    &&& 1 <= m <= 12
    &&& 1 <= d <= days_in(m as u32, gregorian_leap(y))
}

/// Whether the values name a time of day; a nanosecond count of a second or
/// more stands for a leap second, which only the 59th second may hold.
pub open spec fn time_exists(h: u32, m: u32, s: u32, nano: u32) -> bool {
    &&& h < 24
    &&& m < 60
    &&& s < 60
    &&& nano < 2 * NANOS_PER_SECOND
    &&& (nano >= NANOS_PER_SECOND ==> s == 59)
}

/// A year as chrono writes it: four digits or more, with a sign outside
/// `0..=9999`.
pub open spec fn year_text(y: int) -> Seq<char> {
    if 0 <= y <= 9999 {
        zero_pad(y as nat, 4)
    } else if y < 0 {
        "-"@ + zero_pad((-y) as nat, 4)
    } else {
        "+"@ + zero_pad(y as nat, 4)
    }
}

/// A date as chrono writes it, such as `2024-10-19`.
pub open spec fn date_text(y: int, m: nat, d: nat) -> Seq<char> {
    year_text(y) + "-"@ + zero_pad(m, 2) + "-"@ + zero_pad(d, 2)
}

/// The fraction of a second as chrono writes it: nothing for none, else a
/// point and three, six or nine digits, the fewest that hold it exactly.
pub open spec fn fraction_text(nano: nat) -> Seq<char> {
    if nano == 0 {
        Seq::empty()
    } else if nano % 1_000_000 == 0 {
        "."@ + zero_pad(nano / 1_000_000, 3)
    } else if nano % 1_000 == 0 {
        "."@ + zero_pad(nano / 1_000, 6)
    } else {
        "."@ + zero_pad(nano, 9)
    }
}

/// A time of day as chrono writes it, such as `16:45:35.250`; a leap second
/// shows as second 60.
pub open spec fn time_text(h: nat, m: nat, s: nat, nano: nat) -> Seq<char> {
    let leap = nano >= NANOS_PER_SECOND;
    let sec = if leap { s + 1 } else { s };
    let frac = if leap { (nano - NANOS_PER_SECOND) as nat } else { nano };
    zero_pad(h, 2) + ":"@ + zero_pad(m, 2) + ":"@ + zero_pad(sec, 2) + fraction_text(frac)
}

/// Appends a year as chrono writes it.
pub fn push_year(out: &mut String, y: i32)
    ensures
        final(out)@ == old(out)@ + year_text(y as int),
{
    let ghost start = out@;
    if 0 <= y && y <= 9999 {
        push_zero_padded(out, y as usize, 4);
    } else if y < 0 {
        out.append("-");
        push_zero_padded(out, (0 - (y as i64)) as u32 as usize, 4);
        assert(out@ =~= start + year_text(y as int));
    } else {
        out.append("+");
        push_zero_padded(out, y as u32 as usize, 4);
        assert(out@ =~= start + year_text(y as int));
    }
}

/// What chrono's parser reads as a date from a text.
pub uninterp spec fn parsed_date(s: Seq<char>) -> Option<(i32, u32, u32)>;

/// What chrono's parser reads as a time of day from a text.
pub uninterp spec fn parsed_time(s: Seq<char>) -> Option<(u32, u32, u32, u32)>;

/// What chrono's parser reads as a UTC date-time from a text.
pub uninterp spec fn parsed_date_time(s: Seq<char>) -> Option<(i32, u32, u32, u32, u32, u32, u32)>;

/// Relies on chrono's `NaiveDate::from_ymd_opt`, documented to give `None`
/// exactly for a day that does not exist, an invalid month or day, or a year
/// out of range.
#[verifier::external_body]
fn chrono_date_exists(y: i32, m: u32, d: u32) -> (r: bool)
    ensures
        r == date_exists(y as int, m as int, d as int),
{
    chrono::NaiveDate::from_ymd_opt(y, m, d).is_some()
}

/// Relies on chrono's `NaiveTime::from_hms_opt`, documented to give `None`
/// exactly on an invalid hour, minute or second.
#[verifier::external_body]
fn chrono_time_exists(h: u32, m: u32, s: u32) -> (r: bool)
    ensures
        r == (h < 24 && m < 60 && s < 60),
{
    chrono::NaiveTime::from_hms_opt(h, m, s).is_some()
}

/// Relies on chrono's `NaiveTime::from_hms_nano_opt`, which gives `None`
/// exactly on an invalid hour, minute or second, or on a nanosecond count of
/// two seconds or more, or of one second or more outside the 59th second.
#[verifier::external_body]
fn chrono_time_nano_exists(h: u32, m: u32, s: u32, nano: u32) -> (r: bool)
    ensures
        r == time_exists(h, m, s, nano),
{
    chrono::NaiveTime::from_hms_nano_opt(h, m, s, nano).is_some()
}

/// Relies on chrono's `TimeZone::with_ymd_and_hms` for `Utc`, which gives one
/// date-time exactly when both the date and the time of day exist.
#[verifier::external_body]
fn chrono_utc_exists(y: i32, mo: u32, d: u32, h: u32, mi: u32, s: u32) -> (r: bool)
    ensures
        r == (date_exists(y as int, mo as int, d as int) && h < 24 && mi < 60 && s < 60),
{
    chrono::Utc.with_ymd_and_hms(y, mo, d, h, mi, s).single().is_some()
}

/// Relies on chrono's `FromStr` for `NaiveDate`: the outcome depends on the
/// text alone, and a date it gives exists in chrono's calendar.
#[verifier::external_body]
fn parse_naive_date(s: &str) -> (r: Option<(i32, u32, u32)>)
    ensures
        r == parsed_date(s@),
        r matches Some(t) ==> date_exists(t.0 as int, t.1 as int, t.2 as int),
{
    match s.parse::<chrono::NaiveDate>() {
        Ok(d) => Some((d.year(), d.month(), d.day())),
        Err(_) => None,
    }
}

/// Relies on chrono's `FromStr` for `NaiveTime`: the outcome depends on the
/// text alone, and a time it gives is a valid time of day.
#[verifier::external_body]
fn parse_naive_time(s: &str) -> (r: Option<(u32, u32, u32, u32)>)
    ensures
        r == parsed_time(s@),
        r matches Some(t) ==> time_exists(t.0, t.1, t.2, t.3),
{
    match s.parse::<chrono::NaiveTime>() {
        Ok(t) => Some((t.hour(), t.minute(), t.second(), t.nanosecond())),
        Err(_) => None,
    }
}

/// Relies on chrono's `FromStr` for `DateTime<Utc>`: the outcome depends on
/// the text alone, and what it gives is an existing day and a valid time.
#[verifier::external_body]
fn parse_utc_date_time(s: &str) -> (r: Option<(i32, u32, u32, u32, u32, u32, u32)>)
    ensures
        r == parsed_date_time(s@),
        r matches Some(t) ==> date_exists(t.0 as int, t.1 as int, t.2 as int) && time_exists(
            t.3,
            t.4,
            t.5,
            t.6,
        ),
{
    match s.parse::<chrono::DateTime<chrono::Utc>>() {
        Ok(t) => Some((t.year(), t.month(), t.day(), t.hour(), t.minute(), t.second(), t.nanosecond())),
        Err(_) => None,
    }
}

/// A day of chrono's calendar.
#[derive(Debug, Clone, Copy, PartialEq, Eq, Structural, Hash)]
pub struct Date {
    year: i32,
    month: u32,
    day: u32,
}

impl View for Date {
    type V = (i32, u32, u32);

    closed spec fn view(&self) -> (i32, u32, u32) {
        (self.year, self.month, self.day)
    }
}

impl Date {
    #[verifier::type_invariant]
    spec fn is_real(self) -> bool {
        date_exists(self.year as int, self.month as int, self.day as int)
    }

    /// The year, month and day, which always name an existing day.
    pub fn to_ymd(&self) -> (r: (Year, Month, Day))
        ensures
            r == (Year(self@.0), Month(self@.1), Day(self@.2)),
            date_exists(self@.0 as int, self@.1 as int, self@.2 as int),
    {
        proof {
            use_type_invariant(self);
        }
        (Year(self.year), Month(self.month), Day(self.day))
    }

    /// Today's date in UTC.
    pub fn utc_now() -> (r: Self) {
        let t = utc_reading();
        Date { year: t.year, month: t.month, day: t.day }
    }

    /// Today's date in the local time zone.
    pub fn local_now() -> (r: Self) {
        let t = local_reading().0;
        Date { year: t.year, month: t.month, day: t.day }
    }

    /// The date of a year, month and day, if that day exists.
    pub fn from_ymd(year: Year, month: Month, day: Day) -> (r: Result<Self, TryFromTimeError>)
        ensures
            r is Ok <==> date_exists(year.0 as int, month.0 as int, day.0 as int),
            r matches Ok(d) ==> d@ == (year.0, month.0, day.0),
    {
        if chrono_date_exists(year.0, month.0, day.0) {
            Ok(Date { year: year.0, month: month.0, day: day.0 })
        } else {
            Err(TryFromTimeError::OutOfBounds)
        }
    }

    /// Reads a date such as `2024-10-19`.
    pub fn parse(s: &str) -> (r: Result<Self, TryFromTimeError>)
        ensures
            r is Ok <==> parsed_date(s@) is Some,
            r matches Ok(d) ==> parsed_date(s@) == Some(d@),
    {
        match parse_naive_date(s) {
            Some((y, m, d)) => Ok(Date { year: y, month: m, day: d }),
            None => Err(TryFromTimeError::OutOfBounds),
        }
    }

    /// The date as chrono writes it, such as `2024-10-19`.
    pub fn to_text(&self) -> (r: String)
        ensures
            r@ == date_text(self@.0 as int, self@.1 as nat, self@.2 as nat),
    {
        let mut out = String::new();
        push_year(&mut out, self.year);
        out.append("-");
        push_zero_padded(&mut out, self.month as usize, 2);
        out.append("-");
        push_zero_padded(&mut out, self.day as usize, 2);
        assert(out@ =~= date_text(self@.0 as int, self@.1 as nat, self@.2 as nat));
        out
    }

    /// The year of the date.
    pub fn year(&self) -> (r: Year)
        ensures
            r.0 == self@.0,
    {
        Year(self.year)
    }

    /// The month of the date.
    pub fn month(&self) -> (r: Month)
        ensures
            r.0 == self@.1,
    {
        Month(self.month)
    }

    /// The day of the month.
    pub fn day(&self) -> (r: Day)
        ensures
            r.0 == self@.2,
    {
        Day(self.day)
    }
}

impl std::str::FromStr for Date {
    type Err = TryFromTimeError;

    fn from_str(s: &str) -> Result<Self, Self::Err> {
        Date::parse(s)
    }
}

/// A time of day, to the nanosecond.
#[derive(Debug, Clone, Copy, PartialEq, Eq, Structural, Hash)]
pub struct Time {
    hour: u32,
    minute: u32,
    second: u32,
    nanosecond: u32,
}

impl View for Time {
    type V = (u32, u32, u32, u32);

    closed spec fn view(&self) -> (u32, u32, u32, u32) {
        (self.hour, self.minute, self.second, self.nanosecond)
    }
}

impl Time {
    #[verifier::type_invariant]
    spec fn is_real(self) -> bool {
        time_exists(self.hour, self.minute, self.second, self.nanosecond)
    }

    /// The hour, minute, second and nanosecond, which always make a valid
    /// time of day.
    pub fn to_hmsn(&self) -> (r: (Hour, Minute, Second, u32))
        ensures
            r == (Hour(self@.0), Minute(self@.1), Second(self@.2), self@.3),
            time_exists(self@.0, self@.1, self@.2, self@.3),
    {
        proof {
            use_type_invariant(self);
        }
        (Hour(self.hour), Minute(self.minute), Second(self.second), self.nanosecond)
    }

    /// The time of day now in UTC.
    pub fn utc_now() -> (r: Self) {
        let t = utc_reading();
        Time { hour: t.hour, minute: t.minute, second: t.second, nanosecond: t.nanosecond }
    }

    /// The time of day now in the local time zone.
    pub fn local_now() -> (r: Self) {
        let t = local_reading().0;
        Time { hour: t.hour, minute: t.minute, second: t.second, nanosecond: t.nanosecond }
    }

    /// The time of an hour, minute and second, if each is in range.
    pub fn from_hms(hour: Hour, minute: Minute, second: Second) -> (r: Result<Self, TryFromTimeError>)
        ensures
            r is Ok <==> (hour.0 < 24 && minute.0 < 60 && second.0 < 60),
            r matches Ok(t) ==> t@ == (hour.0, minute.0, second.0, 0u32),
    {
        if chrono_time_exists(hour.0, minute.0, second.0) {
            Ok(Time { hour: hour.0, minute: minute.0, second: second.0, nanosecond: 0 })
        } else {
            Err(TryFromTimeError::OutOfBounds)
        }
    }

    /// The time of an hour, minute, second and nanosecond, if they make a
    /// valid time of day.
    pub fn from_hms_nano(hour: Hour, minute: Minute, second: Second, nanosecond: u32) -> (r: Result<
        Self,
        TryFromTimeError,
    >)
        ensures
            r is Ok <==> time_exists(hour.0, minute.0, second.0, nanosecond),
            r matches Ok(t) ==> t@ == (hour.0, minute.0, second.0, nanosecond),
    {
        if chrono_time_nano_exists(hour.0, minute.0, second.0, nanosecond) {
            Ok(Time { hour: hour.0, minute: minute.0, second: second.0, nanosecond })
        } else {
            Err(TryFromTimeError::OutOfBounds)
        }
    }

    /// Reads a time such as `16:45:35`.
    pub fn parse(s: &str) -> (r: Result<Self, TryFromTimeError>)
        ensures
            r is Ok <==> parsed_time(s@) is Some,
            r matches Ok(t) ==> parsed_time(s@) == Some(t@),
    {
        match parse_naive_time(s) {
            Some((h, m, sec, n)) => Ok(Time { hour: h, minute: m, second: sec, nanosecond: n }),
            None => Err(TryFromTimeError::OutOfBounds),
        }
    }

    /// The time as chrono writes it, such as `16:45:35` or `16:45:35.250`.
    pub fn to_text(&self) -> (r: String)
        ensures
            r@ == time_text(self@.0 as nat, self@.1 as nat, self@.2 as nat, self@.3 as nat),
    {
        proof {
            use_type_invariant(self);
        }
        let leap = self.nanosecond >= NANOS_PER_SECOND;
        let sec = if leap { self.second + 1 } else { self.second };
        let frac = if leap { self.nanosecond - NANOS_PER_SECOND } else { self.nanosecond };
        let mut out = String::new();
        push_zero_padded(&mut out, self.hour as usize, 2);
        out.append(":");
        push_zero_padded(&mut out, self.minute as usize, 2);
        out.append(":");
        push_zero_padded(&mut out, sec as usize, 2);
        let ghost whole = out@;
        if frac == 0 {
        } else if frac % 1_000_000 == 0 {
            out.append(".");
            push_zero_padded(&mut out, (frac / 1_000_000) as usize, 3);
        } else if frac % 1_000 == 0 {
            out.append(".");
            push_zero_padded(&mut out, (frac / 1_000) as usize, 6);
        } else {
            out.append(".");
            push_zero_padded(&mut out, frac as usize, 9);
        }
        assert(out@ =~= whole + fraction_text(frac as nat));
        assert(out@ =~= time_text(self@.0 as nat, self@.1 as nat, self@.2 as nat, self@.3 as nat));
        out
    }

    /// The hour of the day.
    pub fn hour(&self) -> (r: Hour)
        ensures
            r.0 == self@.0,
    {
        Hour(self.hour)
    }

    /// The minute of the hour.
    pub fn minute(&self) -> (r: Minute)
        ensures
            r.0 == self@.1,
    {
        Minute(self.minute)
    }

    /// The second of the minute.
    pub fn second(&self) -> (r: Second)
        ensures
            r.0 == self@.2,
    {
        Second(self.second)
    }

    /// The nanoseconds past the second; a second or more for a leap second.
    pub fn nanosecond(&self) -> (r: u32)
        ensures
            r == self@.3,
    {
        self.nanosecond
    }
}

impl std::str::FromStr for Time {
    type Err = TryFromTimeError;

    fn from_str(s: &str) -> Result<Self, Self::Err> {
        Time::parse(s)
    }
}

/// A date and a time of day in UTC.
#[derive(Debug, Clone, Copy, PartialEq, Eq, Structural, Hash)]
pub struct DateTime {
    pub date: Date,
    pub time: Time,
}

impl DateTime {
    /// The date and time now in UTC.
    pub fn utc_now() -> (r: Self) {
        let t = utc_reading();
        DateTime {
            date: Date { year: t.year, month: t.month, day: t.day },
            time: Time { hour: t.hour, minute: t.minute, second: t.second, nanosecond: t.nanosecond },
        }
    }

    /// The date-time as chrono writes it, such as `2024-10-19 16:45:35 UTC`.
    pub fn to_text(&self) -> (r: String)
        ensures
            r@ == date_text(self.date@.0 as int, self.date@.1 as nat, self.date@.2 as nat) + " "@
                + time_text(
                self.time@.0 as nat,
                self.time@.1 as nat,
                self.time@.2 as nat,
                self.time@.3 as nat,
            ) + " UTC"@,
    {
        let mut out = self.date.to_text();
        out.append(" ");
        out.append(self.time.to_text().as_str());
        out.append(" UTC");
        out
    }

    /// The date-time of a date and a time of day.
    pub fn from_parts(date: Date, time: Time) -> (r: Self)
        ensures
            r.date == date,
            r.time == time,
    {
        DateTime { date, time }
    }

    /// The date-time of a year, month, day, hour, minute and second, if the
    /// day exists and the time is in range.
    pub fn from_ymd_hms(
        year: Year,
        month: Month,
        day: Day,
        hour: Hour,
        minute: Minute,
        second: Second,
    ) -> (r: Result<Self, TryFromTimeError>)
        ensures
            r is Ok <==> (date_exists(year.0 as int, month.0 as int, day.0 as int) && hour.0 < 24
                && minute.0 < 60 && second.0 < 60),
            r matches Ok(t) ==> t.date@ == (year.0, month.0, day.0) && t.time@ == (
                hour.0,
                minute.0,
                second.0,
                0u32,
            ),
    {
        if chrono_utc_exists(year.0, month.0, day.0, hour.0, minute.0, second.0) {
            Ok(
                DateTime {
                    date: Date { year: year.0, month: month.0, day: day.0 },
                    time: Time { hour: hour.0, minute: minute.0, second: second.0, nanosecond: 0 },
                },
            )
        } else {
            Err(TryFromTimeError::OutOfBounds)
        }
    }

    /// Reads a date-time with an offset, such as `2024-10-19T16:45:35Z`, as UTC.
    pub fn parse(s: &str) -> (r: Result<Self, TryFromTimeError>)
        ensures
            r is Ok <==> parsed_date_time(s@) is Some,
            r matches Ok(t) ==> parsed_date_time(s@) == Some(
                (t.date@.0, t.date@.1, t.date@.2, t.time@.0, t.time@.1, t.time@.2, t.time@.3),
            ),
    {
        match parse_utc_date_time(s) {
            Some((y, mo, d, h, mi, sec, n)) => Ok(
                DateTime {
                    date: Date { year: y, month: mo, day: d },
                    time: Time { hour: h, minute: mi, second: sec, nanosecond: n },
                },
            ),
            None => Err(TryFromTimeError::OutOfBounds),
        }
    }
}

impl From<(Date, Time)> for DateTime {
    fn from(value: (Date, Time)) -> (r: DateTime)
        ensures
            r.date == value.0,
            r.time == value.1,
    {
        DateTime { date: value.0, time: value.1 }
    }
}

impl vstd::std_specs::convert::FromSpecImpl<(Date, Time)> for DateTime {
    open spec fn obeys_from_spec() -> bool {
        true
    }

    open spec fn from_spec(v: (Date, Time)) -> DateTime {
        DateTime { date: v.0, time: v.1 }
    }
}

impl std::str::FromStr for DateTime {
    type Err = TryFromTimeError;

    fn from_str(s: &str) -> Result<Self, Self::Err> {
        DateTime::parse(s)
    }
}

} // verus!
