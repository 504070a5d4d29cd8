//! Calendar value types: years, months, days, hours, minutes and seconds.

use vstd::prelude::*;
use crate::clock::{local_reading, utc_reading};
use crate::datetime::{MAX_YEAR, MIN_YEAR};
use crate::text::{decimal, push_decimal, push_zero_padded, zero_pad};

verus! {

/// The months in a year.
pub const MONTHS_IN_YEAR: u32 = 12;

/// Error of building a date or time from values out of range.
#[derive(Debug, Clone, Copy, PartialEq, Eq, Structural)]
pub enum TryFromTimeError {
    /// Tried to create a value from a number out of bounds.
    OutOfBounds,
}

impl TryFromTimeError {
    /// The message describing the error.
    pub fn message(&self) -> (r: &'static str)
        ensures
            r@ == "Tried to create struct from number out of bounds"@,
    {
        "Tried to create struct from number out of bounds"
    }
}

/// A year of the calendar.
#[derive(Debug, Clone, Copy, PartialEq, Eq, Structural, Hash)]
pub struct Year(pub i32);

/// The leap year rule of the proleptic Gregorian calendar: divisible by 4,
/// and not by 100 unless by 400.
pub open spec fn gregorian_leap(y: int) -> bool {
    y % 4 == 0 && (y % 100 != 0 || y % 400 == 0)
}

/// `v` in decimal, with a minus sign when negative.
pub open spec fn signed_decimal(v: int) -> Seq<char> {
    if v < 0 {
        "-"@ + decimal((-v) as nat)
    } else {
        decimal(v as nat)
    }
}

impl Year {
    /// The year now in UTC.
    pub fn utc_now() -> (r: Self)
        ensures
            MIN_YEAR <= r.0 <= MAX_YEAR,
    {
        Year(utc_reading().year)
    }

    /// The year now in the local time zone.
    pub fn local_now() -> (r: Self)
        ensures
            MIN_YEAR <= r.0 <= MAX_YEAR,
    {
        Year(local_reading().0.year)
    }

    /// Whether the year is a leap year of the Gregorian calendar.
    pub fn is_leap(&self) -> (r: bool)
        ensures
            r == gregorian_leap(self.0 as int),
    {
        self.0 % 4 == 0 && (self.0 % 100 != 0 || self.0 % 400 == 0)
    }

    /// The year in decimal, such as `2024` or `-44`.
    pub fn to_text(&self) -> (r: String)
        ensures
            r@ == signed_decimal(self.0 as int),
    {
        let mut out = String::new();
        if self.0 < 0 {
            out.append("-");
            push_decimal(&mut out, (0 - (self.0 as i64)) as u32 as usize);
        } else {
            push_decimal(&mut out, self.0 as u32 as usize);
        }
        out
    }
}

impl From<i32> for Year {
    fn from(value: i32) -> (r: Year)
        ensures
            r.0 == value,
    {
        Year(value)
    }
}

impl vstd::std_specs::convert::FromSpecImpl<i32> for Year {
    open spec fn obeys_from_spec() -> bool {
        true
    }

    open spec fn from_spec(v: i32) -> Year {
        Year(v)
    }
}

impl From<Year> for i32 {
    fn from(value: Year) -> (r: i32)
        ensures
            r == value.0,
    {
        value.0
    }
}

impl vstd::std_specs::convert::FromSpecImpl<Year> for i32 {
    open spec fn obeys_from_spec() -> bool {
        true
    }

    open spec fn from_spec(v: Year) -> i32 {
        v.0
    }
}

/// A month number; `1..=12` are the months of the year.
#[derive(Debug, Clone, Copy, PartialEq, Eq, Structural, Hash)]
pub struct Month(pub u32);

/// `m` brought into `1..=12` counting around the year: 0 is 12, 13 is 1.
pub open spec fn normalized(m: u32) -> u32 {
    ((m + 11) % 12 + 1) as u32
}

/// Days in month `m` of `1..=12`.
pub open spec fn days_in(m: u32, leap_year: bool) -> u32 {
    if m == 2 {
        if leap_year { 29 } else { 28 }
    } else if m == 4 || m == 6 || m == 9 || m == 11 {
        30
    } else {
        31
    }
}

/// English name of month `m` of `1..=12`.
pub open spec fn month_name(m: u32) -> Seq<char> {
    if m == 1 {
        "January"@
    } else if m == 2 {
        "February"@
    } else if m == 3 {
        "March"@
    } else if m == 4 {
        "April"@
    } else if m == 5 {
        "May"@
    } else if m == 6 {
        "June"@
    } else if m == 7 {
        "July"@
    } else if m == 8 {
        "August"@
    } else if m == 9 {
        "September"@
    } else if m == 10 {
        "October"@
    } else if m == 11 {
        "November"@
    } else {
        "December"@
    }
}

impl Month {
    /// The month now in UTC.
    pub fn utc_now() -> (r: Self)
        ensures
            1 <= r.0 <= 12,
    {
        Month(utc_reading().month)
    }

    /// The month now in the local time zone.
    pub fn local_now() -> (r: Self)
        ensures
            1 <= r.0 <= 12,
    {
        Month(local_reading().0.month)
    }

    /// Brings the month number into `1..=12`, counting around the year:
    /// month 0 becomes 12 and month 13 becomes 1.
    pub fn normalize(&self) -> (r: Self)
        ensures
            r.0 == normalized(self.0),
            1 <= r.0 <= 12,
    {
        Month((self.0 % MONTHS_IN_YEAR + MONTHS_IN_YEAR - 1) % MONTHS_IN_YEAR + 1)
    }

    /// The number of days in the month, after normalizing.
    pub fn count_days(&self, leap_year: bool) -> (r: u32)
        ensures
            r == days_in(normalized(self.0), leap_year),
    {
        match self.normalize().0 {
            2 => if leap_year { 29 } else { 28 },
            4 | 6 | 9 | 11 => 30,
            _ => 31,
        }
    }

    /// The English name of the month, after normalizing.
    pub fn get_name(&self) -> (r: String)
        ensures
            r@ == month_name(normalized(self.0)),
    {
        let name = match self.normalize().0 {
            1 => "January",
            2 => "February",
            3 => "March",
            4 => "April",
            5 => "May",
            6 => "June",
            7 => "July",
            8 => "August",
            9 => "September",
            10 => "October",
            11 => "November",
            _ => "December",
        };
        String::from_str(name)
    }

    /// The month number in decimal.
    pub fn to_text(&self) -> (r: String)
        ensures
            r@ == decimal(self.0 as nat),
    {
        let mut out = String::new();
        push_decimal(&mut out, self.0 as usize);
        out
    }

    /// Whether the month number is in `1..=12`.
    pub fn is_valid(&self) -> (r: bool)
        ensures
            r == (1 <= self.0 <= 12),
    {
        1 <= self.0 && self.0 <= MONTHS_IN_YEAR
    }
}

impl From<u32> for Month {
    fn from(value: u32) -> (r: Month)
        ensures
            r.0 == value,
    {
        Month(value)
    }
}

impl vstd::std_specs::convert::FromSpecImpl<u32> for Month {
    open spec fn obeys_from_spec() -> bool {
        true
    }

    open spec fn from_spec(v: u32) -> Month {
        Month(v)
    }
}

impl From<Month> for u32 {
    fn from(value: Month) -> (r: u32)
        ensures
            r == value.0,
    {
        value.0
    }
}

impl vstd::std_specs::convert::FromSpecImpl<Month> for u32 {
    open spec fn obeys_from_spec() -> bool {
        true
    }

    open spec fn from_spec(v: Month) -> u32 {
        v.0
    }
}

/// A day of a month.
#[derive(Debug, Clone, Copy, PartialEq, Eq, Structural, Hash)]
pub struct Day(pub u32);

impl Day {
    /// The day of the month now in UTC.
    pub fn utc_now() -> (r: Self)
        ensures
            1 <= r.0 <= 31,
    {
        Day(utc_reading().day)
    }

    /// The day of the month now in the local time zone.
    pub fn local_now() -> (r: Self)
        ensures
            1 <= r.0 <= 31,
    {
        Day(local_reading().0.day)
    }

    /// The day number in decimal.
    pub fn to_text(&self) -> (r: String)
        ensures
            r@ == decimal(self.0 as nat),
    {
        let mut out = String::new();
        push_decimal(&mut out, self.0 as usize);
        out
    }

    /// Whether the day falls within the month, after normalizing the month.
    pub fn is_valid(&self, month: Month, leap_year: bool) -> (r: bool)
        ensures
            r == (0 < self.0 && self.0 <= days_in(normalized(month.0), leap_year)),
    {
        0 < self.0 && self.0 <= month.count_days(leap_year)
    }
}

impl From<u32> for Day {
    fn from(value: u32) -> (r: Day)
        ensures
            r.0 == value,
    {
        Day(value)
    }
}

impl vstd::std_specs::convert::FromSpecImpl<u32> for Day {
    open spec fn obeys_from_spec() -> bool {
        true
    }

    open spec fn from_spec(v: u32) -> Day {
        Day(v)
    }
}

impl From<Day> for u32 {
    fn from(value: Day) -> (r: u32)
        ensures
            r == value.0,
    {
        value.0
    }
}

impl vstd::std_specs::convert::FromSpecImpl<Day> for u32 {
    open spec fn obeys_from_spec() -> bool {
        true
    }

    open spec fn from_spec(v: Day) -> u32 {
        v.0
    }
}

/// An hour of the day.
#[derive(Debug, Clone, Copy, PartialEq, Eq, Structural, Hash)]
pub struct Hour(pub u32);

impl Hour {
    /// The hour now in UTC.
    pub fn utc_now() -> (r: Self)
        ensures
            r.0 <= 23,
    {
        Hour(utc_reading().hour)
    }

    /// The hour now in the local time zone.
    pub fn local_now() -> (r: Self)
        ensures
            r.0 <= 23,
    {
        Hour(local_reading().0.hour)
    }

    /// The number in decimal with at least two digits, such as `07`.
    pub fn to_text(&self) -> (r: String)
        ensures
            r@ == zero_pad(self.0 as nat, 2),
    {
        let mut out = String::new();
        push_zero_padded(&mut out, self.0 as usize, 2);
        out
    }
}

impl From<u32> for Hour {
    fn from(value: u32) -> (r: Hour)
        ensures
            r.0 == value,
    {
        Hour(value)
    }
}

impl vstd::std_specs::convert::FromSpecImpl<u32> for Hour {
    open spec fn obeys_from_spec() -> bool {
        true
    }

    open spec fn from_spec(v: u32) -> Hour {
        Hour(v)
    }
}

impl From<Hour> for u32 {
    fn from(value: Hour) -> (r: u32)
        ensures
            r == value.0,
    {
        value.0
    }
}

impl vstd::std_specs::convert::FromSpecImpl<Hour> for u32 {
    open spec fn obeys_from_spec() -> bool {
        true
    }

    open spec fn from_spec(v: Hour) -> u32 {
        v.0
    }
}

/// A minute of the hour.
#[derive(Debug, Clone, Copy, PartialEq, Eq, Structural, Hash)]
pub struct Minute(pub u32);

impl Minute {
    /// The minute now in UTC.
    pub fn utc_now() -> (r: Self)
        ensures
            r.0 <= 59,
    {
        Minute(utc_reading().minute)
    }

    /// The minute now in the local time zone.
    pub fn local_now() -> (r: Self)
        ensures
            r.0 <= 59,
    {
        Minute(local_reading().0.minute)
    }

    /// The number in decimal with at least two digits, such as `07`.
    pub fn to_text(&self) -> (r: String)
        ensures
            r@ == zero_pad(self.0 as nat, 2),
    {
        let mut out = String::new();
        push_zero_padded(&mut out, self.0 as usize, 2);
        out
    }
}

impl From<u32> for Minute {
    fn from(value: u32) -> (r: Minute)
        ensures
            r.0 == value,
    {
        Minute(value)
    }
}

impl vstd::std_specs::convert::FromSpecImpl<u32> for Minute {
    open spec fn obeys_from_spec() -> bool {
        true
    }

    open spec fn from_spec(v: u32) -> Minute {
        Minute(v)
    }
}

impl From<Minute> for u32 {
    fn from(value: Minute) -> (r: u32)
        ensures
            r == value.0,
    {
        value.0
    }
}

impl vstd::std_specs::convert::FromSpecImpl<Minute> for u32 {
    open spec fn obeys_from_spec() -> bool {
        true
    }

    open spec fn from_spec(v: Minute) -> u32 {
        v.0
    }
}

/// A second of the minute.
#[derive(Debug, Clone, Copy, PartialEq, Eq, Structural, Hash)]
pub struct Second(pub u32);

impl Second {
    /// The second now in UTC.
    pub fn utc_now() -> (r: Self)
        ensures
            r.0 <= 59,
    {
        Second(utc_reading().second)
    }

    /// The second now in the local time zone.
    pub fn local_now() -> (r: Self)
        ensures
            r.0 <= 59,
    {
        Second(local_reading().0.second)
    }

    /// The number in decimal with at least two digits, such as `07`.
    pub fn to_text(&self) -> (r: String)
        ensures
            r@ == zero_pad(self.0 as nat, 2),
    {
        let mut out = String::new();
        push_zero_padded(&mut out, self.0 as usize, 2);
        out
    }
}

impl From<u32> for Second {
    fn from(value: u32) -> (r: Second)
        ensures
            r.0 == value,
    {
        Second(value)
    }
}

impl vstd::std_specs::convert::FromSpecImpl<u32> for Second {
    open spec fn obeys_from_spec() -> bool {
        true
    }

    open spec fn from_spec(v: u32) -> Second {
        Second(v)
    }
}

impl From<Second> for u32 {
    fn from(value: Second) -> (r: u32)
        ensures
            r == value.0,
    {
        value.0
    }
}

impl vstd::std_specs::convert::FromSpecImpl<Second> for u32 {
    open spec fn obeys_from_spec() -> bool {
        true
    }

    open spec fn from_spec(v: Second) -> u32 {
        v.0
    }
}

} // verus!
