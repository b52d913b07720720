//! A `date` field type with a required time component, stored in UTC.
//!
//! The calendar value itself is held as plain civil fields with a validity
//! invariant; the textual format is a type parameter, so the same value can
//! be carried under different wire formats and re-mapped between them without
//! being re-parsed.

use vstd::prelude::*;
use std::marker::PhantomData;
use chrono::{Datelike, Timelike};

verus! {

/// A civil UTC date and time, to millisecond precision.
///
/// Validity ([`UtcDateTime::wf`]) asks for a four-digit year, a real calendar
/// day (leap years included), and time fields in their civil ranges.
#[derive(Clone, Copy, Debug, PartialEq, Eq, Structural)]
pub struct UtcDateTime {
    pub year: i32,
    pub month: u32,
    pub day: u32,
    pub hour: u32,
    pub minute: u32,
    pub second: u32,
    pub milli: u32,
}

/// Whether `y` is a leap year in the proleptic Gregorian calendar.
pub open spec fn spec_is_leap_year(y: int) -> bool {
    y % 4 == 0 && (y % 100 != 0 || y % 400 == 0)
}

/// The number of days of month `m` of year `y`.
pub open spec fn spec_days_in_month(y: int, m: int) -> int {
    if m == 2 {
        if spec_is_leap_year(y) {
            29
        } else {
            28
        }
    } else if m == 4 || m == 6 || m == 9 || m == 11 {
        30
    } else {
        31
    }
}

/// Whether `y` is a leap year.
pub fn is_leap_year(y: i32) -> (r: bool)
    requires
        0 <= y,
    ensures
        r == spec_is_leap_year(y as int),
{
    y % 4 == 0 && (y % 100 != 0 || y % 400 == 0)
}

/// The number of days of month `m` of year `y`.
pub fn days_in_month(y: i32, m: u32) -> (r: u32)
    requires
        0 <= y,
        1 <= m <= 12,
    ensures
        r == spec_days_in_month(y as int, m as int),
{
    if m == 2 {
        if is_leap_year(y) {
            29
        } else {
            28
        }
    } else if m == 4 || m == 6 || m == 9 || m == 11 {
        30
    } else {
        31
    }
}

impl UtcDateTime {
    /// A valid civil value: four-digit year, real calendar day, time fields
    /// in range.
    pub open spec fn wf(self) -> bool {
        &&& 0 <= self.year <= 9999
        &&& 1 <= self.month <= 12
        &&& 1 <= self.day <= spec_days_in_month(self.year as int, self.month as int)
        &&& self.hour < 24
        &&& self.minute < 60
        &&& self.second < 60
        &&& self.milli < 1000
    }

    /// Checks validity.
    pub fn valid(&self) -> (b: bool)
        ensures
            b == self.wf(),
    {
        if self.year < 0 || self.year > 9999 {
            return false;
        }
        if self.month < 1 || self.month > 12 {
            return false;
        }
        if self.day < 1 || self.day > days_in_month(self.year, self.month) {
            return false;
        }
        self.hour < 24 && self.minute < 60 && self.second < 60 && self.milli < 1000
    }
}

/// The date string could not be read under the format it was handed to.
#[derive(Clone, Copy, Debug, PartialEq, Eq, Structural)]
pub struct ParseError;

/// A textual date format: a name, an exact formatting function, and the
/// parser that accepts precisely the strings this format produces for valid
/// values.
pub trait DateFormat {
    /// The format's name on the wire.
    spec fn spec_name() -> Seq<char>;

    /// The text this format gives to the valid value `d`.
    spec fn spec_format(d: UtcDateTime) -> Seq<char>;

    /// The value read from `s`, or nothing when `s` is not a well-formed
    /// date under this format.
    spec fn spec_parse(s: Seq<char>) -> Option<UtcDateTime>;

    /// Whatever this format parses is a valid civil value.
    proof fn lemma_parse_wf(s: Seq<char>)
        ensures
            Self::spec_parse(s) matches Some(d) ==> d.wf(),
    ;

    /// The format's name.
    fn name() -> (r: String)
        ensures
            r@ == Self::spec_name(),
    ;

    /// Formats `d` exactly as [`DateFormat::spec_format`] states.
    fn format(d: &UtcDateTime) -> (r: String)
        requires
            d.wf(),
        ensures
            r@ == Self::spec_format(*d),
    ;

    /// Parses `s`, succeeding exactly on the strings
    /// [`DateFormat::spec_parse`] accepts.
    fn parse(s: &str) -> (r: Result<UtcDateTime, ParseError>)
        ensures
            r is Ok <==> Self::spec_parse(s@) is Some,
            r matches Ok(d) ==> Self::spec_parse(s@) == Some(d),
    ;
}

/// Reads the civil UTC fields of the current system time.
///
/// Relies on chrono::Utc::now and the Datelike/Timelike accessors: they
/// return the current civil UTC time, whose month, day, hour, minute and
/// second lie in their civil ranges, whose day is a real day of that month
/// of that year in the proleptic Gregorian calendar, and whose millisecond
/// part exceeds 999 (up to 1999) only while a leap second is represented.
/// The year is whatever the clock says, and chrono panics on a clock it
/// cannot represent at all, as the pool's original surroundings did.
#[verifier::external_body]
fn utc_now_raw() -> (r: (i32, u32, u32, u32, u32, u32, u32))
    ensures
        1 <= r.1 <= 12,
        1 <= r.2 <= spec_days_in_month(r.0 as int, r.1 as int),
        r.3 < 24,
        r.4 < 60,
        r.5 < 60,
        r.6 < 2000,
{
    let n = chrono::Utc::now();
    (n.year(), n.month(), n.day(), n.hour(), n.minute(), n.second(), n.timestamp_subsec_millis())
}

/// A date type with a required time component, stored in UTC, carrying its
/// textual format as the type parameter `F`.
#[derive(Debug)]
pub struct Date<F: DateFormat> {
    value: UtcDateTime,
    _t: PhantomData<F>,
}

impl<F: DateFormat> Date<F> {
    /// The civil value this date holds.
    pub closed spec fn datetime(self) -> UtcDateTime {
        self.value
    }

    /// Every date holds a valid civil value.
    pub open spec fn wf(self) -> bool {
        self.datetime().wf()
    }

    /// Creates a date from the given civil value.
    pub fn new(date: UtcDateTime) -> (d: Date<F>)
        requires
            date.wf(),
        ensures
            d.datetime() == date,
    {
        Date { value: date, _t: PhantomData }
    }

    /// Creates a date from UTC primitives.
    pub fn build(year: i32, month: u32, day: u32, hour: u32, minute: u32, second: u32, milli: u32) -> (d: Date<F>)
        requires
            (UtcDateTime { year, month, day, hour, minute, second, milli }).wf(),
        ensures
            d.datetime() == (UtcDateTime { year, month, day, hour, minute, second, milli }),
    {
        Date { value: UtcDateTime { year, month, day, hour, minute, second, milli }, _t: PhantomData }
    }

    /// The current system time.  During a represented leap second the
    /// millisecond part is clamped into its civil range, and a clock set
    /// outside the four-digit-year era is clamped to the nearest instant the
    /// date domain holds.
    pub fn now() -> (d: Date<F>)
        ensures
            d.wf(),
    {
        let (year, month, day, hour, minute, second, ms) = utc_now_raw();
        if year < 0 {
            return Date {
                value: UtcDateTime { year: 0, month: 1, day: 1, hour: 0, minute: 0, second: 0, milli: 0 },
                _t: PhantomData,
            };
        }
        if year > 9999 {
            return Date {
                value: UtcDateTime { year: 9999, month: 12, day: 31, hour: 23, minute: 59, second: 59, milli: 999 },
                _t: PhantomData,
            };
        }
        let milli = if ms > 999 {
            999
        } else {
            ms
        };
        Date { value: UtcDateTime { year, month, day, hour, minute, second, milli }, _t: PhantomData }
    }

    /// Parses the date and time from a string whose shape must match the
    /// format `F`; rejects exactly what `F` rejects.
    pub fn parse(date: &str) -> (r: Result<Date<F>, ParseError>)
        ensures
            r is Ok <==> F::spec_parse(date@) is Some,
            r matches Ok(d) ==> F::spec_parse(date@) == Some(d.datetime()) && d.wf(),
    {
        match F::parse(date) {
            Ok(v) => {
                proof {
                    F::lemma_parse_wf(date@);
                }
                Ok(Date::new(v))
            },
            Err(e) => Err(e),
        }
    }

    /// Formats the date and time as the string the format `F` prescribes.
    pub fn format(&self) -> (r: String)
        requires
            self.wf(),
        ensures
            r@ == F::spec_format(self.datetime()),
    {
        F::format(&self.value)
    }

    /// Changes the format of this date, keeping the value.
    pub fn remap<FInto: DateFormat>(self) -> (d: Date<FInto>)
        ensures
            d.datetime() == self.datetime(),
    {
        Date { value: self.value, _t: PhantomData }
    }

    /// The year.
    pub fn year(&self) -> (r: i32)
        ensures
            r == self.datetime().year,
    {
        self.value.year
    }

    /// The month, 1 to 12.
    pub fn month(&self) -> (r: u32)
        ensures
            r == self.datetime().month,
    {
        self.value.month
    }

    /// The day of the month, starting at 1.
    pub fn day(&self) -> (r: u32)
        ensures
            r == self.datetime().day,
    {
        self.value.day
    }

    /// The hour, 0 to 23.
    pub fn hour(&self) -> (r: u32)
        ensures
            r == self.datetime().hour,
    {
        self.value.hour
    }

    /// The minute, 0 to 59.
    pub fn minute(&self) -> (r: u32)
        ensures
            r == self.datetime().minute,
    {
        self.value.minute
    }

    /// The second, 0 to 59.
    pub fn second(&self) -> (r: u32)
        ensures
            r == self.datetime().second,
    {
        self.value.second
    }

    /// The millisecond, 0 to 999.
    pub fn millisecond(&self) -> (r: u32)
        ensures
            r == self.datetime().milli,
    {
        self.value.milli
    }
}

impl<F: DateFormat> Default for Date<F> {
    /// The default date is the current system time.
    fn default() -> (d: Date<F>)
        ensures
            d.wf(),
    {
        Date::now()
    }
}

/// A borrowed view of a civil value under a format, for formatting a date
/// that is owned elsewhere without copying it.
pub struct DateBrw<'a, F: DateFormat> {
    value: &'a UtcDateTime,
    _t: PhantomData<F>,
}

impl<'a, F: DateFormat> DateBrw<'a, F> {
    /// The civil value this borrowed date refers to.
    pub closed spec fn datetime(self) -> UtcDateTime {
        *self.value
    }

    /// Borrows `date` under the format `F`.
    pub fn new(date: &'a UtcDateTime) -> (d: DateBrw<'a, F>)
        requires
            date.wf(),
        ensures
            d.datetime() == *date,
    {
        DateBrw { value: date, _t: PhantomData }
    }

    /// Formats the borrowed value as the format `F` prescribes.
    pub fn format(&self) -> (r: String)
        requires
            self.datetime().wf(),
        ensures
            r@ == F::spec_format(self.datetime()),
    {
        F::format(self.value)
    }
}

} // verus!
