//! Points in local wall-clock time, and the timestamp text that backup names
//! carry.

use chrono::Datelike;
use chrono::Timelike;
use vstd::prelude::*;

use crate::digits::decimal_text;
use crate::digits::four_digits;
use crate::digits::two_digits;

verus! {

/// The earliest year a [`Moment`] can lie in.
pub const MIN_YEAR: i32 = -262_143;

/// The latest year a [`Moment`] can lie in.
pub const MAX_YEAR: i32 = 262_142;

/// A point in local wall-clock time, to the microsecond.
///
/// Every `Moment` is a date of the proleptic Gregorian calendar together with a
/// time of day; see [`MomentView::valid`].
#[derive(Clone, Copy, Debug)]
pub struct Moment {
    year: i32,
    month: u32,
    day: u32,
    hour: u32,
    minute: u32,
    second: u32,
    micros: u32,
}

/// The calendar fields of a [`Moment`] as mathematical integers.
pub struct MomentView {
    pub year: int,
    pub month: int,
    pub day: int,
    pub hour: int,
    pub minute: int,
    pub second: int,
    pub micros: int,
}

/// Whether `year` has a 29th of February.
pub open spec fn is_leap_year(year: int) -> bool {
    year % 4 == 0 && (year % 100 != 0 || year % 400 == 0)
}

/// The number of days of `month` in `year`; 0 where `month` is no month.
pub open spec fn days_in_month(year: int, month: int) -> int {
    if month == 2 {
        if is_leap_year(year) {
            29
        } else {
            28
        }
    } else if month == 4 || month == 6 || month == 9 || month == 11 {
        30
    } else if 1 <= month <= 12 {
        31
    } else {
        0
    }
}

impl MomentView {
    /// The fields name a day that exists, in a year between [`MIN_YEAR`] and
    /// [`MAX_YEAR`], and a time of day without leap second.
    pub open spec fn valid(self) -> bool {
        &&& MIN_YEAR <= self.year <= MAX_YEAR
        &&& 1 <= self.month <= 12
        &&& 1 <= self.day <= days_in_month(self.year, self.month)
        &&& 0 <= self.hour <= 23
        &&& 0 <= self.minute <= 59
        &&& 0 <= self.second <= 59
        &&& 0 <= self.micros <= 999_999
    }
}

impl Moment {
    #[verifier::type_invariant]
    pub(crate) open spec fn is_valid(self) -> bool {
        self@.valid()
    }
}

impl View for Moment {
    type V = MomentView;

    closed spec fn view(&self) -> MomentView {
        MomentView {
            year: self.year as int,
            month: self.month as int,
            day: self.day as int,
            hour: self.hour as int,
            minute: self.minute as int,
            second: self.second as int,
            micros: self.micros as int,
        }
    }
}

/// The text of a year: four digits for the years 0 to 9999; any other year
/// carries its sign, `+` or `-`, before at least four digits.
pub open spec fn year_text(year: int) -> Seq<char> {
    if 0 <= year <= 9999 {
        four_digits(year)
    } else if year > 0 {
        seq!['+'] + decimal_text(year as nat)
    } else if year >= -9999 {
        seq!['-'] + four_digits(-year)
    } else {
        seq!['-'] + decimal_text((-year) as nat)
    }
}

/// The timestamp of a moment at one-second resolution: year, month, day,
/// hour, minute and second, each zero-padded and joined by `-`.
pub open spec fn stamp_text(at: MomentView) -> Seq<char> {
    year_text(at.year) + seq!['-'] + two_digits(at.month) + seq!['-'] + two_digits(at.day)
        + seq!['-'] + two_digits(at.hour) + seq!['-'] + two_digits(at.minute) + seq!['-']
        + two_digits(at.second)
}

fn leap_year(year: i32) -> (leap: bool)
    requires
        MIN_YEAR <= year <= MAX_YEAR,
    ensures
        leap == is_leap_year(year as int),
{
    // 262_400 is a multiple of 400 that lifts every year above zero.
    let lifted: i32 = year + 262_400;
    assert((year + 262_400) % 4 == year as int % 4);
    assert((year + 262_400) % 100 == year as int % 100);
    assert((year + 262_400) % 400 == year as int % 400);
    lifted % 4 == 0 && (lifted % 100 != 0 || lifted % 400 == 0)
}

fn month_length(year: i32, month: u32) -> (days: u32)
    requires
        MIN_YEAR <= year <= MAX_YEAR,
    ensures
        days == days_in_month(year as int, month as int),
{
    if month == 2 {
        if leap_year(year) {
            29
        } else {
            28
        }
    } else if month == 4 || month == 6 || month == 9 || month == 11 {
        30
    } else if 1 <= month && month <= 12 {
        31
    } else {
        0
    }
}

/// The current local time with its calendar fields read out.
///
/// Calls `chrono::Local::now`, takes the local date and time of day with
/// `DateTime::naive_local`, and reads the fields with chrono's accessors and
/// `DateTime::timestamp_subsec_micros`. Trusted: the fields chrono hands out
/// name an existing day within its range of years and a time of day, and a
/// clock reading never lies in a leap second, so the microseconds stay below
/// one million. chrono panics where the system clock reads a time before 1970
/// or beyond the dates it can hold, or where it finds no local offset for the
/// time; nothing a caller does can rule that out.
#[verifier::external_body]
pub(crate) fn local_now() -> (now: Moment)
    ensures
        now@.valid(),
{
    let now = chrono::Local::now();
    let local = now.naive_local();
    Moment {
        year: local.year(),
        month: local.month(),
        day: local.day(),
        hour: local.hour(),
        minute: local.minute(),
        second: local.second(),
        micros: now.timestamp_subsec_micros(),
    }
}

/// The timestamp text of `at`.
///
/// Builds chrono's value for the same date and time with
/// `NaiveDate::from_ymd_opt` and `NaiveDate::and_hms_opt`, and formats it with
/// `NaiveDateTime::format` under the pattern `%Y-%m-%d-%H-%M-%S`. Trusted:
/// chrono accepts every valid moment, writes month, day, hour, minute and
/// second with two digits each, and writes the year as [`year_text`] says.
#[verifier::external_body]
pub(crate) fn format_stamp(at: &Moment) -> (text: String)
    requires
        at@.valid(),
    ensures
        text@ == stamp_text(at@),
{
    let date = chrono::NaiveDate::from_ymd_opt(at.year, at.month, at.day).unwrap();
    let time = date.and_hms_opt(at.hour, at.minute, at.second).unwrap();
    time.format("%Y-%m-%d-%H-%M-%S").to_string()
}

impl Moment {
    /// The moment with the given calendar fields, if they name one.
    pub fn new(
        year: i32,
        month: u32,
        day: u32,
        hour: u32,
        minute: u32,
        second: u32,
        micros: u32,
    ) -> (made: Option<Moment>)
        ensures
            made is Some <==> (MomentView {
                year: year as int,
                month: month as int,
                day: day as int,
                hour: hour as int,
                minute: minute as int,
                second: second as int,
                micros: micros as int,
            }).valid(),
            made matches Some(at) ==> at@ == (MomentView {
                year: year as int,
                month: month as int,
                day: day as int,
                hour: hour as int,
                minute: minute as int,
                second: second as int,
                micros: micros as int,
            }),
    {
        if year < MIN_YEAR || year > MAX_YEAR {
            return None;
        }
        if month < 1 || month > 12 || day < 1 || day > month_length(year, month) {
            return None;
        }
        if hour > 23 || minute > 59 || second > 59 || micros > 999_999 {
            return None;
        }
        Some(Moment { year, month, day, hour, minute, second, micros })
    }

    /// The year; the year before year 1 is year 0.
    pub fn year(&self) -> (year: i32)
        ensures
            year == self@.year,
    {
        self.year
    }

    /// The month, from 1 to 12.
    pub fn month(&self) -> (month: u32)
        ensures
            month == self@.month,
    {
        self.month
    }

    /// The day of the month, from 1.
    pub fn day(&self) -> (day: u32)
        ensures
            day == self@.day,
    {
        self.day
    }

    /// The hour of the day, from 0 to 23.
    pub fn hour(&self) -> (hour: u32)
        ensures
            hour == self@.hour,
    {
        self.hour
    }

    /// The minute of the hour, from 0 to 59.
    pub fn minute(&self) -> (minute: u32)
        ensures
            minute == self@.minute,
    {
        self.minute
    }

    /// The second of the minute, from 0 to 59.
    pub fn second(&self) -> (second: u32)
        ensures
            second == self@.second,
    {
        self.second
    }

    /// The microseconds past the full second, below one million.
    pub fn micros(&self) -> (micros: u32)
        ensures
            micros == self@.micros,
    {
        self.micros
    }

    /// The timestamp of this moment at one-second resolution.
    pub fn stamp(&self) -> (text: String)
        ensures
            self@.valid(),
            text@ == stamp_text(self@),
    {
        proof {
            use_type_invariant(self);
        }
        format_stamp(self)
    }
}

} // verus!
