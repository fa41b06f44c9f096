use vstd::prelude::*;

verus! {

/// Milliseconds in a day.
pub const MILLIS_PER_DAY: u32 = 86_400_000;

/// A time of day, counted in milliseconds from midnight.
#[derive(Debug, Clone, Copy, PartialEq, Eq, PartialOrd, Ord, Hash, Structural)]
pub struct TimeOfDay {
    pub millis: u32,
}

impl TimeOfDay {
    /// A time of day lies before the next midnight.
    pub open spec fn is_valid(self) -> bool {
        self.millis < MILLIS_PER_DAY
    }

    /// The time `hour:minute:second.milli`, if each part is in its range.
    pub fn from_hms_milli(hour: u32, minute: u32, second: u32, milli: u32) -> (r: Option<
        TimeOfDay,
    >)
        ensures
            r is Some <==> (hour < 24 && minute < 60 && second < 60 && milli < 1000),
            r matches Some(t) ==> t.millis == ((hour * 60 + minute) * 60 + second) * 1000 + milli
                && t.is_valid(),
    {
        if hour < 24 && minute < 60 && second < 60 && milli < 1000 {
            Some(TimeOfDay { millis: ((hour * 60 + minute) * 60 + second) * 1000 + milli })
        } else {
            None
        }
    }

    /// The time `hour:minute:second`, if each part is in its range.
    pub fn from_hms(hour: u32, minute: u32, second: u32) -> (r: Option<TimeOfDay>)
        ensures
            r is Some <==> (hour < 24 && minute < 60 && second < 60),
            r matches Some(t) ==> t.millis == ((hour * 60 + minute) * 60 + second) * 1000
                && t.is_valid(),
    {
        TimeOfDay::from_hms_milli(hour, minute, second, 0)
    }

    pub fn hour(&self) -> (r: u32)
        ensures
            r == self.millis / 3_600_000,
    {
        self.millis / 3_600_000
    }

    pub fn minute(&self) -> (r: u32)
        ensures
            r == self.millis / 60_000 % 60,
    {
        self.millis / 60_000 % 60
    }

    pub fn second(&self) -> (r: u32)
        ensures
            r == self.millis / 1000 % 60,
    {
        self.millis / 1000 % 60
    }

    pub fn millisecond(&self) -> (r: u32)
        ensures
            r == self.millis % 1000,
    {
        self.millis % 1000
    }
}

/// Leap years of the proleptic Gregorian calendar.
pub open spec fn is_leap_year(year: int) -> bool {
    (year % 4 == 0 && year % 100 != 0) || year % 400 == 0
}

pub open spec fn days_in_month(year: int, month: int) -> int {
    if month == 2 {
        if is_leap_year(year) {
            29
        } else {
            28
        }
    } else if month == 4 || month == 6 || month == 9 || month == 11 {
        30
    } else {
        31
    }
}

/// `day` of `month` exists in `year`.
pub open spec fn is_calendar_date(year: int, month: int, day: int) -> bool {
    1 <= month <= 12 && 1 <= day <= days_in_month(year, month)
}

/// A day of the calendar.
#[derive(Debug, Clone, Copy, PartialEq, Eq, PartialOrd, Ord, Hash, Structural)]
pub struct CalendarDate {
    pub year: i32,
    pub month: u32,
    pub day: u32,
}

impl CalendarDate {
    pub open spec fn is_valid(self) -> bool {
        is_calendar_date(self.year as int, self.month as int, self.day as int)
    }

    /// The day `year-month-day`, if the calendar has it.
    pub fn from_ymd(year: i32, month: u32, day: u32) -> (r: Option<CalendarDate>)
        requires
            -262_143 <= year <= 262_142,
        ensures
            r is Some <==> is_calendar_date(year as int, month as int, day as int),
            r matches Some(d) ==> d == (CalendarDate { year, month, day }),
    {
        if calendar_day_exists(year, month, day) {
            Some(CalendarDate { year, month, day })
        } else {
            None
        }
    }
}

/// Relies on chrono's `NaiveDate::from_ymd_opt`, which returns a date exactly for
/// the days of the proleptic Gregorian calendar, within its year range.
#[verifier::external_body]
fn calendar_day_exists(year: i32, month: u32, day: u32) -> (r: bool)
    requires
        -262_143 <= year <= 262_142,
    ensures
        r == is_calendar_date(year as int, month as int, day as int),
{
    chrono::NaiveDate::from_ymd_opt(year, month, day).is_some()
}

} // verus!
