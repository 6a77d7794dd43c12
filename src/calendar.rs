//! Plain calendar values (dates, times of day, date-times) and their arithmetic.
//!
//! The computations that the `time` crate provides stand behind small trusted
//! functions at the end of this file; everything else is verified.
use vstd::prelude::*;

verus! {

/// The smallest year that a date can hold.
pub const MIN_YEAR: i32 = -9999;

/// The largest year that a date can hold.
pub const MAX_YEAR: i32 = 9999;

/// Days of the week, from Monday to Sunday.
#[derive(Debug, Copy, Clone, PartialEq, Eq, Structural)]
pub enum Weekday {
    Monday,
    Tuesday,
    Wednesday,
    Thursday,
    Friday,
    Saturday,
    Sunday,
}

/// A day of the proleptic Gregorian calendar.
#[derive(Debug, Copy, Clone, PartialEq, Eq, Structural)]
pub struct Date {
    pub year: i32,
    /// 1 (January) to 12 (December)
    pub month: u8,
    /// 1 to the length of the month
    pub day: u8,
}

/// A time of day, with nanosecond precision.
#[derive(Debug, Copy, Clone, PartialEq, Eq, Structural)]
pub struct TimeOfDay {
    pub hour: u8,
    pub minute: u8,
    pub second: u8,
    pub nanosecond: u32,
}

/// A date together with a time of day, without a time zone.
#[derive(Debug, Copy, Clone, PartialEq, Eq, Structural)]
pub struct DateTime {
    pub date: Date,
    pub time: TimeOfDay,
}

pub open spec fn is_leap_year(year: int) -> bool {
    (year % 4 == 0 && year % 100 != 0) || year % 400 == 0
}

/// Number of days in the given month (1 to 12) of the given year.
pub open spec fn days_in_month(year: int, month: int) -> int {
    if month == 2 {
        if is_leap_year(year) {
            29
        } else {
            28
        }
    } else if month == 4 || month == 6 || month == 9 || month == 11 {
        30
    } else {
        31
    }
}

pub open spec fn is_valid_ymd(year: int, month: int, day: int) -> bool {
    &&& MIN_YEAR <= year <= MAX_YEAR
    &&& 1 <= month <= 12
    &&& 1 <= day <= days_in_month(year, month)
}

/// Days from 1970-01-01 to the given date (negative before it).
pub open spec fn days_since_epoch(year: int, month: int, day: int) -> int {
    let y = if month <= 2 {
        year - 1
    } else {
        year
    };
    let shifted_month = if month > 2 {
        month - 3
    } else {
        month + 9
    };
    let day_of_shifted_year = (153 * shifted_month + 2) / 5 + day - 1;
    365 * y + y / 4 - y / 100 + y / 400 + day_of_shifted_year - 719468
}

/// The weekday with the given position, Monday being 0.
pub open spec fn weekday_from_index(i: int) -> Weekday {
    if i == 0 {
        Weekday::Monday
    } else if i == 1 {
        Weekday::Tuesday
    } else if i == 2 {
        Weekday::Wednesday
    } else if i == 3 {
        Weekday::Thursday
    } else if i == 4 {
        Weekday::Friday
    } else if i == 5 {
        Weekday::Saturday
    } else {
        Weekday::Sunday
    }
}

/// The day of the week of a date; 1970-01-01 was a Thursday.
pub open spec fn weekday_of(d: Date) -> Weekday {
    weekday_from_index((days_since_epoch(d.year as int, d.month as int, d.day as int) + 3) % 7)
}

/// Smallest Unix timestamp (in seconds) whose date is supported: -9999-01-01 00:00:00 UTC.
pub const MIN_UNIX_SECONDS: i64 = -377705116800;

/// Largest Unix timestamp (in seconds) whose date is supported: 9999-12-31 23:59:59 UTC.
pub const MAX_UNIX_SECONDS: i64 = 253402300799;

/// The text that the `time` crate displays for a date-time, such as
/// `2020-01-01 0:00:00.0`.
pub uninterp spec fn datetime_text(dt: DateTime) -> Seq<char>;

/// Days from 1970-01-01 to the calendar date at the Unix timestamp
/// `unix_seconds`, seen at a UTC offset of `offset_hours` hours.
pub open spec fn local_day_number(unix_seconds: int, offset_hours: int) -> int {
    (unix_seconds + offset_hours * 3600) / 86400
}

/// The time of day at the Unix timestamp `unix_seconds`, seen at a UTC offset of
/// `offset_hours` hours.
pub open spec fn local_time_of(unix_seconds: int, offset_hours: int) -> TimeOfDay {
    let seconds_of_day = (unix_seconds + offset_hours * 3600) % 86400;
    TimeOfDay {
        hour: (seconds_of_day / 3600) as u8,
        minute: ((seconds_of_day % 3600) / 60) as u8,
        second: (seconds_of_day % 60) as u8,
        nanosecond: 0,
    }
}

/// True if the timestamp, seen at the offset, is a supported date-time.
pub open spec fn local_timestamp_in_range(unix_seconds: int, offset_hours: int) -> bool {
    &&& -25 <= offset_hours <= 25
    &&& MIN_UNIX_SECONDS <= unix_seconds <= MAX_UNIX_SECONDS
    &&& MIN_UNIX_SECONDS <= unix_seconds + offset_hours * 3600 <= MAX_UNIX_SECONDS
}

impl Date {
    pub open spec fn wf(self) -> bool {
        is_valid_ymd(self.year as int, self.month as int, self.day as int)
    }

    pub open spec fn is_last_supported_day(self) -> bool {
        self.year == MAX_YEAR && self.month == 12 && self.day == 31
    }

    /// The day after `self`.
    pub open spec fn spec_next_day(self) -> Date {
        if (self.day as int) < days_in_month(self.year as int, self.month as int) {
            Date { day: (self.day + 1) as u8, ..self }
        } else if self.month < 12 {
            Date { year: self.year, month: (self.month + 1) as u8, day: 1 }
        } else {
            Date { year: (self.year + 1) as i32, month: 1, day: 1 }
        }
    }

    /// Dates are ordered by year, then month, then day.
    pub open spec fn spec_lt(self, other: Date) -> bool {
        ||| self.year < other.year
        ||| self.year == other.year && self.month < other.month
        ||| self.year == other.year && self.month == other.month && self.day < other.day
    }

    /// Returns true if `self` comes strictly before `other`.
    pub fn is_before(&self, other: &Date) -> (r: bool)
        ensures
            r == self.spec_lt(*other),
    {
        if self.year != other.year {
            self.year < other.year
        } else if self.month != other.month {
            self.month < other.month
        } else {
            self.day < other.day
        }
    }
}

impl TimeOfDay {
    pub open spec fn wf(self) -> bool {
        self.hour < 24 && self.minute < 60 && self.second < 60 && self.nanosecond < 1_000_000_000
    }

    pub open spec fn spec_lt(self, other: TimeOfDay) -> bool {
        ||| self.hour < other.hour
        ||| self.hour == other.hour && self.minute < other.minute
        ||| self.hour == other.hour && self.minute == other.minute && self.second < other.second
        ||| self.hour == other.hour && self.minute == other.minute && self.second == other.second
            && self.nanosecond < other.nanosecond
    }

    /// Midnight, the first instant of a day.
    pub open spec fn spec_midnight() -> TimeOfDay {
        TimeOfDay { hour: 0, minute: 0, second: 0, nanosecond: 0 }
    }

    /// Returns midnight, the first instant of a day.
    pub fn midnight() -> (r: TimeOfDay)
        ensures
            r == TimeOfDay::spec_midnight(),
            r.wf(),
    {
        TimeOfDay { hour: 0, minute: 0, second: 0, nanosecond: 0 }
    }

    /// Returns true if `self` comes strictly before `other`.
    pub fn is_before(&self, other: &TimeOfDay) -> (r: bool)
        ensures
            r == self.spec_lt(*other),
    {
        if self.hour != other.hour {
            self.hour < other.hour
        } else if self.minute != other.minute {
            self.minute < other.minute
        } else if self.second != other.second {
            self.second < other.second
        } else {
            self.nanosecond < other.nanosecond
        }
    }
}

impl DateTime {
    pub open spec fn wf(self) -> bool {
        self.date.wf() && self.time.wf()
    }

    /// Date-times are ordered by date, then time of day.
    pub open spec fn spec_lt(self, other: DateTime) -> bool {
        ||| self.date.spec_lt(other.date)
        ||| self.date == other.date && self.time.spec_lt(other.time)
    }

    pub fn new(date: Date, time: TimeOfDay) -> (r: DateTime)
        ensures
            r.date == date,
            r.time == time,
    {
        DateTime { date, time }
    }

    pub fn year(&self) -> (r: i32)
        ensures
            r == self.date.year,
    {
        self.date.year
    }

    pub fn month(&self) -> (r: u8)
        ensures
            r == self.date.month,
    {
        self.date.month
    }

    pub fn day(&self) -> (r: u8)
        ensures
            r == self.date.day,
    {
        self.date.day
    }

    /// Returns true if `self` comes strictly before `other`.
    pub fn is_before(&self, other: &DateTime) -> (r: bool)
        ensures
            r == self.spec_lt(*other),
    {
        if self.date != other.date {
            self.date.is_before(&other.date)
        } else {
            self.time.is_before(&other.time)
        }
    }
}

/// Relies on `time::Month::length`: the number of days of a month in a year.
#[verifier::external_body]
pub(crate) fn month_length(year: i32, month: u8) -> (r: u8)
    requires
        1 <= month <= 12,
    ensures
        r == days_in_month(year as int, month as int),
{
    time::Month::try_from(month).unwrap().length(year)
}

/// Relies on `time::Date::from_calendar_date`: it accepts exactly the valid
/// dates of the supported years, and keeps their components.
#[verifier::external_body]
pub(crate) fn calendar_date(year: i32, month: u8, day: u8) -> (r: Option<Date>)
    requires
        1 <= month <= 12,
    ensures
        r is Some <==> is_valid_ymd(year as int, month as int, day as int),
        r matches Some(d) ==> d == (Date { year, month, day }),
{
    match time::Date::from_calendar_date(year, time::Month::try_from(month).unwrap(), day) {
        Ok(d) => Some(Date { year: d.year(), month: d.month() as u8, day: d.day() }),
        Err(_) => None,
    }
}

/// Relies on `time::Date::weekday`: the day of the week of a date.
#[verifier::external_body]
pub(crate) fn weekday(date: &Date) -> (r: Weekday)
    requires
        date.wf(),
    ensures
        r == weekday_of(*date),
{
    let month = time::Month::try_from(date.month).unwrap();
    match time::Date::from_calendar_date(date.year, month, date.day).unwrap().weekday() {
        time::Weekday::Monday => Weekday::Monday,
        time::Weekday::Tuesday => Weekday::Tuesday,
        time::Weekday::Wednesday => Weekday::Wednesday,
        time::Weekday::Thursday => Weekday::Thursday,
        time::Weekday::Friday => Weekday::Friday,
        time::Weekday::Saturday => Weekday::Saturday,
        time::Weekday::Sunday => Weekday::Sunday,
    }
}

/// Relies on `time::Date::next_day`: the following calendar day, or none after
/// the last supported day.
#[verifier::external_body]
pub(crate) fn next_day(date: &Date) -> (r: Option<Date>)
    requires
        date.wf(),
    ensures
        date.is_last_supported_day() ==> r is None,
        !date.is_last_supported_day() ==> r == Some(date.spec_next_day()),
{
    let month = time::Month::try_from(date.month).unwrap();
    match time::Date::from_calendar_date(date.year, month, date.day).unwrap().next_day() {
        Some(n) => Some(Date { year: n.year(), month: n.month() as u8, day: n.day() }),
        None => None,
    }
}

/// Relies on the `Display` impl of `time::PrimitiveDateTime`: the text of a
/// date-time.
#[verifier::external_body]
pub(crate) fn display_datetime(dt: &DateTime) -> (r: String)
    requires
        dt.wf(),
    ensures
        r@ == datetime_text(*dt),
{
    let month = time::Month::try_from(dt.date.month).unwrap();
    let date = time::Date::from_calendar_date(dt.date.year, month, dt.date.day).unwrap();
    let t = dt.time;
    let time = time::Time::from_hms_nano(t.hour, t.minute, t.second, t.nanosecond).unwrap();
    time::PrimitiveDateTime::new(date, time).to_string()
}

/// Relies on `time::OffsetDateTime::from_unix_timestamp` and
/// `time::OffsetDateTime::to_offset`: the date-time at a Unix timestamp, seen at a
/// UTC offset of whole hours.
#[verifier::external_body]
pub(crate) fn local_datetime(unix_seconds: i64, offset_hours: i8) -> (r: DateTime)
    requires
        local_timestamp_in_range(unix_seconds as int, offset_hours as int),
    ensures
        days_since_epoch(r.date.year as int, r.date.month as int, r.date.day as int)
            == local_day_number(unix_seconds as int, offset_hours as int),
        r.time == local_time_of(unix_seconds as int, offset_hours as int),
        r.wf(),
{
    let offset = time::UtcOffset::from_hms(offset_hours, 0, 0).unwrap();
    let t = time::OffsetDateTime::from_unix_timestamp(unix_seconds).unwrap().to_offset(offset);
    let date = Date { year: t.year(), month: t.month() as u8, day: t.day() };
    let (hour, minute, second, nanosecond) = t.to_hms_nano();
    DateTime { date, time: TimeOfDay { hour, minute, second, nanosecond } }
}

} // verus!
