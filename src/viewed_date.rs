//! Navigation between the pages of the datepicker: months, years and groups of
//! years, and the days that a page shows.
use vstd::prelude::*;

use crate::calendar::{
    days_in_month, is_leap_year, month_length, next_day, Date, DateTime, MAX_YEAR, MIN_YEAR,
};
use crate::dialog_view_type::DialogViewType;
use crate::utils::from_ymd;

verus! {

/// Number of years shown together when a year is selected.
pub const YEARS_IN_YEAR_SELECTION: i32 = 20;

pub type YearNumber = i32;

pub type MonthNumber = u8;

pub type DayNumber = u8;

/// First year of the group of years that holds `year`.
pub open spec fn spec_year_group_start(year: int) -> int {
    year - year % (YEARS_IN_YEAR_SELECTION as int)
}

/// Last year of the group of years that holds `year`.
pub open spec fn spec_year_group_end(year: int) -> int {
    spec_year_group_start(year) + YEARS_IN_YEAR_SELECTION - 1
}

/// First day of the month `year`-`month`, at the time of day of `dt`.
pub open spec fn first_of_month_at(dt: DateTime, year: int, month: int) -> DateTime {
    DateTime { date: Date { year: year as i32, month: month as u8, day: 1 }, time: dt.time }
}

/// `n` days after `d`.
pub open spec fn days_after(d: Date, n: nat) -> Date
    decreases n,
{
    if n == 0 {
        d
    } else {
        days_after(d, (n - 1) as nat).spec_next_day()
    }
}

/// Number of days before the first day of `month` in `year`.
pub open spec fn days_before_month(year: int, month: int) -> int {
    let leap_day: int = if is_leap_year(year) {
        1
    } else {
        0
    };
    if month <= 1 {
        0
    } else if month == 2 {
        31
    } else {
        let common: int = if month == 3 {
            59
        } else if month == 4 {
            90
        } else if month == 5 {
            120
        } else if month == 6 {
            151
        } else if month == 7 {
            181
        } else if month == 8 {
            212
        } else if month == 9 {
            243
        } else if month == 10 {
            273
        } else if month == 11 {
            304
        } else {
            334
        };
        common + leap_day
    }
}

/// Position of a date within its year, counting from 0.
pub open spec fn day_of_year(d: Date) -> int {
    days_before_month(d.year as int, d.month as int) + d.day - 1
}

/// Number of cells of a calendar grid: `leading` cells, then `month_days` days,
/// rounded up to whole weeks.
pub open spec fn calendar_cells(leading: int, month_days: int) -> int {
    ((leading + month_days + 6) / 7) * 7
}

impl DateTime {
    pub open spec fn has_previous_month(self) -> bool {
        self.date.year > MIN_YEAR || self.date.month > 1
    }

    pub open spec fn has_next_month(self) -> bool {
        self.date.year < MAX_YEAR || self.date.month < 12
    }

    pub open spec fn spec_previous_month(self) -> DateTime {
        if self.date.month == 1 {
            first_of_month_at(self, self.date.year - 1, 12)
        } else {
            first_of_month_at(self, self.date.year as int, self.date.month - 1)
        }
    }

    pub open spec fn spec_next_month(self) -> DateTime {
        if self.date.month == 12 {
            first_of_month_at(self, self.date.year + 1, 1)
        } else {
            first_of_month_at(self, self.date.year as int, self.date.month + 1)
        }
    }

    pub open spec fn spec_first_day_of_month(self) -> DateTime {
        first_of_month_at(self, self.date.year as int, self.date.month as int)
    }

    /// The month that a calendar grid starting at `self` with `offset` leading
    /// cells is built for.
    pub open spec fn grid_month(self, offset: int) -> DateTime {
        if offset == 0 {
            self
        } else {
            self.spec_next_month()
        }
    }

    pub open spec fn grid_len(self, offset: int) -> int {
        let m = self.grid_month(offset);
        calendar_cells(offset, days_in_month(m.date.year as int, m.date.month as int))
    }

    /// True if every day of the grid starting at `self` with `offset` leading
    /// cells is a supported date.
    pub open spec fn grid_fits(self, offset: int) -> bool {
        ||| self.date.year < MAX_YEAR
        ||| day_of_year(self.date) + self.grid_len(offset) - 1 <= day_of_year(
            Date { year: MAX_YEAR, month: 12, day: 31 },
        )
    }

    /// True if `other` lies on the page of granularity `view` that holds `self`.
    pub open spec fn spec_contains(self, view: DialogViewType, other: DateTime) -> bool {
        match view {
            DialogViewType::Years => self.date.year == other.date.year,
            DialogViewType::Months => self.date.year == other.date.year && self.date.month
                == other.date.month,
            DialogViewType::Days => self.date == other.date,
        }
    }
}

/// Operations on the value that describes the page that the datepicker shows.
pub trait ViewedDate: Sized {
    /// The date-time that the value stands for.
    spec fn viewed(&self) -> DateTime;

    /// Returns a datetime with the first day of the previous month
    fn previous_month(&self) -> (r: DateTime)
        requires
            self.viewed().wf(),
            self.viewed().has_previous_month(),
        ensures
            r == self.viewed().spec_previous_month(),
            r.wf(),
    ;

    /// Returns a datetime with the first day of the next month
    fn next_month(&self) -> (r: DateTime)
        requires
            self.viewed().wf(),
            self.viewed().has_next_month(),
        ensures
            r == self.viewed().spec_next_month(),
            r.wf(),
    ;

    /// Returns a datetime with the first day of the previous year
    fn previous_year(&self) -> (r: DateTime)
        requires
            self.viewed().wf(),
            self.viewed().date.year > MIN_YEAR,
        ensures
            r == first_of_month_at(self.viewed(), self.viewed().date.year - 1, 1),
            r.wf(),
    ;

    /// Returns a datetime with the first day of the next year
    fn next_year(&self) -> (r: DateTime)
        requires
            self.viewed().wf(),
            self.viewed().date.year < MAX_YEAR,
        ensures
            r == first_of_month_at(self.viewed(), self.viewed().date.year + 1, 1),
            r.wf(),
    ;

    /// Returns a datetime with the first day of the last year of the previous year group
    fn previous_year_group(&self) -> (r: DateTime)
        requires
            self.viewed().wf(),
            spec_year_group_start(self.viewed().date.year as int) > MIN_YEAR,
        ensures
            r == first_of_month_at(
                self.viewed(),
                spec_year_group_start(self.viewed().date.year as int) - 1,
                1,
            ),
            r.wf(),
    ;

    /// Returns a datetime with the first day of the first year of the next year group
    fn next_year_group(&self) -> (r: DateTime)
        requires
            self.viewed().wf(),
            spec_year_group_end(self.viewed().date.year as int) < MAX_YEAR,
        ensures
            r == first_of_month_at(
                self.viewed(),
                spec_year_group_end(self.viewed().date.year as int) + 1,
                1,
            ),
            r.wf(),
    ;

    /// Returns a datetime with the first day of the currently set month
    fn first_day_of_month(&self) -> (r: DateTime)
        requires
            self.viewed().wf(),
        ensures
            r == self.viewed().spec_first_day_of_month(),
            r.wf(),
    ;

    /// Return all datetimes in the currently set month
    fn dates_in_month(&self) -> (r: Vec<DateTime>)
        requires
            self.viewed().wf(),
        ensures
            r.len() == days_in_month(
                self.viewed().date.year as int,
                self.viewed().date.month as int,
            ),
            forall|i: int|
                0 <= i < r.len() ==> #[trigger] r[i] == (DateTime {
                    date: Date { day: (i + 1) as u8, ..self.viewed().date },
                    time: self.viewed().time,
                }),
    ;

    /// Return datetimes starting with `self` as first day, filling rows of seven
    /// days with `offset` leading days, then the whole month that the grid shows
    /// (the month of `self` when `offset` is 0, else the next one).
    fn dates_fill_calendar(&self, offset: u8) -> (r: Vec<DateTime>)
        requires
            self.viewed().wf(),
            self.viewed().grid_fits(offset as int),
        ensures
            r.len() == self.viewed().grid_len(offset as int),
            forall|i: int|
                0 <= i < r.len() ==> #[trigger] r[i] == (DateTime {
                    date: days_after(self.viewed().date, i as nat),
                    time: self.viewed().time,
                }),
    ;

    /// Returns true if the currently `ViewedDate` with the given `DialogViewType` includes the given datetime
    fn contains(&self, dialog_view_type: &DialogViewType, date: &DateTime) -> (r: bool)
        ensures
            r == self.viewed().spec_contains(*dialog_view_type, *date),
    ;
}

impl ViewedDate for DateTime {
    open spec fn viewed(&self) -> DateTime {
        *self
    }

    fn previous_month(&self) -> (r: DateTime) {
        let mut year = self.year();
        let mut month = self.month();
        if month == 1 {
            month = 12;
            year -= 1;
        } else {
            month -= 1;
        }
        DateTime::new(from_ymd(year, month, 1), self.time)
    }

    fn next_month(&self) -> (r: DateTime) {
        let mut year = self.year();
        let mut month = self.month();
        if month == 12 {
            month = 1;
            year += 1;
        } else {
            month += 1;
        }
        DateTime::new(from_ymd(year, month, 1), self.time)
    }

    fn previous_year(&self) -> (r: DateTime) {
        DateTime::new(from_ymd(self.year() - 1, 1, 1), self.time)
    }

    fn next_year(&self) -> (r: DateTime) {
        DateTime::new(from_ymd(self.year() + 1, 1, 1), self.time)
    }

    fn previous_year_group(&self) -> (r: DateTime) {
        DateTime::new(from_ymd(year_group_start(self.year()) - 1, 1, 1), self.time)
    }

    fn next_year_group(&self) -> (r: DateTime) {
        DateTime::new(from_ymd(year_group_end(self.year()) + 1, 1, 1), self.time)
    }

    fn first_day_of_month(&self) -> (r: DateTime) {
        DateTime::new(from_ymd(self.year(), self.month(), 1), self.time)
    }

    fn dates_in_month(&self) -> (r: Vec<DateTime>) {
        let first = self.first_day_of_month();
        let len = month_length(self.year(), self.month());
        let mut dates: Vec<DateTime> = Vec::new();
        let mut d = first.date;
        let mut i: u8 = 0;
        while i < len
            invariant
                self.wf(),
                len == days_in_month(self.date.year as int, self.date.month as int),
                i <= len,
                dates.len() == i,
                i < len ==> d == (Date { day: (i + 1) as u8, ..self.date }),
                forall|j: int|
                    0 <= j < i ==> #[trigger] dates[j] == (DateTime {
                        date: Date { day: (j + 1) as u8, ..self.date },
                        time: self.time,
                    }),
            decreases len - i,
        {
            dates.push(DateTime::new(d, self.time));
            if i + 1 < len {
                d = next_day(&d).unwrap();
            }
            i += 1;
        }
        dates
    }

    fn dates_fill_calendar(&self, offset: u8) -> (r: Vec<DateTime>) {
        let shown = if offset == 0 {
            *self
        } else {
            proof {
                lemma_grid_fits_has_next_month(*self, offset as int);
            }
            self.next_month()
        };
        let month_days = month_length(shown.year(), shown.month());
        let cells: u32 = (offset as u32 + month_days as u32 + 6) / 7 * 7;
        let mut dates: Vec<DateTime> = Vec::new();
        let mut d = self.date;
        let mut i: u32 = 0;
        while i < cells
            invariant
                self.wf(),
                self.grid_fits(offset as int),
                cells == self.grid_len(offset as int),
                i <= cells,
                dates.len() == i,
                i < cells ==> d == days_after(self.date, i as nat),
                i < cells ==> d.wf(),
                forall|j: int|
                    0 <= j < i ==> #[trigger] dates[j] == (DateTime {
                        date: days_after(self.date, j as nat),
                        time: self.time,
                    }),
            decreases cells - i,
        {
            dates.push(DateTime::new(d, self.time));
            if i + 1 < cells {
                proof {
                    lemma_days_after(self.date, i as nat);
                    lemma_days_after(self.date, (i + 1) as nat);
                }
                d = next_day(&d).unwrap();
            }
            i += 1;
        }
        dates
    }

    fn contains(&self, dialog_view_type: &DialogViewType, date: &DateTime) -> (r: bool) {
        match dialog_view_type {
            DialogViewType::Years => self.year() == date.year(),
            DialogViewType::Months => self.year() == date.year() && self.month() == date.month(),
            DialogViewType::Days => self.date == date.date,
        }
    }
}

/// The day after a supported date is a supported date, unless it is the last one.
pub proof fn lemma_next_day_wf(d: Date)
    requires
        d.wf(),
        !d.is_last_supported_day(),
    ensures
        d.spec_next_day().wf(),
{
}

/// Within a year, the day after a date is one further in the year.
pub proof fn lemma_day_of_year_step(d: Date)
    requires
        d.wf(),
        !(d.month == 12 && d.day == 31),
    ensures
        d.spec_next_day().year == d.year,
        day_of_year(d.spec_next_day()) == day_of_year(d) + 1,
{
}

/// Walking fewer than a year's worth of days from a date either stays in its
/// year, `n` days further, or reaches the next year, fewer than `n` days into it.
pub proof fn lemma_days_after(s: Date, n: nat)
    requires
        s.wf(),
        n <= 364,
        s.year < MAX_YEAR || day_of_year(s) + n <= 364,
    ensures
        days_after(s, n).wf(),
        ({
            let c = days_after(s, n);
            ||| c.year == s.year && day_of_year(c) == day_of_year(s) + n
            ||| c.year == s.year + 1 && day_of_year(c) < n
        }),
    decreases n,
{
    if n > 0 {
        let prev = days_after(s, (n - 1) as nat);
        lemma_days_after(s, (n - 1) as nat);
        lemma_next_day_wf(prev);
        if !(prev.month == 12 && prev.day == 31) {
            lemma_day_of_year_step(prev);
        }
    }
}

/// A grid that fits and does not start on the month it shows needs the next month.
pub proof fn lemma_grid_fits_has_next_month(dt: DateTime, offset: int)
    requires
        dt.wf(),
        0 < offset < 256,
        dt.grid_fits(offset),
    ensures
        dt.has_next_month(),
{
    if dt.date.year == MAX_YEAR && dt.date.month == 12 {
        assert((offset + 31 + 6) / 7 >= 5);
    }
}

/// Going to the next month and back again lands in the month one started from;
/// from the first day of a month, it lands on the very same date-time.
pub proof fn lemma_previous_month_of_next_month(dt: DateTime)
    requires
        dt.wf(),
        dt.has_next_month(),
    ensures
        dt.spec_next_month().wf(),
        dt.spec_next_month().has_previous_month(),
        dt.spec_next_month().spec_previous_month().date.month == dt.date.month,
        dt.spec_next_month().spec_previous_month().date.year == dt.date.year,
        dt.date.day == 1 ==> dt.spec_next_month().spec_previous_month() == dt,
{
}

/// Every year lies in its own group, which spans twenty years.
pub proof fn lemma_year_group_bounds(year: int)
    ensures
        spec_year_group_start(year) <= year <= spec_year_group_end(year),
        spec_year_group_end(year) - spec_year_group_start(year) == 19,
{
}

/// The group before the group of `year` starts twenty years before it.
pub proof fn lemma_previous_year_group_start(year: int)
    ensures
        spec_year_group_start(spec_year_group_start(year) - 1) == spec_year_group_start(year)
            - 20,
{
}

/// First year of the group of twenty years that holds `year`.
pub fn year_group_start(year: YearNumber) -> (r: YearNumber)
    requires
        spec_year_group_start(year as int) >= i32::MIN,
    ensures
        r == spec_year_group_start(year as int),
{
    let rem = year.checked_rem_euclid(YEARS_IN_YEAR_SELECTION).unwrap();
    year - rem
}

/// Last year of the group of twenty years that holds `year`.
pub fn year_group_end(year: YearNumber) -> (r: YearNumber)
    requires
        spec_year_group_start(year as int) >= i32::MIN,
        spec_year_group_end(year as int) <= i32::MAX,
    ensures
        r == spec_year_group_end(year as int),
{
    year_group_start(year) + (YEARS_IN_YEAR_SELECTION - 1)
}

/// The years of the group of twenty years that holds `year`, first and last included.
pub fn year_group_range(year: YearNumber) -> (r: std::ops::RangeInclusive<YearNumber>)
    requires
        spec_year_group_start(year as int) >= i32::MIN,
        spec_year_group_end(year as int) <= i32::MAX,
    ensures
        r@.start == spec_year_group_start(year as int),
        r@.end == spec_year_group_end(year as int),
        !r@.exhausted,
{
    std::ops::RangeInclusive::new(year_group_start(year), year_group_end(year))
}

} // verus!
