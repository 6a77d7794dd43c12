//! Rules that forbid dates, and the queries that evaluate them.
use vstd::prelude::*;

use crate::calendar::{weekday, weekday_of, Date, DateTime, Weekday};
use crate::viewed_date::{
    spec_year_group_end, spec_year_group_start, year_group_end, year_group_start,
};

verus! {

/// Queries that tell whether a day, a month, a year or a group of years is
/// forbidden.
pub trait HasDateConstraints {
    spec fn spec_day_forbidden(&self, date: DateTime) -> bool;

    spec fn spec_month_forbidden(&self, year_month_info: DateTime) -> bool;

    spec fn spec_year_forbidden(&self, year: DateTime) -> bool;

    spec fn spec_year_group_forbidden(&self, year: DateTime) -> bool;

    /// Returns true if the given date may not be selected.
    fn is_day_forbidden(&self, date: &DateTime) -> (r: bool)
        requires
            date.wf(),
        ensures
            r == self.spec_day_forbidden(*date),
    ;

    /// Returns true if the whole month of the given date is closed to navigation.
    fn is_month_forbidden(&self, year_month_info: &DateTime) -> (r: bool)
        requires
            year_month_info.wf(),
        ensures
            r == self.spec_month_forbidden(*year_month_info),
    ;

    /// Returns true if the whole year of the given date is closed to navigation.
    fn is_year_forbidden(&self, year: &DateTime) -> (r: bool)
        requires
            year.wf(),
        ensures
            r == self.spec_year_forbidden(*year),
    ;

    /// Returns true if the whole group of years of the given date is closed to
    /// navigation.
    fn is_year_group_forbidden(&self, year: &DateTime) -> (r: bool)
        requires
            year.wf(),
        ensures
            r == self.spec_year_group_forbidden(*year),
    ;
}

/// A set of rules, each of which forbids some dates. A date is forbidden as soon
/// as one rule forbids it.
#[derive(Debug, Clone, PartialEq, Eq)]
pub struct DateConstraints {
    /// Dates before this instant are forbidden.
    pub min_datetime: Option<DateTime>,
    /// Dates after this instant are forbidden.
    pub max_datetime: Option<DateTime>,
    /// Days of the week that are forbidden.
    pub disabled_weekdays: Vec<Weekday>,
    /// Months (1 to 12) that are forbidden in every year.
    pub disabled_months: Vec<u8>,
    /// Years that are forbidden as a whole.
    pub disabled_years: Vec<i32>,
    /// Days of the month (1 to 31) that are forbidden in every month.
    pub disabled_monthly_dates: Vec<u8>,
    /// Dates forbidden in every year; their year is not looked at.
    pub disabled_yearly_dates: Vec<Date>,
    /// Single instants that are forbidden.
    pub disabled_unique_dates: Vec<DateTime>,
}

/// True if a date of `yearly` falls on the month and day of `d`.
pub open spec fn yearly_match(yearly: Seq<Date>, d: Date) -> bool {
    exists|i: int|
        0 <= i < yearly.len() && #[trigger] yearly[i].month == d.month && yearly[i].day == d.day
}

/// `(year, month)` of `a` comes before `(year, month)` of `b`.
pub open spec fn month_before(a: Date, b: Date) -> bool {
    a.year < b.year || (a.year == b.year && a.month < b.month)
}

impl DateConstraints {
    /// True if no rule is set: nothing is forbidden.
    pub open spec fn has_no_rules(self) -> bool {
        &&& self.min_datetime is None
        &&& self.max_datetime is None
        &&& self.disabled_weekdays@.len() == 0
        &&& self.disabled_months@.len() == 0
        &&& self.disabled_years@.len() == 0
        &&& self.disabled_monthly_dates@.len() == 0
        &&& self.disabled_yearly_dates@.len() == 0
        &&& self.disabled_unique_dates@.len() == 0
    }

    pub open spec fn before_min(self, d: DateTime) -> bool {
        self.min_datetime matches Some(min) && d.spec_lt(min)
    }

    pub open spec fn after_max(self, d: DateTime) -> bool {
        self.max_datetime matches Some(max) && max.spec_lt(d)
    }

    pub open spec fn day_rule_matches(self, d: DateTime) -> bool {
        ||| self.before_min(d)
        ||| self.after_max(d)
        ||| self.disabled_weekdays@.contains(weekday_of(d.date))
        ||| self.disabled_months@.contains(d.date.month)
        ||| self.disabled_years@.contains(d.date.year)
        ||| self.disabled_monthly_dates@.contains(d.date.day)
        ||| yearly_match(self.disabled_yearly_dates@, d.date)
        ||| self.disabled_unique_dates@.contains(d)
    }

    /// Both bounds are set and the maximum comes before the minimum: no instant
    /// lies between them.
    pub open spec fn bounds_exclude_everything(self) -> bool {
        &&& self.min_datetime matches Some(min)
        &&& self.max_datetime matches Some(max)
        &&& max.spec_lt(min)
    }

    pub open spec fn month_rule_matches(self, p: DateTime) -> bool {
        ||| self.bounds_exclude_everything()
        ||| self.disabled_months@.contains(p.date.month)
        ||| self.disabled_years@.contains(p.date.year)
        ||| (self.min_datetime matches Some(min) && month_before(p.date, min.date))
        ||| (self.max_datetime matches Some(max) && month_before(max.date, p.date))
    }

    pub open spec fn year_rule_matches(self, p: DateTime) -> bool {
        ||| self.bounds_exclude_everything()
        ||| self.disabled_years@.contains(p.date.year)
        ||| (self.min_datetime matches Some(min) && p.date.year < min.date.year)
        ||| (self.max_datetime matches Some(max) && max.date.year < p.date.year)
    }

    pub open spec fn year_group_rule_matches(self, p: DateTime) -> bool {
        ||| self.bounds_exclude_everything()
        ||| (self.min_datetime matches Some(min) && spec_year_group_end(p.date.year as int)
            < min.date.year)
        ||| (self.max_datetime matches Some(max) && max.date.year < spec_year_group_start(
            p.date.year as int,
        ))
    }

    /// Every rule of `self` is a rule of `other` as well, with the same bounds.
    pub open spec fn rules_within(self, other: DateConstraints) -> bool {
        &&& self.min_datetime == other.min_datetime
        &&& self.max_datetime == other.max_datetime
        &&& self.disabled_weekdays@.to_set() <= other.disabled_weekdays@.to_set()
        &&& self.disabled_months@.to_set() <= other.disabled_months@.to_set()
        &&& self.disabled_years@.to_set() <= other.disabled_years@.to_set()
        &&& self.disabled_monthly_dates@.to_set() <= other.disabled_monthly_dates@.to_set()
        &&& self.disabled_yearly_dates@.to_set() <= other.disabled_yearly_dates@.to_set()
        &&& self.disabled_unique_dates@.to_set() <= other.disabled_unique_dates@.to_set()
    }
}

impl Default for DateConstraints {
    fn default() -> (r: Self)
        ensures
            r.has_no_rules(),
    {
        DateConstraints {
            min_datetime: None,
            max_datetime: None,
            disabled_weekdays: Vec::new(),
            disabled_months: Vec::new(),
            disabled_years: Vec::new(),
            disabled_monthly_dates: Vec::new(),
            disabled_yearly_dates: Vec::new(),
            disabled_unique_dates: Vec::new(),
        }
    }
}

fn contains_u8(v: &Vec<u8>, x: u8) -> (r: bool)
    ensures
        r == v@.contains(x),
{
    let mut i: usize = 0;
    while i < v.len()
        invariant
            i <= v.len(),
            forall|j: int| 0 <= j < i ==> v@[j] != x,
        decreases v.len() - i,
    {
        if v[i] == x {
            return true;
        }
        i += 1;
    }
    false
}

fn contains_i32(v: &Vec<i32>, x: i32) -> (r: bool)
    ensures
        r == v@.contains(x),
{
    let mut i: usize = 0;
    while i < v.len()
        invariant
            i <= v.len(),
            forall|j: int| 0 <= j < i ==> v@[j] != x,
        decreases v.len() - i,
    {
        if v[i] == x {
            return true;
        }
        i += 1;
    }
    false
}

fn contains_weekday(v: &Vec<Weekday>, x: Weekday) -> (r: bool)
    ensures
        r == v@.contains(x),
{
    let mut i: usize = 0;
    while i < v.len()
        invariant
            i <= v.len(),
            forall|j: int| 0 <= j < i ==> v@[j] != x,
        decreases v.len() - i,
    {
        if v[i] == x {
            return true;
        }
        i += 1;
    }
    false
}

fn contains_datetime(v: &Vec<DateTime>, x: &DateTime) -> (r: bool)
    ensures
        r == v@.contains(*x),
{
    let mut i: usize = 0;
    while i < v.len()
        invariant
            i <= v.len(),
            forall|j: int| 0 <= j < i ==> v@[j] != *x,
        decreases v.len() - i,
    {
        if v[i] == *x {
            return true;
        }
        i += 1;
    }
    false
}

fn matches_yearly(v: &Vec<Date>, d: &Date) -> (r: bool)
    ensures
        r == yearly_match(v@, *d),
{
    let mut i: usize = 0;
    while i < v.len()
        invariant
            i <= v.len(),
            forall|j: int| 0 <= j < i ==> !(#[trigger] v@[j].month == d.month && v@[j].day == d.day),
        decreases v.len() - i,
    {
        if v[i].month == d.month && v[i].day == d.day {
            return true;
        }
        i += 1;
    }
    false
}

fn month_is_before(a: &Date, b: &Date) -> (r: bool)
    ensures
        r == month_before(*a, *b),
{
    a.year < b.year || (a.year == b.year && a.month < b.month)
}

impl DateConstraints {
    /// Returns true if both bounds are set and the maximum comes before the
    /// minimum.
    pub fn excludes_everything(&self) -> (r: bool)
        ensures
            r == self.bounds_exclude_everything(),
    {
        match (&self.min_datetime, &self.max_datetime) {
            (Some(min), Some(max)) => max.is_before(min),
            _ => false,
        }
    }
}

impl HasDateConstraints for DateConstraints {
    open spec fn spec_day_forbidden(&self, date: DateTime) -> bool {
        self.day_rule_matches(date)
    }

    open spec fn spec_month_forbidden(&self, year_month_info: DateTime) -> bool {
        self.month_rule_matches(year_month_info)
    }

    open spec fn spec_year_forbidden(&self, year: DateTime) -> bool {
        self.year_rule_matches(year)
    }

    open spec fn spec_year_group_forbidden(&self, year: DateTime) -> bool {
        self.year_group_rule_matches(year)
    }

    fn is_day_forbidden(&self, date: &DateTime) -> (r: bool) {
        if let Some(min) = &self.min_datetime {
            if date.is_before(min) {
                return true;
            }
        }
        if let Some(max) = &self.max_datetime {
            if max.is_before(date) {
                return true;
            }
        }
        contains_weekday(&self.disabled_weekdays, weekday(&date.date)) || contains_u8(
            &self.disabled_months,
            date.date.month,
        ) || contains_i32(&self.disabled_years, date.date.year) || contains_u8(
            &self.disabled_monthly_dates,
            date.date.day,
        ) || matches_yearly(&self.disabled_yearly_dates, &date.date) || contains_datetime(
            &self.disabled_unique_dates,
            date,
        )
    }

    fn is_month_forbidden(&self, year_month_info: &DateTime) -> (r: bool) {
        if self.excludes_everything() {
            return true;
        }
        if contains_u8(&self.disabled_months, year_month_info.date.month) || contains_i32(
            &self.disabled_years,
            year_month_info.date.year,
        ) {
            return true;
        }
        if let Some(min) = &self.min_datetime {
            if month_is_before(&year_month_info.date, &min.date) {
                return true;
            }
        }
        if let Some(max) = &self.max_datetime {
            if month_is_before(&max.date, &year_month_info.date) {
                return true;
            }
        }
        false
    }

    fn is_year_forbidden(&self, year: &DateTime) -> (r: bool) {
        if self.excludes_everything() {
            return true;
        }
        if contains_i32(&self.disabled_years, year.date.year) {
            return true;
        }
        if let Some(min) = &self.min_datetime {
            if year.date.year < min.date.year {
                return true;
            }
        }
        if let Some(max) = &self.max_datetime {
            if max.date.year < year.date.year {
                return true;
            }
        }
        false
    }

    fn is_year_group_forbidden(&self, year: &DateTime) -> (r: bool) {
        if self.excludes_everything() {
            return true;
        }
        if let Some(min) = &self.min_datetime {
            if year_group_end(year.date.year) < min.date.year {
                return true;
            }
        }
        if let Some(max) = &self.max_datetime {
            if max.date.year < year_group_start(year.date.year) {
                return true;
            }
        }
        false
    }
}

/// Adding rules never allows a day, a month, a year or a group of years that was
/// forbidden before.
pub proof fn lemma_more_rules_forbid_more(c: DateConstraints, more: DateConstraints, d: DateTime)
    requires
        c.rules_within(more),
    ensures
        c.spec_day_forbidden(d) ==> more.spec_day_forbidden(d),
        c.spec_month_forbidden(d) ==> more.spec_month_forbidden(d),
        c.spec_year_forbidden(d) ==> more.spec_year_forbidden(d),
        c.spec_year_group_forbidden(d) ==> more.spec_year_group_forbidden(d),
{
    if yearly_match(c.disabled_yearly_dates@, d.date) {
        let i = choose|i: int|
            0 <= i < c.disabled_yearly_dates@.len() && #[trigger] c.disabled_yearly_dates@[i].month
                == d.date.month && c.disabled_yearly_dates@[i].day == d.date.day;
        let y = c.disabled_yearly_dates@[i];
        assert(c.disabled_yearly_dates@.to_set().contains(y));
        assert(more.disabled_yearly_dates@.to_set().contains(y));
        let k = choose|k: int|
            0 <= k < more.disabled_yearly_dates@.len() && more.disabled_yearly_dates@[k] == y;
        assert(more.disabled_yearly_dates@[k].month == d.date.month);
    }
    let (w, m, y, md) = (weekday_of(d.date), d.date.month, d.date.year, d.date.day);
    assert(c.disabled_weekdays@.contains(w) ==> c.disabled_weekdays@.to_set().contains(w));
    assert(c.disabled_months@.contains(m) ==> c.disabled_months@.to_set().contains(m));
    assert(c.disabled_years@.contains(y) ==> c.disabled_years@.to_set().contains(y));
    assert(c.disabled_monthly_dates@.contains(md) ==> c.disabled_monthly_dates@.to_set().contains(
        md,
    ));
    assert(c.disabled_unique_dates@.contains(d) ==> c.disabled_unique_dates@.to_set().contains(d));
}

} // verus!
