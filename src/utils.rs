//! Navigation buttons of the datepicker, and constructors of dates.
use vstd::prelude::*;

use crate::calendar::{
    calendar_date, is_valid_ymd, Date, DateTime, TimeOfDay, MAX_YEAR, MIN_YEAR,
};
use crate::config::date_constraints::HasDateConstraints;
use crate::dialog_view_type::DialogViewType;
use crate::viewed_date::{
    first_of_month_at, spec_year_group_end, spec_year_group_start, ViewedDate,
};

verus! {

/// True if the page before the one of `dt` at granularity `view` holds
/// supported dates.
pub open spec fn has_previous_page(view: DialogViewType, dt: DateTime) -> bool {
    match view {
        DialogViewType::Days => dt.has_previous_month(),
        DialogViewType::Months => dt.date.year > MIN_YEAR,
        DialogViewType::Years => spec_year_group_start(dt.date.year as int) > MIN_YEAR,
    }
}

/// True if the page after the one of `dt` at granularity `view` holds supported
/// dates.
pub open spec fn has_next_page(view: DialogViewType, dt: DateTime) -> bool {
    match view {
        DialogViewType::Days => dt.has_next_month(),
        DialogViewType::Months => dt.date.year < MAX_YEAR,
        DialogViewType::Years => spec_year_group_end(dt.date.year as int) < MAX_YEAR,
    }
}

/// The date-time that stands for the page before the one of `dt`: the previous
/// month, the previous year, or the last year of the previous group of years.
pub open spec fn previous_page(view: DialogViewType, dt: DateTime) -> DateTime {
    match view {
        DialogViewType::Days => dt.spec_previous_month(),
        DialogViewType::Months => first_of_month_at(dt, dt.date.year - 1, 1),
        DialogViewType::Years => first_of_month_at(
            dt,
            spec_year_group_start(dt.date.year as int) - 1,
            1,
        ),
    }
}

/// The date-time that stands for the page after the one of `dt`: the next month,
/// the next year, or the first year of the next group of years.
pub open spec fn next_page(view: DialogViewType, dt: DateTime) -> DateTime {
    match view {
        DialogViewType::Days => dt.spec_next_month(),
        DialogViewType::Months => first_of_month_at(dt, dt.date.year + 1, 1),
        DialogViewType::Years => first_of_month_at(
            dt,
            spec_year_group_end(dt.date.year as int) + 1,
            1,
        ),
    }
}

/// True if `config` closes the page that `page` stands for at granularity `view`.
pub open spec fn page_forbidden<T: HasDateConstraints>(
    config: &T,
    view: DialogViewType,
    page: DateTime,
) -> bool {
    match view {
        DialogViewType::Days => config.spec_month_forbidden(page),
        DialogViewType::Months => config.spec_year_forbidden(page),
        DialogViewType::Years => config.spec_year_group_forbidden(page),
    }
}

/// Returns true if the "previous" button should be displayed.
pub fn should_display_previous_button<T: HasDateConstraints>(
    dialog_view_type: &DialogViewType,
    viewed_date: &DateTime,
    config: &T,
) -> (r: bool)
    requires
        viewed_date.wf(),
        has_previous_page(*dialog_view_type, *viewed_date),
    ensures
        r == !page_forbidden(
            config,
            *dialog_view_type,
            previous_page(*dialog_view_type, *viewed_date),
        ),
{
    match dialog_view_type {
        DialogViewType::Days => !config.is_month_forbidden(&viewed_date.previous_month()),
        DialogViewType::Months => !config.is_year_forbidden(&viewed_date.previous_year()),
        DialogViewType::Years => {
            !config.is_year_group_forbidden(&viewed_date.previous_year_group())
        },
    }
}

/// Returns true if the "next" button should be displayed.
pub fn should_display_next_button<T: HasDateConstraints>(
    dialog_view_type: &DialogViewType,
    viewed_date: &DateTime,
    config: &T,
) -> (r: bool)
    requires
        viewed_date.wf(),
        has_next_page(*dialog_view_type, *viewed_date),
    ensures
        r == !page_forbidden(config, *dialog_view_type, next_page(*dialog_view_type, *viewed_date)),
{
    match dialog_view_type {
        DialogViewType::Days => !config.is_month_forbidden(&viewed_date.next_month()),
        DialogViewType::Months => !config.is_year_forbidden(&viewed_date.next_year()),
        DialogViewType::Years => !config.is_year_group_forbidden(&viewed_date.next_year_group()),
    }
}

/// Returns the date `year`-`month`-`day`, which must be a valid date.
pub fn from_ymd(year: i32, month: u8, day: u8) -> (r: Date)
    requires
        is_valid_ymd(year as int, month as int, day as int),
    ensures
        r == (Date { year, month, day }),
        r.wf(),
{
    calendar_date(year, month, day).unwrap()
}

/// Returns the date-time `year`-`month`-`day` `hour`:`minute`:00, which must be valid.
pub fn from_ymdhm(year: i32, month: u8, day: u8, hour: u8, minute: u8) -> (r: DateTime)
    requires
        is_valid_ymd(year as int, month as int, day as int),
        hour < 24,
        minute < 60,
    ensures
        r == (DateTime {
            date: Date { year, month, day },
            time: TimeOfDay { hour, minute, second: 0, nanosecond: 0 },
        }),
        r.wf(),
{
    DateTime::new(from_ymd(year, month, day), TimeOfDay { hour, minute, second: 0, nanosecond: 0 })
}

} // verus!
