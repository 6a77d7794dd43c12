use time_datepicker_core::calendar::{DateTime, TimeOfDay, Weekday};
use time_datepicker_core::config::date_constraints::{DateConstraints, HasDateConstraints};
use time_datepicker_core::config::PickerConfigBuilder;
use time_datepicker_core::dialog_view_type::DialogViewType;
use time_datepicker_core::utils::{
    from_ymd, from_ymdhm, should_display_next_button, should_display_previous_button,
};

fn at(year: i32, month: u8, day: u8) -> DateTime {
    from_ymdhm(year, month, day, 0, 0)
}

fn scenario() -> DateConstraints {
    DateConstraints {
        min_datetime: Some(at(2020, 12, 1)),
        max_datetime: Some(at(2022, 12, 14)),
        disabled_weekdays: vec![Weekday::Saturday, Weekday::Sunday],
        disabled_months: vec![7, 8],
        disabled_years: vec![2021],
        disabled_monthly_dates: vec![13],
        disabled_yearly_dates: vec![from_ymd(1, 12, 24), from_ymd(1, 12, 25), from_ymd(1, 12, 26)],
        disabled_unique_dates: vec![at(2020, 12, 8)],
    }
}

#[test]
fn scenario_day_queries() {
    let c = scenario();
    assert!(!c.is_day_forbidden(&at(2020, 12, 9)));
    assert!(c.is_day_forbidden(&at(2020, 11, 30)));
    assert!(c.is_day_forbidden(&at(2023, 2, 15)));
    assert!(c.is_day_forbidden(&at(2020, 12, 12)));
    assert!(c.is_day_forbidden(&at(2022, 7, 12)));
    assert!(c.is_day_forbidden(&at(2021, 12, 9)));
    assert!(c.is_day_forbidden(&at(2022, 1, 13)));
    assert!(c.is_day_forbidden(&at(2020, 12, 24)));
    assert!(c.is_day_forbidden(&at(2020, 12, 8)));
}

#[test]
fn scenario_year_query() {
    let c = scenario();
    assert!(c.is_year_forbidden(&at(2021, 12, 31)));
    assert!(!c.is_year_forbidden(&at(2022, 1, 1)));
    assert!(c.is_year_forbidden(&at(2019, 6, 1)));
    assert!(c.is_year_forbidden(&at(2023, 6, 1)));
}

#[test]
fn scenario_through_a_config() {
    let config = PickerConfigBuilder::default()
        .initial_date(from_ymdhm(2020, 12, 15, 23, 55))
        .date_constraints(scenario())
        .build()
        .unwrap();
    assert!(!config.is_day_forbidden(&at(2020, 12, 9)));
    assert!(config.is_day_forbidden(&at(2020, 12, 12)));
    assert!(config.is_year_forbidden(&at(2021, 12, 31)));
}

#[test]
fn no_rules_forbid_nothing() {
    let c = DateConstraints::default();
    assert!(!c.is_day_forbidden(&at(2020, 12, 12)));
    assert!(!c.is_month_forbidden(&at(2020, 12, 12)));
    assert!(!c.is_year_forbidden(&at(2020, 12, 12)));
    assert!(!c.is_year_group_forbidden(&at(2020, 12, 12)));
}

#[test]
fn bounds_compare_the_time_of_day() {
    let c = DateConstraints {
        min_datetime: Some(from_ymdhm(2020, 12, 1, 12, 0)),
        max_datetime: Some(from_ymdhm(2020, 12, 31, 12, 0)),
        ..Default::default()
    };
    assert!(c.is_day_forbidden(&from_ymdhm(2020, 12, 1, 11, 59)));
    assert!(!c.is_day_forbidden(&from_ymdhm(2020, 12, 1, 12, 0)));
    assert!(!c.is_day_forbidden(&from_ymdhm(2020, 12, 31, 12, 0)));
    assert!(c.is_day_forbidden(&from_ymdhm(2020, 12, 31, 12, 1)));
}

#[test]
fn unique_dates_match_the_exact_instant() {
    let c = DateConstraints {
        disabled_unique_dates: vec![from_ymdhm(2020, 12, 8, 10, 30)],
        ..Default::default()
    };
    assert!(c.is_day_forbidden(&from_ymdhm(2020, 12, 8, 10, 30)));
    assert!(!c.is_day_forbidden(&from_ymdhm(2020, 12, 8, 10, 31)));
}

#[test]
fn yearly_dates_ignore_the_year() {
    let c = DateConstraints { disabled_yearly_dates: vec![from_ymd(1, 12, 25)], ..Default::default() };
    assert!(c.is_day_forbidden(&at(1999, 12, 25)));
    assert!(c.is_day_forbidden(&at(2031, 12, 25)));
    assert!(!c.is_day_forbidden(&at(2031, 12, 26)));
}

#[test]
fn every_weekday_is_recognised() {
    // 2024-01-01 was a Monday.
    let weekdays = [
        Weekday::Monday,
        Weekday::Tuesday,
        Weekday::Wednesday,
        Weekday::Thursday,
        Weekday::Friday,
        Weekday::Saturday,
        Weekday::Sunday,
    ];
    for (i, weekday) in weekdays.iter().enumerate() {
        let c = DateConstraints { disabled_weekdays: vec![*weekday], ..Default::default() };
        for (j, _) in weekdays.iter().enumerate() {
            let day = at(2024, 1, 1 + j as u8);
            assert_eq!(c.is_day_forbidden(&day), i == j);
        }
    }
}

#[test]
fn adding_rules_keeps_forbidden_days_forbidden() {
    let base = scenario();
    let days = [at(2020, 11, 30), at(2020, 12, 12), at(2022, 7, 12), at(2022, 1, 13), at(2020, 12, 24)];
    let mut more = scenario();
    more.disabled_weekdays.push(Weekday::Wednesday);
    more.disabled_months.push(3);
    more.disabled_years.push(2022);
    more.disabled_monthly_dates.push(9);
    more.disabled_yearly_dates.push(from_ymd(1, 1, 1));
    more.disabled_unique_dates.push(at(2022, 3, 3));
    for day in days {
        assert!(base.is_day_forbidden(&day));
        assert!(more.is_day_forbidden(&day));
    }
    assert!(!base.is_day_forbidden(&at(2020, 12, 9)));
    assert!(more.is_day_forbidden(&at(2020, 12, 9)));
}

#[test]
fn month_queries() {
    let c = DateConstraints {
        min_datetime: Some(from_ymdhm(2020, 3, 31, 23, 59)),
        max_datetime: Some(at(2021, 5, 1)),
        disabled_months: vec![8],
        disabled_years: vec![2020],
        ..Default::default()
    };
    assert!(c.is_month_forbidden(&at(2020, 2, 10)));
    assert!(c.is_month_forbidden(&at(2021, 8, 10)));
    assert!(c.is_month_forbidden(&at(2020, 4, 10)));
    assert!(!c.is_month_forbidden(&at(2021, 5, 31)));
    assert!(c.is_month_forbidden(&at(2021, 6, 1)));
    let open = DateConstraints { min_datetime: Some(from_ymdhm(2020, 3, 31, 23, 59)), ..Default::default() };
    assert!(!open.is_month_forbidden(&at(2020, 3, 1)));
    assert!(open.is_month_forbidden(&at(2020, 2, 29)));
}

#[test]
fn year_group_queries() {
    let c = DateConstraints {
        min_datetime: Some(at(2020, 12, 1)),
        max_datetime: Some(at(2041, 1, 1)),
        disabled_years: vec![2030],
        ..Default::default()
    };
    assert!(c.is_year_group_forbidden(&at(1999, 1, 1)));
    assert!(c.is_year_group_forbidden(&at(2019, 1, 1)));
    assert!(!c.is_year_group_forbidden(&at(2020, 1, 1)));
    assert!(!c.is_year_group_forbidden(&at(2030, 1, 1)));
    assert!(!c.is_year_group_forbidden(&at(2059, 1, 1)));
    assert!(c.is_year_group_forbidden(&at(2060, 1, 1)));
}

fn with_months(months: Vec<u8>) -> DateConstraints {
    DateConstraints { disabled_months: months, ..Default::default() }
}

fn with_years(years: Vec<i32>) -> DateConstraints {
    DateConstraints { disabled_years: years, ..Default::default() }
}

fn groups_from(first_year: i32) -> DateConstraints {
    DateConstraints {
        min_datetime: Some(DateTime::new(from_ymd(first_year, 1, 1), TimeOfDay::midnight())),
        ..Default::default()
    }
}

fn groups_until(last_year: i32) -> DateConstraints {
    DateConstraints {
        max_datetime: Some(DateTime::new(from_ymd(last_year, 12, 31), TimeOfDay::midnight())),
        ..Default::default()
    }
}

#[test]
fn test_should_display_previous_button() {
    let days = DialogViewType::Days;
    let months = DialogViewType::Months;
    let years = DialogViewType::Years;
    assert!(!should_display_previous_button(&days, &at(1990, 2, 16), &with_months(vec![1])));
    assert!(should_display_previous_button(&days, &at(1990, 3, 25), &with_months(vec![3])));
    assert!(!should_display_previous_button(&months, &at(1990, 4, 26), &with_years(vec![1989])));
    assert!(should_display_previous_button(&months, &at(1990, 7, 18), &with_years(vec![1990])));
    assert!(!should_display_previous_button(&years, &at(1990, 2, 16), &groups_from(1980)));
    assert!(should_display_previous_button(&years, &at(1990, 2, 18), &groups_from(1979)));
}

#[test]
fn test_should_display_next_button() {
    let days = DialogViewType::Days;
    let months = DialogViewType::Months;
    let years = DialogViewType::Years;
    assert!(!should_display_next_button(&days, &at(1990, 2, 18), &with_months(vec![3])));
    assert!(should_display_next_button(&days, &at(1990, 2, 15), &with_months(vec![2])));
    assert!(!should_display_next_button(&months, &at(1990, 8, 16), &with_years(vec![1991])));
    assert!(should_display_next_button(&months, &at(1990, 4, 21), &with_years(vec![1990])));
    assert!(!should_display_next_button(&years, &at(1990, 11, 26), &groups_until(1999)));
    assert!(should_display_next_button(&years, &at(1990, 12, 23), &groups_until(2000)));
}

#[test]
fn navigation_buttons_through_a_config() {
    let config = PickerConfigBuilder::default()
        .date_constraints(DateConstraints {
            min_datetime: Some(at(2020, 12, 1)),
            max_datetime: Some(at(2022, 12, 14)),
            ..Default::default()
        })
        .build()
        .unwrap();
    let days = DialogViewType::Days;
    assert!(!should_display_previous_button(&days, &at(2020, 12, 10), &config));
    assert!(should_display_next_button(&days, &at(2020, 12, 10), &config));
    assert!(should_display_previous_button(&days, &at(2022, 12, 10), &config));
    assert!(!should_display_next_button(&days, &at(2022, 12, 10), &config));
}

#[test]
fn bounds_in_the_wrong_order_close_every_page() {
    let month = DateConstraints {
        min_datetime: Some(at(2020, 6, 20)),
        max_datetime: Some(at(2020, 6, 10)),
        ..Default::default()
    };
    assert!(month.is_month_forbidden(&at(2020, 6, 15)));
    assert!(month.is_year_forbidden(&at(2020, 6, 15)));
    assert!(month.is_day_forbidden(&at(2020, 6, 15)));
    let block = DateConstraints {
        min_datetime: Some(at(2005, 6, 1)),
        max_datetime: Some(at(2003, 6, 1)),
        ..Default::default()
    };
    assert!(block.is_year_group_forbidden(&at(2010, 1, 1)));
    assert!(block.is_year_forbidden(&at(2004, 1, 1)));
    assert!(block.excludes_everything());
}

#[test]
fn equal_bounds_keep_their_month_open() {
    let c = DateConstraints {
        min_datetime: Some(from_ymdhm(2020, 6, 10, 8, 0)),
        max_datetime: Some(from_ymdhm(2020, 6, 10, 8, 0)),
        ..Default::default()
    };
    assert!(!c.excludes_everything());
    assert!(!c.is_month_forbidden(&at(2020, 6, 1)));
    assert!(!c.is_year_forbidden(&at(2020, 1, 1)));
    assert!(!c.is_year_group_forbidden(&at(2039, 1, 1)));
    assert!(c.is_year_group_forbidden(&at(2019, 1, 1)));
    assert!(c.is_month_forbidden(&at(2020, 7, 1)));
}
