use time_datepicker_core::calendar::{DateTime, TimeOfDay};
use time_datepicker_core::config::date_constraints::{DateConstraints, HasDateConstraints};
use time_datepicker_core::config::{PickerConfig, PickerConfigBuilder, PickerConfigBuilderError};
use time_datepicker_core::dialog_view_type::DialogViewType;
use time_datepicker_core::utils::{from_ymd, from_ymdhm};

fn midnight(year: i32, month: u8, day: u8) -> DateTime {
    DateTime::new(from_ymd(year, month, day), TimeOfDay::midnight())
}

fn forbidding(date: DateTime) -> DateConstraints {
    DateConstraints { disabled_unique_dates: vec![date], ..Default::default() }
}

fn config_with_constraints(date_constraints: DateConstraints) -> PickerConfig {
    PickerConfigBuilder::default().date_constraints(date_constraints).build().unwrap()
}

#[test]
fn config_picker_config_initial_view_type_greater_than_selection_type() {
    let config = PickerConfigBuilder::default()
        .initial_view_type(DialogViewType::Days)
        .selection_type(DialogViewType::Months)
        .build();
    assert!(config.is_err());
    assert_eq!(
        config.unwrap_err().message(),
        "initial_view_type can have at most selection_type scale"
    );
}

#[test]
fn config_picker_config_initial_view_type_equal_to_selection_type() {
    let config = PickerConfigBuilder::default()
        .initial_view_type(DialogViewType::Months)
        .selection_type(DialogViewType::Months)
        .build();
    assert!(config.is_ok());
}

#[test]
fn config_picker_config_initial_view_type_smaller_than_selection_type() {
    let config = PickerConfigBuilder::default()
        .initial_view_type(DialogViewType::Years)
        .selection_type(DialogViewType::Months)
        .build();
    assert!(config.is_ok());
}

#[test]
fn config_picker_config_initial_date_forbidden() {
    let initial_date = midnight(2020, 1, 1);
    let config = PickerConfigBuilder::default()
        .initial_date(initial_date)
        .date_constraints(forbidding(initial_date))
        .build();
    assert!(config.is_err());
    assert_eq!(
        config.unwrap_err().message(),
        "The initial_date 2020-01-01 0:00:00.0 is forbidden by the date_constraints."
    );
}

#[test]
fn config_test_is_day_forbidden() {
    let date = midnight(2020, 1, 1);
    let config = config_with_constraints(forbidding(date));
    assert!(config.is_day_forbidden(&date));
}

#[test]
fn config_test_is_month_forbidden() {
    let year_month = midnight(2000, 2, 24);
    let config = config_with_constraints(DateConstraints {
        disabled_months: vec![2],
        ..Default::default()
    });
    assert!(config.is_month_forbidden(&year_month));
}

#[test]
fn config_test_is_year_forbidden() {
    let year = midnight(2000, 1, 1);
    let config = config_with_constraints(DateConstraints {
        disabled_years: vec![2000],
        ..Default::default()
    });
    assert!(config.is_year_forbidden(&year));
}

#[test]
fn config_test_is_year_group_forbidden() {
    let year = midnight(2000, 1, 1);
    let config = config_with_constraints(DateConstraints {
        max_datetime: Some(midnight(1999, 12, 31)),
        ..Default::default()
    });
    assert!(config.is_year_group_forbidden(&year));
}

#[test]
fn guess_allowed_year_month_with_initial_date() {
    let initial_date = midnight(2020, 3, 24);
    let config = PickerConfigBuilder::default().initial_date(initial_date).build().unwrap();
    let expected = initial_date;
    assert_eq!(expected, config.guess_allowed_year_month(0));
}

#[test]
fn mod_picker_config_initial_view_type_greater_than_selection_type() {
    let config = PickerConfigBuilder::default()
        .initial_view_type(DialogViewType::Days)
        .selection_type(DialogViewType::Months)
        .build();
    assert!(config.is_err());
    assert_eq!(
        config.unwrap_err().message(),
        "initial_view_type can have at most selection_type scale"
    );
}

#[test]
fn mod_picker_config_initial_view_type_equal_to_selection_type() {
    let config = PickerConfigBuilder::default()
        .initial_view_type(DialogViewType::Months)
        .selection_type(DialogViewType::Months)
        .build();
    assert!(config.is_ok());
}

#[test]
fn mod_picker_config_initial_view_type_smaller_than_selection_type() {
    let config = PickerConfigBuilder::default()
        .initial_view_type(DialogViewType::Years)
        .selection_type(DialogViewType::Months)
        .build();
    assert!(config.is_ok());
}

#[test]
fn mod_picker_config_initial_date_forbidden() {
    let initial_date = midnight(2020, 1, 1);
    let config = PickerConfigBuilder::default()
        .initial_date(initial_date)
        .date_constraints(forbidding(initial_date))
        .build();
    assert!(config.is_err());
    assert_eq!(
        config.unwrap_err().message(),
        "The initial_date 2020-01-01 0:00:00.0 is forbidden by the date_constraints."
    );
}

#[test]
fn mod_test_is_day_forbidden() {
    let date = midnight(2020, 1, 1);
    let config = config_with_constraints(forbidding(date));
    assert!(config.is_day_forbidden(&date));
}

#[test]
fn mod_test_is_month_forbidden() {
    let year_month = midnight(2000, 2, 24);
    let config = config_with_constraints(DateConstraints {
        disabled_months: vec![2],
        ..Default::default()
    });
    assert!(config.is_month_forbidden(&year_month));
}

#[test]
fn mod_test_is_year_forbidden() {
    let year = midnight(2000, 1, 1);
    let config = config_with_constraints(DateConstraints {
        disabled_years: vec![2000],
        ..Default::default()
    });
    assert!(config.is_year_forbidden(&year));
}

#[test]
fn mod_test_is_year_group_forbidden() {
    let year = midnight(2000, 1, 1);
    let config = config_with_constraints(DateConstraints {
        max_datetime: Some(midnight(1999, 12, 31)),
        ..Default::default()
    });
    assert!(config.is_year_group_forbidden(&year));
}

#[test]
fn default_builder_gives_days_views_and_no_rules() {
    let config = PickerConfigBuilder::default().build().unwrap();
    assert_eq!(config.initial_view_type(), DialogViewType::Days);
    assert_eq!(config.selection_type(), DialogViewType::Days);
    assert_eq!(config.initial_date(), None);
    assert_eq!(*config.date_constraints(), DateConstraints::default());
}

#[test]
fn granularity_order_is_checked_before_the_initial_date() {
    let initial_date = midnight(2020, 1, 1);
    let result = PickerConfigBuilder::default()
        .initial_date(initial_date)
        .date_constraints(forbidding(initial_date))
        .initial_view_type(DialogViewType::Days)
        .selection_type(DialogViewType::Years)
        .build();
    assert_eq!(result.unwrap_err(), PickerConfigBuilderError::InvalidGranularityOrdering);
}

#[test]
fn forbidden_initial_date_error_names_the_date() {
    let initial_date = from_ymdhm(2021, 6, 5, 13, 7);
    let result = PickerConfigBuilder::default()
        .initial_date(initial_date)
        .date_constraints(DateConstraints { disabled_years: vec![2021], ..Default::default() })
        .build();
    let error = result.unwrap_err();
    assert_eq!(error, PickerConfigBuilderError::InitialDateForbidden(initial_date));
    assert_eq!(
        error.message(),
        "The initial_date 2021-06-05 13:07:00.0 is forbidden by the date_constraints."
    );
}

#[test]
fn allowed_initial_date_builds() {
    let initial_date = midnight(2020, 1, 2);
    let config = PickerConfigBuilder::default()
        .initial_date(initial_date)
        .date_constraints(forbidding(midnight(2020, 1, 1)))
        .build()
        .unwrap();
    assert_eq!(config.initial_date(), Some(initial_date));
}

#[test]
fn rebuilding_from_getters_gives_an_equal_config() {
    let config = PickerConfigBuilder::default()
        .initial_date(midnight(2020, 12, 15))
        .date_constraints(DateConstraints {
            disabled_weekdays: vec![time_datepicker_core::calendar::Weekday::Sunday],
            disabled_years: vec![2021],
            ..Default::default()
        })
        .initial_view_type(DialogViewType::Months)
        .selection_type(DialogViewType::Days)
        .build()
        .unwrap();
    let mut builder = PickerConfigBuilder::default()
        .date_constraints(config.date_constraints().clone())
        .initial_view_type(config.initial_view_type())
        .selection_type(config.selection_type());
    if let Some(date) = config.initial_date() {
        builder = builder.initial_date(date);
    }
    let rebuilt = builder.build().unwrap();
    assert_eq!(rebuilt, config);
}

#[test]
fn guess_without_initial_date_uses_the_timestamp_at_utc_plus_seven() {
    let config = PickerConfigBuilder::default().build().unwrap();
    let expected = from_ymdhm(1970, 1, 1, 7, 0);
    assert_eq!(config.guess_allowed_year_month(0), expected);
    // 2020-12-31 20:30:15 UTC is 2021-01-01 03:30:15 at UTC+7.
    let guessed = config.guess_allowed_year_month(1_609_446_615);
    assert_eq!(guessed.date, from_ymd(2021, 1, 1));
    assert_eq!(
        guessed.time,
        TimeOfDay { hour: 3, minute: 30, second: 15, nanosecond: 0 }
    );
}
