//! Validated configuration of the datepicker.
pub mod date_constraints;

use vstd::prelude::*;
use vstd::string::*;

use self::date_constraints::{DateConstraints, HasDateConstraints};
use crate::calendar::{
    datetime_text, days_since_epoch, display_datetime, local_datetime, local_day_number,
    local_time_of, local_timestamp_in_range, DateTime,
};
use crate::dialog_view_type::DialogViewType;

verus! {

/// UTC offset, in hours, of the current date-time that stands in for a missing
/// initial date.
pub const FALLBACK_UTC_OFFSET_HOURS: i8 = 7;

/// Why a configuration could not be built.
#[derive(Debug, Clone, Copy, PartialEq, Eq, Structural)]
pub enum PickerConfigBuilderError {
    /// The initial view is finer than what may be selected.
    InvalidGranularityOrdering,
    /// The initial date is forbidden by the date constraints.
    InitialDateForbidden(DateTime),
}

impl PickerConfigBuilderError {
    pub open spec fn spec_message(self) -> Seq<char> {
        match self {
            PickerConfigBuilderError::InvalidGranularityOrdering => "initial_view_type can have at most selection_type scale"@,
            PickerConfigBuilderError::InitialDateForbidden(d) => "The initial_date "@ + datetime_text(d)
                + " is forbidden by the date_constraints."@,
        }
    }

    /// Returns the text that explains the error.
    pub fn message(&self) -> (r: String)
        requires
            self matches PickerConfigBuilderError::InitialDateForbidden(d) ==> d.wf(),
        ensures
            r@ == self.spec_message(),
    {
        match self {
            PickerConfigBuilderError::InvalidGranularityOrdering => String::from_str(
                "initial_view_type can have at most selection_type scale",
            ),
            PickerConfigBuilderError::InitialDateForbidden(d) => {
                let mut text = String::from_str("The initial_date ");
                let date_text = display_datetime(d);
                text.append(date_text.as_str());
                text.append(" is forbidden by the date_constraints.");
                text
            },
        }
    }
}

/// What a configuration holds.
pub struct PickerConfigView {
    pub date_constraints: DateConstraints,
    pub initial_date: Option<DateTime>,
    pub initial_view_type: DialogViewType,
    pub selection_type: DialogViewType,
}

impl PickerConfigView {
    /// The initial view is not finer than the selection, and the initial date, if
    /// any, is a valid date that the constraints allow.
    pub open spec fn is_valid(self) -> bool {
        &&& self.initial_view_type.rank() <= self.selection_type.rank()
        &&& self.initial_date matches Some(d) ==> d.wf()
            && !self.date_constraints.spec_day_forbidden(d)
    }
}

/// Configuration for the datepicker.
#[derive(Debug, Clone, PartialEq, Eq)]
pub struct PickerConfig {
    /// Possible constraints to prevent the user from selecting some dates
    date_constraints: DateConstraints,
    /// Initializes the datepicker to this value
    initial_date: Option<DateTime>,
    /// Initializes the view type to this value
    initial_view_type: DialogViewType,
    /// Selection type, to make it possible to select for example only a year, or only a month.
    selection_type: DialogViewType,
}

impl View for PickerConfig {
    type V = PickerConfigView;

    closed spec fn view(&self) -> PickerConfigView {
        PickerConfigView {
            date_constraints: self.date_constraints,
            initial_date: self.initial_date,
            initial_view_type: self.initial_view_type,
            selection_type: self.selection_type,
        }
    }
}

impl PickerConfig {
    pub open spec fn wf(&self) -> bool {
        self@.is_valid()
    }

    /// The date constraints of the configuration.
    pub fn date_constraints(&self) -> (r: &DateConstraints)
        ensures
            *r == self@.date_constraints,
    {
        &self.date_constraints
    }

    /// The date the datepicker starts on, if one was given.
    pub fn initial_date(&self) -> (r: Option<DateTime>)
        ensures
            r == self@.initial_date,
    {
        self.initial_date
    }

    /// The view the datepicker starts with.
    pub fn initial_view_type(&self) -> (r: DialogViewType)
        ensures
            r == self@.initial_view_type,
    {
        self.initial_view_type
    }

    /// The finest granularity that may be selected.
    pub fn selection_type(&self) -> (r: DialogViewType)
        ensures
            r == self@.selection_type,
    {
        self.selection_type
    }

    /// The date the datepicker starts on: the initial date if one was given, else
    /// the date-time at `now_unix_seconds` at a UTC offset of seven hours. The
    /// latter is not checked against the constraints.
    pub fn guess_allowed_year_month(&self, now_unix_seconds: i64) -> (r: DateTime)
        requires
            self@.initial_date is None ==> local_timestamp_in_range(
                now_unix_seconds as int,
                FALLBACK_UTC_OFFSET_HOURS as int,
            ),
        ensures
            self@.initial_date matches Some(d) ==> r == d,
            self@.initial_date is None ==> r.wf() && days_since_epoch(
                r.date.year as int,
                r.date.month as int,
                r.date.day as int,
            ) == local_day_number(now_unix_seconds as int, FALLBACK_UTC_OFFSET_HOURS as int)
                && r.time == local_time_of(
                now_unix_seconds as int,
                FALLBACK_UTC_OFFSET_HOURS as int,
            ),
    {
        if let Some(init_date) = self.initial_date {
            return init_date;
        }
        local_datetime(now_unix_seconds, FALLBACK_UTC_OFFSET_HOURS)
    }
}

impl HasDateConstraints for PickerConfig {
    open spec fn spec_day_forbidden(&self, date: DateTime) -> bool {
        self@.date_constraints.spec_day_forbidden(date)
    }

    open spec fn spec_month_forbidden(&self, year_month_info: DateTime) -> bool {
        self@.date_constraints.spec_month_forbidden(year_month_info)
    }

    open spec fn spec_year_forbidden(&self, year: DateTime) -> bool {
        self@.date_constraints.spec_year_forbidden(year)
    }

    open spec fn spec_year_group_forbidden(&self, year: DateTime) -> bool {
        self@.date_constraints.spec_year_group_forbidden(year)
    }

    fn is_day_forbidden(&self, date: &DateTime) -> (r: bool) {
        self.date_constraints.is_day_forbidden(date)
    }

    fn is_month_forbidden(&self, year_month_info: &DateTime) -> (r: bool) {
        self.date_constraints.is_month_forbidden(year_month_info)
    }

    fn is_year_forbidden(&self, year: &DateTime) -> (r: bool) {
        self.date_constraints.is_year_forbidden(year)
    }

    fn is_year_group_forbidden(&self, year: &DateTime) -> (r: bool) {
        self.date_constraints.is_year_group_forbidden(year)
    }
}

/// Collects the parts of a [`PickerConfig`]; a part left unset takes its default
/// value: no constraints, no initial date, and the `Days` view for both view types.
#[derive(Debug, Clone)]
pub struct PickerConfigBuilder {
    pub date_constraints: Option<DateConstraints>,
    pub initial_date: Option<DateTime>,
    pub initial_view_type: Option<DialogViewType>,
    pub selection_type: Option<DialogViewType>,
}

impl Default for PickerConfigBuilder {
    fn default() -> (r: Self)
        ensures
            r.date_constraints is None,
            r.initial_date is None,
            r.initial_view_type is None,
            r.selection_type is None,
    {
        PickerConfigBuilder {
            date_constraints: None,
            initial_date: None,
            initial_view_type: None,
            selection_type: None,
        }
    }
}

impl PickerConfigBuilder {
    pub open spec fn view_type_or_default(self) -> DialogViewType {
        match self.initial_view_type {
            Some(v) => v,
            None => DialogViewType::Days,
        }
    }

    pub open spec fn selection_type_or_default(self) -> DialogViewType {
        match self.selection_type {
            Some(v) => v,
            None => DialogViewType::Days,
        }
    }

    /// True if the constraints that were set forbid the day `d`; unset
    /// constraints forbid nothing.
    pub open spec fn constraints_forbid(self, d: DateTime) -> bool {
        self.date_constraints matches Some(c) && c.spec_day_forbidden(d)
    }

    /// The outcome of validation: the granularity order is checked first, then
    /// the initial date.
    pub open spec fn spec_validate(self) -> Result<(), PickerConfigBuilderError> {
        if self.view_type_or_default().rank() > self.selection_type_or_default().rank() {
            Err(PickerConfigBuilderError::InvalidGranularityOrdering)
        } else {
            match self.initial_date {
                Some(d) => if self.constraints_forbid(d) {
                    Err(PickerConfigBuilderError::InitialDateForbidden(d))
                } else {
                    Ok(())
                },
                None => Ok(()),
            }
        }
    }

    /// The configuration that the builder describes, with `constraints` as its
    /// date constraints.
    pub open spec fn config_with(self, constraints: DateConstraints) -> PickerConfigView {
        PickerConfigView {
            date_constraints: constraints,
            initial_date: self.initial_date,
            initial_view_type: self.view_type_or_default(),
            selection_type: self.selection_type_or_default(),
        }
    }

    pub open spec fn dates_wf(self) -> bool {
        self.initial_date matches Some(d) ==> d.wf()
    }

    /// Sets the constraints that forbid some dates.
    pub fn date_constraints(self, value: DateConstraints) -> (r: Self)
        ensures
            r == (PickerConfigBuilder { date_constraints: Some(value), ..self }),
    {
        PickerConfigBuilder { date_constraints: Some(value), ..self }
    }

    /// Sets the date the datepicker starts on.
    pub fn initial_date(self, value: DateTime) -> (r: Self)
        ensures
            r == (PickerConfigBuilder { initial_date: Some(value), ..self }),
    {
        PickerConfigBuilder { initial_date: Some(value), ..self }
    }

    /// Sets the view the datepicker starts with.
    pub fn initial_view_type(self, value: DialogViewType) -> (r: Self)
        ensures
            r == (PickerConfigBuilder { initial_view_type: Some(value), ..self }),
    {
        PickerConfigBuilder { initial_view_type: Some(value), ..self }
    }

    /// Sets the finest granularity that may be selected.
    pub fn selection_type(self, value: DialogViewType) -> (r: Self)
        ensures
            r == (PickerConfigBuilder { selection_type: Some(value), ..self }),
    {
        PickerConfigBuilder { selection_type: Some(value), ..self }
    }

    /// Checks the rules that a configuration must follow: the initial view may be
    /// at most as fine as the selection, and the initial date, if any, must not
    /// be forbidden by the constraints.
    pub fn validate(&self) -> (r: Result<(), PickerConfigBuilderError>)
        requires
            self.dates_wf(),
        ensures
            r == self.spec_validate(),
    {
        let view_type = match self.initial_view_type {
            Some(v) => v,
            None => DialogViewType::Days,
        };
        let selection_type = match self.selection_type {
            Some(v) => v,
            None => DialogViewType::Days,
        };
        if view_type.is_finer_than(&selection_type) {
            return Err(PickerConfigBuilderError::InvalidGranularityOrdering);
        }
        if let (Some(initial_date), Some(date_constraints)) = (
            self.initial_date,
            &self.date_constraints,
        ) {
            if date_constraints.is_day_forbidden(&initial_date) {
                return Err(PickerConfigBuilderError::InitialDateForbidden(initial_date));
            }
        }
        Ok(())
    }

    /// Builds the configuration, or tells which rule it breaks.
    pub fn build(self) -> (r: Result<PickerConfig, PickerConfigBuilderError>)
        requires
            self.dates_wf(),
        ensures
            r is Ok <==> self.spec_validate() is Ok,
            r matches Err(e) ==> self.spec_validate() == Err::<(), PickerConfigBuilderError>(e),
            r matches Ok(c) ==> c.wf() && match self.date_constraints {
                Some(dc) => c@ == self.config_with(dc),
                None => c@ == self.config_with(c@.date_constraints)
                    && c@.date_constraints.has_no_rules(),
            },
    {
        match self.validate() {
            Err(e) => Err(e),
            Ok(()) => {
                let date_constraints = match self.date_constraints {
                    Some(c) => c,
                    None => DateConstraints::default(),
                };
                let config = PickerConfig {
                    date_constraints,
                    initial_date: self.initial_date,
                    initial_view_type: match self.initial_view_type {
                        Some(v) => v,
                        None => DialogViewType::Days,
                    },
                    selection_type: match self.selection_type {
                        Some(v) => v,
                        None => DialogViewType::Days,
                    },
                };
                Ok(config)
            },
        }
    }
}

/// Rebuilding a valid configuration from what its getters return validates and
/// gives back the same configuration.
pub proof fn lemma_rebuild_from_getters(c: PickerConfig)
    requires
        c.wf(),
    ensures
        ({
            let b = PickerConfigBuilder {
                date_constraints: Some(c@.date_constraints),
                initial_date: c@.initial_date,
                initial_view_type: Some(c@.initial_view_type),
                selection_type: Some(c@.selection_type),
            };
            &&& b.dates_wf()
            &&& b.spec_validate() is Ok
            &&& b.config_with(c@.date_constraints) == c@
            &&& b.config_with(c@.date_constraints).is_valid()
        }),
{
}

} // verus!
