//! Date constraints and calendar navigation for a datepicker: which dates may be
//! selected, and which page of the calendar comes before or after the shown one.
pub mod dialog_view_type;
pub mod calendar;
pub mod viewed_date;
pub mod utils;
pub mod config;
