//! The failures that the operations on the document report.

use vstd::prelude::*;
use vstd::string::*;

verus! {

/// Why an operation on the document failed. No operation that fails changes
/// the document.
#[derive(Clone, Copy, Debug, PartialEq, Eq, Structural)]
pub enum AppError {
    /// The first date of a range is no date.
    InvalidStartDate,
    /// The last date of a range is no date.
    InvalidEndDate,
    /// The last date of a range lies before its first date.
    InvalidDateRange,
    /// The start date of the active schedule at `index` is no date.
    InvalidScheduleStartDate { index: usize },
    /// The end date of the active schedule at `index` is no date.
    InvalidScheduleEndDate { index: usize },
    /// A date to be computed lies beyond the last date of the calendar.
    DateOutOfRange,
    /// No dog has the given id.
    DogNotFound,
    /// No schedule has the given id.
    ScheduleNotFound,
    /// A date of birth is no date.
    InvalidBirthDate,
}

/// The text that describes each failure.
pub open spec fn error_text(error: AppError) -> Seq<char> {
    match error {
        AppError::InvalidStartDate => "Invalid start date format"@,
        AppError::InvalidEndDate => "Invalid end date format"@,
        AppError::InvalidDateRange => "End date is before start date"@,
        AppError::InvalidScheduleStartDate { .. } => "Invalid schedule start date"@,
        AppError::InvalidScheduleEndDate { .. } => "Invalid schedule end date"@,
        AppError::DateOutOfRange => "Date overflow"@,
        AppError::DogNotFound => "Dog not found"@,
        AppError::ScheduleNotFound => "Schedule not found"@,
        AppError::InvalidBirthDate => "Invalid date format. Expected YYYY-MM-DD"@,
    }
}

impl AppError {
    /// The text that describes the failure.
    pub fn message(&self) -> (r: String)
        ensures
            r@ == error_text(*self),
    {
        match self {
            AppError::InvalidStartDate => String::from_str("Invalid start date format"),
            AppError::InvalidEndDate => String::from_str("Invalid end date format"),
            AppError::InvalidDateRange => String::from_str("End date is before start date"),
            AppError::InvalidScheduleStartDate { .. } => String::from_str(
                "Invalid schedule start date",
            ),
            AppError::InvalidScheduleEndDate { .. } => String::from_str(
                "Invalid schedule end date",
            ),
            AppError::DateOutOfRange => String::from_str("Date overflow"),
            AppError::DogNotFound => String::from_str("Dog not found"),
            AppError::ScheduleNotFound => String::from_str("Schedule not found"),
            AppError::InvalidBirthDate => String::from_str(
                "Invalid date format. Expected YYYY-MM-DD",
            ),
        }
    }
}

} // verus!
