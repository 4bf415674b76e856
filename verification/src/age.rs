//! The age of a dog in words, from its date of birth.

use crate::date::{days_between, days_since, parse_date, parsed_date, today, Date};
use crate::error::AppError;
use vstd::prelude::*;
use vstd::string::*;

verus! {

/// The numeral of a digit.
pub open spec fn digit_text(digit: int) -> Seq<char> {
    if digit == 0 {
        "0"@
    } else if digit == 1 {
        "1"@
    } else if digit == 2 {
        "2"@
    } else if digit == 3 {
        "3"@
    } else if digit == 4 {
        "4"@
    } else if digit == 5 {
        "5"@
    } else if digit == 6 {
        "6"@
    } else if digit == 7 {
        "7"@
    } else if digit == 8 {
        "8"@
    } else {
        "9"@
    }
}

/// A number written in decimal digits.
pub open spec fn decimal_text(n: nat) -> Seq<char>
    decreases n,
{
    if n < 10 {
        digit_text(n as int)
    } else {
        decimal_text(n / 10) + digit_text((n % 10) as int)
    }
}

/// A count with its unit, the unit in the plural unless the count is one.
pub open spec fn counted(n: nat, unit: Seq<char>) -> Seq<char> {
    if n == 1 {
        decimal_text(n) + " "@ + unit
    } else {
        decimal_text(n) + " "@ + unit + "s"@
    }
}

/// An age of so many days in words: in years of 365 days and months of 30
/// days where it reaches a month, else in days.
pub open spec fn age_text(age_days: int) -> Seq<char> {
    if age_days < 0 {
        "Not yet born"@
    } else {
        let years = (age_days / 365) as nat;
        let months = ((age_days % 365) / 30) as nat;
        if years > 0 && months > 0 {
            counted(years, "year"@) + " "@ + counted(months, "month"@)
        } else if years > 0 {
            counted(years, "year"@)
        } else if months > 0 {
            counted(months, "month"@)
        } else {
            counted(age_days as nat, "day"@)
        }
    }
}

/// The numeral of a digit.
pub fn digit_numeral(digit: u64) -> (r: &'static str)
    requires
        digit < 10,
    ensures
        r@ == digit_text(digit as int),
{
    if digit == 0 {
        "0"
    } else if digit == 1 {
        "1"
    } else if digit == 2 {
        "2"
    } else if digit == 3 {
        "3"
    } else if digit == 4 {
        "4"
    } else if digit == 5 {
        "5"
    } else if digit == 6 {
        "6"
    } else if digit == 7 {
        "7"
    } else if digit == 8 {
        "8"
    } else {
        "9"
    }
}

/// Writes a number in decimal digits.
pub fn decimal(n: u64) -> (r: String)
    ensures
        r@ == decimal_text(n as nat),
    decreases n,
{
    if n < 10 {
        String::from_str(digit_numeral(n))
    } else {
        let mut text = decimal(n / 10);
        text.append(digit_numeral(n % 10));
        text
    }
}

/// Writes a count with its unit.
pub fn count_with_unit(n: u64, unit: &str) -> (r: String)
    ensures
        r@ == counted(n as nat, unit@),
{
    let mut text = decimal(n);
    text.append(" ");
    text.append(unit);
    if n != 1 {
        text.append("s");
    }
    text
}

/// Writes an age of so many days in words.
pub fn age_in_words(age_days: i64) -> (r: String)
    ensures
        r@ == age_text(age_days as int),
{
    if age_days < 0 {
        return String::from_str("Not yet born");
    }
    let days: u64 = age_days as u64;
    let years: u64 = days / 365;
    let months: u64 = (days % 365) / 30;
    if years > 0 && months > 0 {
        let mut text = count_with_unit(years, "year");
        text.append(" ");
        let rest = count_with_unit(months, "month");
        text.append(rest.as_str());
        text
    } else if years > 0 {
        count_with_unit(years, "year")
    } else if months > 0 {
        count_with_unit(months, "month")
    } else {
        count_with_unit(days, "day")
    }
}

/// The age on `day` of a dog born on the date that `date_of_birth` names, or
/// the failure where it names none.
pub open spec fn age_on(date_of_birth: Seq<char>, day: Date) -> Result<Seq<char>, AppError> {
    match parsed_date(date_of_birth) {
        Some(birth) => Ok(age_text(days_between(birth, day))),
        None => Err(AppError::InvalidBirthDate),
    }
}

/// The age in words on `day` of a dog born on `date_of_birth`.
pub fn age_from_birth_date(date_of_birth: &str, day: Date) -> (r: Result<String, AppError>)
    requires
        day.wf(),
    ensures
        match age_on(date_of_birth@, day) {
            Ok(text) => r matches Ok(words) && words@ == text,
            Err(problem) => r matches Err(e) && e == problem,
        },
{
    match parse_date(date_of_birth) {
        Some(birth) => Ok(age_in_words(days_since(day, birth))),
        None => Err(AppError::InvalidBirthDate),
    }
}

/// The age in words, as of today, of a dog born on `date_of_birth`: fails
/// exactly where `date_of_birth` is no date.
pub fn calculate_age_from_birth_date(date_of_birth: &str) -> (r: Result<String, AppError>)
    ensures
        exists|day: Date|
            day.wf() && match #[trigger] age_on(date_of_birth@, day) {
                Ok(text) => r matches Ok(words) && words@ == text,
                Err(problem) => r matches Err(e) && e == problem,
            },
{
    let day = today();
    let r = age_from_birth_date(date_of_birth, day);
    assert(match age_on(date_of_birth@, day) {
        Ok(text) => r matches Ok(words) && words@ == text,
        Err(problem) => r matches Err(e) && e == problem,
    });
    r
}

/// The age in words, as of today, of a dog born on `date_of_birth`.
pub fn calculate_age(date_of_birth: String) -> (r: Result<String, AppError>)
    ensures
        exists|day: Date|
            day.wf() && match #[trigger] age_on(date_of_birth@, day) {
                Ok(text) => r matches Ok(words) && words@ == text,
                Err(problem) => r matches Err(e) && e == problem,
            },
{
    calculate_age_from_birth_date(date_of_birth.as_str())
}

} // verus!
