use doggy_daycare::age::{
    age_from_birth_date, age_in_words, calculate_age, calculate_age_from_birth_date,
    count_with_unit, decimal, digit_numeral,
};
use doggy_daycare::date::Date;
use doggy_daycare::error::AppError;

#[test]
fn ages_are_written_in_the_largest_units() {
    assert_eq!(age_in_words(-1), "Not yet born");
    assert_eq!(age_in_words(0), "0 days");
    assert_eq!(age_in_words(1), "1 day");
    assert_eq!(age_in_words(29), "29 days");
    assert_eq!(age_in_words(30), "1 month");
    assert_eq!(age_in_words(45), "1 month");
    assert_eq!(age_in_words(60), "2 months");
    assert_eq!(age_in_words(364), "12 months");
    assert_eq!(age_in_words(365), "1 year");
    assert_eq!(age_in_words(394), "1 year");
    assert_eq!(age_in_words(395), "1 year 1 month");
    assert_eq!(age_in_words(730), "2 years");
    assert_eq!(age_in_words(790), "2 years 2 months");
    assert_eq!(age_in_words(3650 + 90), "10 years 3 months");
}

#[test]
fn numbers_are_written_in_decimal() {
    assert_eq!(decimal(0), "0");
    assert_eq!(decimal(7), "7");
    assert_eq!(decimal(10), "10");
    assert_eq!(decimal(1234567890), "1234567890");
    assert_eq!(decimal(u64::MAX), "18446744073709551615");
    assert_eq!(digit_numeral(9), "9");
    assert_eq!(count_with_unit(1, "dog"), "1 dog");
    assert_eq!(count_with_unit(2, "dog"), "2 dogs");
    assert_eq!(count_with_unit(0, "dog"), "0 dogs");
}

#[test]
fn age_counts_the_days_since_birth() {
    let day = Date::from_ymd(2024, 3, 1).unwrap();
    assert_eq!(age_from_birth_date("2024-03-01", day), Ok("0 days".to_string()));
    assert_eq!(age_from_birth_date("2024-02-29", day), Ok("1 day".to_string()));
    assert_eq!(age_from_birth_date("2024-01-01", day), Ok("2 months".to_string()));
    assert_eq!(age_from_birth_date("2023-03-01", day), Ok("1 year".to_string()));
    assert_eq!(age_from_birth_date("2020-01-15", day), Ok("4 years 1 month".to_string()));
    assert_eq!(age_from_birth_date("2024-03-02", day), Ok("Not yet born".to_string()));
}

#[test]
fn a_birth_date_that_is_no_date_is_refused() {
    let day = Date::from_ymd(2024, 3, 1).unwrap();
    assert_eq!(age_from_birth_date("yesterday", day), Err(AppError::InvalidBirthDate));
    assert_eq!(age_from_birth_date("2023-02-29", day), Err(AppError::InvalidBirthDate));
    assert_eq!(calculate_age_from_birth_date(""), Err(AppError::InvalidBirthDate));
    assert_eq!(calculate_age("13/01/2020".to_string()), Err(AppError::InvalidBirthDate));
}

#[test]
fn the_age_as_of_today() {
    assert_eq!(calculate_age("9999-01-01".to_string()), Ok("Not yet born".to_string()));
    let old = calculate_age_from_birth_date("1000-01-01").unwrap();
    assert!(old.ends_with("years") || old.contains("years "));
}
