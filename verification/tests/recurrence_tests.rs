use doggy_daycare::date::{add_days, leap_year, month_length, Date, Weekday};
use doggy_daycare::model::RecurrencePattern;
use doggy_daycare::recurrence::{
    get_weekday_index, holds_day, occurs_on, should_generate_attendance, weekday_number,
};

fn date(year: i32, month: u32, day: u32) -> Date {
    Date::from_ymd(year, month, day).unwrap()
}

#[test]
fn never_is_never_due_and_daily_always() {
    let anchor = date(2024, 1, 1);
    for offset in 0..40 {
        let day = add_days(anchor, offset).unwrap();
        assert!(!should_generate_attendance(day, anchor, &RecurrencePattern::Never));
        assert!(should_generate_attendance(day, anchor, &RecurrencePattern::Daily));
    }
}

#[test]
fn weekly_fires_on_the_anchor_weekday_only() {
    let anchor = date(2024, 1, 1);
    for offset in 0..29 {
        let day = add_days(anchor, offset).unwrap();
        assert_eq!(
            should_generate_attendance(day, anchor, &RecurrencePattern::Weekly),
            offset % 7 == 0
        );
    }
}

#[test]
fn biweekly_skips_the_off_week() {
    let anchor = date(2024, 1, 1);
    assert!(should_generate_attendance(anchor, anchor, &RecurrencePattern::BiWeekly));
    assert!(!should_generate_attendance(date(2024, 1, 8), anchor, &RecurrencePattern::BiWeekly));
    assert!(should_generate_attendance(date(2024, 1, 15), anchor, &RecurrencePattern::BiWeekly));
    assert!(!should_generate_attendance(date(2024, 1, 16), anchor, &RecurrencePattern::BiWeekly));
    assert!(should_generate_attendance(date(2024, 1, 29), anchor, &RecurrencePattern::BiWeekly));
}

#[test]
fn biweekly_does_not_fire_before_the_anchor() {
    let anchor = date(2024, 1, 15);
    assert!(!should_generate_attendance(date(2024, 1, 1), anchor, &RecurrencePattern::BiWeekly));
}

#[test]
fn monthly_clamps_the_31st_to_the_end_of_shorter_months() {
    let anchor = date(2024, 1, 31);
    let monthly = RecurrencePattern::Monthly;
    assert!(should_generate_attendance(date(2024, 1, 31), anchor, &monthly));
    assert!(should_generate_attendance(date(2024, 2, 29), anchor, &monthly));
    assert!(!should_generate_attendance(date(2024, 2, 28), anchor, &monthly));
    assert!(should_generate_attendance(date(2023, 2, 28), anchor, &monthly));
    assert!(!should_generate_attendance(date(2023, 2, 27), anchor, &monthly));
    assert!(should_generate_attendance(date(2024, 4, 30), anchor, &monthly));
    assert!(!should_generate_attendance(date(2024, 4, 29), anchor, &monthly));
    assert!(should_generate_attendance(date(2024, 3, 31), anchor, &monthly));
    assert!(!should_generate_attendance(date(2024, 3, 30), anchor, &monthly));
}

#[test]
fn monthly_fires_once_in_every_month() {
    let anchor = date(2023, 8, 31);
    for month in 1..=12u32 {
        let mut due = 0;
        for day in 1..=month_length(2024, month) {
            if should_generate_attendance(date(2024, month, day), anchor, &RecurrencePattern::Monthly)
            {
                due += 1;
            }
        }
        assert_eq!(due, 1);
    }
}

#[test]
fn monthly_on_an_ordinary_day_fires_on_that_day() {
    let anchor = date(2024, 1, 15);
    assert!(should_generate_attendance(date(2024, 2, 15), anchor, &RecurrencePattern::Monthly));
    assert!(!should_generate_attendance(date(2024, 2, 29), anchor, &RecurrencePattern::Monthly));
}

#[test]
fn custom_fires_on_its_weekdays_only() {
    let anchor = date(2024, 1, 1);
    let pattern = RecurrencePattern::Custom(vec![1, 3, 5]);
    // 2024-01-01 is a Monday.
    let expected = [
        true, false, true, false, true, false, false, true, false, true, false, true, false, false,
    ];
    for (offset, due) in expected.iter().enumerate() {
        let day = add_days(anchor, offset as u32).unwrap();
        assert_eq!(should_generate_attendance(day, anchor, &pattern), *due);
        assert_eq!(*due, [1, 3, 5].contains(&get_weekday_index(day)));
    }
}

#[test]
fn custom_without_weekdays_never_fires() {
    let anchor = date(2024, 1, 1);
    let pattern = RecurrencePattern::Custom(vec![]);
    for offset in 0..7 {
        let day = add_days(anchor, offset).unwrap();
        assert!(!should_generate_attendance(day, anchor, &pattern));
    }
}

#[test]
fn weekday_index_counts_from_sunday() {
    assert_eq!(get_weekday_index(date(2024, 1, 7)), 0);
    assert_eq!(get_weekday_index(date(2024, 1, 1)), 1);
    assert_eq!(get_weekday_index(date(2024, 1, 2)), 2);
    assert_eq!(get_weekday_index(date(2024, 1, 3)), 3);
    assert_eq!(get_weekday_index(date(2024, 1, 4)), 4);
    assert_eq!(get_weekday_index(date(2024, 1, 5)), 5);
    assert_eq!(get_weekday_index(date(2024, 1, 6)), 6);
    assert_eq!(get_weekday_index(date(1970, 1, 1)), 4);
    assert_eq!(get_weekday_index(date(2000, 2, 29)), 2);
}

#[test]
fn weekday_numbers() {
    assert_eq!(weekday_number(Weekday::Sun), 0);
    assert_eq!(weekday_number(Weekday::Mon), 1);
    assert_eq!(weekday_number(Weekday::Tue), 2);
    assert_eq!(weekday_number(Weekday::Wed), 3);
    assert_eq!(weekday_number(Weekday::Thu), 4);
    assert_eq!(weekday_number(Weekday::Fri), 5);
    assert_eq!(weekday_number(Weekday::Sat), 6);
}

#[test]
fn occurs_on_decides_from_plain_values() {
    let biweekly = RecurrencePattern::BiWeekly;
    assert!(occurs_on(&biweekly, Weekday::Mon, Weekday::Mon, 28, 29, 1, 31));
    assert!(!occurs_on(&biweekly, Weekday::Mon, Weekday::Mon, 21, 22, 1, 31));
    assert!(!occurs_on(&biweekly, Weekday::Mon, Weekday::Mon, -14, 1, 15, 31));
    assert!(!occurs_on(&biweekly, Weekday::Tue, Weekday::Mon, 14, 15, 1, 31));
    let monthly = RecurrencePattern::Monthly;
    assert!(occurs_on(&monthly, Weekday::Mon, Weekday::Fri, 0, 28, 31, 28));
    assert!(!occurs_on(&monthly, Weekday::Mon, Weekday::Fri, 0, 27, 31, 28));
    assert!(occurs_on(&monthly, Weekday::Mon, Weekday::Fri, 0, 10, 10, 28));
    let custom = RecurrencePattern::Custom(vec![0, 6]);
    assert!(occurs_on(&custom, Weekday::Sun, Weekday::Mon, 0, 1, 1, 31));
    assert!(occurs_on(&custom, Weekday::Sat, Weekday::Mon, 0, 1, 1, 31));
    assert!(!occurs_on(&custom, Weekday::Wed, Weekday::Mon, 0, 1, 1, 31));
    assert!(!occurs_on(&RecurrencePattern::Never, Weekday::Mon, Weekday::Mon, 0, 1, 1, 31));
    assert!(occurs_on(&RecurrencePattern::Daily, Weekday::Mon, Weekday::Tue, 3, 4, 1, 31));
    assert!(occurs_on(&RecurrencePattern::Weekly, Weekday::Thu, Weekday::Thu, -7, 4, 11, 31));
}

#[test]
fn holds_day_finds_a_weekday() {
    assert!(holds_day(&vec![1, 3, 5], 3));
    assert!(!holds_day(&vec![1, 3, 5], 4));
    assert!(!holds_day(&vec![], 0));
}

#[test]
fn leap_years_follow_the_gregorian_rule() {
    assert!(leap_year(2024));
    assert!(!leap_year(2023));
    assert!(!leap_year(1900));
    assert!(leap_year(2000));
    assert!(leap_year(0));
    assert!(leap_year(-4));
    assert!(!leap_year(-100));
    assert!(leap_year(-400));
}

#[test]
fn month_lengths() {
    let expected = [31, 29, 31, 30, 31, 30, 31, 31, 30, 31, 30, 31];
    for month in 1..=12u32 {
        assert_eq!(month_length(2024, month), expected[(month - 1) as usize]);
    }
    assert_eq!(month_length(2023, 2), 28);
    assert_eq!(month_length(2023, 0), 0);
    assert_eq!(month_length(2023, 13), 0);
}

#[test]
fn biweekly_is_due_exactly_on_whole_fortnights_after_the_anchor() {
    let base = date(2023, 12, 15);
    let anchor = add_days(base, 40).unwrap();
    for k in 0..=140u32 {
        let day = add_days(base, k).unwrap();
        let n = k as i64 - 40;
        assert_eq!(
            should_generate_attendance(day, anchor, &RecurrencePattern::BiWeekly),
            n >= 0 && n % 14 == 0,
            "{} days from the anchor",
            n
        );
    }
}

#[test]
fn weekly_is_due_on_whole_weeks_before_and_after_the_anchor() {
    let base = date(2023, 12, 15);
    let anchor = add_days(base, 40).unwrap();
    for k in 0..=140u32 {
        let day = add_days(base, k).unwrap();
        let n = k as i64 - 40;
        assert_eq!(
            should_generate_attendance(day, anchor, &RecurrencePattern::Weekly),
            n.rem_euclid(7) == 0,
            "{} days from the anchor",
            n
        );
    }
}

#[test]
fn fortnights_are_counted_across_years_and_leap_days() {
    let anchor = date(2023, 12, 25);
    // 2024 is a leap year: 70 days after the anchor is the 4th of March.
    assert!(should_generate_attendance(date(2024, 3, 4), anchor, &RecurrencePattern::BiWeekly));
    assert!(!should_generate_attendance(date(2024, 3, 11), anchor, &RecurrencePattern::BiWeekly));
    assert!(!should_generate_attendance(date(2024, 3, 5), anchor, &RecurrencePattern::BiWeekly));
    assert!(!should_generate_attendance(date(2023, 12, 11), anchor, &RecurrencePattern::BiWeekly));
    let early = date(-1, 12, 27);
    assert!(should_generate_attendance(date(0, 1, 10), early, &RecurrencePattern::BiWeekly));
    assert!(!should_generate_attendance(date(0, 1, 3), early, &RecurrencePattern::BiWeekly));
}
