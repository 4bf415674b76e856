//! Whether a recurring schedule is due on a date.
//!
//! The rule is a function of the candidate date, the schedule's start date
//! (its anchor) and the pattern. The day of the week and the distance in
//! days come from chrono; what is decided from them is proved here.

use crate::date::{
    days_between, days_in_month, days_since, is_leap_year, month_length, weekday, weekday_of, Date,
    Weekday,
};
use crate::model::{RecurrencePattern, RecurrencePatternView};
use vstd::prelude::*;

verus! {

/// The number of a weekday, Sunday first: 0 for Sunday up to 6 for Saturday.
pub open spec fn weekday_index(day: Weekday) -> u32 {
    match day {
        Weekday::Sun => 0,
        Weekday::Mon => 1,
        Weekday::Tue => 2,
        Weekday::Wed => 3,
        Weekday::Thu => 4,
        Weekday::Fri => 5,
        Weekday::Sat => 6,
    }
}

/// The rule of each pattern, over what is known of the two dates: their
/// weekdays, the whole days from anchor to candidate, their days of the
/// month, and the length of the candidate's month.
pub open spec fn occurs_given(
    pattern: RecurrencePatternView,
    candidate_weekday: Weekday,
    anchor_weekday: Weekday,
    days_since_anchor: int,
    candidate_day: int,
    anchor_day: int,
    month_days: int,
) -> bool {
    match pattern {
        RecurrencePatternView::Never => false,
        RecurrencePatternView::Daily => true,
        RecurrencePatternView::Weekly => candidate_weekday == anchor_weekday,
        RecurrencePatternView::BiWeekly => candidate_weekday == anchor_weekday
            && days_since_anchor >= 0 && days_since_anchor % 14 == 0,
        RecurrencePatternView::Monthly => candidate_day == (if anchor_day <= month_days {
            anchor_day
        } else {
            month_days
        }),
        RecurrencePatternView::Custom(days) => days.contains(weekday_index(candidate_weekday)),
    }
}

/// Whether a schedule with the given pattern, anchored on `anchor`, is due
/// on `candidate`.
pub open spec fn occurs(candidate: Date, anchor: Date, pattern: RecurrencePatternView) -> bool {
    occurs_given(
        pattern,
        weekday_of(candidate),
        weekday_of(anchor),
        days_between(anchor, candidate),
        candidate.day as int,
        anchor.day as int,
        days_in_month(candidate.year as int, candidate.month as int),
    )
}

/// The number of a weekday, Sunday first.
pub fn weekday_number(day: Weekday) -> (r: u32)
    ensures
        r == weekday_index(day),
        r <= 6,
{
    match day {
        Weekday::Sun => 0,
        Weekday::Mon => 1,
        Weekday::Tue => 2,
        Weekday::Wed => 3,
        Weekday::Thu => 4,
        Weekday::Fri => 5,
        Weekday::Sat => 6,
    }
}

/// The weekday of `date` as a number, Sunday first.
pub fn get_weekday_index(date: Date) -> (r: u32)
    requires
        date.wf(),
    ensures
        r == weekday_index(weekday_of(date)),
        r <= 6,
{
    weekday_number(weekday(date))
}

/// Whether `days` holds `day`.
pub fn holds_day(days: &Vec<u32>, day: u32) -> (r: bool)
    ensures
        r == days@.contains(day),
{
    let mut i: usize = 0;
    while i < days.len()
        invariant
            i <= days@.len(),
            forall|j: int| 0 <= j < i ==> days@[j] != day,
        decreases days@.len() - i,
    {
        if days[i] == day {
            return true;
        }
        i = i + 1;
    }
    false
}

/// Decides a pattern from what is known of the two dates.
pub fn occurs_on(
    pattern: &RecurrencePattern,
    candidate_weekday: Weekday,
    anchor_weekday: Weekday,
    days_since_anchor: i64,
    candidate_day: u32,
    anchor_day: u32,
    month_days: u32,
) -> (r: bool)
    ensures
        r == occurs_given(
            pattern@,
            candidate_weekday,
            anchor_weekday,
            days_since_anchor as int,
            candidate_day as int,
            anchor_day as int,
            month_days as int,
        ),
{
    match pattern {
        RecurrencePattern::Never => false,
        RecurrencePattern::Daily => true,
        RecurrencePattern::Weekly => candidate_weekday == anchor_weekday,
        RecurrencePattern::BiWeekly => candidate_weekday == anchor_weekday && days_since_anchor
            >= 0 && days_since_anchor % 14 == 0,
        RecurrencePattern::Monthly => {
            let target: u32 = if anchor_day <= month_days {
                anchor_day
            } else {
                month_days
            };
            candidate_day == target
        },
        RecurrencePattern::Custom(days) => holds_day(days, weekday_number(candidate_weekday)),
    }
}

/// Whether a schedule that starts on `schedule_start` with the given pattern
/// is due on `current_date`. A biweekly schedule is due exactly on the days
/// that lie a whole number of fortnights after its start, the start itself
/// included: never before the start and never on an off-week. A weekly
/// schedule is due exactly on the days that lie a whole number of weeks from
/// its start, before or after it.
pub fn should_generate_attendance(
    current_date: Date,
    schedule_start: Date,
    pattern: &RecurrencePattern,
) -> (r: bool)
    requires
        current_date.wf(),
        schedule_start.wf(),
    ensures
        r == occurs(current_date, schedule_start, pattern@),
        pattern@ is BiWeekly ==> r == (days_between(schedule_start, current_date) >= 0
            && days_between(schedule_start, current_date) % 14 == 0),
        pattern@ is BiWeekly && current_date.before(schedule_start) ==> !r,
        pattern@ is Weekly ==> r == (days_between(schedule_start, current_date) % 7 == 0),
{
    occurs_on(
        pattern,
        weekday(current_date),
        weekday(schedule_start),
        days_since(current_date, schedule_start),
        current_date.day,
        schedule_start.day,
        month_length(current_date.year, current_date.month),
    )
}

/// Whether a monthly schedule anchored on `anchor` is due on the given day
/// of the month of `month_of`.
pub open spec fn monthly_due(month_of: Date, anchor: Date, day: u32) -> bool {
    occurs(
        Date { year: month_of.year, month: month_of.month, day },
        anchor,
        RecurrencePatternView::Monthly,
    )
}

/// A monthly schedule is due on exactly one day of every month: on the
/// anchor's day of the month, or on the month's last day where the month is
/// shorter. Anchored on a 31st it is due on the 30th of April and on the last
/// day of February, the 29th in a leap year and the 28th otherwise.
pub proof fn lemma_monthly_clamps(candidate: Date, anchor: Date)
    requires
        candidate.wf(),
        anchor.wf(),
    ensures
        occurs(candidate, anchor, RecurrencePatternView::Monthly) <==> (candidate.day
            == anchor.day || (candidate.day == days_in_month(
            candidate.year as int,
            candidate.month as int,
        ) && anchor.day > candidate.day)),
        anchor.day == 31 && candidate.month == 4 ==> (occurs(
            candidate,
            anchor,
            RecurrencePatternView::Monthly,
        ) <==> candidate.day == 30),
        anchor.day == 31 && candidate.month == 2 ==> (occurs(
            candidate,
            anchor,
            RecurrencePatternView::Monthly,
        ) <==> candidate.day == (if is_leap_year(candidate.year as int) {
            29int
        } else {
            28int
        })),
        exists|day: u32|
            1 <= day <= days_in_month(candidate.year as int, candidate.month as int)
                && #[trigger] monthly_due(candidate, anchor, day) && forall|other: u32| #[trigger]
                monthly_due(candidate, anchor, other) ==> other == day,
{
    let length = days_in_month(candidate.year as int, candidate.month as int);
    let day: u32 = if anchor.day <= length {
        anchor.day
    } else {
        length as u32
    };
    assert(monthly_due(candidate, anchor, day));
}

/// A biweekly schedule is due only on the anchor's weekday, and only a whole
/// number of fortnights after the anchor: never before it, never on an
/// off-week.
pub proof fn lemma_biweekly_fortnights(candidate: Date, anchor: Date)
    ensures
        occurs(candidate, anchor, RecurrencePatternView::BiWeekly) ==> weekday_of(candidate)
            == weekday_of(anchor) && days_between(anchor, candidate) >= 0 && days_between(
            anchor,
            candidate,
        ) % 14 == 0,
        days_between(anchor, candidate) % 14 != 0 ==> !occurs(
            candidate,
            anchor,
            RecurrencePatternView::BiWeekly,
        ),
{
}

/// A schedule on chosen weekdays is due exactly on the dates whose weekday
/// is among them.
pub proof fn lemma_custom_membership(candidate: Date, anchor: Date, days: Seq<u32>)
    ensures
        occurs(candidate, anchor, RecurrencePatternView::Custom(days)) <==> days.contains(
            weekday_index(weekday_of(candidate)),
        ),
{
}

} // verus!
