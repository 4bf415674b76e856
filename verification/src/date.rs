//! Naive calendar dates of the proleptic Gregorian calendar.
//!
//! A [`Date`] holds year, month and day as plain numbers. Ordering, month
//! lengths and the step to the next day are computed and proved here; parsing,
//! formatting, the day of the week and the distance between two dates are
//! chrono's.

use chrono::Datelike;
use vstd::prelude::*;

verus! {

/// The first year a date can have: the first year of chrono's `NaiveDate`.
pub const MIN_YEAR: i32 = -262143;

/// The last year a date can have: the last year of chrono's `NaiveDate`.
pub const MAX_YEAR: i32 = 262142;

/// A calendar date without time zone.
#[derive(Clone, Copy, Debug, PartialEq, Eq, Structural)]
pub struct Date {
    pub year: i32,
    pub month: u32,
    pub day: u32,
}

/// A day of the week.
#[derive(Clone, Copy, Debug, PartialEq, Eq, Structural)]
pub enum Weekday {
    Mon,
    Tue,
    Wed,
    Thu,
    Fri,
    Sat,
    Sun,
}

/// Whether `year` has a 29th of February.
pub open spec fn is_leap_year(year: int) -> bool {
    year % 4 == 0 && (year % 100 != 0 || year % 400 == 0)
}

/// The number of days of `month` in `year`; 0 where `month` is no month.
pub open spec fn days_in_month(year: int, month: int) -> int {
    if month == 2 {
        if is_leap_year(year) {
            29
        } else {
            28
        }
    } else if month == 4 || month == 6 || month == 9 || month == 11 {
        30
    } else if 1 <= month <= 12 {
        31
    } else {
        0
    }
}

/// The date that follows `date`, or `None` after the last day of `MAX_YEAR`.
pub open spec fn next_date(date: Date) -> Option<Date> {
    if date.day < days_in_month(date.year as int, date.month as int) {
        Some(Date { year: date.year, month: date.month, day: (date.day + 1) as u32 })
    } else if date.month < 12 {
        Some(Date { year: date.year, month: (date.month + 1) as u32, day: 1 })
    } else if date.year < MAX_YEAR {
        Some(Date { year: (date.year + 1) as i32, month: 1, day: 1 })
    } else {
        None
    }
}

impl Date {
    /// The date exists in the calendar and its year is in range.
    pub open spec fn wf(self) -> bool {
        &&& MIN_YEAR <= self.year <= MAX_YEAR
        &&& 1 <= self.month <= 12
        &&& 1 <= self.day <= days_in_month(self.year as int, self.month as int)
    }

    /// `self` is an earlier day than `other`.
    pub open spec fn before(self, other: Date) -> bool {
        self.year < other.year || (self.year == other.year && (self.month < other.month || (
        self.month == other.month && self.day < other.day)))
    }

    /// `self` is `other` or an earlier day.
    pub open spec fn not_after(self, other: Date) -> bool {
        self == other || self.before(other)
    }

    /// A number that grows with the date, by at least one from a day to the
    /// next.
    pub open spec fn rank(self) -> int {
        (self.year - MIN_YEAR) * 372 + (self.month - 1) * 31 + (self.day - 1)
    }

    /// The date of the given year, month and day, if there is one.
    pub fn from_ymd(year: i32, month: u32, day: u32) -> (r: Option<Date>)
        ensures
            r == (if (Date { year, month, day }).wf() {
                Some(Date { year, month, day })
            } else {
                None::<Date>
            }),
    {
        if year < MIN_YEAR || year > MAX_YEAR || month < 1 || month > 12 || day < 1 {
            return None;
        }
        if day > month_length(year, month) {
            return None;
        }
        Some(Date { year, month, day })
    }

    /// Whether the date exists in the calendar.
    pub fn is_valid(&self) -> (r: bool)
        ensures
            r == self.wf(),
    {
        Date::from_ymd(self.year, self.month, self.day).is_some()
    }

    /// Whether `self` is an earlier day than `other`.
    pub fn is_before(&self, other: &Date) -> (r: bool)
        ensures
            r == self.before(*other),
    {
        self.year < other.year || (self.year == other.year && (self.month < other.month || (
        self.month == other.month && self.day < other.day)))
    }

    /// Whether `self` is a later day than `other`.
    pub fn is_after(&self, other: &Date) -> (r: bool)
        ensures
            r == other.before(*self),
    {
        other.is_before(self)
    }

    /// The earlier of two dates.
    pub fn earlier(self, other: Date) -> (r: Date)
        ensures
            r == (if other.before(self) {
                other
            } else {
                self
            }),
    {
        if other.is_before(&self) {
            other
        } else {
            self
        }
    }

    /// The later of two dates.
    pub fn later(self, other: Date) -> (r: Date)
        ensures
            r == (if self.before(other) {
                other
            } else {
                self
            }),
    {
        if self.is_before(&other) {
            other
        } else {
            self
        }
    }

    /// The next day, or `None` after the last representable date.
    pub fn succ(&self) -> (r: Option<Date>)
        requires
            self.wf(),
        ensures
            r == next_date(*self),
            r matches Some(n) ==> n.wf() && self.before(n) && n.rank() > self.rank(),
    {
        if self.day < month_length(self.year, self.month) {
            Some(Date { year: self.year, month: self.month, day: self.day + 1 })
        } else if self.month < 12 {
            Some(Date { year: self.year, month: self.month + 1, day: 1 })
        } else if self.year < MAX_YEAR {
            Some(Date { year: self.year + 1, month: 1, day: 1 })
        } else {
            None
        }
    }
}

/// The date that chrono reads from `text` in the form year-month-day
/// (`%Y-%m-%d`), or `None` where it reads none.
pub uninterp spec fn parsed_date(text: Seq<char>) -> Option<Date>;

/// The text that chrono writes for `date` in the form year-month-day
/// (`%Y-%m-%d`).
pub uninterp spec fn date_text(date: Date) -> Seq<char>;

/// The day of the week on which `date` falls, as chrono gives it.
pub uninterp spec fn weekday_of(date: Date) -> Weekday;

/// The number of days from `from` to `to` as chrono counts them; negative
/// where `to` is the earlier day.
pub uninterp spec fn days_between(from: Date, to: Date) -> int;

/// Reading the text of `date` gives `date` back.
pub open spec fn reads_back(date: Date) -> bool {
    parsed_date(date_text(date)) == Some(date)
}

/// `date` moved forward by `days` days, or `None` where the calendar ends
/// before.
pub open spec fn plus_days(date: Date, days: nat) -> Option<Date>
    decreases days,
{
    if days == 0 {
        Some(date)
    } else {
        match next_date(date) {
            Some(next) => plus_days(next, (days - 1) as nat),
            None => None,
        }
    }
}

/// A date moved forward is a date of the calendar and not an earlier day.
pub proof fn lemma_plus_days_later(date: Date, days: nat)
    requires
        date.wf(),
        plus_days(date, days) is Some,
    ensures
        plus_days(date, days).unwrap().wf(),
        date.not_after(plus_days(date, days).unwrap()),
        days > 0 ==> date.before(plus_days(date, days).unwrap()),
    decreases days,
{
    if days > 0 {
        let next = next_date(date).unwrap();
        lemma_plus_days_later(next, (days - 1) as nat);
    }
}

/// Calls `chrono::NaiveDate::parse_from_str` with the format `%Y-%m-%d`.
/// The contract names the outcome `parsed_date` and claims that a date chrono
/// hands out exists in the calendar; a text chrono rejects gives `None`.
#[verifier::external_body]
pub(crate) fn parse_date(text: &str) -> (r: Option<Date>)
    ensures
        r == parsed_date(text@),
        r matches Some(d) ==> d.wf(),
{
    chrono::NaiveDate::parse_from_str(text, "%Y-%m-%d").ok().map(
        |d| Date { year: d.year(), month: d.month(), day: d.day() },
    )
}

/// Calls `chrono::NaiveDate::format` with the format `%Y-%m-%d` and turns the
/// outcome into a `String`. The contract names the text `date_text`, and
/// claims that chrono reads from the text it wrote the date it wrote it for:
/// the year is written with four digits or, where it has more or is
/// negative, with its sign, and is read the same way. It asks for a date of
/// the calendar with a year in chrono's range: for such a date
/// `NaiveDate::from_ymd_opt` gives a date and the format is one that chrono
/// writes without failing.
#[verifier::external_body]
pub(crate) fn format_date(date: Date) -> (r: String)
    requires
        date.wf(),
    ensures
        r@ == date_text(date),
        parsed_date(r@) == Some(date),
{
    chrono::NaiveDate::from_ymd_opt(date.year, date.month, date.day).unwrap().format(
        "%Y-%m-%d",
    ).to_string()
}

/// Calls `chrono::Datelike::weekday` on the `NaiveDate` of `date`. The
/// contract names the outcome `weekday_of`. It asks for a date of the
/// calendar with a year in chrono's range, for which `NaiveDate::from_ymd_opt`
/// gives a date.
#[verifier::external_body]
pub(crate) fn weekday(date: Date) -> (r: Weekday)
    requires
        date.wf(),
    ensures
        r == weekday_of(date),
{
    match chrono::NaiveDate::from_ymd_opt(date.year, date.month, date.day).unwrap().weekday() {
        chrono::Weekday::Mon => Weekday::Mon,
        chrono::Weekday::Tue => Weekday::Tue,
        chrono::Weekday::Wed => Weekday::Wed,
        chrono::Weekday::Thu => Weekday::Thu,
        chrono::Weekday::Fri => Weekday::Fri,
        chrono::Weekday::Sat => Weekday::Sat,
        chrono::Weekday::Sun => Weekday::Sun,
    }
}

/// Calls `chrono::NaiveDate::signed_duration_since` and
/// `chrono::TimeDelta::num_days`: the whole days from `from` to `to`. The
/// contract names the outcome `days_between`. It claims two things of
/// chrono's calendar, in which the days are counted one after the other and
/// the days of the week follow each other in turn: the distance is negative
/// exactly where `to` is the earlier day, and it is a whole number of weeks
/// exactly where both dates fall on the same day of the week. It asks for
/// two dates of the calendar with years in chrono's range, for which
/// `NaiveDate::from_ymd_opt` gives dates; the distance of any two such dates
/// is within the range of `TimeDelta`.
#[verifier::external_body]
pub(crate) fn days_since(to: Date, from: Date) -> (r: i64)
    requires
        to.wf(),
        from.wf(),
    ensures
        r == days_between(from, to),
        (r < 0) == to.before(from),
        (r as int % 7 == 0) == (weekday_of(to) == weekday_of(from)),
{
    let end = chrono::NaiveDate::from_ymd_opt(to.year, to.month, to.day).unwrap();
    let start = chrono::NaiveDate::from_ymd_opt(from.year, from.month, from.day).unwrap();
    end.signed_duration_since(start).num_days()
}

/// Calls `chrono::Utc::now` and `chrono::DateTime::date_naive`: the current
/// day in UTC. The contract claims only that the date exists in the calendar.
/// chrono does not return where the clock of the system stands before 1970.
#[verifier::external_body]
pub(crate) fn today() -> (r: Date)
    ensures
        r.wf(),
{
    let now = chrono::Utc::now().date_naive();
    Date { year: now.year(), month: now.month(), day: now.day() }
}

/// `date` moved forward by `days` days.
pub fn add_days(date: Date, days: u32) -> (r: Option<Date>)
    requires
        date.wf(),
    ensures
        r == plus_days(date, days as nat),
        r matches Some(d) ==> d.wf() && date.not_after(d),
{
    let mut current: Date = date;
    let mut left: u32 = days;
    while left > 0
        invariant
            current.wf(),
            date.not_after(current),
            plus_days(current, left as nat) == plus_days(date, days as nat),
        decreases left,
    {
        match current.succ() {
            Some(next) => {
                current = next;
                left = left - 1;
            },
            None => {
                return None;
            },
        }
    }
    Some(current)
}

/// Whether `year` is a leap year.
pub fn leap_year(year: i32) -> (r: bool)
    ensures
        r == is_leap_year(year as int),
{
    // 2147484000 is a multiple of 400: the shifted year is not negative and
    // leaves the same remainders.
    let shifted: u64 = (year as i64 + 2147484000) as u64;
    assert(shifted as int == year as int + 400 * 5368710);
    assert(shifted as int % 4 == year as int % 4) by {
        lemma_same_remainder(year as int, 4, 536871000);
    }
    assert(shifted as int % 100 == year as int % 100) by {
        lemma_same_remainder(year as int, 100, 21474840);
    }
    assert(shifted as int % 400 == year as int % 400) by {
        lemma_same_remainder(year as int, 400, 5368710);
    }
    shifted % 4 == 0 && (shifted % 100 != 0 || shifted % 400 == 0)
}

proof fn lemma_same_remainder(x: int, d: int, k: int)
    requires
        d > 0,
    ensures
        (x + d * k) % d == x % d,
{
    vstd::arithmetic::div_mod::lemma_mod_multiples_vanish(k, x, d);
    assert(d * k + x == x + d * k);
}

/// The number of days of `month` in `year`; 0 where `month` is no month.
pub fn month_length(year: i32, month: u32) -> (n: u32)
    ensures
        n == days_in_month(year as int, month as int),
{
    if month == 2 {
        if leap_year(year) {
            29
        } else {
            28
        }
    } else if month == 4 || month == 6 || month == 9 || month == 11 {
        30
    } else if 1 <= month && month <= 12 {
        31
    } else {
        0
    }
}

} // verus!
