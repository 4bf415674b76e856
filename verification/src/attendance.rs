//! Turning recurring schedules into attendance entries of the ledger.
//!
//! For every date of a range and every active schedule that is due on it,
//! the day's ledger gets an entry for the schedule's dog and service, unless
//! it holds one already: what is there is never replaced.

use crate::date::{
    date_text, format_date, next_date, parse_date, parsed_date, reads_back, Date,
};
use crate::laws::{in_span, lemma_span_is_interval, span_reads_back};
use crate::error::AppError;
use crate::model::{
    copy_text, empty_day, empty_record, text_opt, AppData, AppDataView, AttendanceEntry,
    AttendanceEntryView, DailyRecord, DailyRecordView, DayAttendanceView, DayData, DayDataView,
    schedule_views, RecurringSchedule, RecurringScheduleView, ServiceType,
};
use crate::recurrence::{occurs, should_generate_attendance};
use vstd::prelude::*;
use vstd::string::*;

verus! {

/// The note on an entry that a schedule made.
pub const AUTO_NOTE: &'static str = "Auto-scheduled";

/// The ledger: the days by the text of their date.
pub type Ledger = Map<Seq<char>, DayDataView>;

/// The name of a service as it stands in the key of an entry.
pub open spec fn service_name(service: ServiceType) -> Seq<char> {
    match service {
        ServiceType::Daycare => "Daycare"@,
        ServiceType::Training => "Training"@,
        ServiceType::Boarding => "Boarding"@,
    }
}

/// The key of the entry of a dog and a service within a day: the dog's id,
/// an underscore and the service's name.
pub open spec fn entry_key(dog_id: Seq<char>, service: ServiceType) -> Seq<char> {
    dog_id + "_"@ + service_name(service)
}

/// A text that is missing or empty.
pub open spec fn is_blank(text: Option<Seq<char>>) -> bool {
    match text {
        Some(t) => t.len() == 0,
        None => true,
    }
}

/// A recorded time after a schedule's time was filled in: the schedule's
/// time where it has one and none was recorded, else what was recorded.
pub open spec fn backfilled(recorded: Option<Seq<char>>, scheduled: Option<Seq<char>>) -> Option<
    Seq<char>,
> {
    if scheduled is Some && is_blank(recorded) {
        scheduled
    } else {
        recorded
    }
}

/// The entry that a schedule makes.
pub open spec fn auto_entry(schedule: RecurringScheduleView) -> AttendanceEntryView {
    AttendanceEntryView {
        dog_id: schedule.dog_id,
        service_type: schedule.service_type,
        attending: true,
        drop_off_time: schedule.drop_off_time,
        pick_up_time: schedule.pick_up_time,
        notes: Some(AUTO_NOTE@),
    }
}

/// A day after a schedule that is due on it was merged in. A day that holds
/// an entry for the schedule's dog and service stays as it is. Else the
/// entry is added; for daycare the dog is also marked as attending in the
/// older map, and the schedule's times are filled into the dog's daily
/// record where the record has none.
pub open spec fn day_with_rule(day: DayDataView, schedule: RecurringScheduleView) -> DayDataView {
    let key = entry_key(schedule.dog_id, schedule.service_type);
    if day.attendance.entries.contains_key(key) {
        day
    } else {
        let entries = day.attendance.entries.insert(key, auto_entry(schedule));
        if schedule.service_type == ServiceType::Daycare {
            let dogs = day.attendance.dogs.insert(schedule.dog_id, true);
            let records = if schedule.drop_off_time is Some || schedule.pick_up_time is Some {
                let record = if day.records.contains_key(schedule.dog_id) {
                    day.records[schedule.dog_id]
                } else {
                    empty_record()
                };
                day.records.insert(
                    schedule.dog_id,
                    DailyRecordView {
                        drop_off_time: backfilled(record.drop_off_time, schedule.drop_off_time),
                        pick_up_time: backfilled(record.pick_up_time, schedule.pick_up_time),
                        ..record
                    },
                )
            } else {
                day.records
            };
            DayDataView {
                attendance: DayAttendanceView { dogs, entries, types: day.attendance.types },
                records,
                ..day
            }
        } else {
            DayDataView { attendance: DayAttendanceView { entries, ..day.attendance }, ..day }
        }
    }
}

/// Whether a schedule names an end date.
pub open spec fn has_end(schedule: RecurringScheduleView) -> bool {
    !is_blank(schedule.end_date)
}

/// Whether a schedule is due on a date: it is active, the date is not before
/// its start nor after its end, and its pattern, anchored on its start,
/// occurs on the date.
pub open spec fn due_on(schedule: RecurringScheduleView, date: Date) -> bool {
    &&& schedule.active
    &&& parsed_date(schedule.start_date) matches Some(start)
    &&& !date.before(start)
    &&& (has_end(schedule) ==> (parsed_date(schedule.end_date.unwrap()) matches Some(end)
        ==> !end.before(date)))
    &&& occurs(date, start, schedule.pattern)
}

/// The ledger after one schedule was looked at for one date.
pub open spec fn ledger_with_rule(
    ledger: Ledger,
    schedule: RecurringScheduleView,
    date: Date,
) -> Ledger {
    if due_on(schedule, date) {
        let key = date_text(date);
        let day = if ledger.contains_key(key) {
            ledger[key]
        } else {
            empty_day()
        };
        ledger.insert(key, day_with_rule(day, schedule))
    } else {
        ledger
    }
}

/// The ledger after the first `n` schedules were looked at for one date.
pub open spec fn ledger_after_rules(
    ledger: Ledger,
    schedules: Seq<RecurringScheduleView>,
    date: Date,
    n: nat,
) -> Ledger
    decreases n,
{
    if n == 0 {
        ledger
    } else {
        ledger_with_rule(
            ledger_after_rules(ledger, schedules, date, (n - 1) as nat),
            schedules[n - 1],
            date,
        )
    }
}

/// The ledger after all schedules were looked at for every date from
/// `current` to `last`, the earlier dates first.
pub open spec fn ledger_after_days(
    ledger: Ledger,
    schedules: Seq<RecurringScheduleView>,
    current: Date,
    last: Date,
) -> Ledger
    decreases last.rank() - current.rank(),
{
    if !current.wf() || !last.wf() || last.before(current) {
        ledger
    } else {
        let today = ledger_after_rules(ledger, schedules, current, schedules.len());
        if current == last {
            today
        } else {
            match next_date(current) {
                Some(next) => ledger_after_days(today, schedules, next, last),
                None => today,
            }
        }
    }
}

/// What is wrong with the dates of the schedule at `index`, for a range that
/// ends on `last`. An inactive schedule is not looked at. An end date is
/// looked at only where the range reaches the schedule's start.
pub open spec fn schedule_problem(
    schedule: RecurringScheduleView,
    index: int,
    last: Date,
) -> Option<AppError> {
    if !schedule.active {
        None
    } else {
        match parsed_date(schedule.start_date) {
            None => Some(AppError::InvalidScheduleStartDate { index: index as usize }),
            Some(start) => if has_end(schedule) && parsed_date(schedule.end_date.unwrap()) is None
                && !last.before(start) {
                Some(AppError::InvalidScheduleEndDate { index: index as usize })
            } else {
                None
            },
        }
    }
}

/// The problem of the first schedule from `from` on that has one.
pub open spec fn first_problem(
    schedules: Seq<RecurringScheduleView>,
    last: Date,
    from: int,
) -> Option<AppError>
    decreases schedules.len() - from,
{
    if from < 0 || from >= schedules.len() {
        None
    } else {
        match schedule_problem(schedules[from], from, last) {
            Some(problem) => Some(problem),
            None => first_problem(schedules, last, from + 1),
        }
    }
}

/// What materialising the range from `start` to `last` makes of a document:
/// a failure where the range is empty or an active schedule has a bad date,
/// else the document with the schedules merged into its ledger.
pub open spec fn materialized(doc: AppDataView, start: Date, last: Date) -> Result<
    AppDataView,
    AppError,
> {
    if last.before(start) {
        Err(AppError::InvalidDateRange)
    } else {
        match first_problem(doc.recurring_schedules, last, 0) {
            Some(problem) => Err(problem),
            None => Ok(
                AppDataView {
                    daily_data: ledger_after_days(
                        doc.daily_data,
                        doc.recurring_schedules,
                        start,
                        last,
                    ),
                    ..doc
                },
            ),
        }
    }
}

/// The same for a range given as two texts, which have to be dates.
pub open spec fn materialized_between(
    doc: AppDataView,
    start_text: Seq<char>,
    end_text: Seq<char>,
) -> Result<AppDataView, AppError> {
    match parsed_date(start_text) {
        None => Err(AppError::InvalidStartDate),
        Some(start) => match parsed_date(end_text) {
            None => Err(AppError::InvalidEndDate),
            Some(last) => materialized(doc, start, last),
        },
    }
}

/// The name of a service as it stands in the key of an entry.
pub fn service_label(service: ServiceType) -> (r: &'static str)
    ensures
        r@ == service_name(service),
{
    match service {
        ServiceType::Daycare => "Daycare",
        ServiceType::Training => "Training",
        ServiceType::Boarding => "Boarding",
    }
}

/// The key of the entry of a dog and a service within a day.
pub fn make_entry_key(dog_id: &String, service: ServiceType) -> (r: String)
    ensures
        r@ == entry_key(dog_id@, service),
{
    let mut key = dog_id.clone();
    key.append("_");
    key.append(service_label(service));
    key
}

/// Whether a text is missing or empty.
pub fn blank(text: &Option<String>) -> (r: bool)
    ensures
        r == is_blank(text_opt(*text)),
{
    match text {
        Some(t) => t.as_str().unicode_len() == 0,
        None => true,
    }
}

/// Merges a schedule that is due into a day.
pub fn add_due_entry(day: &mut DayData, schedule: &RecurringSchedule)
    ensures
        final(day)@ == day_with_rule(old(day)@, schedule@),
{
    let key = make_entry_key(&schedule.dog_id, schedule.service_type);
    if day.attendance.entries.contains_key(key.as_str()) {
        return ;
    }
    let entry = AttendanceEntry {
        dog_id: schedule.dog_id.clone(),
        service_type: schedule.service_type,
        attending: true,
        drop_off_time: copy_text(&schedule.drop_off_time),
        pick_up_time: copy_text(&schedule.pick_up_time),
        notes: Some(String::from_str(AUTO_NOTE)),
    };
    day.attendance.entries.insert(key, entry);
    if schedule.service_type == ServiceType::Daycare {
        day.attendance.dogs.insert(schedule.dog_id.clone(), true);
        if schedule.drop_off_time.is_some() || schedule.pick_up_time.is_some() {
            let mut record = match day.records.remove(schedule.dog_id.as_str()) {
                Some(r) => r,
                None => DailyRecord::empty(),
            };
            if schedule.drop_off_time.is_some() && blank(&record.drop_off_time) {
                record.drop_off_time = copy_text(&schedule.drop_off_time);
            }
            if schedule.pick_up_time.is_some() && blank(&record.pick_up_time) {
                record.pick_up_time = copy_text(&schedule.pick_up_time);
            }
            let ghost records = old(day)@.records;
            let ghost dog = schedule.dog_id@;
            assert(records.remove(dog).insert(dog, record@) =~= records.insert(dog, record@));
            day.records.insert(schedule.dog_id.clone(), record);
        }
    }
}

/// The dates of a schedule, read once for a whole range.
#[derive(Clone, Copy)]
struct Span {
    active: bool,
    start: Date,
    end: Option<Date>,
}

/// `span` holds what chrono reads from the dates of `schedule`, as far as a
/// range that ends on `last` needs them.
spec fn spans(span: Span, schedule: RecurringScheduleView, last: Date) -> bool {
    &&& span.active == schedule.active
    &&& schedule.active ==> {
        &&& parsed_date(schedule.start_date) == Some(span.start)
        &&& span.start.wf()
        &&& span.end matches Some(end) ==> end.wf()
        &&& if has_end(schedule) {
            match parsed_date(schedule.end_date.unwrap()) {
                Some(end) => span.end == Some(end),
                None => span.end is None && last.before(span.start),
            }
        } else {
            span.end is None
        }
    }
}

/// Reads the dates of a schedule, or says what is wrong with them.
fn read_span(schedule: &RecurringSchedule, index: usize, last: Date) -> (r: Result<
    Span,
    AppError,
>)
    requires
        last.wf(),
    ensures
        match schedule_problem(schedule@, index as int, last) {
            Some(problem) => r == Err::<Span, AppError>(problem),
            None => r matches Ok(span) && spans(span, schedule@, last),
        },
{
    if !schedule.active {
        return Ok(Span { active: false, start: last, end: None });
    }
    let start = match parse_date(schedule.start_date.as_str()) {
        Some(start) => start,
        None => {
            return Err(AppError::InvalidScheduleStartDate { index });
        },
    };
    let end = match &schedule.end_date {
        Some(text) => {
            if text.as_str().unicode_len() == 0 {
                None
            } else {
                match parse_date(text.as_str()) {
                    Some(end) => Some(end),
                    None => {
                        if !last.is_before(&start) {
                            return Err(AppError::InvalidScheduleEndDate { index });
                        }
                        None
                    },
                }
            }
        },
        None => None,
    };
    Ok(Span { active: true, start, end })
}

/// Whether a schedule whose dates were read is due on a date of the range.
fn span_due(span: Span, schedule: &RecurringSchedule, date: Date, Ghost(last): Ghost<Date>) -> (r:
    bool)
    requires
        date.wf(),
        !last.before(date),
        spans(span, schedule@, last),
    ensures
        r == due_on(schedule@, date),
{
    if !span.active {
        return false;
    }
    if date.is_before(&span.start) {
        return false;
    }
    match span.end {
        Some(end) => {
            if end.is_before(&date) {
                return false;
            }
        },
        None => {},
    }
    should_generate_attendance(date, span.start, &schedule.pattern)
}

/// Looks at the dates of all schedules, for a range that ends on `last`.
pub fn check_schedules(schedules: &Vec<RecurringSchedule>, last: Date) -> (r: Result<(), AppError>)
    requires
        last.wf(),
    ensures
        match first_problem(schedule_views(schedules@), last, 0) {
            Some(problem) => r == Err::<(), AppError>(problem),
            None => r is Ok,
        },
{
    let ghost views = schedule_views(schedules@);
    let mut i: usize = 0;
    while i < schedules.len()
        invariant
            last.wf(),
            views == schedule_views(schedules@),
            i <= schedules@.len(),
            first_problem(views, last, 0) == first_problem(views, last, i as int),
        decreases schedules@.len() - i,
    {
        assert(views[i as int] == schedules@[i as int]@);
        match read_span(&schedules[i], i, last) {
            Ok(_) => {},
            Err(problem) => {
                return Err(problem);
            },
        }
        assert(first_problem(views, last, i as int) == first_problem(views, last, i + 1));
        i = i + 1;
    }
    Ok(())
}

/// Merges the schedules of the document into its ledger for every date from
/// `start` to `last`. Fails, and changes nothing, where `last` lies before
/// `start` or an active schedule has a date that is none. The days of the
/// ledger are keyed by the texts of the dates, and the text of each date of
/// the range reads back as that date.
pub fn materialize_range(data: &mut AppData, start: Date, last: Date) -> (r: Result<(), AppError>)
    requires
        start.wf(),
        last.wf(),
    ensures
        match materialized(old(data)@, start, last) {
            Ok(doc) => r is Ok && final(data)@ == doc,
            Err(problem) => r == Err::<(), AppError>(problem) && final(data)@ == old(data)@,
        },
        r is Ok ==> span_reads_back(start, last),
{
    if last.is_before(&start) {
        return Err(AppError::InvalidDateRange);
    }
    let ghost schedules = old(data)@.recurring_schedules;
    let ghost ledger = old(data)@.daily_data;
    let count = data.recurring_schedules.len();
    let mut read: Vec<Span> = Vec::new();
    let mut i: usize = 0;
    while i < count
        invariant
            last.wf(),
            !last.before(start),
            *data == *old(data),
            schedules == data@.recurring_schedules,
            count == data.recurring_schedules@.len(),
            i <= count,
            read@.len() == i,
            forall|j: int| 0 <= j < i ==> spans(#[trigger] read@[j], schedules[j], last),
            first_problem(schedules, last, 0) == first_problem(schedules, last, i as int),
        decreases count - i,
    {
        assert(schedules[i as int] == data.recurring_schedules@[i as int]@);
        match read_span(&data.recurring_schedules[i], i, last) {
            Ok(span) => {
                read.push(span);
            },
            Err(problem) => {
                assert(schedules.len() == count);
                assert(first_problem(schedules, last, i as int) == Some(problem));
                return Err(problem);
            },
        }
        assert(schedules.len() == count);
        assert(first_problem(schedules, last, i as int) == first_problem(
            schedules,
            last,
            i + 1,
        ));
        i = i + 1;
    }
    let mut current = start;
    proof {
        assert forall|date: Date| #[trigger] in_span(date, start, last) implies date.wf()
            && !date.before(start) && !last.before(date) by {
            lemma_span_is_interval(date, start, last);
        }
    }
    loop
        invariant_except_break
            ledger_after_days(data@.daily_data, schedules, current, last) == ledger_after_days(
                ledger,
                schedules,
                start,
                last,
            ),
        invariant
            current.wf(),
            last.wf(),
            !last.before(current),
            data.dogs == old(data).dogs,
            data.recurring_schedules == old(data).recurring_schedules,
            data.settings == old(data).settings,
            schedules == data@.recurring_schedules,
            count == data.recurring_schedules@.len(),
            read@.len() == count,
            forall|j: int| 0 <= j < count ==> spans(#[trigger] read@[j], schedules[j], last),
            forall|date: Date| #[trigger]
                in_span(date, start, last) ==> date.wf() && !last.before(date),
            forall|date: Date| #[trigger]
                in_span(date, start, last) && date.before(current) ==> reads_back(date),
        ensures
            data.dogs == old(data).dogs,
            data.recurring_schedules == old(data).recurring_schedules,
            data.settings == old(data).settings,
            data@.daily_data == ledger_after_days(ledger, schedules, start, last),
            span_reads_back(start, last),
        decreases last.rank() - current.rank(),
    {
        let ghost before_day = data@.daily_data;
        let key = format_date(current);
        let mut k: usize = 0;
        while k < count
            invariant
                key@ == date_text(current),
                current.wf(),
                !last.before(current),
                data.dogs == old(data).dogs,
                data.recurring_schedules == old(data).recurring_schedules,
                data.settings == old(data).settings,
                schedules == data@.recurring_schedules,
                count == data.recurring_schedules@.len(),
                read@.len() == count,
                forall|j: int| 0 <= j < count ==> spans(#[trigger] read@[j], schedules[j], last),
                k <= count,
                data@.daily_data == ledger_after_rules(before_day, schedules, current, k as nat),
            decreases count - k,
        {
            let schedule = &data.recurring_schedules[k];
            assert(schedule@ == schedules[k as int]);
            if span_due(read[k], schedule, current, Ghost(last)) {
                let ghost days = data@.daily_data;
                let mut day = match data.daily_data.remove(key.as_str()) {
                    Some(day) => day,
                    None => DayData::empty(),
                };
                add_due_entry(&mut day, &data.recurring_schedules[k]);
                assert(days.remove(key@).insert(key@, day@) =~= days.insert(key@, day@));
                data.daily_data.insert(key.clone(), day);
            }
            k = k + 1;
        }
        assert(data@.daily_data == ledger_after_rules(
            before_day,
            schedules,
            current,
            schedules.len(),
        ));
        if current == last {
            break ;
        }
        match current.succ() {
            Some(next) => {
                current = next;
            },
            None => {
                break ;
            },
        }
    }
    Ok(())
}

/// Merges the schedules of the document into its ledger for every date from
/// `start_date` to `end_date`, both given in the form year-month-day.
pub fn generate_recurring_attendance_internal(
    data: &mut AppData,
    start_date: &str,
    end_date: &str,
) -> (r: Result<(), AppError>)
    ensures
        match materialized_between(old(data)@, start_date@, end_date@) {
            Ok(doc) => r is Ok && final(data)@ == doc,
            Err(problem) => r == Err::<(), AppError>(problem) && final(data)@ == old(data)@,
        },
{
    let start = match parse_date(start_date) {
        Some(start) => start,
        None => {
            return Err(AppError::InvalidStartDate);
        },
    };
    let last = match parse_date(end_date) {
        Some(last) => last,
        None => {
            return Err(AppError::InvalidEndDate);
        },
    };
    materialize_range(data, start, last)
}

} // verus!
