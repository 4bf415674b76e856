//! What holds of materialisation whatever the document and the range:
//! nothing that was in the ledger is replaced, and a second run changes
//! nothing. And what holds of adding and editing a dog: which schedules the
//! dog then has, which entries it keeps and which it gains.

use crate::attendance::{
    auto_entry, day_with_rule, due_on, entry_key, ledger_after_days, ledger_after_rules, ledger_with_rule,
    materialized, Ledger,
};
use crate::clearing::{cleared_from, is_entry_of, is_from, lemma_key_tells_dog};
use crate::date::{date_text, next_date, reads_back, Date};
use crate::dogs::{
    dog_added, dog_updated, has_schedule, lemma_without_dog, window, without_dog,
};
use crate::error::AppError;
use crate::ids::StampView;
use crate::model::{
    AppDataView, AttendanceEntryView, DogView, RecurringScheduleView, ServiceType,
};
use crate::schedule::derived_schedules;
use vstd::prelude::*;

verus! {

/// Every day of `small` is a day of `big`, with the same temperatures and
/// kinds of attendance, and every entry of such a day is in `big` as it is
/// in `small`.
pub open spec fn covers(big: Ledger, small: Ledger) -> bool {
    forall|day: Seq<char>| #[trigger]
        small.contains_key(day) ==> big.contains_key(day) && big[day].am_temp
            == small[day].am_temp && big[day].pm_temp == small[day].pm_temp
            && big[day].attendance.types == small[day].attendance.types && forall|
            entry: Seq<char>,
        | #[trigger]
            small[day].attendance.entries.contains_key(entry)
                ==> big[day].attendance.entries.contains_key(entry)
                && big[day].attendance.entries[entry] == small[day].attendance.entries[entry]
}

/// For every schedule that is due on `date`, the ledger holds the day and in
/// it an entry for the schedule's dog and service.
pub open spec fn settled(ledger: Ledger, schedules: Seq<RecurringScheduleView>, date: Date) -> bool {
    forall|i: int|
        0 <= i < schedules.len() && due_on(#[trigger] schedules[i], date) ==> ledger.contains_key(
            date_text(date),
        ) && ledger[date_text(date)].attendance.entries.contains_key(
            entry_key(schedules[i].dog_id, schedules[i].service_type),
        )
}

/// `date` is one of the dates from `current` to `last`.
pub open spec fn in_span(date: Date, current: Date, last: Date) -> bool
    decreases last.rank() - current.rank(),
{
    if !current.wf() || !last.wf() || last.before(current) {
        false
    } else if date == current {
        true
    } else if current == last {
        false
    } else {
        match next_date(current) {
            Some(next) => in_span(date, next, last),
            None => false,
        }
    }
}

/// Reading the text of any date from `first` to `last` gives the date
/// back, so that no two of these dates have the same text.
pub open spec fn span_reads_back(first: Date, last: Date) -> bool {
    forall|date: Date| #[trigger] in_span(date, first, last) ==> reads_back(date)
}

/// The dates from `current` to `last` are the dates of the calendar that
/// are not before `current` and not after `last`: every one of them, and no
/// other.
pub proof fn lemma_span_is_interval(date: Date, current: Date, last: Date)
    ensures
        in_span(date, current, last) <==> current.wf() && last.wf() && date.wf() && !date.before(
            current,
        ) && !last.before(date),
    decreases last.rank() - current.rank(),
{
    if current.wf() && last.wf() && !last.before(current) {
        if date != current && current != last {
            match next_date(current) {
                Some(next) => {
                    lemma_span_is_interval(date, next, last);
                },
                None => {},
            }
        }
    }
}

proof fn lemma_rule_covers(ledger: Ledger, schedule: RecurringScheduleView, date: Date)
    ensures
        covers(ledger_with_rule(ledger, schedule, date), ledger),
        due_on(schedule, date) ==> ledger_with_rule(ledger, schedule, date).contains_key(
            date_text(date),
        ) && ledger_with_rule(ledger, schedule, date)[date_text(
            date,
        )].attendance.entries.contains_key(entry_key(schedule.dog_id, schedule.service_type)),
{
}

proof fn lemma_covers_chain(big: Ledger, middle: Ledger, small: Ledger)
    requires
        covers(big, middle),
        covers(middle, small),
    ensures
        covers(big, small),
{
    assert forall|day: Seq<char>| #[trigger] small.contains_key(day) implies big.contains_key(day)
        && big[day].am_temp == small[day].am_temp && big[day].pm_temp == small[day].pm_temp
        && big[day].attendance.types == small[day].attendance.types && forall|entry: Seq<char>| #[trigger]
        small[day].attendance.entries.contains_key(entry)
            ==> big[day].attendance.entries.contains_key(entry)
            && big[day].attendance.entries[entry] == small[day].attendance.entries[entry] by {
        assert(middle.contains_key(day));
        assert forall|entry: Seq<char>| #[trigger]
            small[day].attendance.entries.contains_key(entry) implies big[day].attendance.entries.contains_key(
        entry) && big[day].attendance.entries[entry] == small[day].attendance.entries[entry] by {
            assert(middle[day].attendance.entries.contains_key(entry));
        }
    }
}

proof fn lemma_settled_stays(
    big: Ledger,
    small: Ledger,
    schedules: Seq<RecurringScheduleView>,
    date: Date,
)
    requires
        covers(big, small),
        settled(small, schedules, date),
    ensures
        settled(big, schedules, date),
{
    assert forall|i: int|
        0 <= i < schedules.len() && due_on(#[trigger] schedules[i], date) implies big.contains_key(
        date_text(date),
    ) && big[date_text(date)].attendance.entries.contains_key(
        entry_key(schedules[i].dog_id, schedules[i].service_type),
    ) by {
        assert(small.contains_key(date_text(date)));
        assert(small[date_text(date)].attendance.entries.contains_key(
            entry_key(schedules[i].dog_id, schedules[i].service_type),
        ));
    }
}

proof fn lemma_rules_cover(
    ledger: Ledger,
    schedules: Seq<RecurringScheduleView>,
    date: Date,
    n: nat,
)
    requires
        n <= schedules.len(),
    ensures
        covers(ledger_after_rules(ledger, schedules, date, n), ledger),
        forall|i: int|
            0 <= i < n && due_on(#[trigger] schedules[i], date) ==> ledger_after_rules(
                ledger,
                schedules,
                date,
                n,
            ).contains_key(date_text(date)) && ledger_after_rules(
                ledger,
                schedules,
                date,
                n,
            )[date_text(date)].attendance.entries.contains_key(
                entry_key(schedules[i].dog_id, schedules[i].service_type),
            ),
    decreases n,
{
    if n > 0 {
        let before = ledger_after_rules(ledger, schedules, date, (n - 1) as nat);
        let after = ledger_after_rules(ledger, schedules, date, n);
        lemma_rules_cover(ledger, schedules, date, (n - 1) as nat);
        lemma_rule_covers(before, schedules[n - 1], date);
        lemma_covers_chain(after, before, ledger);
        assert forall|i: int| 0 <= i < n && due_on(#[trigger] schedules[i], date) implies after.contains_key(
        date_text(date)) && after[date_text(date)].attendance.entries.contains_key(
            entry_key(schedules[i].dog_id, schedules[i].service_type),
        ) by {
            if i < n - 1 {
                assert(before.contains_key(date_text(date)));
                assert(before[date_text(date)].attendance.entries.contains_key(
                    entry_key(schedules[i].dog_id, schedules[i].service_type),
                ));
            }
        }
    }
}

proof fn lemma_days_cover(
    ledger: Ledger,
    schedules: Seq<RecurringScheduleView>,
    current: Date,
    last: Date,
)
    ensures
        covers(ledger_after_days(ledger, schedules, current, last), ledger),
    decreases last.rank() - current.rank(),
{
    if current.wf() && last.wf() && !last.before(current) {
        let today = ledger_after_rules(ledger, schedules, current, schedules.len());
        lemma_rules_cover(ledger, schedules, current, schedules.len());
        if current != last {
            match next_date(current) {
                Some(next) => {
                    lemma_days_cover(today, schedules, next, last);
                    lemma_covers_chain(
                        ledger_after_days(today, schedules, next, last),
                        today,
                        ledger,
                    );
                },
                None => {},
            }
        }
    }
}

proof fn lemma_days_settle(
    ledger: Ledger,
    schedules: Seq<RecurringScheduleView>,
    current: Date,
    last: Date,
    date: Date,
)
    requires
        in_span(date, current, last),
    ensures
        settled(ledger_after_days(ledger, schedules, current, last), schedules, date),
    decreases last.rank() - current.rank(),
{
    let today = ledger_after_rules(ledger, schedules, current, schedules.len());
    let result = ledger_after_days(ledger, schedules, current, last);
    if date == current {
        lemma_rules_cover(ledger, schedules, current, schedules.len());
        assert(settled(today, schedules, date));
        if current != last {
            match next_date(current) {
                Some(next) => {
                    lemma_days_cover(today, schedules, next, last);
                    lemma_settled_stays(result, today, schedules, date);
                },
                None => {},
            }
        }
    } else {
        let next = next_date(current).unwrap();
        lemma_days_settle(today, schedules, next, last, date);
    }
}

proof fn lemma_settled_rules_fixed(
    ledger: Ledger,
    schedules: Seq<RecurringScheduleView>,
    date: Date,
    n: nat,
)
    requires
        n <= schedules.len(),
        settled(ledger, schedules, date),
    ensures
        ledger_after_rules(ledger, schedules, date, n) == ledger,
    decreases n,
{
    if n > 0 {
        lemma_settled_rules_fixed(ledger, schedules, date, (n - 1) as nat);
        let schedule = schedules[n - 1];
        if due_on(schedule, date) {
            let key = date_text(date);
            assert(day_with_rule(ledger[key], schedule) == ledger[key]);
            assert(ledger.insert(key, ledger[key]) =~= ledger);
        }
    }
}

proof fn lemma_settled_days_fixed(
    ledger: Ledger,
    schedules: Seq<RecurringScheduleView>,
    current: Date,
    last: Date,
)
    requires
        forall|date: Date| #[trigger] in_span(date, current, last) ==> settled(ledger, schedules, date),
    ensures
        ledger_after_days(ledger, schedules, current, last) == ledger,
    decreases last.rank() - current.rank(),
{
    if current.wf() && last.wf() && !last.before(current) {
        assert(in_span(current, current, last));
        lemma_settled_rules_fixed(ledger, schedules, current, schedules.len());
        if current != last {
            match next_date(current) {
                Some(next) => {
                    assert forall|date: Date| #[trigger] in_span(date, next, last) implies settled(
                        ledger,
                        schedules,
                        date,
                    ) by {
                        assert(in_span(date, current, last));
                    }
                    lemma_settled_days_fixed(ledger, schedules, next, last);
                },
                None => {},
            }
        }
    }
}

/// The entry under `key` of the day `day` is in `after` as it is in
/// `before`.
pub open spec fn kept(before: Ledger, after: Ledger, day: Seq<char>, key: Seq<char>) -> bool {
    before.contains_key(day) && before[day].attendance.entries.contains_key(key)
        && after[day].attendance.entries[key] == before[day].attendance.entries[key]
}

/// The schedule at `index` is due on `date`, `day` is the text of `date`,
/// `key` the key of the schedule's dog and service, and `entry` the entry
/// that the schedule makes.
pub open spec fn makes(
    schedules: Seq<RecurringScheduleView>,
    index: int,
    date: Date,
    day: Seq<char>,
    key: Seq<char>,
    entry: AttendanceEntryView,
) -> bool {
    &&& 0 <= index < schedules.len()
    &&& due_on(schedules[index], date)
    &&& date_text(date) == day
    &&& entry_key(schedules[index].dog_id, schedules[index].service_type) == key
    &&& entry == auto_entry(schedules[index])
}

proof fn lemma_rules_explained(
    ledger: Ledger,
    schedules: Seq<RecurringScheduleView>,
    date: Date,
    n: nat,
    day: Seq<char>,
    key: Seq<char>,
)
    requires
        n <= schedules.len(),
        ledger_after_rules(ledger, schedules, date, n).contains_key(day),
        ledger_after_rules(ledger, schedules, date, n)[day].attendance.entries.contains_key(key),
    ensures
        kept(ledger, ledger_after_rules(ledger, schedules, date, n), day, key) || exists|i: int|
            0 <= i < n && #[trigger] makes(
                schedules,
                i,
                date,
                day,
                key,
                ledger_after_rules(ledger, schedules, date, n)[day].attendance.entries[key],
            ),
    decreases n,
{
    if n > 0 {
        let before = ledger_after_rules(ledger, schedules, date, (n - 1) as nat);
        let after = ledger_after_rules(ledger, schedules, date, n);
        let schedule = schedules[n - 1];
        let entry = after[day].attendance.entries[key];
        if before.contains_key(day) && before[day].attendance.entries.contains_key(key) {
            lemma_rule_covers(before, schedule, date);
            assert(entry == before[day].attendance.entries[key]);
            lemma_rules_explained(ledger, schedules, date, (n - 1) as nat, day, key);
            if !kept(ledger, before, day, key) {
                let i = choose|i: int|
                    0 <= i < n - 1 && #[trigger] makes(
                        schedules,
                        i,
                        date,
                        day,
                        key,
                        before[day].attendance.entries[key],
                    );
                assert(makes(schedules, i, date, day, key, entry));
            }
        } else {
            assert(makes(schedules, n - 1, date, day, key, entry));
        }
    }
}

proof fn lemma_days_explained(
    ledger: Ledger,
    schedules: Seq<RecurringScheduleView>,
    current: Date,
    last: Date,
    day: Seq<char>,
    key: Seq<char>,
)
    requires
        ledger_after_days(ledger, schedules, current, last).contains_key(day),
        ledger_after_days(ledger, schedules, current, last)[day].attendance.entries.contains_key(
            key,
        ),
    ensures
        kept(ledger, ledger_after_days(ledger, schedules, current, last), day, key) || exists|
            i: int,
            date: Date,
        |
            in_span(date, current, last) && #[trigger] makes(
                schedules,
                i,
                date,
                day,
                key,
                ledger_after_days(ledger, schedules, current, last)[day].attendance.entries[key],
            ),
    decreases last.rank() - current.rank(),
{
    if current.wf() && last.wf() && !last.before(current) {
        let today = ledger_after_rules(ledger, schedules, current, schedules.len());
        let result = ledger_after_days(ledger, schedules, current, last);
        let entry = result[day].attendance.entries[key];
        let next = next_date(current);
        let further = current != last && next is Some;
        if further {
            lemma_days_explained(today, schedules, next.unwrap(), last, day, key);
        }
        if !further || kept(today, result, day, key) {
            assert(today.contains_key(day) && today[day].attendance.entries.contains_key(key));
            assert(entry == today[day].attendance.entries[key]);
            lemma_rules_explained(ledger, schedules, current, schedules.len(), day, key);
            if !kept(ledger, today, day, key) {
                let i = choose|i: int|
                    0 <= i < schedules.len() && #[trigger] makes(
                        schedules,
                        i,
                        current,
                        day,
                        key,
                        today[day].attendance.entries[key],
                    );
                assert(in_span(current, current, last));
                assert(makes(schedules, i, current, day, key, entry));
            }
        } else {
            let (i, date) = choose|i: int, date: Date|
                in_span(date, next.unwrap(), last) && #[trigger] makes(
                    schedules,
                    i,
                    date,
                    day,
                    key,
                    entry,
                );
            assert(in_span(date, current, last));
            assert(makes(schedules, i, date, day, key, entry));
        }
    }
}

/// Every entry that the ledger holds after materialising was in it before,
/// unchanged, or is the entry that a schedule makes which is due on a date
/// of the range: nothing else comes into the ledger.
pub proof fn lemma_entries_explained(
    doc: AppDataView,
    start: Date,
    last: Date,
    day: Seq<char>,
    key: Seq<char>,
)
    requires
        materialized(doc, start, last) is Ok,
        materialized(doc, start, last).unwrap().daily_data.contains_key(day),
        materialized(doc, start, last).unwrap().daily_data[day].attendance.entries.contains_key(
            key,
        ),
    ensures
        kept(doc.daily_data, materialized(doc, start, last).unwrap().daily_data, day, key)
            || exists|i: int, date: Date|
            in_span(date, start, last) && #[trigger] makes(
                doc.recurring_schedules,
                i,
                date,
                day,
                key,
                materialized(doc, start, last).unwrap().daily_data[day].attendance.entries[key],
            ),
{
    lemma_days_explained(doc.daily_data, doc.recurring_schedules, start, last, day, key);
}

/// Non-destructive merge: materialising never removes a day from the ledger
/// and never removes or changes an entry that the ledger held, whoever made
/// it.
pub proof fn lemma_entries_kept(
    doc: AppDataView,
    start: Date,
    last: Date,
    day: Seq<char>,
    entry: Seq<char>,
)
    requires
        materialized(doc, start, last) is Ok,
        doc.daily_data.contains_key(day),
        doc.daily_data[day].attendance.entries.contains_key(entry),
    ensures
        materialized(doc, start, last).unwrap().daily_data.contains_key(day),
        materialized(doc, start, last).unwrap().daily_data[day].attendance.entries.contains_key(
            entry,
        ),
        materialized(doc, start, last).unwrap().daily_data[day].attendance.entries[entry]
            == doc.daily_data[day].attendance.entries[entry],
{
    lemma_days_cover(doc.daily_data, doc.recurring_schedules, start, last);
}

/// Materialising leaves the temperatures and the kinds of attendance of
/// every day as they are.
pub proof fn lemma_day_rest_kept(doc: AppDataView, start: Date, last: Date, day: Seq<char>)
    requires
        materialized(doc, start, last) is Ok,
        doc.daily_data.contains_key(day),
    ensures
        materialized(doc, start, last).unwrap().daily_data.contains_key(day),
        materialized(doc, start, last).unwrap().daily_data[day].am_temp
            == doc.daily_data[day].am_temp,
        materialized(doc, start, last).unwrap().daily_data[day].pm_temp
            == doc.daily_data[day].pm_temp,
        materialized(doc, start, last).unwrap().daily_data[day].attendance.types
            == doc.daily_data[day].attendance.types,
{
    lemma_days_cover(doc.daily_data, doc.recurring_schedules, start, last);
}

/// Materialising changes nothing of a document but its ledger.
pub proof fn lemma_only_ledger_changes(doc: AppDataView, start: Date, last: Date)
    requires
        materialized(doc, start, last) is Ok,
    ensures
        materialized(doc, start, last).unwrap().dogs == doc.dogs,
        materialized(doc, start, last).unwrap().recurring_schedules == doc.recurring_schedules,
        materialized(doc, start, last).unwrap().settings == doc.settings,
{
}

/// After materialising a range, every date of the range holds an entry for
/// every schedule that is due on it.
pub proof fn lemma_due_entries_present(
    doc: AppDataView,
    start: Date,
    last: Date,
    date: Date,
    index: int,
)
    requires
        materialized(doc, start, last) is Ok,
        in_span(date, start, last),
        0 <= index < doc.recurring_schedules.len(),
        due_on(doc.recurring_schedules[index], date),
    ensures
        materialized(doc, start, last).unwrap().daily_data.contains_key(date_text(date)),
        materialized(doc, start, last).unwrap().daily_data[date_text(
            date,
        )].attendance.entries.contains_key(
            entry_key(
                doc.recurring_schedules[index].dog_id,
                doc.recurring_schedules[index].service_type,
            ),
        ),
{
    lemma_days_settle(doc.daily_data, doc.recurring_schedules, start, last, date);
}

/// Idempotence: materialising the same range a second time succeeds and
/// leaves the document exactly as the first run made it.
pub proof fn lemma_materialize_twice(doc: AppDataView, start: Date, last: Date)
    requires
        materialized(doc, start, last) is Ok,
    ensures
        materialized(materialized(doc, start, last).unwrap(), start, last) == materialized(
            doc,
            start,
            last,
        ),
{
    let once = materialized(doc, start, last).unwrap();
    let schedules = doc.recurring_schedules;
    assert forall|date: Date| #[trigger] in_span(date, start, last) implies settled(
        once.daily_data,
        schedules,
        date,
    ) by {
        lemma_days_settle(doc.daily_data, schedules, start, last, date);
    }
    lemma_settled_days_fixed(once.daily_data, schedules, start, last);
}

/// An edit of a dog clears only the dog's attendance from today on. Every
/// entry of an earlier day, and of a day whose key is no date, is after the
/// edit as it was before; so is every entry that is not the dog's, on any
/// day.
pub proof fn lemma_edit_keeps_past(
    doc: AppDataView,
    dog: DogView,
    today: Date,
    daycare: StampView,
    training: StampView,
    boarding: StampView,
    day: Seq<char>,
    entry: Seq<char>,
)
    requires
        dog_updated(doc, dog, today, daycare, training, boarding) is Ok,
        doc.daily_data.contains_key(day),
        doc.daily_data[day].attendance.entries.contains_key(entry),
        !is_from(day, today) || !is_entry_of(entry, dog.id),
    ensures
        dog_updated(doc, dog, today, daycare, training, boarding).unwrap().daily_data.contains_key(
            day,
        ),
        dog_updated(
            doc,
            dog,
            today,
            daycare,
            training,
            boarding,
        ).unwrap().daily_data[day].attendance.entries.contains_key(entry),
        dog_updated(
            doc,
            dog,
            today,
            daycare,
            training,
            boarding,
        ).unwrap().daily_data[day].attendance.entries[entry]
            == doc.daily_data[day].attendance.entries[entry],
{
    let dates = window(dog.schedule, today).unwrap();
    let cleared = cleared_from(doc.daily_data, dog.id, today);
    let schedules = without_dog(doc.recurring_schedules, dog.id) + derived_schedules(
        dog,
        date_text(today),
        daycare,
        training,
        boarding,
    );
    assert(cleared.contains_key(day));
    assert(cleared[day].attendance.entries.contains_key(entry));
    assert(cleared[day].attendance.entries[entry] == doc.daily_data[day].attendance.entries[entry]);
    lemma_days_cover(cleared, schedules, dates.0, dates.1);
}

/// After an edit of a dog, every date of the dog's window holds an entry
/// for every schedule that is due on it: for those derived from the dog's
/// new schedule too.
pub proof fn lemma_edit_regenerates(
    doc: AppDataView,
    dog: DogView,
    today: Date,
    daycare: StampView,
    training: StampView,
    boarding: StampView,
    date: Date,
    index: int,
)
    requires
        dog_updated(doc, dog, today, daycare, training, boarding) is Ok,
        in_span(date, window(dog.schedule, today).unwrap().0, window(dog.schedule, today).unwrap().1),
        0 <= index < dog_updated(
            doc,
            dog,
            today,
            daycare,
            training,
            boarding,
        ).unwrap().recurring_schedules.len(),
        due_on(
            dog_updated(doc, dog, today, daycare, training, boarding).unwrap().recurring_schedules[index],
            date,
        ),
    ensures
        ({
            let after = dog_updated(doc, dog, today, daycare, training, boarding).unwrap();
            let schedule = after.recurring_schedules[index];
            after.daily_data.contains_key(date_text(date)) && after.daily_data[date_text(
                date,
            )].attendance.entries.contains_key(entry_key(schedule.dog_id, schedule.service_type))
        }),
{
    let dates = window(dog.schedule, today).unwrap();
    let cleared = cleared_from(doc.daily_data, dog.id, today);
    let schedules = without_dog(doc.recurring_schedules, dog.id) + derived_schedules(
        dog,
        date_text(today),
        daycare,
        training,
        boarding,
    );
    lemma_days_settle(cleared, schedules, dates.0, dates.1, date);
}

/// A dog whose schedule asks for no attendance is added and nothing else
/// changes: the dog joins the dogs as their last; the schedules, the ledger
/// and the settings stay as they are.
pub proof fn lemma_add_without_schedule(
    doc: AppDataView,
    dog: DogView,
    today: Date,
    daycare: StampView,
    training: StampView,
    boarding: StampView,
)
    requires
        !has_schedule(dog.schedule),
    ensures
        dog_added(doc, dog, today, daycare, training, boarding) == Ok::<AppDataView, AppError>(
            AppDataView { dogs: doc.dogs.push(dog), ..doc },
        ),
{
}

/// A dog whose schedule asks for attendance is added with the schedules
/// derived from it, which join the schedules as their last, and every date
/// of the dog's window then holds an entry for every schedule that is due
/// on it: for those derived from the dog's schedule too.
pub proof fn lemma_add_generates(
    doc: AppDataView,
    dog: DogView,
    today: Date,
    daycare: StampView,
    training: StampView,
    boarding: StampView,
    date: Date,
    index: int,
)
    requires
        has_schedule(dog.schedule),
        dog_added(doc, dog, today, daycare, training, boarding) is Ok,
        in_span(date, window(dog.schedule, today).unwrap().0, window(dog.schedule, today).unwrap().1),
        0 <= index < dog_added(
            doc,
            dog,
            today,
            daycare,
            training,
            boarding,
        ).unwrap().recurring_schedules.len(),
        due_on(
            dog_added(doc, dog, today, daycare, training, boarding).unwrap().recurring_schedules[index],
            date,
        ),
    ensures
        ({
            let after = dog_added(doc, dog, today, daycare, training, boarding).unwrap();
            let schedule = after.recurring_schedules[index];
            &&& after.dogs == doc.dogs.push(dog)
            &&& after.settings == doc.settings
            &&& after.recurring_schedules == doc.recurring_schedules + derived_schedules(
                dog,
                date_text(today),
                daycare,
                training,
                boarding,
            )
            &&& has_entry(after.daily_data, date, schedule.dog_id, schedule.service_type)
        }),
{
    let dates = window(dog.schedule, today).unwrap();
    let schedules = doc.recurring_schedules + derived_schedules(
        dog,
        date_text(today),
        daycare,
        training,
        boarding,
    );
    lemma_days_settle(doc.daily_data, schedules, dates.0, dates.1, date);
}

/// The ledger holds, on the day of `date`, an entry of the dog for the
/// service.
pub open spec fn has_entry(
    ledger: Ledger,
    date: Date,
    dog_id: Seq<char>,
    service: ServiceType,
) -> bool {
    ledger.contains_key(date_text(date)) && ledger[date_text(date)].attendance.entries.contains_key(
        entry_key(dog_id, service),
    )
}

/// One of the schedules is of the dog and the service and is due on `date`.
pub open spec fn due_for(
    schedules: Seq<RecurringScheduleView>,
    dog_id: Seq<char>,
    service: ServiceType,
    date: Date,
) -> bool {
    exists|i: int|
        0 <= i < schedules.len() && schedules[i].dog_id == dog_id && schedules[i].service_type
            == service && #[trigger] due_on(schedules[i], date)
}

/// On every date from `first` to `last` the dog has an entry for a service
/// exactly where one of its schedules for the service is due.
pub open spec fn entries_as_due(doc: AppDataView, dog_id: Seq<char>, first: Date, last: Date) -> bool {
    forall|date: Date, service: ServiceType|
        in_span(date, first, last) ==> (#[trigger] has_entry(
            doc.daily_data,
            date,
            dog_id,
            service,
        ) <==> due_for(doc.recurring_schedules, dog_id, service, date))
}

/// After an edit of a dog, the schedules of the dog are those derived from
/// its new schedule, and no others: they stand at the end of the list, and
/// every schedule before them is of another dog.
pub proof fn lemma_edit_schedules(
    doc: AppDataView,
    dog: DogView,
    today: Date,
    daycare: StampView,
    training: StampView,
    boarding: StampView,
    index: int,
)
    requires
        dog_updated(doc, dog, today, daycare, training, boarding) is Ok,
        0 <= index < dog_updated(
            doc,
            dog,
            today,
            daycare,
            training,
            boarding,
        ).unwrap().recurring_schedules.len(),
    ensures
        ({
            let after = dog_updated(doc, dog, today, daycare, training, boarding).unwrap();
            let others = without_dog(doc.recurring_schedules, dog.id);
            let derived = derived_schedules(dog, date_text(today), daycare, training, boarding);
            &&& after.recurring_schedules == others + derived
            &&& index < others.len() ==> after.recurring_schedules[index].dog_id != dog.id
            &&& index >= others.len() ==> after.recurring_schedules[index] == derived[index
                - others.len()] && after.recurring_schedules[index].dog_id == dog.id
        }),
{
    let others = without_dog(doc.recurring_schedules, dog.id);
    if index < others.len() {
        lemma_without_dog(doc.recurring_schedules, dog.id, doc.recurring_schedules.len(), others[index]);
    }
}

/// After an edit of a dog, from today to the end of the dog's window the dog
/// has an entry for a service on exactly the dates on which one of its new
/// schedules for the service is due: an entry that the dog had on another
/// date is gone. This holds where the window holds today, as it does when
/// its dates are dates of the calendar, and the text of each of its dates
/// reads back as the date.
pub proof fn lemma_edit_only_due(
    doc: AppDataView,
    dog: DogView,
    today: Date,
    daycare: StampView,
    training: StampView,
    boarding: StampView,
)
    requires
        dog_updated(doc, dog, today, daycare, training, boarding) is Ok,
        in_span(today, window(dog.schedule, today).unwrap().0, window(dog.schedule, today).unwrap().1),
        span_reads_back(window(dog.schedule, today).unwrap().0, window(dog.schedule, today).unwrap().1),
    ensures
        entries_as_due(
            dog_updated(doc, dog, today, daycare, training, boarding).unwrap(),
            dog.id,
            today,
            window(dog.schedule, today).unwrap().1,
        ),
{
    let dates = window(dog.schedule, today).unwrap();
    let after = dog_updated(doc, dog, today, daycare, training, boarding).unwrap();
    let cleared = cleared_from(doc.daily_data, dog.id, today);
    let schedules = after.recurring_schedules;
    let base = AppDataView { daily_data: cleared, ..after };
    assert(materialized(base, dates.0, dates.1) == Ok::<AppDataView, AppError>(after));
    lemma_span_is_interval(today, dates.0, dates.1);
    assert forall|date: Date, service: ServiceType| in_span(date, today, dates.1) implies (
    #[trigger] has_entry(after.daily_data, date, dog.id, service) <==> due_for(
        schedules,
        dog.id,
        service,
        date,
    )) by {
        let day = date_text(date);
        let key = entry_key(dog.id, service);
        lemma_span_is_interval(date, today, dates.1);
        lemma_span_is_interval(date, dates.0, dates.1);
        assert(in_span(date, dates.0, dates.1));
        assert(reads_back(date));
        if due_for(schedules, dog.id, service, date) {
            let i = choose|i: int|
                0 <= i < schedules.len() && schedules[i].dog_id == dog.id
                    && schedules[i].service_type == service && #[trigger] due_on(
                    schedules[i],
                    date,
                );
            lemma_edit_regenerates(doc, dog, today, daycare, training, boarding, date, i);
        }
        if has_entry(after.daily_data, date, dog.id, service) {
            lemma_entries_explained(base, dates.0, dates.1, day, key);
            assert(is_from(day, today));
            assert(is_entry_of(key, dog.id));
            assert(!kept(cleared, after.daily_data, day, key));
            let (i, made_on) = choose|i: int, made_on: Date|
                in_span(made_on, dates.0, dates.1) && #[trigger] makes(
                    schedules,
                    i,
                    made_on,
                    day,
                    key,
                    after.daily_data[day].attendance.entries[key],
                );
            assert(reads_back(made_on));
            assert(made_on == date);
            lemma_key_tells_dog(schedules[i].dog_id, schedules[i].service_type, dog.id, service);
            assert(due_on(schedules[i], date));
        }
    }
}

} // verus!
