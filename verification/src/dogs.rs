//! Adding, editing and removing dogs. A dog's schedules are derived anew
//! whenever the dog is added or edited, and merged into the ledger for a
//! window of dates around today.

use crate::attendance::{check_schedules, first_problem, materialize_range, materialized};
use crate::clearing::{clear_attendance_from, cleared_from};
use crate::date::{
    add_days, date_text, format_date, lemma_plus_days_later, parse_date, parsed_date, plus_days,
    today, Date,
};
use crate::error::AppError;
use crate::ids::{Stamp, StampView};
use crate::laws::{entries_as_due, lemma_edit_only_due, lemma_span_is_interval};
use crate::model::{
    default_dog_schedule, dog_views, schedule_views, text_opt, AppData, AppDataView, Dog, DogSchedule, DogScheduleView,
    DogView, RecurringSchedule, RecurringScheduleView,
};
use crate::schedule::{derived_schedules, push_derived};
use crate::strmap::same_text;
use vstd::prelude::*;

verus! {

/// For how many days from today on attendance is made at least.
pub const HORIZON_DAYS: u32 = 30;

/// The first date of the window for a dog's schedule: the schedule's start
/// date where it lies before today, else today.
pub open spec fn window_start(schedule: DogScheduleView, today: Date) -> Date {
    match schedule.start_date {
        Some(text) => if text.len() == 0 {
            today
        } else {
            match parsed_date(text) {
                Some(start) => if start.before(today) {
                    start
                } else {
                    today
                },
                None => today,
            }
        },
        None => today,
    }
}

/// The last date of the window for a dog's schedule: the schedule's end date
/// where it lies after the horizon, else the horizon.
pub open spec fn window_end(schedule: DogScheduleView, horizon: Date) -> Date {
    match schedule.end_date {
        Some(text) => if text.len() == 0 {
            horizon
        } else {
            match parsed_date(text) {
                Some(end) => if horizon.before(end) {
                    end
                } else {
                    horizon
                },
                None => horizon,
            }
        },
        None => horizon,
    }
}

/// The window of dates for which attendance is made when a dog is added or
/// edited: from the earlier of today and the schedule's start to the later
/// of the horizon and the schedule's end. There is none where the horizon
/// lies beyond the calendar.
pub open spec fn window(schedule: DogScheduleView, today: Date) -> Option<(Date, Date)> {
    match plus_days(today, HORIZON_DAYS as nat) {
        Some(horizon) => Some((window_start(schedule, today), window_end(schedule, horizon))),
        None => None,
    }
}

/// The window always holds today and the thirty days after it, whatever the
/// schedule's dates are; it starts no later than a start date that the
/// schedule names and ends no earlier than an end date that it names.
pub proof fn lemma_window_holds_horizon(schedule: DogScheduleView, today: Date)
    requires
        today.wf(),
        window(schedule, today) is Some,
    ensures
        ({
            let dates = window(schedule, today).unwrap();
            let horizon = plus_days(today, HORIZON_DAYS as nat).unwrap();
            &&& !today.before(dates.0)
            &&& today.before(horizon)
            &&& !dates.1.before(horizon)
            &&& (schedule.start_date is Some && schedule.start_date.unwrap().len() > 0
                && parsed_date(schedule.start_date.unwrap()) is Some ==> !parsed_date(
                schedule.start_date.unwrap(),
            ).unwrap().before(dates.0))
            &&& (schedule.end_date is Some && schedule.end_date.unwrap().len() > 0 && parsed_date(
                schedule.end_date.unwrap(),
            ) is Some ==> !dates.1.before(parsed_date(schedule.end_date.unwrap()).unwrap()))
        }),
{
    lemma_plus_days_later(today, HORIZON_DAYS as nat);
}

/// The window of dates for which attendance is made when a dog is added or
/// edited.
pub fn generation_window(schedule: &DogSchedule, today: Date) -> (r: Result<(Date, Date), AppError>)
    requires
        today.wf(),
    ensures
        match window(schedule@, today) {
            Some(dates) => r == Ok::<(Date, Date), AppError>(dates),
            None => r == Err::<(Date, Date), AppError>(AppError::DateOutOfRange),
        },
        r matches Ok(dates) ==> dates.0.wf() && dates.1.wf() && !dates.1.before(dates.0),
{
    let horizon = match add_days(today, HORIZON_DAYS) {
        Some(horizon) => horizon,
        None => {
            return Err(AppError::DateOutOfRange);
        },
    };
    let start = match &schedule.start_date {
        Some(text) => if text.as_str().unicode_len() == 0 {
            today
        } else {
            match parse_date(text.as_str()) {
                Some(start) => today.earlier(start),
                None => today,
            }
        },
        None => today,
    };
    let end = match &schedule.end_date {
        Some(text) => if text.as_str().unicode_len() == 0 {
            horizon
        } else {
            match parse_date(text.as_str()) {
                Some(end) => horizon.later(end),
                None => horizon,
            }
        },
        None => horizon,
    };
    Ok((start, end))
}

/// The position of the first dog with the given id, or the length of the
/// list where there is none.
pub open spec fn dog_position(dogs: Seq<DogView>, id: Seq<char>) -> int
    decreases dogs.len(),
{
    if dogs.len() == 0 {
        0
    } else if dogs[0].id == id {
        0
    } else {
        1 + dog_position(dogs.drop_first(), id)
    }
}

/// The first position up to which no dog has the id, and at which, if it
/// lies in the list, the dog has it.
pub proof fn lemma_dog_position(dogs: Seq<DogView>, id: Seq<char>)
    ensures
        0 <= dog_position(dogs, id) <= dogs.len(),
        dog_position(dogs, id) < dogs.len() ==> dogs[dog_position(dogs, id)].id == id,
        forall|i: int| 0 <= i < dog_position(dogs, id) ==> (#[trigger] dogs[i]).id != id,
    decreases dogs.len(),
{
    if dogs.len() != 0 && dogs[0].id != id {
        let rest = dogs.drop_first();
        lemma_dog_position(rest, id);
        assert forall|i: int| 0 <= i < dog_position(dogs, id) implies (#[trigger] dogs[i]).id
            != id by {
            if i > 0 {
                assert(dogs[i] == rest[i - 1]);
            }
        }
    }
}

/// Finds the first dog with the given id.
pub fn find_dog(dogs: &Vec<Dog>, id: &str) -> (r: usize)
    ensures
        r == dog_position(dog_views(dogs@), id@),
        r <= dogs@.len(),
{
    let ghost views = dog_views(dogs@);
    proof {
        lemma_dog_position(views, id@);
    }
    let mut i: usize = 0;
    while i < dogs.len()
        invariant
            views == dog_views(dogs@),
            i <= dogs@.len(),
            i <= dog_position(views, id@),
            dog_position(views, id@) <= views.len(),
            dog_position(views, id@) < views.len() ==> views[dog_position(views, id@)].id == id@,
        decreases dogs@.len() - i,
    {
        if same_text(dogs[i].id.as_str(), id) {
            proof {
                assert(views[i as int].id == id@);
                lemma_dog_position(views, id@);
            }
            return i;
        }
        assert(views[i as int].id != id@);
        i = i + 1;
    }
    i
}

/// Of the first `n` schedules, those that are not of the given dog, in
/// their order.
pub open spec fn schedules_of_others(
    schedules: Seq<RecurringScheduleView>,
    dog_id: Seq<char>,
    n: nat,
) -> Seq<RecurringScheduleView>
    decreases n,
{
    if n == 0 {
        Seq::empty()
    } else {
        let before = schedules_of_others(schedules, dog_id, (n - 1) as nat);
        if schedules[n - 1].dog_id == dog_id {
            before
        } else {
            before.push(schedules[n - 1])
        }
    }
}

/// The schedules that are not of the given dog, in their order.
pub open spec fn without_dog(schedules: Seq<RecurringScheduleView>, dog_id: Seq<char>) -> Seq<
    RecurringScheduleView,
> {
    schedules_of_others(schedules, dog_id, schedules.len())
}

/// A schedule is among those kept exactly if it is among all and not of the
/// dog.
pub proof fn lemma_without_dog(
    schedules: Seq<RecurringScheduleView>,
    dog_id: Seq<char>,
    n: nat,
    schedule: RecurringScheduleView,
)
    requires
        n <= schedules.len(),
    ensures
        schedules_of_others(schedules, dog_id, n).contains(schedule) <==> schedule.dog_id != dog_id
            && exists|i: int| 0 <= i < n && #[trigger] schedules[i] == schedule,
    decreases n,
{
    if n > 0 {
        let before = schedules_of_others(schedules, dog_id, (n - 1) as nat);
        let kept = schedules_of_others(schedules, dog_id, n);
        lemma_without_dog(schedules, dog_id, (n - 1) as nat, schedule);
        let last = schedules[n - 1];
        if last.dog_id != dog_id {
            assert(kept == before.push(last));
            assert(kept[kept.len() - 1] == last);
            if kept.contains(schedule) {
                let j = choose|j: int| 0 <= j < kept.len() && kept[j] == schedule;
                if j < before.len() {
                    assert(before[j] == schedule);
                    assert(before.contains(schedule));
                }
            }
            if before.contains(schedule) {
                let j = choose|j: int| 0 <= j < before.len() && before[j] == schedule;
                assert(kept[j] == schedule);
            }
        }
    }
}

/// Copies of the schedules that are not of the given dog.
pub fn schedules_without_dog(schedules: &Vec<RecurringSchedule>, dog_id: &str) -> (r: Vec<
    RecurringSchedule,
>)
    ensures
        schedule_views(r@) == without_dog(schedule_views(schedules@), dog_id@),
{
    let ghost views = schedule_views(schedules@);
    let mut kept: Vec<RecurringSchedule> = Vec::new();
    let mut i: usize = 0;
    assert(schedule_views(kept@) =~= schedules_of_others(views, dog_id@, 0));
    while i < schedules.len()
        invariant
            views == schedule_views(schedules@),
            i <= schedules@.len(),
            schedule_views(kept@) == schedules_of_others(views, dog_id@, i as nat),
        decreases schedules@.len() - i,
    {
        let ghost before = schedule_views(kept@);
        assert(views[i as int] == schedules@[i as int]@);
        if !same_text(schedules[i].dog_id.as_str(), dog_id) {
            kept.push(schedules[i].duplicate());
            assert(schedule_views(kept@) =~= before.push(views[i as int]));
        }
        i = i + 1;
    }
    kept
}

/// Copies of all schedules.
pub fn copy_schedules(schedules: &Vec<RecurringSchedule>) -> (r: Vec<RecurringSchedule>)
    ensures
        schedule_views(r@) == schedule_views(schedules@),
{
    let mut all: Vec<RecurringSchedule> = Vec::new();
    let mut i: usize = 0;
    while i < schedules.len()
        invariant
            i <= schedules@.len(),
            all@.len() == i,
            forall|j: int| 0 <= j < i ==> (#[trigger] all@[j])@ == schedules@[j]@,
        decreases schedules@.len() - i,
    {
        all.push(schedules[i].duplicate());
        i = i + 1;
    }
    assert(schedule_views(all@) =~= schedule_views(schedules@));
    all
}

/// Whether a dog's schedule asks for attendance: it is active and names a
/// weekday for some service.
pub open spec fn has_schedule(schedule: DogScheduleView) -> bool {
    schedule.active && (schedule.daycare_days.len() > 0 || schedule.training_days.len() > 0
        || schedule.boarding_days.len() > 0)
}

/// What adding a dog makes of a document. The dog joins the dogs. Where its
/// schedule asks for attendance, the schedules derived from it join the
/// schedules and all schedules are merged into the ledger for the dog's
/// window; a failure there leaves the document as it was.
pub open spec fn dog_added(
    doc: AppDataView,
    dog: DogView,
    today: Date,
    daycare: StampView,
    training: StampView,
    boarding: StampView,
) -> Result<AppDataView, AppError> {
    let joined = AppDataView { dogs: doc.dogs.push(dog), ..doc };
    if !has_schedule(dog.schedule) {
        Ok(joined)
    } else {
        match window(dog.schedule, today) {
            None => Err(AppError::DateOutOfRange),
            Some(dates) => materialized(
                AppDataView {
                    recurring_schedules: doc.recurring_schedules + derived_schedules(
                        dog,
                        date_text(today),
                        daycare,
                        training,
                        boarding,
                    ),
                    ..joined
                },
                dates.0,
                dates.1,
            ),
        }
    }
}

/// Adds a dog to the document, with the given day as today and the given
/// stamps for the schedules derived from it.
pub fn insert_dog(
    data: &mut AppData,
    dog: Dog,
    today: Date,
    daycare: Stamp,
    training: Stamp,
    boarding: Stamp,
) -> (r: Result<(), AppError>)
    requires
        today.wf(),
    ensures
        match dog_added(old(data)@, dog@, today, daycare@, training@, boarding@) {
            Ok(doc) => r is Ok && final(data)@ == doc,
            Err(problem) => r == Err::<(), AppError>(problem) && final(data)@ == old(data)@,
        },
{
    let asks = dog.schedule.active && (dog.schedule.daycare_days.len() > 0
        || dog.schedule.training_days.len() > 0 || dog.schedule.boarding_days.len() > 0);
    let ghost view = dog@;
    if !asks {
        data.dogs.push(dog);
        assert(dog_views(data.dogs@) =~= dog_views(old(data).dogs@).push(view));
        return Ok(());
    }
    let dates = match generation_window(&dog.schedule, today) {
        Ok(dates) => dates,
        Err(problem) => {
            return Err(problem);
        },
    };
    let text = format_date(today);
    let mut all = copy_schedules(&data.recurring_schedules);
    push_derived(&mut all, &dog, text.as_str(), daycare, training, boarding);
    match check_schedules(&all, dates.1) {
        Ok(_) => {},
        Err(problem) => {
            return Err(problem);
        },
    }
    data.recurring_schedules = all;
    data.dogs.push(dog);
    assert(dog_views(data.dogs@) =~= dog_views(old(data).dogs@).push(view));
    materialize_range(data, dates.0, dates.1)
}

/// The schedule that was entered for a dog, if one was.
pub open spec fn schedule_opt(schedule: Option<DogSchedule>) -> Option<DogScheduleView> {
    match schedule {
        Some(s) => Some(s@),
        None => None,
    }
}

/// The schedule of a dog for which `schedule` was entered: that schedule,
/// or the schedule of a dog that is enrolled in nothing.
pub open spec fn entered_schedule(schedule: Option<DogScheduleView>) -> DogScheduleView {
    match schedule {
        Some(s) => s,
        None => default_dog_schedule(),
    }
}

/// The dog that is made from what was entered of it, with the identifier
/// and the time of `stamp`. The dog has signed no consent yet, and an empty
/// household is no household.
pub open spec fn entered_dog(
    name: Seq<char>,
    owner: Seq<char>,
    phone: Seq<char>,
    email: Seq<char>,
    breed: Seq<char>,
    date_of_birth: Option<Seq<char>>,
    vaccine_date: Option<Seq<char>>,
    schedule: Option<DogScheduleView>,
    household_id: Seq<char>,
    stamp: StampView,
) -> DogView {
    DogView {
        id: stamp.id,
        name,
        owner,
        phone,
        email,
        breed,
        date_of_birth,
        vaccine_date,
        consent_last_signed: None,
        created_at: stamp.created_at,
        schedule: entered_schedule(schedule),
        household_id: if household_id.len() == 0 {
            None
        } else {
            Some(household_id)
        },
    }
}

/// Makes a dog from what was entered of it. The dog has signed no consent
/// yet; an empty household is no household; a dog for which no schedule was
/// entered gets the schedule of a dog that is enrolled in nothing.
pub fn new_dog(
    name: String,
    owner: String,
    phone: String,
    email: String,
    breed: String,
    date_of_birth: Option<String>,
    vaccine_date: Option<String>,
    schedule: Option<DogSchedule>,
    household_id: String,
    stamp: Stamp,
) -> (r: Dog)
    ensures
        r@ == entered_dog(
            name@,
            owner@,
            phone@,
            email@,
            breed@,
            text_opt(date_of_birth),
            text_opt(vaccine_date),
            schedule_opt(schedule),
            household_id@,
            stamp@,
        ),
{
    let household = if household_id.as_str().unicode_len() == 0 {
        None
    } else {
        Some(household_id)
    };
    let schedule = match schedule {
        Some(s) => s,
        None => DogSchedule::default(),
    };
    Dog {
        id: stamp.id,
        name,
        owner,
        phone,
        email,
        breed,
        date_of_birth,
        vaccine_date,
        consent_last_signed: None,
        created_at: stamp.created_at,
        schedule,
        household_id: household,
    }
}

/// Adds a dog to the document, with a fresh identifier, and makes its
/// attendance for its window around today. The dog is the one that was
/// entered. Whatever the identifiers, the time and the day are, the outcome
/// is that of adding this dog on that day; a dog whose schedule asks for no
/// attendance is always added.
pub fn add_dog(
    data: &mut AppData,
    name: String,
    owner: String,
    phone: String,
    email: String,
    breed: String,
    date_of_birth: Option<String>,
    vaccine_date: Option<String>,
    schedule: Option<DogSchedule>,
    household_id: String,
) -> (r: Result<Dog, AppError>)
    ensures
        exists|stamp: StampView, day: Date, daycare: StampView, training: StampView, boarding: StampView|
            day.wf() && match #[trigger] dog_added(
                old(data)@,
                entered_dog(
                    name@,
                    owner@,
                    phone@,
                    email@,
                    breed@,
                    text_opt(date_of_birth),
                    text_opt(vaccine_date),
                    schedule_opt(schedule),
                    household_id@,
                    stamp,
                ),
                day,
                daycare,
                training,
                boarding,
            ) {
                Ok(doc) => r matches Ok(added) && added@ == entered_dog(
                    name@,
                    owner@,
                    phone@,
                    email@,
                    breed@,
                    text_opt(date_of_birth),
                    text_opt(vaccine_date),
                    schedule_opt(schedule),
                    household_id@,
                    stamp,
                ) && final(data)@ == doc,
                Err(problem) => r matches Err(e) && e == problem && final(data)@ == old(data)@,
            },
        !has_schedule(entered_schedule(schedule_opt(schedule))) ==> r is Ok,
{
    let day = today();
    let stamp = Stamp::fresh();
    let ghost marks = stamp@;
    let dog = new_dog(
        name,
        owner,
        phone,
        email,
        breed,
        date_of_birth,
        vaccine_date,
        schedule,
        household_id,
        stamp,
    );
    let copy = dog.duplicate();
    let daycare = Stamp::fresh();
    let training = Stamp::fresh();
    let boarding = Stamp::fresh();
    let ghost stamps = (daycare@, training@, boarding@);
    let ghost view = dog@;
    let outcome = insert_dog(data, dog, day, daycare, training, boarding);
    let r = match outcome {
        Ok(_) => Ok(copy),
        Err(problem) => Err(problem),
    };
    assert(match dog_added(old(data)@, view, day, stamps.0, stamps.1, stamps.2) {
        Ok(doc) => r matches Ok(added) && added@ == view && data@ == doc,
        Err(problem) => r matches Err(e) && e == problem && data@ == old(data)@,
    });
    r
}

/// What editing a dog makes of a document, or the failure where no dog has
/// the id of `dog`. The dog takes the place of the one with its id. The
/// schedules of the dog are replaced by those derived from its new schedule.
/// Its attendance from today on is cleared, and nothing of an earlier day.
/// Then all schedules are merged into the ledger for the dog's window, which
/// reaches back before today where the new schedule starts earlier: there a
/// past day can gain an entry, and loses none. Any failure leaves the
/// document as it was.
pub open spec fn dog_updated(
    doc: AppDataView,
    dog: DogView,
    today: Date,
    daycare: StampView,
    training: StampView,
    boarding: StampView,
) -> Result<AppDataView, AppError> {
    let at = dog_position(doc.dogs, dog.id);
    if at >= doc.dogs.len() {
        Err(AppError::DogNotFound)
    } else {
        match window(dog.schedule, today) {
            None => Err(AppError::DateOutOfRange),
            Some(dates) => materialized(
                AppDataView {
                    dogs: doc.dogs.update(at, dog),
                    daily_data: cleared_from(doc.daily_data, dog.id, today),
                    recurring_schedules: without_dog(doc.recurring_schedules, dog.id)
                        + derived_schedules(dog, date_text(today), daycare, training, boarding),
                    settings: doc.settings,
                },
                dates.0,
                dates.1,
            ),
        }
    }
}

/// Replaces the dog that has the id of `dog`, with the given day as today
/// and the given stamps for the schedules derived from it. From today to
/// the end of the dog's window the dog then has an entry for a service on
/// exactly the dates on which one of its new schedules for the service is
/// due: what was entered for it on other dates from today on is gone.
pub fn replace_dog(
    data: &mut AppData,
    dog: Dog,
    today: Date,
    daycare: Stamp,
    training: Stamp,
    boarding: Stamp,
) -> (r: Result<(), AppError>)
    requires
        today.wf(),
    ensures
        match dog_updated(old(data)@, dog@, today, daycare@, training@, boarding@) {
            Ok(doc) => r is Ok && final(data)@ == doc,
            Err(problem) => r == Err::<(), AppError>(problem) && final(data)@ == old(data)@,
        },
        r is Ok ==> entries_as_due(
            final(data)@,
            dog@.id,
            today,
            window(dog@.schedule, today).unwrap().1,
        ),
{
    let at = find_dog(&data.dogs, dog.id.as_str());
    if at >= data.dogs.len() {
        return Err(AppError::DogNotFound);
    }
    let dates = match generation_window(&dog.schedule, today) {
        Ok(dates) => dates,
        Err(problem) => {
            return Err(problem);
        },
    };
    let text = format_date(today);
    let mut schedules = schedules_without_dog(&data.recurring_schedules, dog.id.as_str());
    push_derived(&mut schedules, &dog, text.as_str(), daycare, training, boarding);
    match check_schedules(&schedules, dates.1) {
        Ok(_) => {},
        Err(problem) => {
            return Err(problem);
        },
    }
    let ghost view = dog@;
    let ghost stamps = (daycare@, training@, boarding@);
    data.recurring_schedules = schedules;
    clear_attendance_from(data, &dog.id, today);
    data.dogs.set(at, dog);
    assert(dog_views(data.dogs@) =~= dog_views(old(data).dogs@).update(at as int, view));
    let r = materialize_range(data, dates.0, dates.1);
    proof {
        if r is Ok {
            lemma_window_holds_horizon(view.schedule, today);
            lemma_span_is_interval(today, dates.0, dates.1);
            lemma_edit_only_due(old(data)@, view, today, stamps.0, stamps.1, stamps.2);
        }
    }
    r
}

/// Replaces the dog that has the id of `dog` and makes its attendance anew
/// from today on. Whatever the identifiers, the time and the day are, the
/// outcome is that of editing the dog on that day, and from that day to the
/// end of the dog's window the dog has an entry for a service on exactly
/// the dates on which one of its new schedules for the service is due.
pub fn update_dog(data: &mut AppData, dog: Dog) -> (r: Result<(), AppError>)
    ensures
        exists|day: Date, daycare: StampView, training: StampView, boarding: StampView|
            day.wf() && match #[trigger] dog_updated(
                old(data)@,
                dog@,
                day,
                daycare,
                training,
                boarding,
            ) {
                Ok(doc) => r is Ok && final(data)@ == doc && entries_as_due(
                    doc,
                    dog@.id,
                    day,
                    window(dog@.schedule, day).unwrap().1,
                ),
                Err(problem) => r == Err::<(), AppError>(problem) && final(data)@ == old(data)@,
            },
{
    let day = today();
    let daycare = Stamp::fresh();
    let training = Stamp::fresh();
    let boarding = Stamp::fresh();
    let ghost stamps = (daycare@, training@, boarding@);
    let ghost view = dog@;
    let r = replace_dog(data, dog, day, daycare, training, boarding);
    assert(match dog_updated(old(data)@, view, day, stamps.0, stamps.1, stamps.2) {
        Ok(doc) => r is Ok && data@ == doc && entries_as_due(
            doc,
            view.id,
            day,
            window(view.schedule, day).unwrap().1,
        ),
        Err(problem) => r == Err::<(), AppError>(problem) && data@ == old(data)@,
    });
    r
}

/// What removing a dog makes of a document, or the failure where no dog has
/// the id: the dog and its schedules leave; the ledger stays as it is.
pub open spec fn dog_deleted(doc: AppDataView, dog_id: Seq<char>) -> Result<AppDataView, AppError> {
    let at = dog_position(doc.dogs, dog_id);
    if at >= doc.dogs.len() {
        Err(AppError::DogNotFound)
    } else {
        Ok(
            AppDataView {
                dogs: doc.dogs.remove(at),
                recurring_schedules: without_dog(doc.recurring_schedules, dog_id),
                ..doc
            },
        )
    }
}

/// Removes the dog with the given id, and its schedules.
pub fn delete_dog(data: &mut AppData, dog_id: &str) -> (r: Result<(), AppError>)
    ensures
        match dog_deleted(old(data)@, dog_id@) {
            Ok(doc) => r is Ok && final(data)@ == doc,
            Err(problem) => r == Err::<(), AppError>(problem) && final(data)@ == old(data)@,
        },
{
    let at = find_dog(&data.dogs, dog_id);
    if at >= data.dogs.len() {
        return Err(AppError::DogNotFound);
    }
    let schedules = schedules_without_dog(&data.recurring_schedules, dog_id);
    data.dogs.remove(at);
    assert(dog_views(data.dogs@) =~= dog_views(old(data).dogs@).remove(at as int));
    data.recurring_schedules = schedules;
    Ok(())
}

/// The dogs of the document.
pub fn get_all_dogs(data: &AppData) -> (r: &Vec<Dog>)
    ensures
        dog_views(r@) == data@.dogs,
{
    &data.dogs
}

} // verus!
