//! Recurring schedules: those derived from a dog's weekly schedule, and the
//! list of schedules of the document.

use crate::date::{date_text, format_date, today, Date};
use crate::error::AppError;
use crate::ids::{Stamp, StampView};
use crate::model::{
    copy_days, copy_text, schedule_views, AppData, AppDataView, Dog, DogScheduleView, DogView,
    RecurrencePattern, RecurrencePatternView, RecurringSchedule, RecurringScheduleView,
    ServiceType,
};
use crate::strmap::same_text;
use vstd::prelude::*;

verus! {

/// The weekdays that a dog's schedule names for a service.
pub open spec fn days_for(schedule: DogScheduleView, service: ServiceType) -> Seq<u32> {
    match service {
        ServiceType::Daycare => schedule.daycare_days,
        ServiceType::Training => schedule.training_days,
        ServiceType::Boarding => schedule.boarding_days,
    }
}

/// The drop-off time that a dog's schedule names for a service; boarding has
/// none.
pub open spec fn drop_off_for(schedule: DogScheduleView, service: ServiceType) -> Option<
    Seq<char>,
> {
    match service {
        ServiceType::Daycare => schedule.daycare_drop_off,
        ServiceType::Training => schedule.training_drop_off,
        ServiceType::Boarding => None,
    }
}

/// The pick-up time that a dog's schedule names for a service; boarding has
/// none.
pub open spec fn pick_up_for(schedule: DogScheduleView, service: ServiceType) -> Option<
    Seq<char>,
> {
    match service {
        ServiceType::Daycare => schedule.daycare_pick_up,
        ServiceType::Training => schedule.training_pick_up,
        ServiceType::Boarding => None,
    }
}

/// The start date of the schedules derived from a dog's schedule: the one it
/// names, or `today` where it names none or an empty one.
pub open spec fn anchor_text(schedule: DogScheduleView, today: Seq<char>) -> Seq<char> {
    match schedule.start_date {
        Some(start) => if start.len() > 0 {
            start
        } else {
            today
        },
        None => today,
    }
}

/// The schedule derived from a dog's schedule for one service.
pub open spec fn derived_for(
    dog: DogView,
    service: ServiceType,
    today: Seq<char>,
    stamp: StampView,
) -> RecurringScheduleView {
    RecurringScheduleView {
        id: stamp.id,
        dog_id: dog.id,
        service_type: service,
        pattern: RecurrencePatternView::Custom(days_for(dog.schedule, service)),
        start_date: anchor_text(dog.schedule, today),
        end_date: dog.schedule.end_date,
        drop_off_time: drop_off_for(dog.schedule, service),
        pick_up_time: pick_up_for(dog.schedule, service),
        active: true,
        created_at: stamp.created_at,
    }
}

/// The schedule derived for one service as a list: empty where the dog's
/// schedule names no weekday for the service.
pub open spec fn derived_part(
    dog: DogView,
    service: ServiceType,
    today: Seq<char>,
    stamp: StampView,
) -> Seq<RecurringScheduleView> {
    if days_for(dog.schedule, service).len() > 0 {
        seq![derived_for(dog, service, today, stamp)]
    } else {
        Seq::empty()
    }
}

/// The schedules derived from a dog: none where its schedule is inactive,
/// else one for each of daycare, training and boarding for which it names a
/// weekday, in that order.
pub open spec fn derived_schedules(
    dog: DogView,
    today: Seq<char>,
    daycare: StampView,
    training: StampView,
    boarding: StampView,
) -> Seq<RecurringScheduleView> {
    if !dog.schedule.active {
        Seq::empty()
    } else {
        derived_part(dog, ServiceType::Daycare, today, daycare) + derived_part(
            dog,
            ServiceType::Training,
            today,
            training,
        ) + derived_part(dog, ServiceType::Boarding, today, boarding)
    }
}

/// The schedule derived from a dog for one service, if its schedule names a
/// weekday for it.
pub fn derive_schedule(dog: &Dog, service: ServiceType, today: &str, stamp: Stamp) -> (r: Option<
    RecurringSchedule,
>)
    ensures
        match r {
            Some(schedule) => derived_part(dog@, service, today@, stamp@) == seq![schedule@],
            None => derived_part(dog@, service, today@, stamp@) == Seq::<
                RecurringScheduleView,
            >::empty(),
        },
{
    let days = match service {
        ServiceType::Daycare => &dog.schedule.daycare_days,
        ServiceType::Training => &dog.schedule.training_days,
        ServiceType::Boarding => &dog.schedule.boarding_days,
    };
    if days.len() == 0 {
        return None;
    }
    let start_date = match &dog.schedule.start_date {
        Some(start) => if start.as_str().unicode_len() > 0 {
            start.clone()
        } else {
            today.to_owned()
        },
        None => today.to_owned(),
    };
    let drop_off_time = match service {
        ServiceType::Daycare => copy_text(&dog.schedule.daycare_drop_off),
        ServiceType::Training => copy_text(&dog.schedule.training_drop_off),
        ServiceType::Boarding => None,
    };
    let pick_up_time = match service {
        ServiceType::Daycare => copy_text(&dog.schedule.daycare_pick_up),
        ServiceType::Training => copy_text(&dog.schedule.training_pick_up),
        ServiceType::Boarding => None,
    };
    Some(
        RecurringSchedule {
            id: stamp.id,
            dog_id: dog.id.clone(),
            service_type: service,
            pattern: RecurrencePattern::Custom(copy_days(days)),
            start_date,
            end_date: copy_text(&dog.schedule.end_date),
            drop_off_time,
            pick_up_time,
            active: true,
            created_at: stamp.created_at,
        },
    )
}

/// Adds the schedules derived from a dog to a list of schedules.
pub fn push_derived(
    schedules: &mut Vec<RecurringSchedule>,
    dog: &Dog,
    today: &str,
    daycare: Stamp,
    training: Stamp,
    boarding: Stamp,
)
    ensures
        schedule_views(final(schedules)@) == schedule_views(old(schedules)@) + derived_schedules(
            dog@,
            today@,
            daycare@,
            training@,
            boarding@,
        ),
{
    let ghost before = schedule_views(schedules@);
    if !dog.schedule.active {
        assert(before + Seq::<RecurringScheduleView>::empty() =~= before);
        return ;
    }
    let ghost first = derived_part(dog@, ServiceType::Daycare, today@, daycare@);
    let ghost second = derived_part(dog@, ServiceType::Training, today@, training@);
    let ghost third = derived_part(dog@, ServiceType::Boarding, today@, boarding@);
    match derive_schedule(dog, ServiceType::Daycare, today, daycare) {
        Some(schedule) => {
            schedules.push(schedule);
        },
        None => {},
    }
    assert(schedule_views(schedules@) =~= before + first);
    match derive_schedule(dog, ServiceType::Training, today, training) {
        Some(schedule) => {
            schedules.push(schedule);
        },
        None => {},
    }
    assert(schedule_views(schedules@) =~= before + first + second);
    match derive_schedule(dog, ServiceType::Boarding, today, boarding) {
        Some(schedule) => {
            schedules.push(schedule);
        },
        None => {},
    }
    assert(schedule_views(schedules@) =~= before + first + second + third);
    assert(before + first + second + third =~= before + (first + second + third));
}

/// A document with the schedules derived from a dog added to its schedules.
pub open spec fn with_derived(
    doc: AppDataView,
    dog: DogView,
    today: Seq<char>,
    daycare: StampView,
    training: StampView,
    boarding: StampView,
) -> AppDataView {
    AppDataView {
        recurring_schedules: doc.recurring_schedules + derived_schedules(
            dog,
            today,
            daycare,
            training,
            boarding,
        ),
        ..doc
    }
}

/// Adds to the document the schedules derived from a dog, with fresh
/// identifiers, the current time, and today as the start date where the dog
/// names none. Whatever the identifiers, the time and the day are, the
/// document is the old one with the derived schedules added.
pub fn generate_schedules_for_dog(data: &mut AppData, dog: &Dog) -> (r: Result<(), AppError>)
    ensures
        r is Ok,
        exists|day: Date, daycare: StampView, training: StampView, boarding: StampView|
            day.wf() && final(data)@ == #[trigger] with_derived(
                old(data)@,
                dog@,
                date_text(day),
                daycare,
                training,
                boarding,
            ),
{
    let day = today();
    let text = format_date(day);
    let daycare = Stamp::fresh();
    let training = Stamp::fresh();
    let boarding = Stamp::fresh();
    let ghost stamps = (daycare@, training@, boarding@);
    push_derived(&mut data.recurring_schedules, dog, text.as_str(), daycare, training, boarding);
    assert(data@ == with_derived(old(data)@, dog@, date_text(day), stamps.0, stamps.1, stamps.2));
    Ok(())
}

/// The position of the first schedule with the given id, or the length of
/// the list where there is none.
pub open spec fn schedule_position(schedules: Seq<RecurringScheduleView>, id: Seq<char>) -> int
    decreases schedules.len(),
{
    if schedules.len() == 0 {
        0
    } else if schedules[0].id == id {
        0
    } else {
        1 + schedule_position(schedules.drop_first(), id)
    }
}

/// The first position up to which no schedule has the id, and at which, if
/// it lies in the list, the schedule has it.
pub proof fn lemma_schedule_position(schedules: Seq<RecurringScheduleView>, id: Seq<char>)
    ensures
        0 <= schedule_position(schedules, id) <= schedules.len(),
        schedule_position(schedules, id) < schedules.len() ==> schedules[schedule_position(
            schedules,
            id,
        )].id == id,
        forall|i: int|
            0 <= i < schedule_position(schedules, id) ==> (#[trigger] schedules[i]).id != id,
    decreases schedules.len(),
{
    if schedules.len() != 0 && schedules[0].id != id {
        let rest = schedules.drop_first();
        lemma_schedule_position(rest, id);
        assert forall|i: int| 0 <= i < schedule_position(schedules, id) implies (
        #[trigger] schedules[i]).id != id by {
            if i > 0 {
                assert(schedules[i] == rest[i - 1]);
            }
        }
    }
}

/// Finds the first schedule with the given id.
pub fn find_schedule(schedules: &Vec<RecurringSchedule>, id: &str) -> (r: usize)
    ensures
        r == schedule_position(schedule_views(schedules@), id@),
        r <= schedules@.len(),
{
    let ghost views = schedule_views(schedules@);
    proof {
        lemma_schedule_position(views, id@);
    }
    let mut i: usize = 0;
    while i < schedules.len()
        invariant
            views == schedule_views(schedules@),
            i <= schedules@.len(),
            i <= schedule_position(views, id@),
            schedule_position(views, id@) <= views.len(),
            schedule_position(views, id@) < views.len() ==> views[schedule_position(
                views,
                id@,
            )].id == id@,
        decreases schedules@.len() - i,
    {
        if same_text(schedules[i].id.as_str(), id) {
            proof {
                assert(views[i as int].id == id@);
                lemma_schedule_position(views, id@);
            }
            return i;
        }
        assert(views[i as int].id != id@);
        i = i + 1;
    }
    i
}

/// The document after a schedule was added by hand.
pub open spec fn with_schedule(doc: AppDataView, schedule: RecurringScheduleView) -> AppDataView {
    AppDataView { recurring_schedules: doc.recurring_schedules.push(schedule), ..doc }
}

/// The schedule that is added by hand: active, with the given stamp.
pub open spec fn manual_schedule(
    dog_id: Seq<char>,
    service_type: ServiceType,
    pattern: RecurrencePatternView,
    start_date: Seq<char>,
    end_date: Option<Seq<char>>,
    drop_off_time: Option<Seq<char>>,
    pick_up_time: Option<Seq<char>>,
    stamp: StampView,
) -> RecurringScheduleView {
    RecurringScheduleView {
        id: stamp.id,
        dog_id,
        service_type,
        pattern,
        start_date,
        end_date,
        drop_off_time,
        pick_up_time,
        active: true,
        created_at: stamp.created_at,
    }
}

/// Adds a schedule with the given stamp to the document and hands back a
/// copy of it.
pub fn add_stamped_schedule(
    data: &mut AppData,
    dog_id: String,
    service_type: ServiceType,
    pattern: RecurrencePattern,
    start_date: String,
    end_date: Option<String>,
    drop_off_time: Option<String>,
    pick_up_time: Option<String>,
    stamp: Stamp,
) -> (r: RecurringSchedule)
    ensures
        r@ == manual_schedule(
            dog_id@,
            service_type,
            pattern@,
            start_date@,
            crate::model::text_opt(end_date),
            crate::model::text_opt(drop_off_time),
            crate::model::text_opt(pick_up_time),
            stamp@,
        ),
        final(data)@ == with_schedule(old(data)@, r@),
{
    let schedule = RecurringSchedule {
        id: stamp.id,
        dog_id,
        service_type,
        pattern,
        start_date,
        end_date,
        drop_off_time,
        pick_up_time,
        active: true,
        created_at: stamp.created_at,
    };
    let copy = schedule.duplicate();
    data.recurring_schedules.push(schedule);
    assert(schedule_views(data.recurring_schedules@) =~= schedule_views(
        old(data).recurring_schedules@,
    ).push(copy@));
    copy
}

/// Adds a schedule to the document, with a fresh identifier and the current
/// time, and hands back a copy of it.
pub fn add_recurring_schedule(
    data: &mut AppData,
    dog_id: String,
    service_type: ServiceType,
    pattern: RecurrencePattern,
    start_date: String,
    end_date: Option<String>,
    drop_off_time: Option<String>,
    pick_up_time: Option<String>,
) -> (r: RecurringSchedule)
    ensures
        exists|stamp: StampView|
            r@ == #[trigger] manual_schedule(
                dog_id@,
                service_type,
                pattern@,
                start_date@,
                crate::model::text_opt(end_date),
                crate::model::text_opt(drop_off_time),
                crate::model::text_opt(pick_up_time),
                stamp,
            ),
        final(data)@ == with_schedule(old(data)@, r@),
{
    let stamp = Stamp::fresh();
    add_stamped_schedule(
        data,
        dog_id,
        service_type,
        pattern,
        start_date,
        end_date,
        drop_off_time,
        pick_up_time,
        stamp,
    )
}

/// The document after the first schedule with the id of `schedule` was
/// replaced by it, or the failure where no schedule has that id.
pub open spec fn schedule_replaced(doc: AppDataView, schedule: RecurringScheduleView) -> Result<
    AppDataView,
    AppError,
> {
    let at = schedule_position(doc.recurring_schedules, schedule.id);
    if at < doc.recurring_schedules.len() {
        Ok(AppDataView { recurring_schedules: doc.recurring_schedules.update(at, schedule), ..doc })
    } else {
        Err(AppError::ScheduleNotFound)
    }
}

/// Replaces the schedule that has the id of `schedule` by `schedule`.
pub fn update_recurring_schedule(data: &mut AppData, schedule: RecurringSchedule) -> (r: Result<
    (),
    AppError,
>)
    ensures
        match schedule_replaced(old(data)@, schedule@) {
            Ok(doc) => r is Ok && final(data)@ == doc,
            Err(problem) => r == Err::<(), AppError>(problem) && final(data)@ == old(data)@,
        },
{
    let at = find_schedule(&data.recurring_schedules, schedule.id.as_str());
    if at >= data.recurring_schedules.len() {
        return Err(AppError::ScheduleNotFound);
    }
    let ghost view = schedule@;
    data.recurring_schedules.set(at, schedule);
    assert(schedule_views(data.recurring_schedules@) =~= schedule_views(
        old(data).recurring_schedules@,
    ).update(at as int, view));
    Ok(())
}

/// The document after the first schedule with the given id was removed, or
/// the failure where no schedule has that id.
pub open spec fn schedule_removed(doc: AppDataView, id: Seq<char>) -> Result<
    AppDataView,
    AppError,
> {
    let at = schedule_position(doc.recurring_schedules, id);
    if at < doc.recurring_schedules.len() {
        Ok(AppDataView { recurring_schedules: doc.recurring_schedules.remove(at), ..doc })
    } else {
        Err(AppError::ScheduleNotFound)
    }
}

/// Removes the schedule with the given id.
pub fn delete_recurring_schedule(data: &mut AppData, schedule_id: &str) -> (r: Result<
    (),
    AppError,
>)
    ensures
        match schedule_removed(old(data)@, schedule_id@) {
            Ok(doc) => r is Ok && final(data)@ == doc,
            Err(problem) => r == Err::<(), AppError>(problem) && final(data)@ == old(data)@,
        },
{
    let at = find_schedule(&data.recurring_schedules, schedule_id);
    if at >= data.recurring_schedules.len() {
        return Err(AppError::ScheduleNotFound);
    }
    data.recurring_schedules.remove(at);
    assert(schedule_views(data.recurring_schedules@) =~= schedule_views(
        old(data).recurring_schedules@,
    ).remove(at as int));
    Ok(())
}

/// The schedules of the document.
pub fn get_recurring_schedules(data: &AppData) -> (r: &Vec<RecurringSchedule>)
    ensures
        schedule_views(r@) == data@.recurring_schedules,
{
    &data.recurring_schedules
}

} // verus!
