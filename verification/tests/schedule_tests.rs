use doggy_daycare::date::Date;
use doggy_daycare::error::AppError;
use doggy_daycare::ids::{generate_id, Stamp};
use doggy_daycare::model::{
    AppData, Dog, DogSchedule, RecurrencePattern, RecurringSchedule, ServiceType, Timestamp,
};
use doggy_daycare::schedule::{
    add_recurring_schedule, add_stamped_schedule, delete_recurring_schedule, derive_schedule,
    find_schedule, generate_schedules_for_dog, get_recurring_schedules, push_derived,
    update_recurring_schedule,
};

fn stamp(id: &str) -> Stamp {
    Stamp { id: id.to_string(), created_at: Timestamp { seconds: 1700000000, nanos: 5 } }
}

fn dog(schedule: DogSchedule) -> Dog {
    Dog {
        id: "dog-1".to_string(),
        name: "Rex".to_string(),
        owner: "Ann".to_string(),
        phone: "1".to_string(),
        email: "a@b.c".to_string(),
        breed: "Mix".to_string(),
        date_of_birth: None,
        vaccine_date: None,
        consent_last_signed: None,
        created_at: Timestamp { seconds: 0, nanos: 0 },
        schedule,
        household_id: None,
    }
}

fn full_schedule() -> DogSchedule {
    DogSchedule {
        daycare_days: vec![1, 3],
        training_days: vec![2],
        boarding_days: vec![5, 6],
        daycare_drop_off: Some("08:00".to_string()),
        daycare_pick_up: Some("17:00".to_string()),
        training_drop_off: Some("10:00".to_string()),
        training_pick_up: None,
        start_date: Some("2024-02-01".to_string()),
        end_date: Some("2024-06-30".to_string()),
        active: true,
    }
}

fn derive_all(dog: &Dog, today: &str) -> Vec<RecurringSchedule> {
    let mut schedules = Vec::new();
    push_derived(&mut schedules, dog, today, stamp("s1"), stamp("s2"), stamp("s3"));
    schedules
}

#[test]
fn one_schedule_is_derived_for_each_service_with_weekdays() {
    let schedules = derive_all(&dog(full_schedule()), "2024-01-15");
    assert_eq!(schedules.len(), 3);
    let daycare = &schedules[0];
    assert_eq!(daycare.id, "s1");
    assert_eq!(daycare.dog_id, "dog-1");
    assert_eq!(daycare.service_type, ServiceType::Daycare);
    assert!(matches!(&daycare.pattern, RecurrencePattern::Custom(days) if days == &vec![1, 3]));
    assert_eq!(daycare.start_date, "2024-02-01");
    assert_eq!(daycare.end_date.as_deref(), Some("2024-06-30"));
    assert_eq!(daycare.drop_off_time.as_deref(), Some("08:00"));
    assert_eq!(daycare.pick_up_time.as_deref(), Some("17:00"));
    assert!(daycare.active);
    assert_eq!(daycare.created_at, Timestamp { seconds: 1700000000, nanos: 5 });
    let training = &schedules[1];
    assert_eq!(training.id, "s2");
    assert_eq!(training.service_type, ServiceType::Training);
    assert!(matches!(&training.pattern, RecurrencePattern::Custom(days) if days == &vec![2]));
    assert_eq!(training.drop_off_time.as_deref(), Some("10:00"));
    assert!(training.pick_up_time.is_none());
    let boarding = &schedules[2];
    assert_eq!(boarding.id, "s3");
    assert_eq!(boarding.service_type, ServiceType::Boarding);
    assert!(matches!(&boarding.pattern, RecurrencePattern::Custom(days) if days == &vec![5, 6]));
    // Boarding never carries times.
    assert!(boarding.drop_off_time.is_none());
    assert!(boarding.pick_up_time.is_none());
}

#[test]
fn an_inactive_schedule_derives_nothing() {
    let mut schedule = full_schedule();
    schedule.active = false;
    assert_eq!(derive_all(&dog(schedule), "2024-01-15").len(), 0);
}

#[test]
fn services_without_weekdays_derive_nothing() {
    let mut schedule = full_schedule();
    schedule.daycare_days = vec![];
    schedule.boarding_days = vec![];
    let schedules = derive_all(&dog(schedule), "2024-01-15");
    assert_eq!(schedules.len(), 1);
    assert_eq!(schedules[0].service_type, ServiceType::Training);
    assert_eq!(schedules[0].id, "s2");
    assert_eq!(derive_all(&dog(DogSchedule::default()), "2024-01-15").len(), 0);
}

#[test]
fn a_missing_or_blank_start_date_becomes_today() {
    let mut schedule = full_schedule();
    schedule.start_date = None;
    assert_eq!(derive_all(&dog(schedule), "2024-01-15")[0].start_date, "2024-01-15");
    let mut schedule = full_schedule();
    schedule.start_date = Some(String::new());
    assert_eq!(derive_all(&dog(schedule), "2024-01-15")[1].start_date, "2024-01-15");
}

#[test]
fn derive_schedule_for_one_service() {
    let d = dog(full_schedule());
    let made = derive_schedule(&d, ServiceType::Training, "2024-01-15", stamp("x")).unwrap();
    assert_eq!(made.id, "x");
    assert_eq!(made.service_type, ServiceType::Training);
    let mut none = full_schedule();
    none.training_days = vec![];
    assert!(derive_schedule(&dog(none), ServiceType::Training, "2024-01-15", stamp("x")).is_none());
}

#[test]
fn generated_schedules_get_fresh_ids_and_todays_date() {
    let mut data = AppData::default();
    let mut schedule = full_schedule();
    schedule.start_date = None;
    assert_eq!(generate_schedules_for_dog(&mut data, &dog(schedule)), Ok(()));
    assert_eq!(data.recurring_schedules.len(), 3);
    let ids: Vec<&String> = data.recurring_schedules.iter().map(|s| &s.id).collect();
    assert_eq!(ids[0].len(), 36);
    assert_ne!(ids[0], ids[1]);
    assert_ne!(ids[1], ids[2]);
    let start = &data.recurring_schedules[0].start_date;
    assert_eq!(start.len(), 10);
    let year: i32 = start[0..4].parse().unwrap();
    let month: u32 = start[5..7].parse().unwrap();
    let day: u32 = start[8..10].parse().unwrap();
    assert!(year >= 2024);
    assert!(Date::from_ymd(year, month, day).is_some());
    assert!(data.recurring_schedules[0].created_at.seconds > 1_700_000_000);
}

#[test]
fn generated_ids_differ() {
    let a = generate_id();
    let b = generate_id();
    assert_eq!(a.len(), 36);
    assert_ne!(a, b);
}

#[test]
fn a_schedule_added_by_hand_is_active_and_joins_the_list() {
    let mut data = AppData::default();
    let made = add_stamped_schedule(
        &mut data,
        "dog-1".to_string(),
        ServiceType::Boarding,
        RecurrencePattern::BiWeekly,
        "2024-01-01".to_string(),
        None,
        Some("09:00".to_string()),
        None,
        stamp("manual"),
    );
    assert_eq!(made.id, "manual");
    assert!(made.active);
    assert_eq!(made.drop_off_time.as_deref(), Some("09:00"));
    assert_eq!(data.recurring_schedules.len(), 1);
    assert_eq!(data.recurring_schedules[0].id, "manual");
    assert!(matches!(data.recurring_schedules[0].pattern, RecurrencePattern::BiWeekly));
    let other = add_recurring_schedule(
        &mut data,
        "dog-2".to_string(),
        ServiceType::Daycare,
        RecurrencePattern::Daily,
        "2024-01-01".to_string(),
        None,
        None,
        None,
    );
    assert_eq!(data.recurring_schedules.len(), 2);
    assert_eq!(data.recurring_schedules[1].id, other.id);
    assert_eq!(other.dog_id, "dog-2");
    assert_eq!(get_recurring_schedules(&data).len(), 2);
}

#[test]
fn updating_replaces_the_schedule_with_the_same_id() {
    let mut data = AppData::default();
    data.recurring_schedules = derive_all(&dog(full_schedule()), "2024-01-15");
    let mut changed = data.recurring_schedules[1].clone();
    changed.active = false;
    changed.start_date = "2025-01-01".to_string();
    assert_eq!(update_recurring_schedule(&mut data, changed), Ok(()));
    assert_eq!(data.recurring_schedules.len(), 3);
    assert!(!data.recurring_schedules[1].active);
    assert_eq!(data.recurring_schedules[1].start_date, "2025-01-01");
    assert!(data.recurring_schedules[0].active);
    assert!(data.recurring_schedules[2].active);
}

#[test]
fn updating_an_unknown_schedule_fails() {
    let mut data = AppData::default();
    data.recurring_schedules = derive_all(&dog(full_schedule()), "2024-01-15");
    let before = format!("{:?}", data);
    let mut unknown = data.recurring_schedules[0].clone();
    unknown.id = "nope".to_string();
    assert_eq!(update_recurring_schedule(&mut data, unknown), Err(AppError::ScheduleNotFound));
    assert_eq!(format!("{:?}", data), before);
}

#[test]
fn deleting_removes_the_schedule_with_the_id() {
    let mut data = AppData::default();
    data.recurring_schedules = derive_all(&dog(full_schedule()), "2024-01-15");
    assert_eq!(delete_recurring_schedule(&mut data, "s2"), Ok(()));
    let ids: Vec<&str> = data.recurring_schedules.iter().map(|s| s.id.as_str()).collect();
    assert_eq!(ids, vec!["s1", "s3"]);
    assert_eq!(delete_recurring_schedule(&mut data, "s2"), Err(AppError::ScheduleNotFound));
    assert_eq!(data.recurring_schedules.len(), 2);
}

#[test]
fn find_schedule_gives_the_first_position() {
    let schedules = derive_all(&dog(full_schedule()), "2024-01-15");
    assert_eq!(find_schedule(&schedules, "s1"), 0);
    assert_eq!(find_schedule(&schedules, "s3"), 2);
    assert_eq!(find_schedule(&schedules, "s4"), 3);
}
