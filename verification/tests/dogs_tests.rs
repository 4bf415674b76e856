use doggy_daycare::date::{add_days, Date};
use doggy_daycare::dogs::{
    add_dog, copy_schedules, delete_dog, find_dog, generation_window, get_all_dogs, insert_dog,
    new_dog, replace_dog, schedules_without_dog, update_dog, HORIZON_DAYS,
};
use doggy_daycare::error::AppError;
use doggy_daycare::ids::Stamp;
use doggy_daycare::ledger::update_detailed_attendance;
use doggy_daycare::model::{AppData, Dog, DogSchedule, ServiceType, Timestamp};
use doggy_daycare::recurrence::get_weekday_index;

fn date(year: i32, month: u32, day: u32) -> Date {
    Date::from_ymd(year, month, day).unwrap()
}

fn stamp(id: &str) -> Stamp {
    Stamp { id: id.to_string(), created_at: Timestamp { seconds: 1, nanos: 2 } }
}

fn daycare_on(days: Vec<u32>) -> DogSchedule {
    let mut schedule = DogSchedule::default();
    schedule.daycare_days = days;
    schedule.daycare_drop_off = Some("08:00".to_string());
    schedule
}

fn dog(id: &str, schedule: DogSchedule) -> Dog {
    new_dog(
        "Rex".to_string(),
        "Ann".to_string(),
        "555".to_string(),
        "ann@example.com".to_string(),
        "Mix".to_string(),
        Some("2020-05-05".to_string()),
        None,
        Some(schedule),
        String::new(),
        stamp(id),
    )
}

fn insert(data: &mut AppData, dog: Dog, today: Date) -> Result<(), AppError> {
    insert_dog(data, dog, today, stamp("a"), stamp("b"), stamp("c"))
}

fn replace(data: &mut AppData, dog: Dog, today: Date) -> Result<(), AppError> {
    replace_dog(data, dog, today, stamp("d"), stamp("e"), stamp("f"))
}

#[test]
fn the_window_runs_thirty_days_from_today() {
    assert_eq!(HORIZON_DAYS, 30);
    let today = date(2024, 1, 10);
    assert_eq!(
        generation_window(&DogSchedule::default(), today),
        Ok((date(2024, 1, 10), date(2024, 2, 9)))
    );
}

#[test]
fn the_window_reaches_back_to_an_earlier_start() {
    let today = date(2024, 1, 10);
    let mut schedule = DogSchedule::default();
    schedule.start_date = Some("2023-12-20".to_string());
    assert_eq!(generation_window(&schedule, today), Ok((date(2023, 12, 20), date(2024, 2, 9))));
    schedule.start_date = Some("2024-01-20".to_string());
    assert_eq!(generation_window(&schedule, today), Ok((date(2024, 1, 10), date(2024, 2, 9))));
    schedule.start_date = Some("soon".to_string());
    assert_eq!(generation_window(&schedule, today), Ok((date(2024, 1, 10), date(2024, 2, 9))));
    schedule.start_date = Some(String::new());
    assert_eq!(generation_window(&schedule, today), Ok((date(2024, 1, 10), date(2024, 2, 9))));
}

#[test]
fn the_window_reaches_forward_to_a_later_end() {
    let today = date(2024, 1, 10);
    let mut schedule = DogSchedule::default();
    schedule.end_date = Some("2024-03-31".to_string());
    assert_eq!(generation_window(&schedule, today), Ok((date(2024, 1, 10), date(2024, 3, 31))));
    schedule.end_date = Some("2024-01-15".to_string());
    assert_eq!(generation_window(&schedule, today), Ok((date(2024, 1, 10), date(2024, 2, 9))));
    schedule.end_date = Some("?".to_string());
    assert_eq!(generation_window(&schedule, today), Ok((date(2024, 1, 10), date(2024, 2, 9))));
    schedule.end_date = Some(String::new());
    assert_eq!(generation_window(&schedule, today), Ok((date(2024, 1, 10), date(2024, 2, 9))));
}

#[test]
fn there_is_no_window_beyond_the_calendar() {
    let today = date(doggy_daycare::date::MAX_YEAR, 12, 20);
    assert_eq!(generation_window(&DogSchedule::default(), today), Err(AppError::DateOutOfRange));
}

#[test]
fn a_new_dog_has_no_consent_and_an_empty_household_is_none() {
    let made = dog("dog-1", DogSchedule::default());
    assert_eq!(made.id, "dog-1");
    assert_eq!(made.name, "Rex");
    assert_eq!(made.owner, "Ann");
    assert_eq!(made.phone, "555");
    assert_eq!(made.email, "ann@example.com");
    assert_eq!(made.breed, "Mix");
    assert_eq!(made.date_of_birth.as_deref(), Some("2020-05-05"));
    assert!(made.vaccine_date.is_none());
    assert!(made.consent_last_signed.is_none());
    assert!(made.household_id.is_none());
    assert_eq!(made.created_at, Timestamp { seconds: 1, nanos: 2 });
    let housed = new_dog(
        "A".to_string(),
        "B".to_string(),
        "C".to_string(),
        "D".to_string(),
        "E".to_string(),
        None,
        None,
        None,
        "house".to_string(),
        stamp("x"),
    );
    assert_eq!(housed.household_id.as_deref(), Some("house"));
    assert!(housed.schedule.active);
    assert!(housed.schedule.daycare_days.is_empty());
}

#[test]
fn adding_a_dog_without_weekdays_adds_only_the_dog() {
    let mut data = AppData::default();
    assert_eq!(insert(&mut data, dog("dog-1", DogSchedule::default()), date(2024, 1, 10)), Ok(()));
    assert_eq!(data.dogs.len(), 1);
    assert_eq!(data.recurring_schedules.len(), 0);
    assert_eq!(data.daily_data.len(), 0);
    let mut inactive = daycare_on(vec![1]);
    inactive.active = false;
    assert_eq!(insert(&mut data, dog("dog-2", inactive), date(2024, 1, 10)), Ok(()));
    assert_eq!(data.dogs.len(), 2);
    assert_eq!(data.recurring_schedules.len(), 0);
    assert_eq!(data.daily_data.len(), 0);
}

#[test]
fn adding_a_dog_makes_its_attendance_for_the_window() {
    let mut data = AppData::default();
    // Mondays, from Wednesday 2024-01-10 on.
    assert_eq!(insert(&mut data, dog("dog-1", daycare_on(vec![1])), date(2024, 1, 10)), Ok(()));
    assert_eq!(data.dogs.len(), 1);
    assert_eq!(data.recurring_schedules.len(), 1);
    assert_eq!(data.recurring_schedules[0].id, "a");
    assert_eq!(data.recurring_schedules[0].start_date, "2024-01-10");
    let mut keys: Vec<String> = data.daily_data.keys();
    keys.sort();
    assert_eq!(keys, vec!["2024-01-15", "2024-01-22", "2024-01-29", "2024-02-05"]);
}

#[test]
fn adding_a_dog_with_a_bad_start_date_changes_nothing() {
    let mut data = AppData::default();
    let mut schedule = daycare_on(vec![1]);
    schedule.start_date = Some("whenever".to_string());
    assert_eq!(
        insert(&mut data, dog("dog-1", schedule), date(2024, 1, 10)),
        Err(AppError::InvalidScheduleStartDate { index: 0 })
    );
    assert_eq!(data.dogs.len(), 0);
    assert_eq!(data.recurring_schedules.len(), 0);
    assert_eq!(data.daily_data.len(), 0);
}

#[test]
fn add_dog_hands_back_the_dog_it_added() {
    let mut data = AppData::default();
    let added = add_dog(
        &mut data,
        "Rex".to_string(),
        "Ann".to_string(),
        "555".to_string(),
        "ann@example.com".to_string(),
        "Mix".to_string(),
        None,
        None,
        Some(daycare_on(vec![0, 1, 2, 3, 4, 5, 6])),
        "h1".to_string(),
    )
    .unwrap();
    assert_eq!(added.id.len(), 36);
    assert_eq!(data.dogs.len(), 1);
    assert_eq!(data.dogs[0].id, added.id);
    assert_eq!(data.dogs[0].household_id.as_deref(), Some("h1"));
    assert_eq!(data.recurring_schedules.len(), 1);
    assert_eq!(data.recurring_schedules[0].dog_id, added.id);
    // Every day from today to the horizon, both included.
    assert_eq!(data.daily_data.len(), 31);
}

#[test]
fn an_edit_keeps_the_past_and_makes_the_future_anew() {
    let today = date(2024, 6, 1);
    let mut data = AppData::default();
    let mut first = daycare_on(vec![0, 1, 2, 3, 4, 5, 6]);
    first.start_date = Some("2024-05-30".to_string());
    assert_eq!(insert(&mut data, dog("dog-1", first), today), Ok(()));
    update_detailed_attendance(
        &mut data,
        "2024-01-01".to_string(),
        "dog-1".to_string(),
        ServiceType::Daycare,
        true,
        Some("07:00".to_string()),
        None,
        Some("by hand".to_string()),
    );
    update_detailed_attendance(
        &mut data,
        "2024-06-03".to_string(),
        "dog-2".to_string(),
        ServiceType::Daycare,
        true,
        None,
        None,
        None,
    );
    assert!(data.daily_data.get("2024-06-03").unwrap().attendance.entries.contains_key("dog-1_Daycare"));
    assert!(data.daily_data.get("2024-05-31").unwrap().attendance.entries.contains_key("dog-1_Daycare"));

    // The new schedule: training on Tuesdays.
    let mut second = DogSchedule::default();
    second.training_days = vec![2];
    second.training_drop_off = Some("10:00".to_string());
    let mut edited = dog("dog-1", second);
    edited.name = "Rexy".to_string();
    assert_eq!(replace(&mut data, edited, today), Ok(()));

    assert_eq!(data.dogs.len(), 1);
    assert_eq!(data.dogs[0].name, "Rexy");
    assert_eq!(data.recurring_schedules.len(), 1);
    assert_eq!(data.recurring_schedules[0].service_type, ServiceType::Training);
    assert_eq!(data.recurring_schedules[0].id, "e");

    // The past is untouched.
    let past = data.daily_data.get("2024-01-01").unwrap();
    let entry = past.attendance.entries.get("dog-1_Daycare").unwrap();
    assert_eq!(entry.notes.as_deref(), Some("by hand"));
    assert_eq!(entry.drop_off_time.as_deref(), Some("07:00"));
    assert_eq!(past.attendance.dogs.get("dog-1"), Some(&true));
    let yesterday = data.daily_data.get("2024-05-31").unwrap();
    assert!(yesterday.attendance.entries.contains_key("dog-1_Daycare"));

    // From today on the old attendance is gone and the new one is made.
    let monday = data.daily_data.get("2024-06-03").unwrap();
    assert!(!monday.attendance.entries.contains_key("dog-1_Daycare"));
    assert!(monday.attendance.dogs.get("dog-1").is_none());
    assert!(monday.attendance.entries.contains_key("dog-2_Daycare"));
    let tuesday = data.daily_data.get("2024-06-04").unwrap();
    assert!(!tuesday.attendance.entries.contains_key("dog-1_Daycare"));
    let training = tuesday.attendance.entries.get("dog-1_Training").unwrap();
    assert_eq!(training.notes.as_deref(), Some("Auto-scheduled"));
    assert_eq!(training.drop_off_time.as_deref(), Some("10:00"));
}

#[test]
fn editing_an_unknown_dog_fails() {
    let mut data = AppData::default();
    assert_eq!(insert(&mut data, dog("dog-1", daycare_on(vec![1])), date(2024, 1, 10)), Ok(()));
    let before = format!("{:?}", data);
    assert_eq!(
        replace(&mut data, dog("dog-9", DogSchedule::default()), date(2024, 1, 10)),
        Err(AppError::DogNotFound)
    );
    assert_eq!(update_dog(&mut data, dog("dog-9", DogSchedule::default())), Err(AppError::DogNotFound));
    assert_eq!(format!("{:?}", data), before);
}

#[test]
fn an_edit_with_a_bad_date_changes_nothing() {
    let mut data = AppData::default();
    assert_eq!(insert(&mut data, dog("dog-1", daycare_on(vec![1])), date(2024, 1, 10)), Ok(()));
    let before = format!("{:?}", data);
    let mut schedule = daycare_on(vec![1]);
    schedule.end_date = Some("31.12.2024".to_string());
    assert_eq!(
        replace(&mut data, dog("dog-1", schedule), date(2024, 1, 10)),
        Err(AppError::InvalidScheduleEndDate { index: 0 })
    );
    assert_eq!(format!("{:?}", data), before);
}

#[test]
fn update_dog_works_as_of_today() {
    let mut data = AppData::default();
    data.dogs.push(dog("dog-1", DogSchedule::default()));
    update_detailed_attendance(
        &mut data,
        "1999-01-01".to_string(),
        "dog-1".to_string(),
        ServiceType::Daycare,
        true,
        None,
        None,
        None,
    );
    update_detailed_attendance(
        &mut data,
        "9000-01-01".to_string(),
        "dog-1".to_string(),
        ServiceType::Daycare,
        true,
        None,
        None,
        None,
    );
    assert_eq!(update_dog(&mut data, dog("dog-1", daycare_on(vec![0, 1, 2, 3, 4, 5, 6]))), Ok(()));
    assert!(data.daily_data.get("1999-01-01").unwrap().attendance.entries.contains_key("dog-1_Daycare"));
    assert!(!data.daily_data.get("9000-01-01").unwrap().attendance.entries.contains_key("dog-1_Daycare"));
    assert_eq!(data.recurring_schedules.len(), 1);
    // The two days entered by hand and the 31 days of the window.
    assert_eq!(data.daily_data.len(), 33);
}

#[test]
fn deleting_a_dog_removes_its_schedules_and_keeps_its_attendance() {
    let mut data = AppData::default();
    assert_eq!(insert(&mut data, dog("dog-1", daycare_on(vec![1])), date(2024, 1, 10)), Ok(()));
    assert_eq!(insert(&mut data, dog("dog-2", daycare_on(vec![2])), date(2024, 1, 10)), Ok(()));
    let days = data.daily_data.len();
    assert_eq!(delete_dog(&mut data, "dog-1"), Ok(()));
    assert_eq!(get_all_dogs(&data).len(), 1);
    assert_eq!(data.dogs[0].id, "dog-2");
    assert_eq!(data.recurring_schedules.len(), 1);
    assert_eq!(data.recurring_schedules[0].dog_id, "dog-2");
    assert_eq!(data.daily_data.len(), days);
    assert!(data.daily_data.get("2024-01-15").unwrap().attendance.entries.contains_key("dog-1_Daycare"));
    assert_eq!(delete_dog(&mut data, "dog-1"), Err(AppError::DogNotFound));
    assert_eq!(data.dogs.len(), 1);
}

#[test]
fn find_dog_gives_the_first_position() {
    let dogs = vec![dog("a", DogSchedule::default()), dog("b", DogSchedule::default())];
    assert_eq!(find_dog(&dogs, "a"), 0);
    assert_eq!(find_dog(&dogs, "b"), 1);
    assert_eq!(find_dog(&dogs, "c"), 2);
}

#[test]
fn schedules_are_copied_with_and_without_a_dog() {
    let mut data = AppData::default();
    assert_eq!(insert(&mut data, dog("dog-1", daycare_on(vec![1])), date(2024, 1, 10)), Ok(()));
    assert_eq!(insert(&mut data, dog("dog-2", daycare_on(vec![2])), date(2024, 1, 10)), Ok(()));
    let all = copy_schedules(&data.recurring_schedules);
    assert_eq!(format!("{:?}", all), format!("{:?}", data.recurring_schedules));
    let others = schedules_without_dog(&data.recurring_schedules, "dog-1");
    assert_eq!(others.len(), 1);
    assert_eq!(others[0].dog_id, "dog-2");
}

#[test]
fn add_dog_without_a_schedule_adds_only_the_dog_that_was_entered() {
    let mut data = AppData::default();
    let added = add_dog(
        &mut data,
        "Bo".to_string(),
        "Cy".to_string(),
        "777".to_string(),
        "cy@example.com".to_string(),
        "Pug".to_string(),
        Some("2021-02-03".to_string()),
        Some("2024-04-05".to_string()),
        None,
        String::new(),
    )
    .unwrap();
    assert_eq!(added.name, "Bo");
    assert_eq!(added.owner, "Cy");
    assert_eq!(added.phone, "777");
    assert_eq!(added.email, "cy@example.com");
    assert_eq!(added.breed, "Pug");
    assert_eq!(added.date_of_birth.as_deref(), Some("2021-02-03"));
    assert_eq!(added.vaccine_date.as_deref(), Some("2024-04-05"));
    assert!(added.consent_last_signed.is_none());
    assert!(added.household_id.is_none());
    assert!(added.schedule.daycare_days.is_empty());
    assert_eq!(data.dogs.len(), 1);
    assert_eq!(data.dogs[0].id, added.id);
    assert_eq!(data.dogs[0].name, "Bo");
    assert_eq!(data.recurring_schedules.len(), 0);
    assert_eq!(data.daily_data.len(), 0);
    let mut inactive = daycare_on(vec![1, 2]);
    inactive.active = false;
    let second = add_dog(
        &mut data,
        "Al".to_string(),
        "Di".to_string(),
        String::new(),
        String::new(),
        String::new(),
        None,
        None,
        Some(inactive),
        "h2".to_string(),
    )
    .unwrap();
    assert_eq!(second.household_id.as_deref(), Some("h2"));
    assert_eq!(second.schedule.daycare_days, vec![1, 2]);
    assert!(!second.schedule.active);
    assert_eq!(data.dogs.len(), 2);
    assert_eq!(data.dogs[0].name, "Bo");
    assert_eq!(data.dogs[1].id, second.id);
    assert_eq!(data.recurring_schedules.len(), 0);
    assert_eq!(data.daily_data.len(), 0);
}

#[test]
fn the_schedule_for_a_missing_one_is_inactive() {
    let schedule = DogSchedule::inactive();
    assert!(!schedule.active);
    assert!(schedule.daycare_days.is_empty());
    assert!(schedule.training_days.is_empty());
    assert!(schedule.boarding_days.is_empty());
    assert!(schedule.daycare_drop_off.is_none());
    assert!(schedule.daycare_pick_up.is_none());
    assert!(schedule.training_drop_off.is_none());
    assert!(schedule.training_pick_up.is_none());
    assert!(schedule.start_date.is_none());
    assert!(schedule.end_date.is_none());
}

#[test]
fn after_an_edit_the_dog_attends_exactly_on_the_due_dates() {
    let today = date(2024, 6, 1);
    let mut data = AppData::default();
    let mut first = daycare_on(vec![0, 1, 2, 3, 4, 5, 6]);
    first.start_date = Some("2024-05-20".to_string());
    assert_eq!(insert(&mut data, dog("dog-1", first), today), Ok(()));
    assert_eq!(insert(&mut data, dog("dog-2", daycare_on(vec![4])), today), Ok(()));
    // By hand, on a Sunday of the window.
    update_detailed_attendance(
        &mut data,
        "2024-06-09".to_string(),
        "dog-1".to_string(),
        ServiceType::Training,
        true,
        None,
        None,
        Some("by hand".to_string()),
    );

    // The new schedule: daycare on Mondays, Wednesdays and Fridays.
    let mut second = daycare_on(vec![1, 3, 5]);
    second.start_date = Some("2024-05-20".to_string());
    assert_eq!(replace(&mut data, dog("dog-1", second), today), Ok(()));

    let owned: Vec<&str> = data
        .recurring_schedules
        .iter()
        .filter(|s| s.dog_id == "dog-1")
        .map(|s| s.id.as_str())
        .collect();
    assert_eq!(owned, vec!["d"]);
    for offset in 0..=HORIZON_DAYS {
        let day = add_days(today, offset).unwrap();
        let key = format!("{:04}-{:02}-{:02}", day.year, day.month, day.day);
        let weekday = get_weekday_index(day);
        let due = weekday == 1 || weekday == 3 || weekday == 5;
        let entries = data.daily_data.get(&key).map(|d| &d.attendance.entries);
        let attends = entries.map(|e| e.contains_key("dog-1_Daycare")).unwrap_or(false);
        assert_eq!(attends, due, "{}", key);
        let trains = entries.map(|e| e.contains_key("dog-1_Training")).unwrap_or(false);
        assert!(!trains, "{}", key);
        let other = entries.map(|e| e.contains_key("dog-2_Daycare")).unwrap_or(false);
        assert_eq!(other, weekday == 4, "{}", key);
    }
    // Before today the window reaches back to the start of the new schedule:
    // what was there stays.
    for key in ["2024-05-20", "2024-05-26", "2024-05-31"] {
        assert!(data.daily_data.get(key).unwrap().attendance.entries.contains_key("dog-1_Daycare"));
    }
}
