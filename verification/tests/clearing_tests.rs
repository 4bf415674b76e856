use doggy_daycare::clearing::{
    auto_note, clear_attendance_from, clear_auto_generated_attendance, clear_dog_from_day,
    clear_future_attendance_for_dog, remove_auto_entries,
};
use doggy_daycare::attendance::generate_recurring_attendance_internal;
use doggy_daycare::date::Date;
use doggy_daycare::ledger::update_detailed_attendance;
use doggy_daycare::model::{AppData, RecurrencePattern, RecurringSchedule, ServiceType, Timestamp};

fn enter(data: &mut AppData, date: &str, dog: &str, service: ServiceType, note: Option<&str>) {
    update_detailed_attendance(
        data,
        date.to_string(),
        dog.to_string(),
        service,
        true,
        None,
        None,
        note.map(|n| n.to_string()),
    );
}

fn has(data: &AppData, date: &str, key: &str) -> bool {
    data.daily_data.get(date).unwrap().attendance.entries.contains_key(key)
}

#[test]
fn clearing_takes_a_dogs_attendance_from_a_day_on() {
    let mut data = AppData::default();
    for date in ["2024-01-01", "2024-05-31", "2024-06-01", "2024-06-02", "someday"] {
        enter(&mut data, date, "rex", ServiceType::Daycare, None);
        enter(&mut data, date, "rex", ServiceType::Training, None);
        enter(&mut data, date, "bo", ServiceType::Daycare, None);
    }
    clear_attendance_from(&mut data, &"rex".to_string(), Date::from_ymd(2024, 6, 1).unwrap());
    assert_eq!(data.daily_data.len(), 5);
    for date in ["2024-01-01", "2024-05-31", "someday"] {
        assert!(has(&data, date, "rex_Daycare"));
        assert!(has(&data, date, "rex_Training"));
        assert!(has(&data, date, "bo_Daycare"));
        assert_eq!(data.daily_data.get(date).unwrap().attendance.dogs.get("rex"), Some(&true));
    }
    for date in ["2024-06-01", "2024-06-02"] {
        assert!(!has(&data, date, "rex_Daycare"));
        assert!(!has(&data, date, "rex_Training"));
        assert!(has(&data, date, "bo_Daycare"));
        let day = data.daily_data.get(date).unwrap();
        assert!(day.attendance.dogs.get("rex").is_none());
        assert_eq!(day.attendance.dogs.get("bo"), Some(&true));
    }
}

#[test]
fn clearing_leaves_other_dogs_alone() {
    let mut data = AppData::default();
    enter(&mut data, "2024-06-01", "rex", ServiceType::Daycare, None);
    enter(&mut data, "2024-06-01", "rex", ServiceType::Boarding, None);
    enter(&mut data, "2024-06-01", "rex_2", ServiceType::Daycare, None);
    enter(&mut data, "2024-06-01", "rex_Daycare", ServiceType::Training, None);
    enter(&mut data, "2024-06-01", "rexy", ServiceType::Daycare, None);
    clear_attendance_from(&mut data, &"rex".to_string(), Date::from_ymd(2024, 1, 1).unwrap());
    assert!(!has(&data, "2024-06-01", "rex_Daycare"));
    assert!(!has(&data, "2024-06-01", "rex_Boarding"));
    assert!(has(&data, "2024-06-01", "rex_2_Daycare"));
    assert!(has(&data, "2024-06-01", "rex_Daycare_Training"));
    assert!(has(&data, "2024-06-01", "rexy_Daycare"));
    let day = data.daily_data.get("2024-06-01").unwrap();
    assert_eq!(day.attendance.entries.len(), 3);
    assert!(day.attendance.dogs.get("rex").is_none());
    assert_eq!(day.attendance.dogs.get("rex_2"), Some(&true));
    assert_eq!(day.attendance.dogs.get("rexy"), Some(&true));
}

#[test]
fn clearing_the_future_keeps_the_past() {
    let mut data = AppData::default();
    enter(&mut data, "2000-01-01", "rex", ServiceType::Daycare, None);
    enter(&mut data, "9999-12-31", "rex", ServiceType::Daycare, None);
    assert_eq!(clear_future_attendance_for_dog(&mut data, &"rex".to_string()), Ok(()));
    assert!(has(&data, "2000-01-01", "rex_Daycare"));
    assert!(!has(&data, "9999-12-31", "rex_Daycare"));
    assert_eq!(data.daily_data.len(), 2);
}

#[test]
fn a_day_is_cleared_of_one_dog() {
    let mut data = AppData::default();
    enter(&mut data, "d", "rex", ServiceType::Daycare, None);
    enter(&mut data, "d", "bo", ServiceType::Boarding, None);
    let mut day = data.daily_data.remove("d").unwrap();
    clear_dog_from_day(&mut day, &"rex".to_string());
    assert_eq!(day.attendance.entries.len(), 1);
    assert!(day.attendance.entries.contains_key("bo_Boarding"));
    assert_eq!(day.attendance.dogs.len(), 0);
    clear_dog_from_day(&mut day, &"bo".to_string());
    assert_eq!(day.attendance.entries.len(), 0);
}

#[test]
fn entries_made_by_schedules_are_told_by_their_note() {
    assert!(auto_note(&Some("Auto-scheduled".to_string())));
    assert!(auto_note(&Some("x Auto-generated y".to_string())));
    assert!(auto_note(&Some("Scheduled (not confirmed)".to_string())));
    assert!(!auto_note(&Some("auto-scheduled".to_string())));
    assert!(!auto_note(&Some("Scheduled".to_string())));
    assert!(!auto_note(&Some(String::new())));
    assert!(!auto_note(&None));
}

#[test]
fn clearing_auto_entries_keeps_manual_ones() {
    let mut data = AppData::default();
    enter(&mut data, "2024-01-01", "rex", ServiceType::Daycare, Some("Auto-scheduled"));
    enter(&mut data, "2024-01-01", "rex", ServiceType::Training, Some("by hand"));
    enter(&mut data, "2024-01-01", "bo", ServiceType::Daycare, None);
    enter(&mut data, "2024-01-02", "rex", ServiceType::Daycare, Some("Auto-generated"));
    enter(&mut data, "2024-01-03", "bo", ServiceType::Boarding, Some("Scheduled (not confirmed)"));
    assert_eq!(clear_auto_generated_attendance(&mut data), Ok(()));
    assert_eq!(data.daily_data.len(), 3);
    assert!(!has(&data, "2024-01-01", "rex_Daycare"));
    assert!(has(&data, "2024-01-01", "rex_Training"));
    assert!(has(&data, "2024-01-01", "bo_Daycare"));
    assert_eq!(data.daily_data.get("2024-01-02").unwrap().attendance.entries.len(), 0);
    assert_eq!(data.daily_data.get("2024-01-03").unwrap().attendance.entries.len(), 0);
    // The older map is left as it is.
    assert_eq!(data.daily_data.get("2024-01-02").unwrap().attendance.dogs.get("rex"), Some(&true));
}

#[test]
fn auto_entries_are_removed_from_a_map() {
    let mut data = AppData::default();
    enter(&mut data, "d", "rex", ServiceType::Daycare, Some("Auto-scheduled"));
    enter(&mut data, "d", "bo", ServiceType::Daycare, Some("manual"));
    let mut day = data.daily_data.remove("d").unwrap();
    remove_auto_entries(&mut day.attendance.entries);
    assert_eq!(day.attendance.entries.keys(), vec!["bo_Daycare".to_string()]);
}

#[test]
fn a_day_made_for_a_date_is_cleared_as_of_that_date() {
    // The key of a day is the text of its date, and the text reads back as
    // the date, also where the year has a sign or more than four digits.
    for (first, second, third, from) in [
        ("2024-02-28", "2024-02-29", "2024-03-01", (2024, 2, 29)),
        ("0999-12-30", "0999-12-31", "1000-01-01", (999, 12, 31)),
        ("0000-01-01", "0000-01-02", "0000-01-03", (0, 1, 2)),
        ("-0001-12-30", "-0001-12-31", "0000-01-01", (-1, 12, 31)),
        ("9999-12-30", "9999-12-31", "+10000-01-01", (9999, 12, 31)),
        ("+12000-01-01", "+12000-01-02", "+12000-01-03", (12000, 1, 2)),
        ("+262142-12-29", "+262142-12-30", "+262142-12-31", (262142, 12, 30)),
        ("-262143-01-01", "-262143-01-02", "-262143-01-03", (-262143, 1, 2)),
    ] {
        let mut data = AppData::default();
        data.recurring_schedules.push(RecurringSchedule {
            id: "s".to_string(),
            dog_id: "rex".to_string(),
            service_type: ServiceType::Daycare,
            pattern: RecurrencePattern::Daily,
            start_date: first.to_string(),
            end_date: None,
            drop_off_time: None,
            pick_up_time: None,
            active: true,
            created_at: Timestamp { seconds: 0, nanos: 0 },
        });
        assert_eq!(generate_recurring_attendance_internal(&mut data, first, third), Ok(()));
        let mut keys = data.daily_data.keys();
        keys.sort();
        let mut expected = vec![first.to_string(), second.to_string(), third.to_string()];
        expected.sort();
        assert_eq!(keys, expected);
        let from = Date::from_ymd(from.0, from.1, from.2).unwrap();
        clear_attendance_from(&mut data, &"rex".to_string(), from);
        assert!(has(&data, first, "rex_Daycare"), "{}", first);
        assert!(!has(&data, second, "rex_Daycare"), "{}", second);
        assert!(!has(&data, third, "rex_Daycare"), "{}", third);
    }
}
