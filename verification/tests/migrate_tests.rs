use doggy_daycare::json::{
    copy_members, find_member, remove_member, set_member, JsonMember, JsonValue,
};
use doggy_daycare::migrate::{
    add_default, attendance_migrated, day_migrated, default_schedule_value, dog_migrated,
    is_true, make_legacy_entry, migrate_daily_data, migrate_document, migrate_dogs,
    migrate_settings, document_migrated, MIGRATED_NOTE,
};
use doggy_daycare::model::{WHATSAPP_CONSENT_FORM, WHATSAPP_VACCINE_REMINDER};

fn object(members: Vec<(&str, JsonValue)>) -> JsonValue {
    JsonValue::Object(members.into_iter().map(|(k, v)| JsonMember::new(k, v)).collect())
}

fn text(value: &str) -> JsonValue {
    JsonValue::text(value)
}

fn keys(value: &JsonValue) -> Vec<String> {
    match value {
        JsonValue::Object(members) => members.iter().map(|m| m.key.clone()).collect(),
        _ => panic!("no object"),
    }
}

fn as_text(value: &JsonValue) -> &str {
    match value {
        JsonValue::Text(t) => t,
        _ => panic!("no text"),
    }
}

fn same(a: &JsonValue, b: &JsonValue) -> bool {
    format!("{:?}", a) == format!("{:?}", b)
}

#[test]
fn settings_get_a_phone_and_whatsapp_texts() {
    let mut settings = object(vec![("business_name", text("Dogs")), ("auto_backup", JsonValue::Bool(true))]);
    migrate_settings(&mut settings);
    assert_eq!(keys(&settings), vec!["business_name", "auto_backup", "business_phone", "whatsapp_templates"]);
    assert_eq!(as_text(settings.get("business_name").unwrap()), "Dogs");
    assert_eq!(as_text(settings.get("business_phone").unwrap()), "");
    let whatsapp = settings.get("whatsapp_templates").unwrap();
    assert_eq!(as_text(whatsapp.get("consent_form").unwrap()), WHATSAPP_CONSENT_FORM);
    assert_eq!(as_text(whatsapp.get("vaccine_reminder").unwrap()), WHATSAPP_VACCINE_REMINDER);
}

#[test]
fn settings_keep_what_they_have() {
    let mut settings = object(vec![
        ("business_phone", text("555")),
        ("whatsapp_templates", JsonValue::Null),
    ]);
    let before = settings.duplicate();
    migrate_settings(&mut settings);
    assert!(same(&settings, &before));
    let mut odd = JsonValue::Number("7".to_string());
    migrate_settings(&mut odd);
    assert!(same(&odd, &JsonValue::Number("7".to_string())));
}

#[test]
fn a_dog_without_a_schedule_gets_the_default_one() {
    let dog = object(vec![("id", text("d1")), ("name", text("Rex"))]);
    let migrated = dog_migrated(&dog);
    assert_eq!(keys(&migrated), vec!["id", "name", "schedule"]);
    assert_eq!(as_text(migrated.get("id").unwrap()), "d1");
    assert_eq!(as_text(migrated.get("name").unwrap()), "Rex");
    let schedule = migrated.get("schedule").unwrap();
    assert!(same(schedule, &default_schedule_value()));
    assert_eq!(
        keys(schedule),
        vec![
            "daycare_days",
            "training_days",
            "boarding_days",
            "daycare_drop_off",
            "daycare_pick_up",
            "training_drop_off",
            "training_pick_up",
            "active"
        ]
    );
    assert!(matches!(schedule.get("daycare_days"), Some(JsonValue::Array(items)) if items.is_empty()));
    assert!(matches!(schedule.get("daycare_drop_off"), Some(JsonValue::Null)));
    assert!(matches!(schedule.get("active"), Some(JsonValue::Bool(false))));
}

#[test]
fn a_dog_with_a_schedule_keeps_it() {
    let dog = object(vec![("id", text("d1")), ("schedule", object(vec![("active", JsonValue::Bool(false))]))]);
    assert!(same(&dog_migrated(&dog), &dog));
}

#[test]
fn an_age_in_place_of_a_date_of_birth_is_dropped() {
    let dog = object(vec![("age", text("3")), ("id", text("d1")), ("schedule", JsonValue::Null)]);
    let migrated = dog_migrated(&dog);
    assert_eq!(keys(&migrated), vec!["id", "schedule", "date_of_birth"]);
    assert!(matches!(migrated.get("date_of_birth"), Some(JsonValue::Null)));
    let both = object(vec![
        ("age", text("3")),
        ("date_of_birth", text("2020-01-01")),
        ("schedule", JsonValue::Null),
    ]);
    assert!(same(&dog_migrated(&both), &both));
}

#[test]
fn all_dogs_are_migrated() {
    let mut dogs = JsonValue::Array(vec![
        object(vec![("id", text("d1"))]),
        JsonValue::Number("1".to_string()),
        object(vec![("id", text("d2")), ("schedule", JsonValue::Null)]),
    ]);
    migrate_dogs(&mut dogs);
    match &dogs {
        JsonValue::Array(items) => {
            assert_eq!(items.len(), 3);
            assert_eq!(keys(&items[0]), vec!["id", "schedule"]);
            assert!(matches!(&items[1], JsonValue::Number(n) if n == "1"));
            assert_eq!(keys(&items[2]), vec!["id", "schedule"]);
            assert!(matches!(items[2].get("schedule"), Some(JsonValue::Null)));
        },
        _ => panic!("no array"),
    }
    let mut odd = text("dogs");
    migrate_dogs(&mut odd);
    assert_eq!(as_text(&odd), "dogs");
}

#[test]
fn entries_are_made_from_the_older_map() {
    let records = object(vec![
        ("rex", object(vec![("drop_off_time", text("08:00")), ("notes", text("fine"))])),
        ("bo", object(vec![("pick_up_time", JsonValue::Null)])),
    ]);
    let attendance = object(vec![(
        "dogs",
        object(vec![
            ("rex", JsonValue::Bool(true)),
            ("max", JsonValue::Bool(false)),
            ("bo", JsonValue::Bool(true)),
            ("odd", text("true")),
        ]),
    )]);
    let migrated = attendance_migrated(&attendance, Some(&records));
    assert_eq!(keys(&migrated), vec!["dogs", "entries"]);
    let entries = migrated.get("entries").unwrap();
    assert_eq!(keys(entries), vec!["rex_Daycare", "bo_Daycare"]);
    let rex = entries.get("rex_Daycare").unwrap();
    assert_eq!(keys(rex), vec!["dog_id", "service_type", "attending", "notes", "drop_off_time"]);
    assert_eq!(as_text(rex.get("dog_id").unwrap()), "rex");
    assert_eq!(as_text(rex.get("service_type").unwrap()), "Daycare");
    assert!(matches!(rex.get("attending"), Some(JsonValue::Bool(true))));
    assert_eq!(as_text(rex.get("notes").unwrap()), "Migrated from legacy attendance");
    assert_eq!(as_text(rex.get("drop_off_time").unwrap()), "08:00");
    let bo = entries.get("bo_Daycare").unwrap();
    assert_eq!(keys(bo), vec!["dog_id", "service_type", "attending", "notes", "pick_up_time"]);
    assert!(matches!(bo.get("pick_up_time"), Some(JsonValue::Null)));
    assert_eq!(MIGRATED_NOTE, "Migrated from legacy attendance");
}

#[test]
fn attendance_without_an_older_map_gets_no_entries() {
    let attendance = object(vec![("types", object(vec![]))]);
    let migrated = attendance_migrated(&attendance, None);
    assert_eq!(keys(&migrated), vec!["types", "entries"]);
    assert_eq!(keys(migrated.get("entries").unwrap()).len(), 0);
    let listed = object(vec![("dogs", JsonValue::Array(vec![]))]);
    assert_eq!(keys(attendance_migrated(&listed, None).get("entries").unwrap()).len(), 0);
}

#[test]
fn attendance_with_entries_stays_as_it_is() {
    let attendance = object(vec![
        ("dogs", object(vec![("rex", JsonValue::Bool(true))])),
        ("entries", object(vec![])),
    ]);
    assert!(same(&attendance_migrated(&attendance, None), &attendance));
    assert!(same(&attendance_migrated(&JsonValue::Null, None), &JsonValue::Null));
}

#[test]
fn a_day_gets_entries_with_the_times_of_its_records() {
    let day = object(vec![
        ("attendance", object(vec![("dogs", object(vec![("rex", JsonValue::Bool(true))]))])),
        ("records", object(vec![("rex", object(vec![("pick_up_time", text("17:30"))]))])),
        ("am_temp", text("20")),
    ]);
    let migrated = day_migrated(&day);
    assert_eq!(keys(&migrated), vec!["attendance", "records", "am_temp"]);
    let entry = migrated.get("attendance").unwrap().get("entries").unwrap().get("rex_Daycare").unwrap();
    assert_eq!(as_text(entry.get("pick_up_time").unwrap()), "17:30");
    assert!(entry.get("drop_off_time").is_none());
    let bare = object(vec![("records", object(vec![]))]);
    assert!(same(&day_migrated(&bare), &bare));
}

#[test]
fn every_day_of_the_ledger_is_migrated() {
    let mut ledger = object(vec![
        ("2023-01-01", object(vec![("attendance", object(vec![]))])),
        ("2023-01-02", object(vec![("attendance", object(vec![("entries", JsonValue::Null)]))])),
        ("2023-01-03", JsonValue::Null),
    ]);
    migrate_daily_data(&mut ledger);
    assert_eq!(keys(&ledger), vec!["2023-01-01", "2023-01-02", "2023-01-03"]);
    assert!(ledger.get("2023-01-01").unwrap().get("attendance").unwrap().get("entries").is_some());
    assert!(matches!(
        ledger.get("2023-01-02").unwrap().get("attendance").unwrap().get("entries"),
        Some(JsonValue::Null)
    ));
    assert!(matches!(ledger.get("2023-01-03"), Some(JsonValue::Null)));
}

#[test]
fn a_document_gets_what_later_versions_introduced() {
    let mut document = object(vec![
        ("dogs", JsonValue::Array(vec![object(vec![("id", text("d1")), ("name", text("Rex"))])])),
        (
            "daily_data",
            object(vec![(
                "2023-01-01",
                object(vec![("attendance", object(vec![("dogs", object(vec![]))]))]),
            )]),
        ),
        ("settings", object(vec![("business_name", text("Dogs"))])),
        ("extra", JsonValue::Number("1.5".to_string())),
    ]);
    migrate_document(&mut document);
    assert_eq!(keys(&document), vec!["dogs", "daily_data", "settings", "extra", "recurring_schedules"]);
    assert!(matches!(document.get("recurring_schedules"), Some(JsonValue::Array(items)) if items.is_empty()));
    match document.get("dogs").unwrap() {
        JsonValue::Array(dogs) => {
            assert_eq!(as_text(dogs[0].get("id").unwrap()), "d1");
            assert_eq!(as_text(dogs[0].get("name").unwrap()), "Rex");
            assert!(dogs[0].get("schedule").is_some());
        },
        _ => panic!("no array"),
    }
    let entries = document
        .get("daily_data")
        .unwrap()
        .get("2023-01-01")
        .unwrap()
        .get("attendance")
        .unwrap()
        .get("entries")
        .unwrap();
    assert_eq!(keys(entries).len(), 0);
    assert_eq!(as_text(document.get("settings").unwrap().get("business_phone").unwrap()), "");
    assert!(matches!(document.get("extra"), Some(JsonValue::Number(n)) if n == "1.5"));
}

#[test]
fn a_document_in_todays_shape_stays_as_it_is() {
    let mut document = object(vec![
        ("dogs", JsonValue::Array(vec![])),
        ("daily_data", object(vec![])),
        ("recurring_schedules", JsonValue::Array(vec![text("kept")])),
        (
            "settings",
            object(vec![("business_phone", text("1")), ("whatsapp_templates", object(vec![]))]),
        ),
    ]);
    let before = document.duplicate();
    migrate_document(&mut document);
    assert!(same(&document, &before));
    let list = JsonValue::Array(vec![]);
    assert!(same(&document_migrated(&list), &list));
}

#[test]
fn members_are_found_set_and_removed() {
    let mut members = vec![JsonMember::new("a", text("1")), JsonMember::new("b", text("2"))];
    assert_eq!(find_member(&members, "a"), 0);
    assert_eq!(find_member(&members, "b"), 1);
    assert_eq!(find_member(&members, "c"), 2);
    set_member(&mut members, "a", text("3"));
    set_member(&mut members, "c", text("4"));
    assert_eq!(members.len(), 3);
    assert_eq!(as_text(&members[0].value), "3");
    assert_eq!(members[2].key, "c");
    remove_member(&mut members, "b");
    remove_member(&mut members, "x");
    assert_eq!(members.len(), 2);
    assert_eq!(members[1].key, "c");
    add_default(&mut members, "c", text("5"));
    add_default(&mut members, "d", text("6"));
    assert_eq!(members.len(), 3);
    assert_eq!(as_text(&members[1].value), "4");
    assert_eq!(as_text(&members[2].value), "6");
    let copy = copy_members(&members);
    assert_eq!(format!("{:?}", copy), format!("{:?}", members));
}

#[test]
fn only_true_is_true() {
    assert!(is_true(&JsonValue::Bool(true)));
    assert!(!is_true(&JsonValue::Bool(false)));
    assert!(!is_true(&text("true")));
    assert!(!is_true(&JsonValue::Null));
}

#[test]
fn a_legacy_entry_without_records() {
    let entry = make_legacy_entry("rex", None);
    assert_eq!(keys(&entry), vec!["dog_id", "service_type", "attending", "notes"]);
    let odd = text("records");
    assert_eq!(keys(&make_legacy_entry("rex", Some(&odd))).len(), 4);
}
