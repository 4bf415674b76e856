use doggy_daycare::records::{
    AttendanceData, CreateDailyRecordInput, CreateDayDataInput, CreateDogInput, DatabaseStatus,
    EmailSubjects, EmailTemplates, NotificationSettings, WhatsAppTemplates,
};
use doggy_daycare::strmap::StrMap;

#[test]
fn the_rows_hold_what_is_put_into_them() {
    let status = DatabaseStatus {
        is_initialized: true,
        version: 1,
        last_migration: Some("Initial tables".to_string()),
        has_pending_migrations: false,
    };
    assert!(status.is_initialized && !status.has_pending_migrations);
    assert_eq!(status.clone().last_migration.as_deref(), Some("Initial tables"));

    let mut dogs: StrMap<bool> = StrMap::new();
    dogs.insert("rex".to_string(), true);
    let attendance = AttendanceData { dogs };
    let day = CreateDayDataInput {
        date: "2024-01-01".to_string(),
        attendance: attendance.clone(),
        am_temp: Some("20".to_string()),
        pm_temp: None,
    };
    assert_eq!(day.attendance.dogs.get("rex"), Some(&true));
    assert_eq!(attendance.dogs.len(), 1);

    let record = CreateDailyRecordInput {
        dog_id: "rex".to_string(),
        date: "2024-01-01".to_string(),
        checklist: None,
        feeding_times: None,
        drop_off_time: Some("08:00".to_string()),
        pick_up_time: None,
        notes: None,
    };
    assert_eq!(record.drop_off_time.as_deref(), Some("08:00"));

    let dog = CreateDogInput {
        name: "Rex".to_string(),
        owner: "Ann".to_string(),
        phone: String::new(),
        email: String::new(),
        breed: String::new(),
        age: "3".to_string(),
        vaccine_date: None,
        emergency_contact: None,
        emergency_phone: None,
        medical_conditions: None,
        dietary_restrictions: None,
        behavioral_notes: None,
        photo_url: None,
    };
    assert_eq!(dog.clone().age, "3");

    let notify = NotificationSettings {
        email_enabled: true,
        whatsapp_enabled: false,
        desktop_notifications: true,
        reminder_advance_days: 7,
    };
    assert_eq!(notify, notify.clone());

    let bodies = EmailTemplates {
        consent_form: "a".to_string(),
        vaccine_reminder: "b".to_string(),
        pickup_reminder: None,
        welcome_message: None,
    };
    let subjects = EmailSubjects {
        consent_form: "c".to_string(),
        vaccine_reminder: "d".to_string(),
        pickup_reminder: None,
        welcome_message: None,
    };
    let texts = WhatsAppTemplates {
        consent_form: "e".to_string(),
        vaccine_reminder: "f".to_string(),
        pickup_reminder: None,
        daily_update: Some("g".to_string()),
    };
    assert_eq!(bodies.consent_form + &subjects.vaccine_reminder + texts.daily_update.as_deref().unwrap(), "adg");
}
