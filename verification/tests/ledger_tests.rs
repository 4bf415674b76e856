use doggy_daycare::error::AppError;
use doggy_daycare::ledger::{
    copy_entries, get_attendance_for_date, get_cloud_backup_config, get_daily_data, get_settings,
    update_attendance, update_attendance_type, update_cloud_backup_config, update_daily_record,
    update_detailed_attendance, update_settings, update_temperature,
};
use doggy_daycare::model::{
    default_business_phone, default_whatsapp_templates, AppData, AttendanceType, CloudBackupConfig,
    DailyRecord, DogSchedule, ServiceType, DEFAULT_BUSINESS_NAME, EMAIL_CONSENT_FORM,
    EMAIL_VACCINE_REMINDER, SUBJECT_CONSENT_FORM, SUBJECT_VACCINE_REMINDER,
    WHATSAPP_CONSENT_FORM, WHATSAPP_VACCINE_REMINDER,
};

#[test]
fn the_default_document_is_empty_with_default_settings() {
    let data = AppData::default();
    assert!(data.dogs.is_empty());
    assert_eq!(data.daily_data.len(), 0);
    assert!(data.recurring_schedules.is_empty());
    let settings = get_settings(&data);
    assert_eq!(settings.business_name, "Your Doggy Daycare");
    assert_eq!(settings.business_name, DEFAULT_BUSINESS_NAME);
    assert_eq!(settings.business_phone, "");
    assert!(settings.auto_backup);
    assert!(settings.cloud_backup.is_none());
    assert_eq!(settings.email_templates.consent_form, EMAIL_CONSENT_FORM);
    assert_eq!(settings.email_templates.vaccine_reminder, EMAIL_VACCINE_REMINDER);
    assert_eq!(settings.email_subjects.consent_form, "Monthly Consent Form Required - {dogName}");
    assert_eq!(settings.email_subjects.consent_form, SUBJECT_CONSENT_FORM);
    assert_eq!(settings.email_subjects.vaccine_reminder, "Vaccine Record Update Required - {dogName}");
    assert_eq!(settings.email_subjects.vaccine_reminder, SUBJECT_VACCINE_REMINDER);
    assert_eq!(settings.whatsapp_templates.consent_form, WHATSAPP_CONSENT_FORM);
    assert!(settings.email_templates.consent_form.starts_with("Dear {ownerName},\n\nThis is a friendly reminder"));
    assert!(settings.email_templates.consent_form.ends_with("Date: {currentDate}"));
    assert!(settings.email_templates.vaccine_reminder.ends_with("The Doggy Daycare Team"));
}

#[test]
fn the_defaults_of_the_parts() {
    assert_eq!(default_business_phone(), "");
    let whatsapp = default_whatsapp_templates();
    assert_eq!(whatsapp.consent_form, WHATSAPP_CONSENT_FORM);
    assert_eq!(whatsapp.vaccine_reminder, WHATSAPP_VACCINE_REMINDER);
    assert!(whatsapp.consent_form.starts_with("Hi {ownerName}! "));
    assert!(whatsapp.consent_form.ends_with("at your earliest convenience. Thanks!"));
    assert!(whatsapp.vaccine_reminder.contains("{vaccineType} vaccination expires on {expirationDate}"));
    let schedule = DogSchedule::default();
    assert!(schedule.active);
    assert!(schedule.daycare_days.is_empty());
    assert!(schedule.training_days.is_empty());
    assert!(schedule.boarding_days.is_empty());
    assert!(schedule.start_date.is_none());
    assert!(schedule.end_date.is_none());
    assert!(schedule.daycare_drop_off.is_none());
    let backup = CloudBackupConfig::default();
    assert!(!backup.enabled);
    assert_eq!(backup.cloud_directory, "");
    assert_eq!(backup.max_backups, 100);
    assert_eq!(backup.sync_interval_minutes, 30);
}

#[test]
fn an_entry_entered_by_hand_replaces_what_was_there() {
    let mut data = AppData::default();
    update_detailed_attendance(
        &mut data,
        "2024-01-01".to_string(),
        "rex".to_string(),
        ServiceType::Daycare,
        true,
        Some("08:00".to_string()),
        Some("17:00".to_string()),
        Some("first".to_string()),
    );
    update_detailed_attendance(
        &mut data,
        "2024-01-01".to_string(),
        "rex".to_string(),
        ServiceType::Daycare,
        false,
        None,
        None,
        None,
    );
    update_detailed_attendance(
        &mut data,
        "2024-01-01".to_string(),
        "rex".to_string(),
        ServiceType::Boarding,
        true,
        None,
        None,
        None,
    );
    let day = get_daily_data(&data, "2024-01-01").unwrap();
    assert_eq!(day.attendance.entries.len(), 2);
    let entry = day.attendance.entries.get("rex_Daycare").unwrap();
    assert!(!entry.attending);
    assert!(entry.drop_off_time.is_none());
    assert!(entry.notes.is_none());
    // Only daycare is mirrored in the older map.
    assert_eq!(day.attendance.dogs.len(), 1);
    assert_eq!(day.attendance.dogs.get("rex"), Some(&false));
    assert!(get_daily_data(&data, "2024-01-02").is_none());
}

#[test]
fn the_entries_of_a_day_are_handed_out_as_copies() {
    let mut data = AppData::default();
    update_detailed_attendance(
        &mut data,
        "2024-01-01".to_string(),
        "rex".to_string(),
        ServiceType::Training,
        true,
        None,
        Some("12:00".to_string()),
        None,
    );
    let entries = get_attendance_for_date(&data, "2024-01-01");
    assert_eq!(entries.len(), 1);
    assert_eq!(entries.get("rex_Training").unwrap().pick_up_time.as_deref(), Some("12:00"));
    assert_eq!(get_attendance_for_date(&data, "2024-01-02").len(), 0);
    let copy = copy_entries(&entries);
    assert_eq!(format!("{:?}", copy), format!("{:?}", entries));
}

#[test]
fn the_older_map_the_types_and_the_records_are_edited_by_day() {
    let mut data = AppData::default();
    update_attendance(&mut data, "2024-01-01".to_string(), "rex".to_string(), true);
    update_attendance(&mut data, "2024-01-01".to_string(), "rex".to_string(), false);
    update_attendance(&mut data, "2024-01-01".to_string(), "bo".to_string(), true);
    update_attendance_type(&mut data, "2024-01-01".to_string(), "rex".to_string(), AttendanceType::HalfDay);
    let mut record = DailyRecord::empty();
    record.feeding_times = Some("noon".to_string());
    update_daily_record(&mut data, "2024-01-02".to_string(), "rex".to_string(), record);
    assert_eq!(data.daily_data.len(), 2);
    let day = get_daily_data(&data, "2024-01-01").unwrap();
    assert_eq!(day.attendance.dogs.get("rex"), Some(&false));
    assert_eq!(day.attendance.dogs.get("bo"), Some(&true));
    assert_eq!(day.attendance.types.get("rex"), Some(&AttendanceType::HalfDay));
    assert_eq!(day.attendance.entries.len(), 0);
    let day = get_daily_data(&data, "2024-01-02").unwrap();
    assert_eq!(day.records.get("rex").unwrap().feeding_times.as_deref(), Some("noon"));
}

#[test]
fn a_temperature_that_is_not_given_stays() {
    let mut data = AppData::default();
    update_temperature(&mut data, "2024-01-01".to_string(), Some("18".to_string()), None);
    let day = get_daily_data(&data, "2024-01-01").unwrap();
    assert_eq!(day.am_temp.as_deref(), Some("18"));
    assert!(day.pm_temp.is_none());
    update_temperature(&mut data, "2024-01-01".to_string(), None, Some("25".to_string()));
    let day = get_daily_data(&data, "2024-01-01").unwrap();
    assert_eq!(day.am_temp.as_deref(), Some("18"));
    assert_eq!(day.pm_temp.as_deref(), Some("25"));
    update_temperature(&mut data, "2024-01-01".to_string(), Some("19".to_string()), None);
    assert_eq!(get_daily_data(&data, "2024-01-01").unwrap().am_temp.as_deref(), Some("19"));
}

#[test]
fn settings_and_backup_configuration_are_replaced() {
    let mut data = AppData::default();
    let config = get_cloud_backup_config(&data);
    assert_eq!(config.max_backups, 100);
    assert!(!config.enabled);
    update_cloud_backup_config(
        &mut data,
        CloudBackupConfig {
            enabled: true,
            cloud_directory: "/backups".to_string(),
            max_backups: 5,
            sync_interval_minutes: 10,
        },
    );
    let config = get_cloud_backup_config(&data);
    assert!(config.enabled);
    assert_eq!(config.cloud_directory, "/backups");
    assert_eq!(config.max_backups, 5);
    assert_eq!(config.sync_interval_minutes, 10);
    let mut settings = get_settings(&data).duplicate();
    settings.business_name = "New".to_string();
    settings.cloud_backup = None;
    update_settings(&mut data, settings);
    assert_eq!(get_settings(&data).business_name, "New");
    assert!(get_settings(&data).cloud_backup.is_none());
}

#[test]
fn every_failure_has_its_text() {
    assert_eq!(AppError::InvalidStartDate.message(), "Invalid start date format");
    assert_eq!(AppError::InvalidEndDate.message(), "Invalid end date format");
    assert_eq!(AppError::InvalidDateRange.message(), "End date is before start date");
    assert_eq!(AppError::InvalidScheduleStartDate { index: 3 }.message(), "Invalid schedule start date");
    assert_eq!(AppError::InvalidScheduleEndDate { index: 0 }.message(), "Invalid schedule end date");
    assert_eq!(AppError::DateOutOfRange.message(), "Date overflow");
    assert_eq!(AppError::DogNotFound.message(), "Dog not found");
    assert_eq!(AppError::ScheduleNotFound.message(), "Schedule not found");
    assert_eq!(AppError::InvalidBirthDate.message(), "Invalid date format. Expected YYYY-MM-DD");
}
