//! The rows of the relational form of the data: what is stored of the
//! settings, and what is handed in to create a dog, a daily record or a
//! day. Each type has a view that holds the same data as mathematical
//! values.

use crate::model::text_opt;
use crate::strmap::StrMap;
use vstd::prelude::*;

verus! {

/// The state of the database: whether its tables exist, the version of its
/// layout, and whether changes to the layout are still to be made.
#[derive(Clone, Debug)]
pub struct DatabaseStatus {
    pub is_initialized: bool,
    pub version: i32,
    pub last_migration: Option<String>,
    pub has_pending_migrations: bool,
}

/// What a [`DatabaseStatus`] holds, as mathematical values.
pub struct DatabaseStatusView {
    pub is_initialized: bool,
    pub version: i32,
    pub last_migration: Option<Seq<char>>,
    pub has_pending_migrations: bool,
}

impl View for DatabaseStatus {
    type V = DatabaseStatusView;

    open spec fn view(&self) -> DatabaseStatusView {
        DatabaseStatusView {
            is_initialized: self.is_initialized,
            version: self.version,
            last_migration: text_opt(self.last_migration),
            has_pending_migrations: self.has_pending_migrations,
        }
    }
}

/// Which dogs attend on a day, by dog.
#[derive(Clone, Debug)]
pub struct AttendanceData {
    pub dogs: StrMap<bool>,
}

/// What an [`AttendanceData`] holds, as mathematical values.
pub struct AttendanceDataView {
    pub dogs: Map<Seq<char>, bool>,
}

impl View for AttendanceData {
    type V = AttendanceDataView;

    open spec fn view(&self) -> AttendanceDataView {
        AttendanceDataView { dogs: self.dogs@ }
    }
}

/// Bodies of the e-mails sent to owners.
#[derive(Clone, Debug)]
pub struct EmailTemplates {
    pub consent_form: String,
    pub vaccine_reminder: String,
    pub pickup_reminder: Option<String>,
    pub welcome_message: Option<String>,
}

/// What an [`EmailTemplates`] holds, as mathematical values.
pub struct EmailTemplatesView {
    pub consent_form: Seq<char>,
    pub vaccine_reminder: Seq<char>,
    pub pickup_reminder: Option<Seq<char>>,
    pub welcome_message: Option<Seq<char>>,
}

impl View for EmailTemplates {
    type V = EmailTemplatesView;

    open spec fn view(&self) -> EmailTemplatesView {
        EmailTemplatesView {
            consent_form: self.consent_form@,
            vaccine_reminder: self.vaccine_reminder@,
            pickup_reminder: text_opt(self.pickup_reminder),
            welcome_message: text_opt(self.welcome_message),
        }
    }
}

/// Subjects of the e-mails sent to owners.
#[derive(Clone, Debug)]
pub struct EmailSubjects {
    pub consent_form: String,
    pub vaccine_reminder: String,
    pub pickup_reminder: Option<String>,
    pub welcome_message: Option<String>,
}

/// What an [`EmailSubjects`] holds, as mathematical values.
pub struct EmailSubjectsView {
    pub consent_form: Seq<char>,
    pub vaccine_reminder: Seq<char>,
    pub pickup_reminder: Option<Seq<char>>,
    pub welcome_message: Option<Seq<char>>,
}

impl View for EmailSubjects {
    type V = EmailSubjectsView;

    open spec fn view(&self) -> EmailSubjectsView {
        EmailSubjectsView {
            consent_form: self.consent_form@,
            vaccine_reminder: self.vaccine_reminder@,
            pickup_reminder: text_opt(self.pickup_reminder),
            welcome_message: text_opt(self.welcome_message),
        }
    }
}

/// Texts of the WhatsApp messages sent to owners.
#[derive(Clone, Debug)]
pub struct WhatsAppTemplates {
    pub consent_form: String,
    pub vaccine_reminder: String,
    pub pickup_reminder: Option<String>,
    pub daily_update: Option<String>,
}

/// What a [`WhatsAppTemplates`] holds, as mathematical values.
pub struct WhatsAppTemplatesView {
    pub consent_form: Seq<char>,
    pub vaccine_reminder: Seq<char>,
    pub pickup_reminder: Option<Seq<char>>,
    pub daily_update: Option<Seq<char>>,
}

impl View for WhatsAppTemplates {
    type V = WhatsAppTemplatesView;

    open spec fn view(&self) -> WhatsAppTemplatesView {
        WhatsAppTemplatesView {
            consent_form: self.consent_form@,
            vaccine_reminder: self.vaccine_reminder@,
            pickup_reminder: text_opt(self.pickup_reminder),
            daily_update: text_opt(self.daily_update),
        }
    }
}

/// By which ways owners are reminded, and how many days ahead.
#[derive(Clone, Copy, Debug, PartialEq, Eq, Structural)]
pub struct NotificationSettings {
    pub email_enabled: bool,
    pub whatsapp_enabled: bool,
    pub desktop_notifications: bool,
    pub reminder_advance_days: i32,
}

impl View for NotificationSettings {
    type V = NotificationSettings;

    open spec fn view(&self) -> NotificationSettings {
        *self
    }
}

/// What is handed in to create a dog.
#[derive(Clone, Debug)]
pub struct CreateDogInput {
    pub name: String,
    pub owner: String,
    pub phone: String,
    pub email: String,
    pub breed: String,
    pub age: String,
    pub vaccine_date: Option<String>,
    pub emergency_contact: Option<String>,
    pub emergency_phone: Option<String>,
    pub medical_conditions: Option<String>,
    pub dietary_restrictions: Option<String>,
    pub behavioral_notes: Option<String>,
    pub photo_url: Option<String>,
}

/// What a [`CreateDogInput`] holds, as mathematical values.
pub struct CreateDogInputView {
    pub name: Seq<char>,
    pub owner: Seq<char>,
    pub phone: Seq<char>,
    pub email: Seq<char>,
    pub breed: Seq<char>,
    pub age: Seq<char>,
    pub vaccine_date: Option<Seq<char>>,
    pub emergency_contact: Option<Seq<char>>,
    pub emergency_phone: Option<Seq<char>>,
    pub medical_conditions: Option<Seq<char>>,
    pub dietary_restrictions: Option<Seq<char>>,
    pub behavioral_notes: Option<Seq<char>>,
    pub photo_url: Option<Seq<char>>,
}

impl View for CreateDogInput {
    type V = CreateDogInputView;

    open spec fn view(&self) -> CreateDogInputView {
        CreateDogInputView {
            name: self.name@,
            owner: self.owner@,
            phone: self.phone@,
            email: self.email@,
            breed: self.breed@,
            age: self.age@,
            vaccine_date: text_opt(self.vaccine_date),
            emergency_contact: text_opt(self.emergency_contact),
            emergency_phone: text_opt(self.emergency_phone),
            medical_conditions: text_opt(self.medical_conditions),
            dietary_restrictions: text_opt(self.dietary_restrictions),
            behavioral_notes: text_opt(self.behavioral_notes),
            photo_url: text_opt(self.photo_url),
        }
    }
}

/// What is handed in to create the record of a dog on a day.
#[derive(Clone, Debug)]
pub struct CreateDailyRecordInput {
    pub dog_id: String,
    pub date: String,
    pub checklist: Option<StrMap<bool>>,
    pub feeding_times: Option<String>,
    pub drop_off_time: Option<String>,
    pub pick_up_time: Option<String>,
    pub notes: Option<String>,
}

/// What a [`CreateDailyRecordInput`] holds, as mathematical values.
pub struct CreateDailyRecordInputView {
    pub dog_id: Seq<char>,
    pub date: Seq<char>,
    pub checklist: Option<Map<Seq<char>, bool>>,
    pub feeding_times: Option<Seq<char>>,
    pub drop_off_time: Option<Seq<char>>,
    pub pick_up_time: Option<Seq<char>>,
    pub notes: Option<Seq<char>>,
}

impl View for CreateDailyRecordInput {
    type V = CreateDailyRecordInputView;

    open spec fn view(&self) -> CreateDailyRecordInputView {
        CreateDailyRecordInputView {
            dog_id: self.dog_id@,
            date: self.date@,
            checklist: match self.checklist { Some(m) => Some(m@), None => None },
            feeding_times: text_opt(self.feeding_times),
            drop_off_time: text_opt(self.drop_off_time),
            pick_up_time: text_opt(self.pick_up_time),
            notes: text_opt(self.notes),
        }
    }
}

/// What is handed in to create a day.
#[derive(Clone, Debug)]
pub struct CreateDayDataInput {
    pub date: String,
    pub attendance: AttendanceData,
    pub am_temp: Option<String>,
    pub pm_temp: Option<String>,
}

/// What a [`CreateDayDataInput`] holds, as mathematical values.
pub struct CreateDayDataInputView {
    pub date: Seq<char>,
    pub attendance: AttendanceDataView,
    pub am_temp: Option<Seq<char>>,
    pub pm_temp: Option<Seq<char>>,
}

impl View for CreateDayDataInput {
    type V = CreateDayDataInputView;

    open spec fn view(&self) -> CreateDayDataInputView {
        CreateDayDataInputView {
            date: self.date@,
            attendance: self.attendance@,
            am_temp: text_opt(self.am_temp),
            pm_temp: text_opt(self.pm_temp),
        }
    }
}

} // verus!
