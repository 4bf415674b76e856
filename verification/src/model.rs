//! The data of the document: dogs, schedules, the ledger by day, settings.
//!
//! Each type has a view that holds the same data as mathematical values:
//! texts as sequences of characters, lists as sequences, maps as maps.

use crate::strmap::StrMap;
use vstd::prelude::*;
use vstd::string::*;

verus! {

/// The characters of an optional text.
pub open spec fn text_opt(text: Option<String>) -> Option<Seq<char>> {
    match text {
        Some(t) => Some(t@),
        None => None,
    }
}

/// A point in time: seconds since 1970-01-01 00:00 UTC and the nanoseconds
/// within the second.
#[derive(Clone, Copy, Debug, PartialEq, Eq, Structural)]
pub struct Timestamp {
    pub seconds: i64,
    pub nanos: u32,
}

impl View for Timestamp {
    type V = Timestamp;

    open spec fn view(&self) -> Timestamp {
        *self
    }
}

/// The services a dog can be enrolled in.
#[derive(Clone, Copy, Debug, PartialEq, Eq, Structural)]
pub enum ServiceType {
    Daycare,
    Training,
    Boarding,
}

impl View for ServiceType {
    type V = ServiceType;

    open spec fn view(&self) -> ServiceType {
        *self
    }
}

/// How long a dog attends on a day.
#[derive(Clone, Copy, Debug, PartialEq, Eq, Structural)]
pub enum AttendanceType {
    NotAttending,
    HalfDay,
    FullDay,
}

impl View for AttendanceType {
    type V = AttendanceType;

    open spec fn view(&self) -> AttendanceType {
        *self
    }
}

/// On which dates a schedule is due, counted from its start date.
#[derive(Clone, Debug)]
pub enum RecurrencePattern {
    /// On no date.
    Never,
    Daily,
    Weekly,
    BiWeekly,
    Monthly,
    /// On the given weekdays (0 to 6, Sunday first).
    Custom(Vec<u32>),
}

/// A [`RecurrencePattern`] as a mathematical value.
pub enum RecurrencePatternView {
    Never,
    Daily,
    Weekly,
    BiWeekly,
    Monthly,
    Custom(Seq<u32>),
}

impl View for RecurrencePattern {
    type V = RecurrencePatternView;

    open spec fn view(&self) -> RecurrencePatternView {
        match self {
            RecurrencePattern::Never => RecurrencePatternView::Never,
            RecurrencePattern::Daily => RecurrencePatternView::Daily,
            RecurrencePattern::Weekly => RecurrencePatternView::Weekly,
            RecurrencePattern::BiWeekly => RecurrencePatternView::BiWeekly,
            RecurrencePattern::Monthly => RecurrencePatternView::Monthly,
            RecurrencePattern::Custom(days) => RecurrencePatternView::Custom(days@),
        }
    }
}

/// The WhatsApp text that asks for the monthly consent form.
pub const WHATSAPP_CONSENT_FORM: &'static str =
    "Hi {ownerName}! \u{f8ff}\u{fc}\u{ea}\u{ef} This is a friendly reminder that {dogName} needs their monthly consent form completed for continued daycare services. Please complete it at your earliest convenience. Thanks!";

/// The WhatsApp text that reminds of a vaccination.
pub const WHATSAPP_VACCINE_REMINDER: &'static str =
    "Hi {ownerName}! \u{f8ff}\u{fc}\u{ea}\u{ef} Just a reminder that {dogName}'s {vaccineType} vaccination expires on {expirationDate}. Please update their vaccination records to continue daycare services. Thanks!";

/// The e-mail body that asks for the monthly consent form.
pub const EMAIL_CONSENT_FORM: &'static str =
    "Dear {ownerName},\n\nThis is a friendly reminder that your dog {dogName} needs their monthly consent form completed for continued daycare services.\n\nPlease complete and return the consent form at your earliest convenience. If you have any questions or concerns, please don't hesitate to contact us.\n\nThank you for choosing our daycare services for {dogName}.\n\nBest regards,\nThe Doggy Daycare Team\n\nDate: {currentDate}";

/// The e-mail body that reminds of a vaccination.
pub const EMAIL_VACCINE_REMINDER: &'static str =
    "Dear {ownerName},\n\nThis is a friendly reminder that your dog {dogName}'s {vaccineType} vaccination is due to expire on {expirationDate}.\n\nTo ensure {dogName} can continue to enjoy our daycare services, please schedule an appointment with your veterinarian to update their vaccination records.\n\nPlease provide us with the updated vaccination certificate once completed.\n\nThank you for keeping {dogName} healthy and safe.\n\nBest regards,\nThe Doggy Daycare Team";

/// The e-mail subject that asks for the monthly consent form.
pub const SUBJECT_CONSENT_FORM: &'static str =
    "Monthly Consent Form Required - {dogName}";

/// The e-mail subject that reminds of a vaccination.
pub const SUBJECT_VACCINE_REMINDER: &'static str =
    "Vaccine Record Update Required - {dogName}";

/// The business name of a new document.
pub const DEFAULT_BUSINESS_NAME: &'static str =
    "Your Doggy Daycare";

/// The weekly schedule a dog is enrolled with: for each service the
/// weekdays (0 to 6, Sunday first), the times of day, and the span of dates.
#[derive(Clone, Debug)]
pub struct DogSchedule {
    pub daycare_days: Vec<u32>,
    pub training_days: Vec<u32>,
    pub boarding_days: Vec<u32>,
    pub daycare_drop_off: Option<String>,
    pub daycare_pick_up: Option<String>,
    pub training_drop_off: Option<String>,
    pub training_pick_up: Option<String>,
    pub start_date: Option<String>,
    pub end_date: Option<String>,
    pub active: bool,
}

/// What a [`DogSchedule`] holds, as mathematical values.
pub struct DogScheduleView {
    pub daycare_days: Seq<u32>,
    pub training_days: Seq<u32>,
    pub boarding_days: Seq<u32>,
    pub daycare_drop_off: Option<Seq<char>>,
    pub daycare_pick_up: Option<Seq<char>>,
    pub training_drop_off: Option<Seq<char>>,
    pub training_pick_up: Option<Seq<char>>,
    pub start_date: Option<Seq<char>>,
    pub end_date: Option<Seq<char>>,
    pub active: bool,
}

impl View for DogSchedule {
    type V = DogScheduleView;

    open spec fn view(&self) -> DogScheduleView {
        DogScheduleView {
            daycare_days: self.daycare_days@,
            training_days: self.training_days@,
            boarding_days: self.boarding_days@,
            daycare_drop_off: text_opt(self.daycare_drop_off),
            daycare_pick_up: text_opt(self.daycare_pick_up),
            training_drop_off: text_opt(self.training_drop_off),
            training_pick_up: text_opt(self.training_pick_up),
            start_date: text_opt(self.start_date),
            end_date: text_opt(self.end_date),
            active: self.active,
        }
    }
}

/// A dog and its owner's contact data.
#[derive(Clone, Debug)]
pub struct Dog {
    pub id: String,
    pub name: String,
    pub owner: String,
    pub phone: String,
    pub email: String,
    pub breed: String,
    pub date_of_birth: Option<String>,
    pub vaccine_date: Option<String>,
    pub consent_last_signed: Option<String>,
    pub created_at: Timestamp,
    pub schedule: DogSchedule,
    pub household_id: Option<String>,
}

/// What a [`Dog`] holds, as mathematical values.
pub struct DogView {
    pub id: Seq<char>,
    pub name: Seq<char>,
    pub owner: Seq<char>,
    pub phone: Seq<char>,
    pub email: Seq<char>,
    pub breed: Seq<char>,
    pub date_of_birth: Option<Seq<char>>,
    pub vaccine_date: Option<Seq<char>>,
    pub consent_last_signed: Option<Seq<char>>,
    pub created_at: Timestamp,
    pub schedule: DogScheduleView,
    pub household_id: Option<Seq<char>>,
}

impl View for Dog {
    type V = DogView;

    open spec fn view(&self) -> DogView {
        DogView {
            id: self.id@,
            name: self.name@,
            owner: self.owner@,
            phone: self.phone@,
            email: self.email@,
            breed: self.breed@,
            date_of_birth: text_opt(self.date_of_birth),
            vaccine_date: text_opt(self.vaccine_date),
            consent_last_signed: text_opt(self.consent_last_signed),
            created_at: self.created_at,
            schedule: self.schedule@,
            household_id: text_opt(self.household_id),
        }
    }
}

/// What staff noted of one dog on one day.
#[derive(Clone, Debug)]
pub struct DailyRecord {
    pub checklist: Option<StrMap<bool>>,
    pub feeding_times: Option<String>,
    pub drop_off_time: Option<String>,
    pub pick_up_time: Option<String>,
    pub notes: Option<String>,
}

/// What a [`DailyRecord`] holds, as mathematical values.
pub struct DailyRecordView {
    pub checklist: Option<Map<Seq<char>, bool>>,
    pub feeding_times: Option<Seq<char>>,
    pub drop_off_time: Option<Seq<char>>,
    pub pick_up_time: Option<Seq<char>>,
    pub notes: Option<Seq<char>>,
}

impl View for DailyRecord {
    type V = DailyRecordView;

    open spec fn view(&self) -> DailyRecordView {
        DailyRecordView {
            checklist: match self.checklist { Some(m) => Some(m@), None => None },
            feeding_times: text_opt(self.feeding_times),
            drop_off_time: text_opt(self.drop_off_time),
            pick_up_time: text_opt(self.pick_up_time),
            notes: text_opt(self.notes),
        }
    }
}

/// Whether a dog attends a service on a day, with times and a note.
#[derive(Clone, Debug)]
pub struct AttendanceEntry {
    pub dog_id: String,
    pub service_type: ServiceType,
    pub attending: bool,
    pub drop_off_time: Option<String>,
    pub pick_up_time: Option<String>,
    pub notes: Option<String>,
}

/// What a [`AttendanceEntry`] holds, as mathematical values.
pub struct AttendanceEntryView {
    pub dog_id: Seq<char>,
    pub service_type: ServiceType,
    pub attending: bool,
    pub drop_off_time: Option<Seq<char>>,
    pub pick_up_time: Option<Seq<char>>,
    pub notes: Option<Seq<char>>,
}

impl View for AttendanceEntry {
    type V = AttendanceEntryView;

    open spec fn view(&self) -> AttendanceEntryView {
        AttendanceEntryView {
            dog_id: self.dog_id@,
            service_type: self.service_type,
            attending: self.attending,
            drop_off_time: text_opt(self.drop_off_time),
            pick_up_time: text_opt(self.pick_up_time),
            notes: text_opt(self.notes),
        }
    }
}

/// A rule that makes a dog due for a service on recurring dates.
#[derive(Clone, Debug)]
pub struct RecurringSchedule {
    pub id: String,
    pub dog_id: String,
    pub service_type: ServiceType,
    pub pattern: RecurrencePattern,
    pub start_date: String,
    pub end_date: Option<String>,
    pub drop_off_time: Option<String>,
    pub pick_up_time: Option<String>,
    pub active: bool,
    pub created_at: Timestamp,
}

/// What a [`RecurringSchedule`] holds, as mathematical values.
pub struct RecurringScheduleView {
    pub id: Seq<char>,
    pub dog_id: Seq<char>,
    pub service_type: ServiceType,
    pub pattern: RecurrencePatternView,
    pub start_date: Seq<char>,
    pub end_date: Option<Seq<char>>,
    pub drop_off_time: Option<Seq<char>>,
    pub pick_up_time: Option<Seq<char>>,
    pub active: bool,
    pub created_at: Timestamp,
}

impl View for RecurringSchedule {
    type V = RecurringScheduleView;

    open spec fn view(&self) -> RecurringScheduleView {
        RecurringScheduleView {
            id: self.id@,
            dog_id: self.dog_id@,
            service_type: self.service_type,
            pattern: self.pattern@,
            start_date: self.start_date@,
            end_date: text_opt(self.end_date),
            drop_off_time: text_opt(self.drop_off_time),
            pick_up_time: text_opt(self.pick_up_time),
            active: self.active,
            created_at: self.created_at,
        }
    }
}

/// The attendance of one day: the entries by dog and service, the older
/// map from dog to attending, and the kind of attendance by dog.
#[derive(Clone, Debug)]
pub struct DayAttendance {
    pub dogs: StrMap<bool>,
    pub entries: StrMap<AttendanceEntry>,
    pub types: StrMap<AttendanceType>,
}

/// What a [`DayAttendance`] holds, as mathematical values.
pub struct DayAttendanceView {
    pub dogs: Map<Seq<char>, bool>,
    pub entries: Map<Seq<char>, AttendanceEntryView>,
    pub types: Map<Seq<char>, AttendanceType>,
}

impl View for DayAttendance {
    type V = DayAttendanceView;

    open spec fn view(&self) -> DayAttendanceView {
        DayAttendanceView {
            dogs: self.dogs@,
            entries: self.entries@,
            types: self.types@,
        }
    }
}

/// The ledger of one day.
#[derive(Clone, Debug)]
pub struct DayData {
    pub attendance: DayAttendance,
    pub records: StrMap<DailyRecord>,
    pub am_temp: Option<String>,
    pub pm_temp: Option<String>,
}

/// What a [`DayData`] holds, as mathematical values.
pub struct DayDataView {
    pub attendance: DayAttendanceView,
    pub records: Map<Seq<char>, DailyRecordView>,
    pub am_temp: Option<Seq<char>>,
    pub pm_temp: Option<Seq<char>>,
}

impl View for DayData {
    type V = DayDataView;

    open spec fn view(&self) -> DayDataView {
        DayDataView {
            attendance: self.attendance@,
            records: self.records@,
            am_temp: text_opt(self.am_temp),
            pm_temp: text_opt(self.pm_temp),
        }
    }
}

/// Bodies of the e-mails sent to owners.
#[derive(Clone, Debug)]
pub struct EmailTemplate {
    pub consent_form: String,
    pub vaccine_reminder: String,
}

/// What a [`EmailTemplate`] holds, as mathematical values.
pub struct EmailTemplateView {
    pub consent_form: Seq<char>,
    pub vaccine_reminder: Seq<char>,
}

impl View for EmailTemplate {
    type V = EmailTemplateView;

    open spec fn view(&self) -> EmailTemplateView {
        EmailTemplateView {
            consent_form: self.consent_form@,
            vaccine_reminder: self.vaccine_reminder@,
        }
    }
}

/// Subjects of the e-mails sent to owners.
#[derive(Clone, Debug)]
pub struct EmailSubject {
    pub consent_form: String,
    pub vaccine_reminder: String,
}

/// What a [`EmailSubject`] holds, as mathematical values.
pub struct EmailSubjectView {
    pub consent_form: Seq<char>,
    pub vaccine_reminder: Seq<char>,
}

impl View for EmailSubject {
    type V = EmailSubjectView;

    open spec fn view(&self) -> EmailSubjectView {
        EmailSubjectView {
            consent_form: self.consent_form@,
            vaccine_reminder: self.vaccine_reminder@,
        }
    }
}

/// Texts of the WhatsApp messages sent to owners.
#[derive(Clone, Debug)]
pub struct WhatsAppTemplate {
    pub consent_form: String,
    pub vaccine_reminder: String,
}

/// What a [`WhatsAppTemplate`] holds, as mathematical values.
pub struct WhatsAppTemplateView {
    pub consent_form: Seq<char>,
    pub vaccine_reminder: Seq<char>,
}

impl View for WhatsAppTemplate {
    type V = WhatsAppTemplateView;

    open spec fn view(&self) -> WhatsAppTemplateView {
        WhatsAppTemplateView {
            consent_form: self.consent_form@,
            vaccine_reminder: self.vaccine_reminder@,
        }
    }
}

/// Where and how often backups are written.
#[derive(Clone, Debug)]
pub struct CloudBackupConfig {
    pub enabled: bool,
    pub cloud_directory: String,
    pub max_backups: u32,
    pub sync_interval_minutes: u32,
}

/// What a [`CloudBackupConfig`] holds, as mathematical values.
pub struct CloudBackupConfigView {
    pub enabled: bool,
    pub cloud_directory: Seq<char>,
    pub max_backups: u32,
    pub sync_interval_minutes: u32,
}

impl View for CloudBackupConfig {
    type V = CloudBackupConfigView;

    open spec fn view(&self) -> CloudBackupConfigView {
        CloudBackupConfigView {
            enabled: self.enabled,
            cloud_directory: self.cloud_directory@,
            max_backups: self.max_backups,
            sync_interval_minutes: self.sync_interval_minutes,
        }
    }
}

/// The business profile, backup configuration and message templates.
#[derive(Clone, Debug)]
pub struct Settings {
    pub business_name: String,
    pub business_phone: String,
    pub auto_backup: bool,
    pub cloud_backup: Option<CloudBackupConfig>,
    pub email_templates: EmailTemplate,
    pub email_subjects: EmailSubject,
    pub whatsapp_templates: WhatsAppTemplate,
}

/// What a [`Settings`] holds, as mathematical values.
pub struct SettingsView {
    pub business_name: Seq<char>,
    pub business_phone: Seq<char>,
    pub auto_backup: bool,
    pub cloud_backup: Option<CloudBackupConfigView>,
    pub email_templates: EmailTemplateView,
    pub email_subjects: EmailSubjectView,
    pub whatsapp_templates: WhatsAppTemplateView,
}

impl View for Settings {
    type V = SettingsView;

    open spec fn view(&self) -> SettingsView {
        SettingsView {
            business_name: self.business_name@,
            business_phone: self.business_phone@,
            auto_backup: self.auto_backup,
            cloud_backup: match self.cloud_backup { Some(x) => Some(x@), None => None },
            email_templates: self.email_templates@,
            email_subjects: self.email_subjects@,
            whatsapp_templates: self.whatsapp_templates@,
        }
    }
}

/// The whole document: dogs, ledger by date, schedules and settings.
#[derive(Clone, Debug)]
pub struct AppData {
    pub dogs: Vec<Dog>,
    pub daily_data: StrMap<DayData>,
    pub recurring_schedules: Vec<RecurringSchedule>,
    pub settings: Settings,
}

/// What a [`AppData`] holds, as mathematical values.
pub struct AppDataView {
    pub dogs: Seq<DogView>,
    pub daily_data: Map<Seq<char>, DayDataView>,
    pub recurring_schedules: Seq<RecurringScheduleView>,
    pub settings: SettingsView,
}

impl View for AppData {
    type V = AppDataView;

    open spec fn view(&self) -> AppDataView {
        AppDataView {
            dogs: dog_views(self.dogs@),
            daily_data: self.daily_data@,
            recurring_schedules: schedule_views(self.recurring_schedules@),
            settings: self.settings@,
        }
    }
}

/// A backup file as listed to the user.
#[derive(Clone, Debug)]
pub struct BackupFileInfo {
    pub filename: String,
    pub filepath: String,
    pub modified_time: String,
    pub size_bytes: u64,
}

/// What a [`BackupFileInfo`] holds, as mathematical values.
pub struct BackupFileInfoView {
    pub filename: Seq<char>,
    pub filepath: Seq<char>,
    pub modified_time: Seq<char>,
    pub size_bytes: u64,
}

impl View for BackupFileInfo {
    type V = BackupFileInfoView;

    open spec fn view(&self) -> BackupFileInfoView {
        BackupFileInfoView {
            filename: self.filename@,
            filepath: self.filepath@,
            modified_time: self.modified_time@,
            size_bytes: self.size_bytes,
        }
    }
}

/// The views of a list of dogs.
pub open spec fn dog_views(dogs: Seq<Dog>) -> Seq<DogView> {
    dogs.map_values(|dog: Dog| dog@)
}

/// The views of a list of schedules.
pub open spec fn schedule_views(schedules: Seq<RecurringSchedule>) -> Seq<RecurringScheduleView> {
    schedules.map_values(|schedule: RecurringSchedule| schedule@)
}

/// A copy of `text`.
pub fn copy_text(text: &Option<String>) -> (r: Option<String>)
    ensures
        text_opt(r) == text_opt(*text),
{
    match text {
        Some(t) => Some(t.clone()),
        None => None,
    }
}

/// A copy of `days`.
pub fn copy_days(days: &Vec<u32>) -> (r: Vec<u32>)
    ensures
        r@ == days@,
{
    let mut r: Vec<u32> = Vec::new();
    let mut i: usize = 0;
    while i < days.len()
        invariant
            i <= days@.len(),
            r@ == days@.subrange(0, i as int),
        decreases days@.len() - i,
    {
        r.push(days[i]);
        i = i + 1;
        assert(r@ =~= days@.subrange(0, i as int));
    }
    assert(days@.subrange(0, days@.len() as int) =~= days@);
    r
}

impl RecurrencePattern {
    /// A copy with the same content.
    pub fn duplicate(&self) -> (r: Self)
        ensures
            r@ == self@,
    {
        match self {
            RecurrencePattern::Never => RecurrencePattern::Never,
            RecurrencePattern::Daily => RecurrencePattern::Daily,
            RecurrencePattern::Weekly => RecurrencePattern::Weekly,
            RecurrencePattern::BiWeekly => RecurrencePattern::BiWeekly,
            RecurrencePattern::Monthly => RecurrencePattern::Monthly,
            RecurrencePattern::Custom(days) => RecurrencePattern::Custom(copy_days(days)),
        }
    }
}

impl DogSchedule {
    /// A copy with the same content.
    pub fn duplicate(&self) -> (r: Self)
        ensures
            r@ == self@,
    {
        DogSchedule {
            daycare_days: copy_days(&self.daycare_days),
            training_days: copy_days(&self.training_days),
            boarding_days: copy_days(&self.boarding_days),
            daycare_drop_off: copy_text(&self.daycare_drop_off),
            daycare_pick_up: copy_text(&self.daycare_pick_up),
            training_drop_off: copy_text(&self.training_drop_off),
            training_pick_up: copy_text(&self.training_pick_up),
            start_date: copy_text(&self.start_date),
            end_date: copy_text(&self.end_date),
            active: self.active,
        }
    }
}

impl Dog {
    /// A copy with the same content.
    pub fn duplicate(&self) -> (r: Self)
        ensures
            r@ == self@,
    {
        Dog {
            id: self.id.clone(),
            name: self.name.clone(),
            owner: self.owner.clone(),
            phone: self.phone.clone(),
            email: self.email.clone(),
            breed: self.breed.clone(),
            date_of_birth: copy_text(&self.date_of_birth),
            vaccine_date: copy_text(&self.vaccine_date),
            consent_last_signed: copy_text(&self.consent_last_signed),
            created_at: self.created_at,
            schedule: self.schedule.duplicate(),
            household_id: copy_text(&self.household_id),
        }
    }
}

impl AttendanceEntry {
    /// A copy with the same content.
    pub fn duplicate(&self) -> (r: Self)
        ensures
            r@ == self@,
    {
        AttendanceEntry {
            dog_id: self.dog_id.clone(),
            service_type: self.service_type,
            attending: self.attending,
            drop_off_time: copy_text(&self.drop_off_time),
            pick_up_time: copy_text(&self.pick_up_time),
            notes: copy_text(&self.notes),
        }
    }
}

impl RecurringSchedule {
    /// A copy with the same content.
    pub fn duplicate(&self) -> (r: Self)
        ensures
            r@ == self@,
    {
        RecurringSchedule {
            id: self.id.clone(),
            dog_id: self.dog_id.clone(),
            service_type: self.service_type,
            pattern: self.pattern.duplicate(),
            start_date: self.start_date.clone(),
            end_date: copy_text(&self.end_date),
            drop_off_time: copy_text(&self.drop_off_time),
            pick_up_time: copy_text(&self.pick_up_time),
            active: self.active,
            created_at: self.created_at,
        }
    }
}

impl EmailTemplate {
    /// A copy with the same content.
    pub fn duplicate(&self) -> (r: Self)
        ensures
            r@ == self@,
    {
        EmailTemplate {
            consent_form: self.consent_form.clone(),
            vaccine_reminder: self.vaccine_reminder.clone(),
        }
    }
}

impl EmailSubject {
    /// A copy with the same content.
    pub fn duplicate(&self) -> (r: Self)
        ensures
            r@ == self@,
    {
        EmailSubject {
            consent_form: self.consent_form.clone(),
            vaccine_reminder: self.vaccine_reminder.clone(),
        }
    }
}

impl WhatsAppTemplate {
    /// A copy with the same content.
    pub fn duplicate(&self) -> (r: Self)
        ensures
            r@ == self@,
    {
        WhatsAppTemplate {
            consent_form: self.consent_form.clone(),
            vaccine_reminder: self.vaccine_reminder.clone(),
        }
    }
}

impl CloudBackupConfig {
    /// A copy with the same content.
    pub fn duplicate(&self) -> (r: Self)
        ensures
            r@ == self@,
    {
        CloudBackupConfig {
            enabled: self.enabled,
            cloud_directory: self.cloud_directory.clone(),
            max_backups: self.max_backups,
            sync_interval_minutes: self.sync_interval_minutes,
        }
    }
}

impl Settings {
    /// A copy with the same content.
    pub fn duplicate(&self) -> (r: Self)
        ensures
            r@ == self@,
    {
        Settings {
            business_name: self.business_name.clone(),
            business_phone: self.business_phone.clone(),
            auto_backup: self.auto_backup,
            cloud_backup: match &self.cloud_backup {
                Some(x) => Some(x.duplicate()),
                None => None,
            },
            email_templates: self.email_templates.duplicate(),
            email_subjects: self.email_subjects.duplicate(),
            whatsapp_templates: self.whatsapp_templates.duplicate(),
        }
    }
}

impl BackupFileInfo {
    /// A copy with the same content.
    pub fn duplicate(&self) -> (r: Self)
        ensures
            r@ == self@,
    {
        BackupFileInfo {
            filename: self.filename.clone(),
            filepath: self.filepath.clone(),
            modified_time: self.modified_time.clone(),
            size_bytes: self.size_bytes,
        }
    }
}

/// The schedule of a dog that is enrolled in nothing yet.
pub open spec fn default_dog_schedule() -> DogScheduleView {
    DogScheduleView {
        daycare_days: Seq::empty(),
        training_days: Seq::empty(),
        boarding_days: Seq::empty(),
        daycare_drop_off: None,
        daycare_pick_up: None,
        training_drop_off: None,
        training_pick_up: None,
        start_date: None,
        end_date: None,
        active: true,
    }
}

impl Default for DogSchedule {
    fn default() -> (r: Self)
        ensures
            r@ == default_dog_schedule(),
    {
        DogSchedule {
            daycare_days: Vec::new(),
            training_days: Vec::new(),
            boarding_days: Vec::new(),
            daycare_drop_off: None,
            daycare_pick_up: None,
            training_drop_off: None,
            training_pick_up: None,
            start_date: None,
            end_date: None,
            active: true,
        }
    }
}

/// The schedule that stands for a missing one: that of a dog enrolled in
/// nothing, and inactive.
pub open spec fn inactive_dog_schedule() -> DogScheduleView {
    DogScheduleView { active: false, ..default_dog_schedule() }
}

impl DogSchedule {
    /// The schedule that stands for a missing one.
    pub fn inactive() -> (r: Self)
        ensures
            r@ == inactive_dog_schedule(),
    {
        DogSchedule { active: false, ..DogSchedule::default() }
    }
}

/// The backup configuration of a document that has none.
pub open spec fn default_cloud_backup() -> CloudBackupConfigView {
    CloudBackupConfigView {
        enabled: false,
        cloud_directory: Seq::empty(),
        max_backups: 100,
        sync_interval_minutes: 30,
    }
}

impl Default for CloudBackupConfig {
    fn default() -> (r: Self)
        ensures
            r@ == default_cloud_backup(),
    {
        CloudBackupConfig {
            enabled: false,
            cloud_directory: String::new(),
            max_backups: 100,
            sync_interval_minutes: 30,
        }
    }
}

/// The business phone of a document that names none: the empty text.
pub fn default_business_phone() -> (r: String)
    ensures
        r@ == Seq::<char>::empty(),
{
    String::new()
}

/// The WhatsApp texts of a document that holds none.
pub open spec fn default_whatsapp() -> WhatsAppTemplateView {
    WhatsAppTemplateView {
        consent_form: WHATSAPP_CONSENT_FORM@,
        vaccine_reminder: WHATSAPP_VACCINE_REMINDER@,
    }
}

/// The WhatsApp texts of a document that holds none.
pub fn default_whatsapp_templates() -> (r: WhatsAppTemplate)
    ensures
        r@ == default_whatsapp(),
{
    WhatsAppTemplate {
        consent_form: String::from_str(WHATSAPP_CONSENT_FORM),
        vaccine_reminder: String::from_str(WHATSAPP_VACCINE_REMINDER),
    }
}

/// The settings of a new document.
pub open spec fn default_settings() -> SettingsView {
    SettingsView {
        business_name: DEFAULT_BUSINESS_NAME@,
        business_phone: Seq::empty(),
        auto_backup: true,
        cloud_backup: None,
        email_templates: EmailTemplateView {
            consent_form: EMAIL_CONSENT_FORM@,
            vaccine_reminder: EMAIL_VACCINE_REMINDER@,
        },
        email_subjects: EmailSubjectView {
            consent_form: SUBJECT_CONSENT_FORM@,
            vaccine_reminder: SUBJECT_VACCINE_REMINDER@,
        },
        whatsapp_templates: default_whatsapp(),
    }
}

/// The document before anything was entered.
pub open spec fn default_app_data() -> AppDataView {
    AppDataView {
        dogs: Seq::empty(),
        daily_data: Map::empty(),
        recurring_schedules: Seq::empty(),
        settings: default_settings(),
    }
}

impl Default for AppData {
    fn default() -> (r: Self)
        ensures
            r@ == default_app_data(),
    {
        let r = AppData {
            dogs: Vec::new(),
            daily_data: StrMap::new(),
            recurring_schedules: Vec::new(),
            settings: Settings {
                business_name: String::from_str(DEFAULT_BUSINESS_NAME),
                business_phone: default_business_phone(),
                auto_backup: true,
                cloud_backup: None,
                email_templates: EmailTemplate {
                    consent_form: String::from_str(EMAIL_CONSENT_FORM),
                    vaccine_reminder: String::from_str(EMAIL_VACCINE_REMINDER),
                },
                email_subjects: EmailSubject {
                    consent_form: String::from_str(SUBJECT_CONSENT_FORM),
                    vaccine_reminder: String::from_str(SUBJECT_VACCINE_REMINDER),
                },
                whatsapp_templates: default_whatsapp_templates(),
            },
        };
        assert(r@.dogs =~= Seq::empty());
        assert(r@.recurring_schedules =~= Seq::empty());
        r
    }
}

/// The ledger of a day on which nothing was entered.
pub open spec fn empty_day() -> DayDataView {
    DayDataView {
        attendance: DayAttendanceView {
            dogs: Map::empty(),
            entries: Map::empty(),
            types: Map::empty(),
        },
        records: Map::empty(),
        am_temp: None,
        pm_temp: None,
    }
}

impl DayData {
    /// The ledger of a day on which nothing was entered.
    pub fn empty() -> (r: Self)
        ensures
            r@ == empty_day(),
    {
        DayData {
            attendance: DayAttendance {
                dogs: StrMap::new(),
                entries: StrMap::new(),
                types: StrMap::new(),
            },
            records: StrMap::new(),
            am_temp: None,
            pm_temp: None,
        }
    }
}

/// A daily record in which nothing is noted.
pub open spec fn empty_record() -> DailyRecordView {
    DailyRecordView {
        checklist: None,
        feeding_times: None,
        drop_off_time: None,
        pick_up_time: None,
        notes: None,
    }
}

impl DailyRecord {
    /// A daily record in which nothing is noted.
    pub fn empty() -> (r: Self)
        ensures
            r@ == empty_record(),
    {
        DailyRecord {
            checklist: None,
            feeding_times: None,
            drop_off_time: None,
            pick_up_time: None,
            notes: None,
        }
    }
}

} // verus!
