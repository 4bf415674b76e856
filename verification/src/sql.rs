//! The steps that bring the tables of the relational store to their shape.

use vstd::prelude::*;
use vstd::string::*;

verus! {

/// What the first step does: it creates the tables and the default
/// settings.
pub const INITIAL_TABLES: &'static str = r#"
                -- Dogs table
                CREATE TABLE dogs (
                    id TEXT PRIMARY KEY,
                    name TEXT NOT NULL,
                    owner TEXT NOT NULL,
                    phone TEXT NOT NULL,
                    email TEXT NOT NULL,
                    breed TEXT NOT NULL,
                    age TEXT NOT NULL,
                    vaccine_date TEXT,
                    consent_last_signed TEXT,
                    emergency_contact TEXT,
                    emergency_phone TEXT,
                    medical_conditions TEXT,
                    dietary_restrictions TEXT,
                    behavioral_notes TEXT,
                    photo_url TEXT,
                    is_active INTEGER NOT NULL DEFAULT 1,
                    created_at TEXT NOT NULL DEFAULT (datetime('now')),
                    updated_at TEXT
                );

                -- Daily records table
                CREATE TABLE daily_records (
                    id TEXT PRIMARY KEY,
                    dog_id TEXT NOT NULL,
                    date TEXT NOT NULL,
                    checklist TEXT, -- JSON
                    feeding_times TEXT,
                    drop_off_time TEXT,
                    pick_up_time TEXT,
                    notes TEXT,
                    created_at TEXT NOT NULL DEFAULT (datetime('now')),
                    updated_at TEXT,
                    FOREIGN KEY (dog_id) REFERENCES dogs(id) ON DELETE CASCADE,
                    UNIQUE(dog_id, date)
                );

                -- Day data table
                CREATE TABLE day_data (
                    id TEXT PRIMARY KEY,
                    date TEXT UNIQUE NOT NULL,
                    attendance TEXT NOT NULL, -- JSON
                    am_temp TEXT,
                    pm_temp TEXT,
                    created_at TEXT NOT NULL DEFAULT (datetime('now')),
                    updated_at TEXT
                );

                -- Settings table
                CREATE TABLE settings (
                    id TEXT PRIMARY KEY,
                    business_name TEXT NOT NULL,
                    business_phone TEXT NOT NULL,
                    business_email TEXT,
                    business_address TEXT,
                    auto_backup INTEGER NOT NULL DEFAULT 0,
                    cloud_backup_config TEXT, -- JSON
                    email_templates TEXT, -- JSON
                    email_subjects TEXT, -- JSON
                    whatsapp_templates TEXT, -- JSON
                    notification_settings TEXT, -- JSON
                    created_at TEXT NOT NULL DEFAULT (datetime('now')),
                    updated_at TEXT
                );

                -- Sync operations table for offline support
                CREATE TABLE sync_operations (
                    id TEXT PRIMARY KEY,
                    operation_type TEXT NOT NULL, -- CREATE, UPDATE, DELETE
                    entity_type TEXT NOT NULL, -- dog, daily_record, day_data, settings
                    entity_data TEXT NOT NULL, -- JSON
                    created_at TEXT NOT NULL DEFAULT (datetime('now')),
                    retries INTEGER NOT NULL DEFAULT 0,
                    max_retries INTEGER NOT NULL DEFAULT 3,
                    last_attempt TEXT,
                    status TEXT NOT NULL DEFAULT 'pending' -- pending, processing, completed, failed
                );

                -- Create indexes for better performance
                CREATE INDEX idx_dogs_active ON dogs(is_active);
                CREATE INDEX idx_dogs_owner ON dogs(owner);
                CREATE INDEX idx_daily_records_date ON daily_records(date);
                CREATE INDEX idx_daily_records_dog_date ON daily_records(dog_id, date);
                CREATE INDEX idx_day_data_date ON day_data(date);
                CREATE INDEX idx_sync_operations_status ON sync_operations(status);
                CREATE INDEX idx_sync_operations_entity ON sync_operations(entity_type);

                -- Insert default settings
                INSERT INTO settings (
                    id, 
                    business_name, 
                    business_phone,
                    email_templates,
                    email_subjects,
                    whatsapp_templates,
                    cloud_backup_config,
                    notification_settings
                ) VALUES (
                    'default',
                    'Your Doggy Daycare',
                    '',
                    '{"consent_form": "Dear {ownerName},\n\nThis is a reminder that {dogName}''s monthly consent form needs to be renewed.\n\nPlease bring the signed form during your next visit.\n\nThank you!", "vaccine_reminder": "Dear {ownerName},\n\n{dogName}''s {vaccineType} vaccination expires on {expirationDate}.\n\nPlease schedule an appointment with your veterinarian.\n\nThank you!"}',
                    '{"consent_form": "Monthly Consent Form Renewal Required", "vaccine_reminder": "Vaccination Reminder for {dogName}"}',
                    '{"consent_form": "Hi {ownerName}, this is a reminder that {dogName}''s monthly consent form needs renewal. Please bring it during your next visit. Thanks!", "vaccine_reminder": "Hi {ownerName}, {dogName}''s {vaccineType} vaccination expires on {expirationDate}. Please schedule a vet appointment. Thanks!"}',
                    '{"enabled": false, "cloud_directory": "", "max_backups": 100, "sync_interval_minutes": 30, "auto_sync_on_startup": true}',
                    '{"email_enabled": true, "whatsapp_enabled": true, "desktop_notifications": true, "reminder_advance_days": 7}'
                );
            "#;

/// What undoes the first step.
pub const DROP_TABLES: &'static str = r#"
                DROP TABLE IF EXISTS sync_operations;
                DROP TABLE IF EXISTS settings;
                DROP TABLE IF EXISTS day_data;
                DROP TABLE IF EXISTS daily_records;
                DROP TABLE IF EXISTS dogs;
            "#;

/// What the first step is called.
pub const INITIAL_DESCRIPTION: &'static str = "Create initial tables";

/// A step in the history of the tables: its number, what it is called, the
/// statements that make it and those that undo it.
#[derive(Clone, Debug)]
pub struct Migration {
    pub version: i64,
    pub description: String,
    pub up: String,
    pub down: String,
}

/// What a [`Migration`] holds, as mathematical values.
pub struct MigrationView {
    pub version: i64,
    pub description: Seq<char>,
    pub up: Seq<char>,
    pub down: Seq<char>,
}

impl View for Migration {
    type V = MigrationView;

    open spec fn view(&self) -> MigrationView {
        MigrationView {
            version: self.version,
            description: self.description@,
            up: self.up@,
            down: self.down@,
        }
    }
}

/// The views of a list of steps.
pub open spec fn migration_views(steps: Seq<Migration>) -> Seq<MigrationView> {
    Seq::new(steps.len(), |i: int| steps[i]@)
}

/// All steps, in the order of their numbers: so far the one that creates
/// the tables.
pub open spec fn all_migrations() -> Seq<MigrationView> {
    seq![
        MigrationView {
            version: 1,
            description: INITIAL_DESCRIPTION@,
            up: INITIAL_TABLES@,
            down: DROP_TABLES@,
        },
    ]
}

/// All steps, in the order of their numbers.
pub fn get_migrations() -> (r: Vec<Migration>)
    ensures
        migration_views(r@) == all_migrations(),
{
    let mut steps: Vec<Migration> = Vec::new();
    steps.push(
        Migration {
            version: 1,
            description: String::from_str(INITIAL_DESCRIPTION),
            up: String::from_str(INITIAL_TABLES),
            down: String::from_str(DROP_TABLES),
        },
    );
    assert(migration_views(steps@) =~= all_migrations());
    steps
}

/// Of the first `n` steps, those with a number above `current_version`.
pub open spec fn steps_above(steps: Seq<MigrationView>, current_version: i64, n: nat) -> Seq<
    MigrationView,
>
    decreases n,
{
    if n == 0 {
        Seq::empty()
    } else {
        let before = steps_above(steps, current_version, (n - 1) as nat);
        if steps[n - 1].version > current_version {
            before.push(steps[n - 1])
        } else {
            before
        }
    }
}

/// The steps that are still to be made on tables that stand at
/// `current_version`: those with a higher number, in their order.
pub fn pending_migrations(current_version: i64) -> (r: Vec<Migration>)
    ensures
        migration_views(r@) == steps_above(
            all_migrations(),
            current_version,
            all_migrations().len(),
        ),
{
    let steps = get_migrations();
    let ghost views = migration_views(steps@);
    let mut pending: Vec<Migration> = Vec::new();
    assert(migration_views(pending@) =~= steps_above(views, current_version, 0));
    let mut i: usize = 0;
    while i < steps.len()
        invariant
            views == migration_views(steps@),
            i <= steps@.len(),
            migration_views(pending@) == steps_above(views, current_version, i as nat),
        decreases steps@.len() - i,
    {
        let ghost before = migration_views(pending@);
        assert(views[i as int] == steps@[i as int]@);
        if steps[i].version > current_version {
            pending.push(
                Migration {
                    version: steps[i].version,
                    description: steps[i].description.clone(),
                    up: steps[i].up.clone(),
                    down: steps[i].down.clone(),
                },
            );
            assert(migration_views(pending@) =~= before.push(views[i as int]));
        }
        i = i + 1;
    }
    pending
}

} // verus!
