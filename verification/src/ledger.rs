//! Reading and editing the ledger of a day and the settings by hand.

use crate::attendance::{entry_key, make_entry_key, Ledger};
use crate::model::{
    default_cloud_backup, empty_day, text_opt, AppData, AppDataView, AttendanceEntry,
    AttendanceEntryView, AttendanceType, CloudBackupConfig, CloudBackupConfigView, DailyRecord,
    DailyRecordView, DayAttendanceView, DayData, DayDataView, ServiceType, Settings,
};
use crate::strmap::{among, StrMap};
use vstd::prelude::*;

verus! {

/// The ledger of a day, or that of a day on which nothing was entered where
/// the ledger has no such day.
pub open spec fn day_or_empty(ledger: Ledger, date: Seq<char>) -> DayDataView {
    if ledger.contains_key(date) {
        ledger[date]
    } else {
        empty_day()
    }
}

/// A document with the ledger of one day replaced.
pub open spec fn with_day(doc: AppDataView, date: Seq<char>, day: DayDataView) -> AppDataView {
    AppDataView { daily_data: doc.daily_data.insert(date, day), ..doc }
}

/// Takes the ledger of a day out of the document, or makes an empty one.
fn take_day(data: &mut AppData, date: &str) -> (r: DayData)
    ensures
        r@ == day_or_empty(old(data)@.daily_data, date@),
        final(data)@ == (AppDataView {
            daily_data: old(data)@.daily_data.remove(date@),
            ..old(data)@
        }),
{
    match data.daily_data.remove(date) {
        Some(day) => day,
        None => DayData::empty(),
    }
}

/// Puts the ledger of a day into the document.
fn put_day(data: &mut AppData, date: String, day: DayData, Ghost(before): Ghost<AppDataView>)
    requires
        old(data)@ == (AppDataView { daily_data: before.daily_data.remove(date@), ..before }),
    ensures
        final(data)@ == with_day(before, date@, day@),
{
    assert(before.daily_data.remove(date@).insert(date@, day@) =~= before.daily_data.insert(
        date@,
        day@,
    ));
    data.daily_data.insert(date, day);
}

/// The entry that is entered by hand.
pub open spec fn manual_entry(
    dog_id: Seq<char>,
    service_type: ServiceType,
    attending: bool,
    drop_off_time: Option<Seq<char>>,
    pick_up_time: Option<Seq<char>>,
    notes: Option<Seq<char>>,
) -> AttendanceEntryView {
    AttendanceEntryView { dog_id, service_type, attending, drop_off_time, pick_up_time, notes }
}

/// A day after an entry was entered by hand: the entry stands under the key
/// of its dog and service, in place of what was there; for daycare the
/// older map says of the dog what the entry says.
pub open spec fn day_with_entry(day: DayDataView, entry: AttendanceEntryView) -> DayDataView {
    DayDataView {
        attendance: DayAttendanceView {
            dogs: if entry.service_type == ServiceType::Daycare {
                day.attendance.dogs.insert(entry.dog_id, entry.attending)
            } else {
                day.attendance.dogs
            },
            entries: day.attendance.entries.insert(
                entry_key(entry.dog_id, entry.service_type),
                entry,
            ),
            types: day.attendance.types,
        },
        ..day
    }
}

/// Enters by hand whether a dog attends a service on a day.
pub fn update_detailed_attendance(
    data: &mut AppData,
    date: String,
    dog_id: String,
    service_type: ServiceType,
    attending: bool,
    drop_off_time: Option<String>,
    pick_up_time: Option<String>,
    notes: Option<String>,
)
    ensures
        final(data)@ == with_day(
            old(data)@,
            date@,
            day_with_entry(
                day_or_empty(old(data)@.daily_data, date@),
                manual_entry(
                    dog_id@,
                    service_type,
                    attending,
                    text_opt(drop_off_time),
                    text_opt(pick_up_time),
                    text_opt(notes),
                ),
            ),
        ),
{
    let mut day = take_day(data, date.as_str());
    let key = make_entry_key(&dog_id, service_type);
    if service_type == ServiceType::Daycare {
        day.attendance.dogs.insert(dog_id.clone(), attending);
    }
    let entry = AttendanceEntry {
        dog_id,
        service_type,
        attending,
        drop_off_time,
        pick_up_time,
        notes,
    };
    day.attendance.entries.insert(key, entry);
    put_day(data, date, day, Ghost(old(data)@));
}

/// Enters in the older map whether a dog attends on a day.
pub fn update_attendance(data: &mut AppData, date: String, dog_id: String, attending: bool)
    ensures
        final(data)@ == with_day(
            old(data)@,
            date@,
            ({
                let day = day_or_empty(old(data)@.daily_data, date@);
                DayDataView {
                    attendance: DayAttendanceView {
                        dogs: day.attendance.dogs.insert(dog_id@, attending),
                        ..day.attendance
                    },
                    ..day
                }
            }),
        ),
{
    let mut day = take_day(data, date.as_str());
    day.attendance.dogs.insert(dog_id, attending);
    put_day(data, date, day, Ghost(old(data)@));
}

/// Enters how long a dog attends on a day.
pub fn update_attendance_type(
    data: &mut AppData,
    date: String,
    dog_id: String,
    attendance_type: AttendanceType,
)
    ensures
        final(data)@ == with_day(
            old(data)@,
            date@,
            ({
                let day = day_or_empty(old(data)@.daily_data, date@);
                DayDataView {
                    attendance: DayAttendanceView {
                        types: day.attendance.types.insert(dog_id@, attendance_type),
                        ..day.attendance
                    },
                    ..day
                }
            }),
        ),
{
    let mut day = take_day(data, date.as_str());
    day.attendance.types.insert(dog_id, attendance_type);
    put_day(data, date, day, Ghost(old(data)@));
}

/// Enters the daily record of a dog on a day, in place of what was there.
pub fn update_daily_record(data: &mut AppData, date: String, dog_id: String, record: DailyRecord)
    ensures
        final(data)@ == with_day(
            old(data)@,
            date@,
            ({
                let day = day_or_empty(old(data)@.daily_data, date@);
                DayDataView { records: day.records.insert(dog_id@, record@), ..day }
            }),
        ),
{
    let mut day = take_day(data, date.as_str());
    day.records.insert(dog_id, record);
    put_day(data, date, day, Ghost(old(data)@));
}

/// Enters the temperatures of a day; a temperature that is not given stays
/// as it was.
pub fn update_temperature(
    data: &mut AppData,
    date: String,
    am_temp: Option<String>,
    pm_temp: Option<String>,
)
    ensures
        final(data)@ == with_day(
            old(data)@,
            date@,
            ({
                let day = day_or_empty(old(data)@.daily_data, date@);
                DayDataView {
                    am_temp: if am_temp is Some {
                        text_opt(am_temp)
                    } else {
                        day.am_temp
                    },
                    pm_temp: if pm_temp is Some {
                        text_opt(pm_temp)
                    } else {
                        day.pm_temp
                    },
                    ..day
                }
            }),
        ),
{
    let mut day = take_day(data, date.as_str());
    match am_temp {
        Some(temp) => {
            day.am_temp = Some(temp);
        },
        None => {},
    }
    match pm_temp {
        Some(temp) => {
            day.pm_temp = Some(temp);
        },
        None => {},
    }
    put_day(data, date, day, Ghost(old(data)@));
}

/// The ledger of a day, if the document has one.
pub fn get_daily_data<'a>(data: &'a AppData, date: &str) -> (r: Option<&'a DayData>)
    ensures
        r is Some <==> data@.daily_data.contains_key(date@),
        r matches Some(day) ==> day@ == data@.daily_data[date@],
{
    data.daily_data.get(date)
}

/// The entries of a day; none where the ledger has no such day.
pub open spec fn attendance_on(doc: AppDataView, date: Seq<char>) -> Map<
    Seq<char>,
    AttendanceEntryView,
> {
    if doc.daily_data.contains_key(date) {
        doc.daily_data[date].attendance.entries
    } else {
        Map::empty()
    }
}

/// Copies of the entries of a map.
pub fn copy_entries(entries: &StrMap<AttendanceEntry>) -> (r: StrMap<AttendanceEntry>)
    ensures
        r@ == entries@,
{
    let keys = entries.keys();
    let mut copy: StrMap<AttendanceEntry> = StrMap::new();
    let mut i: usize = 0;
    while i < keys.len()
        invariant
            i <= keys@.len(),
            forall|j: int| 0 <= j < keys@.len() ==> entries@.contains_key((#[trigger] keys@[j])@),
            forall|k: Seq<char>| #[trigger] copy@.contains_key(k) <==> among(keys@, i as int, k),
            forall|k: Seq<char>| #[trigger] copy@.contains_key(k) ==> copy@[k] == entries@[k],
        decreases keys@.len() - i,
    {
        let key = &keys[i];
        let ghost held = copy@;
        match entries.get(key.as_str()) {
            Some(entry) => {
                copy.insert(key.clone(), entry.duplicate());
            },
            None => {},
        }
        proof {
            let kk = keys@[i as int]@;
            assert(among(keys@, i + 1, kk));
            assert forall|k: Seq<char>| #[trigger] copy@.contains_key(k) <==> among(
                keys@,
                i + 1,
                k,
            ) by {
                if k != kk {
                    assert(copy@.contains_key(k) == held.contains_key(k));
                    if among(keys@, i + 1, k) {
                        let j = choose|j: int| 0 <= j < i + 1 && (#[trigger] keys@[j])@ == k;
                        assert(j != i);
                        assert(among(keys@, i as int, k));
                    }
                    if among(keys@, i as int, k) {
                        let j = choose|j: int| 0 <= j < i && (#[trigger] keys@[j])@ == k;
                        assert(among(keys@, i + 1, k));
                    }
                }
            }
        }
        i = i + 1;
    }
    assert(copy@ =~= entries@);
    copy
}

/// The entries of a day; none where the ledger has no such day.
pub fn get_attendance_for_date(data: &AppData, date: &str) -> (r: StrMap<AttendanceEntry>)
    ensures
        r@ == attendance_on(data@, date@),
{
    match data.daily_data.get(date) {
        Some(day) => copy_entries(&day.attendance.entries),
        None => StrMap::new(),
    }
}

/// The settings of the document.
pub fn get_settings(data: &AppData) -> (r: &Settings)
    ensures
        r@ == data@.settings,
{
    &data.settings
}

/// Replaces the settings of the document.
pub fn update_settings(data: &mut AppData, settings: Settings)
    ensures
        final(data)@ == (AppDataView { settings: settings@, ..old(data)@ }),
{
    data.settings = settings;
}

/// The backup configuration of the document, or the default one where it
/// has none.
pub fn get_cloud_backup_config(data: &AppData) -> (r: CloudBackupConfig)
    ensures
        r@ == (match data@.settings.cloud_backup {
            Some(config) => config,
            None => default_cloud_backup(),
        }),
{
    match &data.settings.cloud_backup {
        Some(config) => config.duplicate(),
        None => CloudBackupConfig::default(),
    }
}

/// Replaces the backup configuration of the document.
pub fn update_cloud_backup_config(data: &mut AppData, config: CloudBackupConfig)
    ensures
        final(data)@.settings.cloud_backup == Some(config@),
        final(data)@ == (AppDataView {
            settings: crate::model::SettingsView {
                cloud_backup: Some(config@),
                ..old(data)@.settings
            },
            ..old(data)@
        }),
{
    data.settings.cloud_backup = Some(config);
}

} // verus!
