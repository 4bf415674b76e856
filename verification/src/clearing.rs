//! Taking entries out of the ledger: a dog's attendance from a day on, and
//! the entries that schedules made.

use crate::attendance::{entry_key, make_entry_key, service_name, Ledger};
use crate::date::{parse_date, parsed_date, today, Date};
use crate::error::AppError;
use crate::model::{
    text_opt, AppData, AppDataView, AttendanceEntry, AttendanceEntryView, DayAttendanceView,
    DayData, DayDataView, ServiceType,
};
use crate::strmap::{among, StrMap};
use crate::text::{contains_text, has_part};
use vstd::prelude::*;
use vstd::string::*;

verus! {

/// Whether `key` is the key of an entry of the dog, for one of the three
/// services.
pub open spec fn is_entry_of(key: Seq<char>, dog_id: Seq<char>) -> bool {
    key == entry_key(dog_id, ServiceType::Daycare) || key == entry_key(
        dog_id,
        ServiceType::Training,
    ) || key == entry_key(dog_id, ServiceType::Boarding)
}

/// The keys that are not of an entry of the dog.
pub open spec fn keys_of_others(dog_id: Seq<char>) -> Set<Seq<char>> {
    Set::new(|key: Seq<char>| !is_entry_of(key, dog_id))
}

/// A day without the attendance of a dog: without the dog's entries for the
/// three services, and without the dog in the older map.
pub open spec fn day_without_dog(day: DayDataView, dog_id: Seq<char>) -> DayDataView {
    DayDataView {
        attendance: DayAttendanceView {
            dogs: day.attendance.dogs.remove(dog_id),
            entries: day.attendance.entries.restrict(keys_of_others(dog_id)),
            types: day.attendance.types,
        },
        ..day
    }
}

/// The key of a day is a date, and it is `from` or a later day.
pub open spec fn is_from(key: Seq<char>, from: Date) -> bool {
    parsed_date(key) matches Some(date) && !date.before(from)
}

/// The ledger without the attendance of a dog on `from` and every later
/// day. Earlier days, and days whose key is no date, stay as they are.
pub open spec fn cleared_from(ledger: Ledger, dog_id: Seq<char>, from: Date) -> Ledger {
    Map::new(
        |key: Seq<char>| ledger.contains_key(key),
        |key: Seq<char>|
            if is_from(key, from) {
                day_without_dog(ledger[key], dog_id)
            } else {
                ledger[key]
            },
    )
}

/// Takes the attendance of a dog out of a day.
pub fn clear_dog_from_day(day: &mut DayData, dog_id: &String)
    ensures
        final(day)@ == day_without_dog(old(day)@, dog_id@),
{
    let daycare = make_entry_key(dog_id, ServiceType::Daycare);
    let training = make_entry_key(dog_id, ServiceType::Training);
    let boarding = make_entry_key(dog_id, ServiceType::Boarding);
    day.attendance.entries.remove(daycare.as_str());
    day.attendance.entries.remove(training.as_str());
    day.attendance.entries.remove(boarding.as_str());
    day.attendance.dogs.remove(dog_id.as_str());
    assert(day@.attendance.entries =~= old(day)@.attendance.entries.restrict(
        keys_of_others(dog_id@),
    ));
}

/// Takes the attendance of a dog out of the ledger on `from` and every
/// later day.
pub fn clear_attendance_from(data: &mut AppData, dog_id: &String, from: Date)
    ensures
        final(data)@ == (AppDataView {
            daily_data: cleared_from(old(data)@.daily_data, dog_id@, from),
            ..old(data)@
        }),
{
    let keys = data.daily_data.keys();
    let ghost before = data@.daily_data;
    let mut i: usize = 0;
    while i < keys.len()
        invariant
            i <= keys@.len(),
            data.dogs == old(data).dogs,
            data.recurring_schedules == old(data).recurring_schedules,
            data.settings == old(data).settings,
            forall|k: Seq<char>| #[trigger] before.contains_key(k) ==> among(keys@, keys@.len() as int, k),
            forall|j: int| 0 <= j < keys@.len() ==> before.contains_key((#[trigger] keys@[j])@),
            forall|k: Seq<char>|
                #![trigger data@.daily_data.contains_key(k)]
                #![trigger before.contains_key(k)]
                data@.daily_data.contains_key(k) <==> before.contains_key(k),
            forall|k: Seq<char>| #[trigger]
                before.contains_key(k) ==> data@.daily_data[k] == (if is_from(k, from) && among(
                    keys@,
                    i as int,
                    k,
                ) {
                    day_without_dog(before[k], dog_id@)
                } else {
                    before[k]
                }),
        decreases keys@.len() - i,
    {
        let key = &keys[i];
        let ghost held = data@.daily_data;
        let due = match parse_date(key.as_str()) {
            Some(date) => !date.is_before(&from),
            None => false,
        };
        if due {
            match data.daily_data.remove(key.as_str()) {
                Some(taken) => {
                    let mut day = taken;
                    clear_dog_from_day(&mut day, dog_id);
                    data.daily_data.insert(key.clone(), day);
                },
                None => {},
            }
        }
        proof {
            let kk = keys@[i as int]@;
            assert(kk == key@);
            assert(before.contains_key(kk));
            assert(among(keys@, i + 1, kk));
            assert(due == is_from(kk, from));
            lemma_clear_twice(before[kk], dog_id@);
            assert(data@.daily_data[kk] == (if is_from(kk, from) {
                day_without_dog(before[kk], dog_id@)
            } else {
                before[kk]
            }));
            assert forall|k: Seq<char>| #[trigger] before.contains_key(k) implies data@.daily_data[k] == (
            if is_from(k, from) && among(keys@, i + 1, k) {
                day_without_dog(before[k], dog_id@)
            } else {
                before[k]
            }) by {
                if k != kk {
                    assert(data@.daily_data[k] == held[k]);
                    if among(keys@, i + 1, k) {
                        let j = choose|j: int| 0 <= j < i + 1 && (#[trigger] keys@[j])@ == k;
                        assert(j != i);
                        assert(among(keys@, i as int, k));
                    }
                    if among(keys@, i as int, k) {
                        let j = choose|j: int| 0 <= j < i && (#[trigger] keys@[j])@ == k;
                        assert(among(keys@, i + 1, k));
                    }
                }
            }
        }
        i = i + 1;
    }
    assert(data@.daily_data =~= cleared_from(before, dog_id@, from));
}

/// Taking a dog out of a day a second time changes nothing.
pub proof fn lemma_clear_twice(day: DayDataView, dog_id: Seq<char>)
    ensures
        day_without_dog(day_without_dog(day, dog_id), dog_id) == day_without_dog(day, dog_id),
{
    let once = day_without_dog(day, dog_id);
    let keep = keys_of_others(dog_id);
    assert(once.attendance.entries.restrict(keep) =~= once.attendance.entries);
    assert(once.attendance.dogs.remove(dog_id) =~= once.attendance.dogs);
}

/// The key of an entry tells its dog and its service: two keys are the
/// same only for the same dog and the same service.
pub proof fn lemma_key_tells_dog(
    dog_id: Seq<char>,
    service: ServiceType,
    other: Seq<char>,
    other_service: ServiceType,
)
    requires
        entry_key(dog_id, service) == entry_key(other, other_service),
    ensures
        dog_id == other,
        service == other_service,
{
    reveal_strlit("_");
    reveal_strlit("Daycare");
    reveal_strlit("Training");
    reveal_strlit("Boarding");
    let key = entry_key(dog_id, service);
    let name = service_name(service);
    let other_name = service_name(other_service);
    assert(key.len() == dog_id.len() + 1 + name.len());
    assert(key.len() == other.len() + 1 + other_name.len());
    assert(key[key.len() - 1] == name[name.len() - 1]);
    assert(key[key.len() - 1] == other_name[other_name.len() - 1]);
    assert(key[dog_id.len() as int + 1] == name[0]);
    assert(key[other.len() as int + 1] == other_name[0]);
    assert(service == other_service);
    assert(dog_id =~= key.subrange(0, dog_id.len() as int));
    assert(other =~= key.subrange(0, other.len() as int));
}

/// Clearing a dog's attendance leaves every other dog alone: on every day
/// the entries of another dog, and its mark in the older map, are as they
/// were, and so is the rest of the day.
pub proof fn lemma_clearing_keeps_others(
    ledger: Ledger,
    dog_id: Seq<char>,
    from: Date,
    day: Seq<char>,
    other: Seq<char>,
    service: ServiceType,
)
    requires
        other != dog_id,
        ledger.contains_key(day),
    ensures
        cleared_from(ledger, dog_id, from).contains_key(day),
        ({
            let before = ledger[day];
            let after = cleared_from(ledger, dog_id, from)[day];
            let key = entry_key(other, service);
            &&& after.attendance.entries.contains_key(key) == before.attendance.entries.contains_key(
                key,
            )
            &&& before.attendance.entries.contains_key(key) ==> after.attendance.entries[key]
                == before.attendance.entries[key]
            &&& after.attendance.dogs.contains_key(other) == before.attendance.dogs.contains_key(
                other,
            )
            &&& before.attendance.dogs.contains_key(other) ==> after.attendance.dogs[other]
                == before.attendance.dogs[other]
            &&& after.attendance.types == before.attendance.types
            &&& after.records == before.records
            &&& after.am_temp == before.am_temp
            &&& after.pm_temp == before.pm_temp
        }),
{
    let key = entry_key(other, service);
    if is_entry_of(key, dog_id) {
        if key == entry_key(dog_id, ServiceType::Daycare) {
            lemma_key_tells_dog(other, service, dog_id, ServiceType::Daycare);
        } else if key == entry_key(dog_id, ServiceType::Training) {
            lemma_key_tells_dog(other, service, dog_id, ServiceType::Training);
        } else {
            lemma_key_tells_dog(other, service, dog_id, ServiceType::Boarding);
        }
    }
}

/// Takes the attendance of a dog out of the ledger from today on. Whatever
/// day today is, the ledger is cleared from that day on.
pub fn clear_future_attendance_for_dog(data: &mut AppData, dog_id: &String) -> (r: Result<
    (),
    AppError,
>)
    ensures
        r is Ok,
        exists|day: Date|
            day.wf() && final(data)@ == (AppDataView {
                daily_data: #[trigger] cleared_from(old(data)@.daily_data, dog_id@, day),
                ..old(data)@
            }),
{
    let day = today();
    clear_attendance_from(data, dog_id, day);
    Ok(())
}

/// Whether a note marks an entry as made by a schedule.
pub open spec fn is_auto_note(note: Option<Seq<char>>) -> bool {
    match note {
        Some(text) => contains_text(text, "Auto-generated"@) || contains_text(
            text,
            "Scheduled (not confirmed)"@,
        ) || contains_text(text, "Auto-scheduled"@),
        None => false,
    }
}

/// The keys of the entries that no schedule made.
pub open spec fn manual_keys(entries: Map<Seq<char>, AttendanceEntryView>) -> Set<Seq<char>> {
    Set::new(|key: Seq<char>| entries.contains_key(key) && !is_auto_note(entries[key].notes))
}

/// A day without the entries that schedules made.
pub open spec fn day_without_auto(day: DayDataView) -> DayDataView {
    DayDataView {
        attendance: DayAttendanceView {
            entries: day.attendance.entries.restrict(manual_keys(day.attendance.entries)),
            ..day.attendance
        },
        ..day
    }
}

/// The ledger without the entries that schedules made.
pub open spec fn without_auto(ledger: Ledger) -> Ledger {
    Map::new(|key: Seq<char>| ledger.contains_key(key), |key: Seq<char>| day_without_auto(ledger[key]))
}

/// Whether a note marks an entry as made by a schedule.
pub fn auto_note(note: &Option<String>) -> (r: bool)
    ensures
        r == is_auto_note(text_opt(*note)),
{
    match note {
        Some(text) => has_part(text.as_str(), "Auto-generated") || has_part(
            text.as_str(),
            "Scheduled (not confirmed)",
        ) || has_part(text.as_str(), "Auto-scheduled"),
        None => false,
    }
}

/// Takes out of `entries` the entries that schedules made.
pub fn remove_auto_entries(entries: &mut StrMap<AttendanceEntry>)
    ensures
        final(entries)@ == old(entries)@.restrict(manual_keys(old(entries)@)),
{
    let keys = entries.keys();
    let ghost before = entries@;
    let mut i: usize = 0;
    while i < keys.len()
        invariant
            i <= keys@.len(),
            forall|k: Seq<char>| #[trigger] before.contains_key(k) ==> among(keys@, keys@.len() as int, k),
            forall|k: Seq<char>|
                #![trigger entries@.contains_key(k)]
                #![trigger before.contains_key(k)]
                entries@.contains_key(k) <==> before.contains_key(k) && !(is_auto_note(
                    before[k].notes,
                ) && among(keys@, i as int, k)),
            forall|k: Seq<char>| #[trigger] entries@.contains_key(k) ==> entries@[k] == before[k],
        decreases keys@.len() - i,
    {
        let key = &keys[i];
        let ghost held = entries@;
        let auto = match entries.get(key.as_str()) {
            Some(entry) => auto_note(&entry.notes),
            None => false,
        };
        if auto {
            entries.remove(key.as_str());
        }
        proof {
            let kk = keys@[i as int]@;
            assert(kk == key@);
            assert(among(keys@, i + 1, kk));
            assert(held.contains_key(kk) <==> before.contains_key(kk) && !(is_auto_note(
                before[kk].notes,
            ) && among(keys@, i as int, kk)));
            assert(held.contains_key(kk) ==> held[kk] == before[kk]);
            assert(held.contains_key(kk) ==> auto == is_auto_note(before[kk].notes));
            assert(!held.contains_key(kk) ==> !auto);
            assert(entries@ == (if auto {
                held.remove(kk)
            } else {
                held
            }));
            assert forall|k: Seq<char>|
                #![trigger entries@.contains_key(k)]
                #![trigger before.contains_key(k)]
                entries@.contains_key(k) <==> before.contains_key(k) && !(is_auto_note(
                    before[k].notes,
                ) && among(keys@, i + 1, k)) by {
                if k != kk {
                    assert(entries@.contains_key(k) == held.contains_key(k));
                    if among(keys@, i + 1, k) {
                        let j = choose|j: int| 0 <= j < i + 1 && (#[trigger] keys@[j])@ == k;
                        assert(j != i);
                        assert(among(keys@, i as int, k));
                    }
                    if among(keys@, i as int, k) {
                        let j = choose|j: int| 0 <= j < i && (#[trigger] keys@[j])@ == k;
                        assert(among(keys@, i + 1, k));
                    }
                }
            }
        }
        i = i + 1;
    }
    assert(entries@ =~= before.restrict(manual_keys(before)));
}

/// Takes out of the whole ledger the entries that schedules made: those
/// whose note says so. Entries made by hand stay, and so does all else.
pub fn clear_auto_generated_attendance(data: &mut AppData) -> (r: Result<(), AppError>)
    ensures
        r is Ok,
        final(data)@ == (AppDataView {
            daily_data: without_auto(old(data)@.daily_data),
            ..old(data)@
        }),
{
    let keys = data.daily_data.keys();
    let ghost before = data@.daily_data;
    let mut i: usize = 0;
    while i < keys.len()
        invariant
            i <= keys@.len(),
            data.dogs == old(data).dogs,
            data.recurring_schedules == old(data).recurring_schedules,
            data.settings == old(data).settings,
            forall|k: Seq<char>| #[trigger] before.contains_key(k) ==> among(keys@, keys@.len() as int, k),
            forall|k: Seq<char>|
                #![trigger data@.daily_data.contains_key(k)]
                #![trigger before.contains_key(k)]
                data@.daily_data.contains_key(k) <==> before.contains_key(k),
            forall|k: Seq<char>| #[trigger]
                before.contains_key(k) ==> data@.daily_data[k] == (if among(keys@, i as int, k) {
                    day_without_auto(before[k])
                } else {
                    before[k]
                }),
        decreases keys@.len() - i,
    {
        let key = &keys[i];
        let ghost was_among = among(keys@, i as int, key@);
        match data.daily_data.remove(key.as_str()) {
            Some(taken) => {
                let mut day = taken;
                remove_auto_entries(&mut day.attendance.entries);
                data.daily_data.insert(key.clone(), day);
            },
            None => {},
        }
        proof {
            assert(keys@[i as int]@ == key@);
            assert forall|k: Seq<char>| #[trigger] before.contains_key(k) implies data@.daily_data[k] == (
            if among(keys@, i + 1, k) {
                day_without_auto(before[k])
            } else {
                before[k]
            }) by {
                if among(keys@, i + 1, k) {
                    let j = choose|j: int| 0 <= j < i + 1 && (#[trigger] keys@[j])@ == k;
                    if j < i {
                        assert(among(keys@, i as int, k));
                    }
                }
                if among(keys@, i as int, k) {
                    assert(among(keys@, i + 1, k));
                }
                if k == key@ {
                    assert(among(keys@, i + 1, k));
                    if was_among {
                        lemma_without_auto_twice(before[k]);
                    }
                }
            }
        }
        i = i + 1;
    }
    assert(data@.daily_data =~= without_auto(before));
    Ok(())
}

/// Taking the entries of schedules out of a day a second time changes
/// nothing.
pub proof fn lemma_without_auto_twice(day: DayDataView)
    ensures
        day_without_auto(day_without_auto(day)) == day_without_auto(day),
{
    let once = day_without_auto(day);
    assert(once.attendance.entries.restrict(manual_keys(once.attendance.entries))
        =~= once.attendance.entries);
}

} // verus!
