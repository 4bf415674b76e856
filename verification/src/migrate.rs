//! Bringing the tree of an older document into today's shape.
//!
//! Each step adds what a later version of the document introduced, with a
//! default, and leaves what is there as it is. A step finds nothing to do on
//! a tree that has not the shape it expects, and leaves it unchanged.

use crate::json::{
    lemma_member_position, member_position, lemma_member_pushed, lemma_member_removed, lemma_member_set,
    copy_members, field, find_member, item_views, lemma_views, member, member_views, set_member,
    with_member, without_member, remove_member, JsonMember, JsonTree, JsonValue, Members,
};
use crate::model::{WHATSAPP_CONSENT_FORM, WHATSAPP_VACCINE_REMINDER};
use vstd::prelude::*;
use vstd::string::*;

verus! {

/// The note on an entry that was made from the older map of a day.
pub const MIGRATED_NOTE: &'static str = "Migrated from legacy attendance";

/// The members with `value` under `key` added at the end, unless they have
/// the key.
pub open spec fn defaulted(members: Members, key: Seq<char>, value: JsonTree) -> Members {
    if member(members, key) is None {
        members.push((key, value))
    } else {
        members
    }
}

/// The WhatsApp texts that a document without them gets.
pub open spec fn whatsapp_tree() -> JsonTree {
    JsonTree::Object(
        seq![
            ("consent_form"@, JsonTree::Text(WHATSAPP_CONSENT_FORM@)),
            ("vaccine_reminder"@, JsonTree::Text(WHATSAPP_VACCINE_REMINDER@)),
        ],
    )
}

/// The settings with a business phone and WhatsApp texts: those they have,
/// or an empty phone and the default texts.
pub open spec fn migrated_settings(settings: JsonTree) -> JsonTree {
    match settings {
        JsonTree::Object(members) => JsonTree::Object(
            defaulted(
                defaulted(members, "business_phone"@, JsonTree::Text(Seq::empty())),
                "whatsapp_templates"@,
                whatsapp_tree(),
            ),
        ),
        _ => settings,
    }
}

/// The schedule that a dog without one gets: an inactive one, with no
/// weekday for any service and no times.
pub open spec fn schedule_tree() -> JsonTree {
    JsonTree::Object(
        seq![
            ("daycare_days"@, JsonTree::Array(Seq::empty())),
            ("training_days"@, JsonTree::Array(Seq::empty())),
            ("boarding_days"@, JsonTree::Array(Seq::empty())),
            ("daycare_drop_off"@, JsonTree::Null),
            ("daycare_pick_up"@, JsonTree::Null),
            ("training_drop_off"@, JsonTree::Null),
            ("training_pick_up"@, JsonTree::Null),
            ("active"@, JsonTree::Bool(false)),
        ],
    )
}

/// The members of a dog without an age that stands for a date of birth: a
/// dog that has an age and no date of birth loses the age and gets an empty
/// date of birth.
pub open spec fn without_age(members: Members) -> Members {
    if member(members, "age"@) is Some && member(members, "date_of_birth"@) is None {
        with_member(without_member(members, "age"@), "date_of_birth"@, JsonTree::Null)
    } else {
        members
    }
}

/// A dog in today's shape: without an age in place of a date of birth, and
/// with a schedule.
pub open spec fn migrated_dog(dog: JsonTree) -> JsonTree {
    match dog {
        JsonTree::Object(members) => JsonTree::Object(
            defaulted(without_age(members), "schedule"@, schedule_tree()),
        ),
        _ => dog,
    }
}

/// The dogs, each in today's shape.
pub open spec fn migrated_dogs(dogs: JsonTree) -> JsonTree {
    match dogs {
        JsonTree::Array(items) => JsonTree::Array(
            Seq::new(items.len(), |i: int| migrated_dog(items[i])),
        ),
        _ => dogs,
    }
}

/// The record of a dog among the records of a day.
pub open spec fn record_of(records: Option<JsonTree>, dog_id: Seq<char>) -> Option<JsonTree> {
    match records {
        Some(all) => field(all, dog_id),
        None => None,
    }
}

/// The members of an entry with the time that a record names under `key`.
pub open spec fn with_time(members: Members, record: Option<JsonTree>, key: Seq<char>) -> Members {
    match record {
        Some(r) => match field(r, key) {
            Some(time) => with_member(members, key, time),
            None => members,
        },
        None => members,
    }
}

/// The entry made for a dog that the older map of a day marks as attending:
/// a daycare entry, with the times of the dog's record of that day.
pub open spec fn legacy_entry(dog_id: Seq<char>, records: Option<JsonTree>) -> JsonTree {
    let base = seq![
        ("dog_id"@, JsonTree::Text(dog_id)),
        ("service_type"@, JsonTree::Text("Daycare"@)),
        ("attending"@, JsonTree::Bool(true)),
        ("notes"@, JsonTree::Text(MIGRATED_NOTE@)),
    ];
    let record = record_of(records, dog_id);
    JsonTree::Object(with_time(with_time(base, record, "drop_off_time"@), record, "pick_up_time"@))
}

/// The entries made from the first `n` dogs of the older map of a day: one
/// for each dog that it marks as attending.
pub open spec fn legacy_entries(dogs: Members, records: Option<JsonTree>, n: nat) -> Members
    decreases n,
{
    if n == 0 {
        Seq::empty()
    } else {
        let before = legacy_entries(dogs, records, (n - 1) as nat);
        if dogs[n - 1].1 == JsonTree::Bool(true) {
            with_member(before, dogs[n - 1].0 + "_Daycare"@, legacy_entry(dogs[n - 1].0, records))
        } else {
            before
        }
    }
}

/// The attendance of a day with entries: those it has, or those made from
/// its older map.
pub open spec fn migrated_attendance(attendance: JsonTree, records: Option<JsonTree>) -> JsonTree {
    match attendance {
        JsonTree::Object(members) => if member(members, "entries"@) is None {
            let entries = match member(members, "dogs"@) {
                Some(JsonTree::Object(dogs)) => legacy_entries(dogs, records, dogs.len()),
                _ => Seq::empty(),
            };
            JsonTree::Object(members.push(("entries"@, JsonTree::Object(entries))))
        } else {
            attendance
        },
        _ => attendance,
    }
}

/// A day in today's shape: its attendance has entries.
pub open spec fn migrated_day(day: JsonTree) -> JsonTree {
    match day {
        JsonTree::Object(members) => match member(members, "attendance"@) {
            Some(attendance) => JsonTree::Object(
                with_member(
                    members,
                    "attendance"@,
                    migrated_attendance(attendance, member(members, "records"@)),
                ),
            ),
            None => day,
        },
        _ => day,
    }
}

/// The ledger, each day in today's shape.
pub open spec fn migrated_daily_data(ledger: JsonTree) -> JsonTree {
    match ledger {
        JsonTree::Object(days) => JsonTree::Object(
            Seq::new(days.len(), |i: int| (days[i].0, migrated_day(days[i].1))),
        ),
        _ => ledger,
    }
}

/// The members with the value under `key` replaced by what `step` makes of
/// it; unchanged where they have no such key.
pub open spec fn stepped(members: Members, key: Seq<char>, step: spec_fn(JsonTree) -> JsonTree) -> Members {
    match member(members, key) {
        Some(value) => with_member(members, key, step(value)),
        None => members,
    }
}

/// The whole document in today's shape: the settings, the dogs and the
/// ledger each migrated, and with a list of schedules, empty where it had
/// none.
pub open spec fn migrated_document(document: JsonTree) -> JsonTree {
    match document {
        JsonTree::Object(members) => {
            let with_settings = stepped(
                members,
                "settings"@,
                |t: JsonTree| migrated_settings(t),
            );
            let with_dogs = stepped(with_settings, "dogs"@, |t: JsonTree| migrated_dogs(t));
            let with_schedules = defaulted(
                with_dogs,
                "recurring_schedules"@,
                JsonTree::Array(Seq::empty()),
            );
            JsonTree::Object(
                stepped(with_schedules, "daily_data"@, |t: JsonTree| migrated_daily_data(t)),
            )
        },
        _ => document,
    }
}

/// Adds `value` under `key` at the end, unless the members have the key.
pub fn add_default(members: &mut Vec<JsonMember>, key: &str, value: JsonValue)
    ensures
        member_views(*final(members)) == defaulted(member_views(*old(members)), key@, value@),
{
    let ghost before = member_views(*members);
    let ghost view = value@;
    if find_member(members, key) >= members.len() {
        members.push(JsonMember::new(key, value));
        assert(member_views(*members) =~= before.push((key@, view)));
    }
}

/// The WhatsApp texts that a document without them gets.
pub fn default_whatsapp_value() -> (r: JsonValue)
    ensures
        r@ == whatsapp_tree(),
{
    let mut members: Vec<JsonMember> = Vec::new();
    members.push(JsonMember::new("consent_form", JsonValue::text(WHATSAPP_CONSENT_FORM)));
    members.push(JsonMember::new("vaccine_reminder", JsonValue::text(WHATSAPP_VACCINE_REMINDER)));
    assert(member_views(members) =~= whatsapp_tree()->Object_0);
    JsonValue::object(members)
}

/// The settings with a business phone and WhatsApp texts.
pub fn settings_migrated(settings: &JsonValue) -> (r: JsonValue)
    ensures
        r@ == migrated_settings(settings@),
{
    proof {
        lemma_views(*settings);
    }
    match settings {
        JsonValue::Object(members) => {
            let mut copy = copy_members(members);
            add_default(&mut copy, "business_phone", JsonValue::text(""));
            add_default(&mut copy, "whatsapp_templates", default_whatsapp_value());
            proof {
                reveal_strlit("");
                assert(""@ =~= Seq::<char>::empty());
            }
            JsonValue::object(copy)
        },
        _ => settings.duplicate(),
    }
}

/// Gives settings of an older document a business phone and WhatsApp texts.
pub fn migrate_settings(settings: &mut JsonValue)
    ensures
        final(settings)@ == migrated_settings(old(settings)@),
{
    let migrated = settings_migrated(settings);
    *settings = migrated;
}

/// An array without items.
pub fn empty_array() -> (r: JsonValue)
    ensures
        r@ == JsonTree::Array(Seq::empty()),
{
    let items: Vec<JsonValue> = Vec::new();
    assert(item_views(items) =~= Seq::<JsonTree>::empty());
    JsonValue::array(items)
}

/// The schedule that a dog without one gets.
pub fn default_schedule_value() -> (r: JsonValue)
    ensures
        r@ == schedule_tree(),
{
    let mut members: Vec<JsonMember> = Vec::new();
    members.push(JsonMember::new("daycare_days", empty_array()));
    members.push(JsonMember::new("training_days", empty_array()));
    members.push(JsonMember::new("boarding_days", empty_array()));
    members.push(JsonMember::new("daycare_drop_off", JsonValue::Null));
    members.push(JsonMember::new("daycare_pick_up", JsonValue::Null));
    members.push(JsonMember::new("training_drop_off", JsonValue::Null));
    members.push(JsonMember::new("training_pick_up", JsonValue::Null));
    members.push(JsonMember::new("active", JsonValue::Bool(false)));
    assert(member_views(members) =~= schedule_tree()->Object_0);
    JsonValue::object(members)
}

/// A dog in today's shape.
pub fn dog_migrated(dog: &JsonValue) -> (r: JsonValue)
    ensures
        r@ == migrated_dog(dog@),
{
    proof {
        lemma_views(*dog);
    }
    match dog {
        JsonValue::Object(members) => {
            let mut copy = copy_members(members);
            if find_member(&copy, "age") < copy.len() && find_member(&copy, "date_of_birth")
                >= copy.len() {
                remove_member(&mut copy, "age");
                set_member(&mut copy, "date_of_birth", JsonValue::Null);
            }
            add_default(&mut copy, "schedule", default_schedule_value());
            JsonValue::object(copy)
        },
        _ => dog.duplicate(),
    }
}

/// The dogs, each in today's shape.
pub fn dogs_migrated(dogs: &JsonValue) -> (r: JsonValue)
    ensures
        r@ == migrated_dogs(dogs@),
{
    proof {
        lemma_views(*dogs);
    }
    match dogs {
        JsonValue::Array(items) => {
            let mut migrated: Vec<JsonValue> = Vec::new();
            let mut i: usize = 0;
            while i < items.len()
                invariant
                    i <= items@.len(),
                    migrated@.len() == i,
                    forall|j: int| 0 <= j < i ==> (#[trigger] migrated@[j])@ == migrated_dog(items@[j]@),
                decreases items@.len() - i,
            {
                migrated.push(dog_migrated(&items[i]));
                i = i + 1;
            }
            assert(item_views(migrated) =~= Seq::new(
                item_views(*items).len(),
                |i: int| migrated_dog(item_views(*items)[i]),
            ));
            JsonValue::array(migrated)
        },
        _ => dogs.duplicate(),
    }
}

/// Brings the dogs of an older document into today's shape.
pub fn migrate_dogs(dogs: &mut JsonValue)
    ensures
        final(dogs)@ == migrated_dogs(old(dogs)@),
{
    let migrated = dogs_migrated(dogs);
    *dogs = migrated;
}

/// Adds to the members of an entry the time that a record names under `key`.
pub fn add_time(members: &mut Vec<JsonMember>, record: Option<&JsonValue>, key: &str)
    ensures
        member_views(*final(members)) == with_time(
            member_views(*old(members)),
            match record {
                Some(r) => Some(r@),
                None => None,
            },
            key@,
        ),
{
    match record {
        Some(r) => match r.get(key) {
            Some(time) => {
                set_member(members, key, time.duplicate());
            },
            None => {},
        },
        None => {},
    }
}

/// The entry made for a dog that the older map of a day marks as attending.
pub fn make_legacy_entry(dog_id: &str, records: Option<&JsonValue>) -> (r: JsonValue)
    ensures
        r@ == legacy_entry(
            dog_id@,
            match records {
                Some(all) => Some(all@),
                None => None,
            },
        ),
{
    let mut members: Vec<JsonMember> = Vec::new();
    members.push(JsonMember::new("dog_id", JsonValue::text(dog_id)));
    members.push(JsonMember::new("service_type", JsonValue::text("Daycare")));
    members.push(JsonMember::new("attending", JsonValue::Bool(true)));
    members.push(JsonMember::new("notes", JsonValue::text(MIGRATED_NOTE)));
    assert(member_views(members) =~= seq![
        ("dog_id"@, JsonTree::Text(dog_id@)),
        ("service_type"@, JsonTree::Text("Daycare"@)),
        ("attending"@, JsonTree::Bool(true)),
        ("notes"@, JsonTree::Text(MIGRATED_NOTE@)),
    ]);
    let record = match records {
        Some(all) => all.get(dog_id),
        None => None,
    };
    add_time(&mut members, record, "drop_off_time");
    add_time(&mut members, record, "pick_up_time");
    JsonValue::object(members)
}

/// Whether a value is the boolean `true`.
pub fn is_true(value: &JsonValue) -> (r: bool)
    ensures
        r == (value@ == JsonTree::Bool(true)),
{
    proof {
        lemma_views(*value);
    }
    match value {
        JsonValue::Bool(b) => *b,
        _ => false,
    }
}

/// The entries made from the older map of a day.
pub fn make_legacy_entries(dogs: &Vec<JsonMember>, records: Option<&JsonValue>) -> (r: Vec<
    JsonMember,
>)
    ensures
        member_views(r) == legacy_entries(
            member_views(*dogs),
            match records {
                Some(all) => Some(all@),
                None => None,
            },
            dogs@.len() as nat,
        ),
{
    let ghost views = member_views(*dogs);
    let ghost all: Option<JsonTree> = match records {
        Some(all) => Some(all@),
        None => None,
    };
    let mut entries: Vec<JsonMember> = Vec::new();
    assert(member_views(entries) =~= legacy_entries(views, all, 0));
    let mut i: usize = 0;
    while i < dogs.len()
        invariant
            views == member_views(*dogs),
            all == (match records {
                Some(all) => Some(all@),
                None => None::<JsonTree>,
            }),
            i <= dogs@.len(),
            member_views(entries) == legacy_entries(views, all, i as nat),
        decreases dogs@.len() - i,
    {
        assert(views[i as int] == (dogs@[i as int].key@, dogs@[i as int].value@));
        if is_true(&dogs[i].value) {
            let mut key = dogs[i].key.clone();
            key.append("_Daycare");
            let entry = make_legacy_entry(dogs[i].key.as_str(), records);
            set_member(&mut entries, key.as_str(), entry);
        }
        i = i + 1;
    }
    entries
}

/// The attendance of a day with entries.
pub fn attendance_migrated(attendance: &JsonValue, records: Option<&JsonValue>) -> (r: JsonValue)
    ensures
        r@ == migrated_attendance(
            attendance@,
            match records {
                Some(all) => Some(all@),
                None => None,
            },
        ),
{
    proof {
        lemma_views(*attendance);
    }
    match attendance {
        JsonValue::Object(members) => {
            if find_member(members, "entries") < members.len() {
                return attendance.duplicate();
            }
            let at = find_member(members, "dogs");
            let entries: Vec<JsonMember> = if at < members.len() {
                proof {
                    lemma_views(members@[at as int].value);
                }
                match &members[at].value {
                    JsonValue::Object(dogs) => make_legacy_entries(dogs, records),
                    _ => Vec::new(),
                }
            } else {
                Vec::new()
            };
            let ghost made = member_views(entries);
            let mut copy = copy_members(members);
            let ghost before = member_views(copy);
            copy.push(JsonMember::new("entries", JsonValue::object(entries)));
            assert(member_views(copy) =~= before.push(("entries"@, JsonTree::Object(made))));
            assert(at >= members@.len() ==> made =~= Seq::<(Seq<char>, JsonTree)>::empty());
            assert(at < members@.len() && !(members@[at as int].value is Object) ==> made
                =~= Seq::<(Seq<char>, JsonTree)>::empty());
            JsonValue::object(copy)
        },
        _ => attendance.duplicate(),
    }
}

/// A day in today's shape.
pub fn day_migrated(day: &JsonValue) -> (r: JsonValue)
    ensures
        r@ == migrated_day(day@),
{
    proof {
        lemma_views(*day);
    }
    match day {
        JsonValue::Object(members) => {
            let at = find_member(members, "attendance");
            if at >= members.len() {
                return day.duplicate();
            }
            let records = day.get("records");
            let attendance = attendance_migrated(&members[at].value, records);
            let mut copy = copy_members(members);
            set_member(&mut copy, "attendance", attendance);
            JsonValue::object(copy)
        },
        _ => day.duplicate(),
    }
}

/// The ledger, each day in today's shape.
pub fn daily_data_migrated(ledger: &JsonValue) -> (r: JsonValue)
    ensures
        r@ == migrated_daily_data(ledger@),
{
    proof {
        lemma_views(*ledger);
    }
    match ledger {
        JsonValue::Object(days) => {
            let mut migrated: Vec<JsonMember> = Vec::new();
            let mut i: usize = 0;
            while i < days.len()
                invariant
                    i <= days@.len(),
                    migrated@.len() == i,
                    forall|j: int|
                        0 <= j < i ==> (#[trigger] migrated@[j]).key@ == days@[j].key@
                            && migrated@[j].value@ == migrated_day(days@[j].value@),
                decreases days@.len() - i,
            {
                migrated.push(
                    JsonMember { key: days[i].key.clone(), value: day_migrated(&days[i].value) },
                );
                i = i + 1;
            }
            assert(member_views(migrated) =~= Seq::new(
                member_views(*days).len(),
                |i: int| (member_views(*days)[i].0, migrated_day(member_views(*days)[i].1)),
            ));
            JsonValue::object(migrated)
        },
        _ => ledger.duplicate(),
    }
}

/// Brings the ledger of an older document into today's shape.
pub fn migrate_daily_data(daily_data: &mut JsonValue)
    ensures
        final(daily_data)@ == migrated_daily_data(old(daily_data)@),
{
    let migrated = daily_data_migrated(daily_data);
    *daily_data = migrated;
}

/// The whole document in today's shape.
pub fn document_migrated(document: &JsonValue) -> (r: JsonValue)
    ensures
        r@ == migrated_document(document@),
{
    proof {
        lemma_views(*document);
    }
    match document {
        JsonValue::Object(members) => {
            let mut copy = copy_members(members);
            let at = find_member(&copy, "settings");
            if at < copy.len() {
                let settings = settings_migrated(&copy[at].value);
                set_member(&mut copy, "settings", settings);
            }
            let at = find_member(&copy, "dogs");
            if at < copy.len() {
                let dogs = dogs_migrated(&copy[at].value);
                set_member(&mut copy, "dogs", dogs);
            }
            add_default(&mut copy, "recurring_schedules", empty_array());
            let at = find_member(&copy, "daily_data");
            if at < copy.len() {
                let ledger = daily_data_migrated(&copy[at].value);
                set_member(&mut copy, "daily_data", ledger);
            }
            JsonValue::object(copy)
        },
        _ => document.duplicate(),
    }
}

/// Brings the tree of an older document into today's shape.
pub fn migrate_document(document: &mut JsonValue)
    ensures
        final(document)@ == migrated_document(old(document)@),
{
    let migrated = document_migrated(document);
    *document = migrated;
}

/// What stepped members have under a key: what the step makes of what they
/// had under the stepped key, and what they had under every other key.
pub proof fn lemma_stepped(
    members: Members,
    key: Seq<char>,
    step: spec_fn(JsonTree) -> JsonTree,
    asked: Seq<char>,
)
    ensures
        member(stepped(members, key, step), asked) == (if asked == key && member(members, key)
            is Some {
            Some(step(member(members, key).unwrap()))
        } else {
            member(members, asked)
        }),
{
    if member(members, key) is Some {
        lemma_member_set(members, key, step(member(members, key).unwrap()), asked);
    }
}

/// What defaulted members have under a key: the default under the
/// defaulted key where they had none, and what they had under every other
/// key.
pub proof fn lemma_defaulted(members: Members, key: Seq<char>, value: JsonTree, asked: Seq<char>)
    ensures
        member(defaulted(members, key, value), asked) == (if asked == key && member(members, key)
            is None {
            Some(value)
        } else {
            member(members, asked)
        }),
{
    if member(members, key) is None {
        lemma_member_pushed(members, key, value, asked);
    }
}

/// The keys that the migration looks at are different texts.
pub proof fn lemma_keys_differ()
    ensures
        "settings"@ != "dogs"@,
        "settings"@ != "daily_data"@,
        "settings"@ != "recurring_schedules"@,
        "dogs"@ != "daily_data"@,
        "dogs"@ != "recurring_schedules"@,
        "daily_data"@ != "recurring_schedules"@,
        "schedule"@ != "age"@,
        "schedule"@ != "date_of_birth"@,
        "age"@ != "date_of_birth"@,
{
    reveal_strlit("settings");
    reveal_strlit("dogs");
    reveal_strlit("daily_data");
    reveal_strlit("recurring_schedules");
    reveal_strlit("schedule");
    reveal_strlit("age");
    reveal_strlit("date_of_birth");
    assert("settings"@.len() == 8);
    assert("dogs"@.len() == 4);
    assert("daily_data"@.len() == 10);
    assert("recurring_schedules"@.len() == 19);
    assert("schedule"@.len() == 8);
    assert("age"@.len() == 3);
    assert("date_of_birth"@.len() == 13);
}

/// What the members of a migrated document have under a key.
pub open spec fn migrated_member(members: Members, asked: Seq<char>) -> Option<JsonTree> {
    if asked == "settings"@ && member(members, asked) is Some {
        Some(migrated_settings(member(members, asked).unwrap()))
    } else if asked == "dogs"@ && member(members, asked) is Some {
        Some(migrated_dogs(member(members, asked).unwrap()))
    } else if asked == "daily_data"@ && member(members, asked) is Some {
        Some(migrated_daily_data(member(members, asked).unwrap()))
    } else if asked == "recurring_schedules"@ && member(members, asked) is None {
        Some(JsonTree::Array(Seq::empty()))
    } else {
        member(members, asked)
    }
}

/// A migrated document has a list of schedules: the one it had, or an empty
/// one. Its settings, its dogs and its ledger are migrated. Whatever else
/// it had it has unchanged.
pub proof fn lemma_document_migrated(document: JsonTree, asked: Seq<char>)
    requires
        document is Object,
    ensures
        field(migrated_document(document), asked) == migrated_member(document->Object_0, asked),
        field(migrated_document(document), "recurring_schedules"@) is Some,
{
    lemma_keys_differ();
    let members = document->Object_0;
    let settings_step = |t: JsonTree| migrated_settings(t);
    let dogs_step = |t: JsonTree| migrated_dogs(t);
    let ledger_step = |t: JsonTree| migrated_daily_data(t);
    let nothing = JsonTree::Array(Seq::empty());
    let first = stepped(members, "settings"@, settings_step);
    let second = stepped(first, "dogs"@, dogs_step);
    let third = defaulted(second, "recurring_schedules"@, nothing);
    let all = stepped(third, "daily_data"@, ledger_step);
    assert(migrated_document(document) == JsonTree::Object(all));
    lemma_stepped(members, "settings"@, settings_step, asked);
    lemma_stepped(members, "settings"@, settings_step, "dogs"@);
    lemma_stepped(members, "settings"@, settings_step, "recurring_schedules"@);
    lemma_stepped(members, "settings"@, settings_step, "daily_data"@);
    lemma_stepped(first, "dogs"@, dogs_step, asked);
    lemma_stepped(first, "dogs"@, dogs_step, "recurring_schedules"@);
    lemma_stepped(first, "dogs"@, dogs_step, "daily_data"@);
    lemma_defaulted(second, "recurring_schedules"@, nothing, asked);
    lemma_defaulted(second, "recurring_schedules"@, nothing, "recurring_schedules"@);
    lemma_defaulted(second, "recurring_schedules"@, nothing, "daily_data"@);
    lemma_stepped(third, "daily_data"@, ledger_step, asked);
    lemma_stepped(third, "daily_data"@, ledger_step, "recurring_schedules"@);
}

/// What the members of a migrated dog have under a key.
pub open spec fn migrated_dog_member(members: Members, asked: Seq<char>) -> Option<JsonTree> {
    let swaps = member(members, "age"@) is Some && member(members, "date_of_birth"@) is None;
    if asked == "schedule"@ && member(members, asked) is None {
        Some(schedule_tree())
    } else if asked == "age"@ && swaps {
        None
    } else if asked == "date_of_birth"@ && swaps {
        Some(JsonTree::Null)
    } else {
        member(members, asked)
    }
}

/// A migrated dog has a schedule: the one it had, or one that names no
/// weekday. An age that stood in place of a date of birth is gone, where
/// the dog had the key once, and the date of birth is empty. Whatever else
/// the dog had it has unchanged.
pub proof fn lemma_dog_migrated(dog: JsonTree, asked: Seq<char>)
    requires
        dog is Object,
    ensures
        asked != "age"@ || once(dog->Object_0, "age"@) ==> field(migrated_dog(dog), asked)
            == migrated_dog_member(dog->Object_0, asked),
        field(migrated_dog(dog), "schedule"@) is Some,
{
    lemma_keys_differ();
    let members = dog->Object_0;
    let aged = without_age(members);
    if member(members, "age"@) is Some && member(members, "date_of_birth"@) is None {
        let less = without_member(members, "age"@);
        lemma_member_set(less, "date_of_birth"@, JsonTree::Null, asked);
        lemma_member_set(less, "date_of_birth"@, JsonTree::Null, "schedule"@);
        lemma_member_set(less, "date_of_birth"@, JsonTree::Null, "age"@);
        if asked != "age"@ {
            lemma_member_removed(members, "age"@, asked);
        }
        lemma_member_removed(members, "age"@, "schedule"@);
        lemma_member_removed(members, "age"@, "date_of_birth"@);
        lemma_age_gone(members);
    }
    lemma_defaulted(aged, "schedule"@, schedule_tree(), asked);
    lemma_defaulted(aged, "schedule"@, schedule_tree(), "schedule"@);
}

/// No two of the members have the given key.
pub open spec fn once(members: Members, key: Seq<char>) -> bool {
    forall|i: int, j: int|
        0 <= i < j < members.len() && (#[trigger] members[i]).0 == key ==> (
        #[trigger] members[j]).0 != key
}

proof fn lemma_age_gone(members: Members)
    ensures
        once(members, "age"@) ==> member(without_member(members, "age"@), "age"@) is None,
{
    let key = "age"@;
    lemma_member_position(members, key);
    let at = member_position(members, key);
    if at < members.len() && once(members, key) {
        let shorter = members.remove(at);
        assert forall|i: int| 0 <= i < shorter.len() implies (#[trigger] shorter[i]).0 != key by {
            if i < at {
                assert(shorter[i] == members[i]);
            } else {
                assert(shorter[i] == members[i + 1]);
                assert(members[at].0 == key);
            }
        }
        crate::json::lemma_position_is_first(shorter, key, shorter.len() as int);
    }
}

/// The migrated attendance of a day has entries: those it had, or those
/// made from its older map, none where it has no such map. What else it had
/// it has unchanged.
pub proof fn lemma_attendance_gets_entries(
    attendance: JsonTree,
    records: Option<JsonTree>,
    key: Seq<char>,
)
    requires
        attendance is Object,
    ensures
        field(migrated_attendance(attendance, records), "entries"@) is Some,
        field(attendance, "entries"@) is Some ==> migrated_attendance(attendance, records)
            == attendance,
        field(attendance, "entries"@) is None && field(attendance, "dogs"@) is None ==> field(
            migrated_attendance(attendance, records),
            "entries"@,
        ) == Some(JsonTree::Object(Seq::empty())),
        key != "entries"@ ==> field(migrated_attendance(attendance, records), key) == field(
            attendance,
            key,
        ),
{
    let members = attendance->Object_0;
    if member(members, "entries"@) is None {
        let entries = match member(members, "dogs"@) {
            Some(JsonTree::Object(dogs)) => legacy_entries(dogs, records, dogs.len()),
            _ => Seq::empty(),
        };
        lemma_member_pushed(members, "entries"@, JsonTree::Object(entries), key);
        lemma_member_pushed(members, "entries"@, JsonTree::Object(entries), "entries"@);
    }
}

} // verus!
