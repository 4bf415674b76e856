//! A tree of JSON values, as the migration of older documents reads and
//! patches it.

use crate::strmap::same_text;
use vstd::prelude::*;
use vstd::string::*;

verus! {

/// A JSON value. A number is held as its text. An object holds its members
/// in order; of two members with one key the first counts.
#[derive(Debug)]
pub enum JsonValue {
    Null,
    Bool(bool),
    Number(String),
    Text(String),
    Array(Vec<JsonValue>),
    Object(Vec<JsonMember>),
}

/// A member of a JSON object: a key and its value.
#[derive(Debug)]
pub struct JsonMember {
    pub key: String,
    pub value: JsonValue,
}

/// A [`JsonValue`] as a mathematical value.
pub enum JsonTree {
    Null,
    Bool(bool),
    Number(Seq<char>),
    Text(Seq<char>),
    Array(Seq<JsonTree>),
    Object(Seq<(Seq<char>, JsonTree)>),
}

/// What a [`JsonValue`] holds, as a mathematical value.
pub open spec fn tree_of(value: JsonValue) -> JsonTree
    decreases value,
{
    match value {
        JsonValue::Null => JsonTree::Null,
        JsonValue::Bool(b) => JsonTree::Bool(b),
        JsonValue::Number(n) => JsonTree::Number(n@),
        JsonValue::Text(t) => JsonTree::Text(t@),
        JsonValue::Array(items) => JsonTree::Array(
            Seq::new(
                items.len() as nat,
                |i: int|
                    if 0 <= i < items.len() {
                        tree_of(items[i])
                    } else {
                        JsonTree::Null
                    },
            ),
        ),
        JsonValue::Object(members) => JsonTree::Object(
            Seq::new(
                members.len() as nat,
                |i: int|
                    if 0 <= i < members.len() {
                        (members[i].key@, tree_of(members[i].value))
                    } else {
                        (Seq::empty(), JsonTree::Null)
                    },
            ),
        ),
    }
}

impl View for JsonValue {
    type V = JsonTree;

    open spec fn view(&self) -> JsonTree {
        tree_of(*self)
    }
}

/// The members of an object, as mathematical values.
pub open spec fn member_views(members: Vec<JsonMember>) -> Seq<(Seq<char>, JsonTree)> {
    Seq::new(members.len() as nat, |i: int| (members[i].key@, members[i].value@))
}

/// The items of an array, as mathematical values.
pub open spec fn item_views(items: Vec<JsonValue>) -> Seq<JsonTree> {
    Seq::new(items.len() as nat, |i: int| items[i]@)
}

/// The view of an object is the object of the views of its members, and the
/// view of an array the array of the views of its items.
pub proof fn lemma_views(value: JsonValue)
    ensures
        value matches JsonValue::Object(members) ==> value@ == JsonTree::Object(
            member_views(members),
        ),
        value matches JsonValue::Array(items) ==> value@ == JsonTree::Array(item_views(items)),
{
    match value {
        JsonValue::Object(members) => {
            reveal_with_fuel(tree_of, 2);
            assert(value@->Object_0 =~= member_views(members));
        },
        JsonValue::Array(items) => {
            assert(value@->Array_0 =~= item_views(items));
        },
        _ => {},
    }
}

/// The tree that serde_json reads from a text, or `None` where the text is
/// no JSON. The members of an object stand in the order in which serde_json
/// holds them.
pub uninterp spec fn parsed_json(text: Seq<char>) -> Option<JsonTree>;

/// A value of serde_json.
#[verifier::external_type_specification]
#[verifier::external_body]
pub struct ExJsonValue(serde_json::Value);

/// What a value of serde_json holds, as a tree: its variants one for one, a
/// number as the text that `serde_json::Number` writes for it, the members
/// of an object in the order in which its map hands them out.
pub uninterp spec fn value_tree(value: serde_json::Value) -> JsonTree;

/// Calls `serde_json::from_str` for a `serde_json::Value`. The contract
/// names what the value holds `parsed_json`; a text that serde_json rejects
/// gives `None`.
#[verifier::external_body]
fn read_value(text: &str) -> (r: Option<serde_json::Value>)
    ensures
        match r {
            Some(value) => parsed_json(text@) == Some(value_tree(value)),
            None => parsed_json(text@) is None,
        },
{
    serde_json::from_str::<serde_json::Value>(text).ok()
}

/// Turns a `serde_json::Value` into a tree of this library, variant by
/// variant; a number becomes the text that `serde_json::Number` writes for
/// it. The contract names the outcome `value_tree`.
#[verifier::external_body]
fn tree_from(value: &serde_json::Value) -> (r: JsonValue)
    ensures
        r@ == value_tree(*value),
{
    match value {
        serde_json::Value::Null => JsonValue::Null,
        serde_json::Value::Bool(b) => JsonValue::Bool(*b),
        serde_json::Value::Number(n) => JsonValue::Number(n.to_string()),
        serde_json::Value::String(s) => JsonValue::Text(s.clone()),
        serde_json::Value::Array(items) => JsonValue::Array(items.iter().map(tree_from).collect()),
        serde_json::Value::Object(members) => JsonValue::Object(
            members.iter().map(|(k, v)| JsonMember { key: k.clone(), value: tree_from(v) }).collect(),
        ),
    }
}

/// Reads a text as JSON: the tree that serde_json reads from it, or `None`
/// where the text is no JSON.
pub fn parse_json(text: &str) -> (r: Option<JsonValue>)
    ensures
        match parsed_json(text@) {
            Some(tree) => r matches Some(value) && value@ == tree,
            None => r is None,
        },
{
    match read_value(text) {
        Some(value) => Some(tree_from(&value)),
        None => None,
    }
}

/// The members of an object: keys with their values, in order.
pub type Members = Seq<(Seq<char>, JsonTree)>;

/// The position of the first member with the given key, or the number of
/// members where there is none.
pub open spec fn member_position(members: Members, key: Seq<char>) -> int
    decreases members.len(),
{
    if members.len() == 0 {
        0
    } else if members[0].0 == key {
        0
    } else {
        1 + member_position(members.drop_first(), key)
    }
}

/// The first position up to which no member has the key, and at which, if
/// it lies among the members, the member has it.
pub proof fn lemma_member_position(members: Members, key: Seq<char>)
    ensures
        0 <= member_position(members, key) <= members.len(),
        member_position(members, key) < members.len() ==> members[member_position(
            members,
            key,
        )].0 == key,
        forall|i: int| 0 <= i < member_position(members, key) ==> (#[trigger] members[i]).0 != key,
    decreases members.len(),
{
    if members.len() != 0 && members[0].0 != key {
        let rest = members.drop_first();
        lemma_member_position(rest, key);
        assert forall|i: int| 0 <= i < member_position(members, key) implies (
        #[trigger] members[i]).0 != key by {
            if i > 0 {
                assert(members[i] == rest[i - 1]);
            }
        }
    }
}

/// The value of the first member with the given key.
pub open spec fn member(members: Members, key: Seq<char>) -> Option<JsonTree> {
    let at = member_position(members, key);
    if at < members.len() {
        Some(members[at].1)
    } else {
        None
    }
}

/// The members with `value` under `key`: in place of the first member with
/// that key, or at the end where there is none.
pub open spec fn with_member(members: Members, key: Seq<char>, value: JsonTree) -> Members {
    let at = member_position(members, key);
    if at < members.len() {
        members.update(at, (key, value))
    } else {
        members.push((key, value))
    }
}

/// The members without the first member with the given key.
pub open spec fn without_member(members: Members, key: Seq<char>) -> Members {
    let at = member_position(members, key);
    if at < members.len() {
        members.remove(at)
    } else {
        members
    }
}

/// The value under `key` of a tree that is an object.
pub open spec fn field(tree: JsonTree, key: Seq<char>) -> Option<JsonTree> {
    match tree {
        JsonTree::Object(members) => member(members, key),
        _ => None,
    }
}

/// The position of a key is the first position at which a member has it.
pub proof fn lemma_position_is_first(members: Members, key: Seq<char>, at: int)
    requires
        0 <= at <= members.len(),
        at < members.len() ==> members[at].0 == key,
        forall|i: int| 0 <= i < at ==> (#[trigger] members[i]).0 != key,
    ensures
        member_position(members, key) == at,
{
    lemma_member_position(members, key);
    let found = member_position(members, key);
    if found < at {
        assert(members[found].0 == key);
    }
    if at < found {
        assert(members[at].0 != key);
    }
}

/// Members with one more at the end have what they had, and the new key
/// with its value where they did not have that key.
pub proof fn lemma_member_pushed(members: Members, key: Seq<char>, value: JsonTree, asked: Seq<char>)
    ensures
        member(members.push((key, value)), asked) == (if member(members, asked) is Some {
            member(members, asked)
        } else if asked == key {
            Some(value)
        } else {
            None
        }),
{
    let longer = members.push((key, value));
    lemma_member_position(members, asked);
    let at = member_position(members, asked);
    if at < members.len() {
        assert(longer[at] == members[at]);
        assert forall|i: int| 0 <= i < at implies (#[trigger] longer[i]).0 != asked by {
            assert(longer[i] == members[i]);
        }
        lemma_position_is_first(longer, asked, at);
    } else if asked == key {
        assert forall|i: int| 0 <= i < members.len() implies (#[trigger] longer[i]).0 != asked by {
            assert(longer[i] == members[i]);
        }
        lemma_position_is_first(longer, asked, members.len() as int);
    } else {
        assert forall|i: int| 0 <= i < longer.len() implies (#[trigger] longer[i]).0 != asked by {
            if i < members.len() {
                assert(longer[i] == members[i]);
            }
        }
        lemma_position_is_first(longer, asked, longer.len() as int);
    }
}

/// Members with a value put under a key have that value under the key and
/// what they had under every other key.
pub proof fn lemma_member_set(members: Members, key: Seq<char>, value: JsonTree, asked: Seq<char>)
    ensures
        member(with_member(members, key, value), asked) == (if asked == key {
            Some(value)
        } else {
            member(members, asked)
        }),
{
    lemma_member_position(members, key);
    let at = member_position(members, key);
    if at < members.len() {
        let changed = members.update(at, (key, value));
        lemma_member_position(members, asked);
        let found = member_position(members, asked);
        if asked == key {
            assert forall|i: int| 0 <= i < at implies (#[trigger] changed[i]).0 != asked by {
                assert(changed[i] == members[i]);
            }
            lemma_position_is_first(changed, asked, at);
        } else {
            assert forall|i: int| 0 <= i < found implies (#[trigger] changed[i]).0 != asked by {
                if i != at {
                    assert(changed[i] == members[i]);
                }
            }
            if found < members.len() {
                assert(found != at);
                assert(changed[found] == members[found]);
            }
            lemma_position_is_first(changed, asked, found);
        }
    } else {
        lemma_member_pushed(members, key, value, asked);
    }
}

/// Members without a key have what they had under every other key.
pub proof fn lemma_member_removed(members: Members, key: Seq<char>, asked: Seq<char>)
    requires
        asked != key,
    ensures
        member(without_member(members, key), asked) == member(members, asked),
{
    lemma_member_position(members, key);
    let at = member_position(members, key);
    if at < members.len() {
        let shorter = members.remove(at);
        lemma_member_position(members, asked);
        let found = member_position(members, asked);
        assert(found != at);
        let moved = if found < at {
            found
        } else {
            found - 1
        };
        assert forall|i: int| 0 <= i < moved implies (#[trigger] shorter[i]).0 != asked by {
            if i < at {
                assert(shorter[i] == members[i]);
            } else {
                assert(shorter[i] == members[i + 1]);
            }
        }
        if found < members.len() {
            assert(shorter[moved] == members[found]);
        }
        lemma_position_is_first(shorter, asked, moved);
    }
}

/// The position of the first member with the given key.
pub fn find_member(members: &Vec<JsonMember>, key: &str) -> (r: usize)
    ensures
        r == member_position(member_views(*members), key@),
        r <= members@.len(),
{
    let ghost views = member_views(*members);
    proof {
        lemma_member_position(views, key@);
    }
    let mut i: usize = 0;
    while i < members.len()
        invariant
            views == member_views(*members),
            i <= members@.len(),
            i <= member_position(views, key@),
            member_position(views, key@) <= views.len(),
            member_position(views, key@) < views.len() ==> views[member_position(views, key@)].0
                == key@,
        decreases members@.len() - i,
    {
        if same_text(members[i].key.as_str(), key) {
            proof {
                assert(views[i as int].0 == key@);
                lemma_member_position(views, key@);
            }
            return i;
        }
        assert(views[i as int].0 != key@);
        i = i + 1;
    }
    i
}

/// Puts `value` under `key`: in place of the first member with that key, or
/// at the end where there is none.
pub fn set_member(members: &mut Vec<JsonMember>, key: &str, value: JsonValue)
    ensures
        member_views(*final(members)) == with_member(
            member_views(*old(members)),
            key@,
            value@,
        ),
{
    let at = find_member(members, key);
    let ghost before = member_views(*members);
    let ghost view = value@;
    if at < members.len() {
        members.set(at, JsonMember { key: key.to_owned(), value });
        assert(member_views(*members) =~= before.update(at as int, (key@, view)));
    } else {
        members.push(JsonMember { key: key.to_owned(), value });
        assert(member_views(*members) =~= before.push((key@, view)));
    }
}

/// Takes out the first member with the given key.
pub fn remove_member(members: &mut Vec<JsonMember>, key: &str)
    ensures
        member_views(*final(members)) == without_member(member_views(*old(members)), key@),
{
    let at = find_member(members, key);
    let ghost before = member_views(*members);
    if at < members.len() {
        members.remove(at);
        assert(member_views(*members) =~= before.remove(at as int));
    }
}

/// Copies of the members of an object.
pub fn copy_members(members: &Vec<JsonMember>) -> (r: Vec<JsonMember>)
    ensures
        member_views(r) == member_views(*members),
{
    let mut copy: Vec<JsonMember> = Vec::new();
    let mut i: usize = 0;
    while i < members.len()
        invariant
            i <= members@.len(),
            copy@.len() == i,
            forall|j: int|
                0 <= j < i ==> (#[trigger] copy@[j]).key@ == members@[j].key@ && copy@[j].value@
                    == members@[j].value@,
        decreases members@.len() - i,
    {
        copy.push(JsonMember { key: members[i].key.clone(), value: members[i].value.duplicate() });
        i = i + 1;
    }
    assert(member_views(copy) =~= member_views(*members));
    copy
}

impl JsonValue {
    /// A copy with the same content.
    #[verifier::loop_isolation(false)]
    pub fn duplicate(&self) -> (r: JsonValue)
        ensures
            r@ == self@,
        decreases self,
    {
        match self {
            JsonValue::Null => JsonValue::Null,
            JsonValue::Bool(b) => JsonValue::Bool(*b),
            JsonValue::Number(n) => JsonValue::Number(n.clone()),
            JsonValue::Text(t) => JsonValue::Text(t.clone()),
            JsonValue::Array(items) => {
                let mut copy: Vec<JsonValue> = Vec::new();
                let mut i: usize = 0;
                while i < items.len()
                    invariant
                        i <= items@.len(),
                        copy@.len() == i,
                        forall|j: int| 0 <= j < i ==> (#[trigger] copy@[j])@ == items@[j]@,
                    decreases items@.len() - i,
                {
                    copy.push(items[i].duplicate());
                    i = i + 1;
                }
                let r = JsonValue::Array(copy);
                assert(r@ == self@) by {
                    lemma_views(r);
                    lemma_views(*self);
                    assert(item_views(copy) =~= item_views(*items));
                }
                r
            },
            JsonValue::Object(members) => {
                let mut copy: Vec<JsonMember> = Vec::new();
                let mut i: usize = 0;
                while i < members.len()
                    invariant
                        i <= members@.len(),
                        copy@.len() == i,
                        forall|j: int|
                            0 <= j < i ==> (#[trigger] copy@[j]).key@ == members@[j].key@
                                && copy@[j].value@ == members@[j].value@,
                    decreases members@.len() - i,
                {
                    copy.push(
                        JsonMember {
                            key: members[i].key.clone(),
                            value: members[i].value.duplicate(),
                        },
                    );
                    i = i + 1;
                }
                let r = JsonValue::Object(copy);
                assert(r@ == self@) by {
                    lemma_views(r);
                    lemma_views(*self);
                    assert(member_views(copy) =~= member_views(*members));
                }
                r
            },
        }
    }

    /// The value under `key`, if this is an object that has the key.
    pub fn get(&self, key: &str) -> (r: Option<&JsonValue>)
        ensures
            match field(self@, key@) {
                Some(value) => r matches Some(found) && found@ == value,
                None => r is None,
            },
    {
        proof {
            lemma_views(*self);
        }
        match self {
            JsonValue::Object(members) => {
                let at = find_member(members, key);
                if at < members.len() {
                    Some(&members[at].value)
                } else {
                    None
                }
            },
            _ => None,
        }
    }

    /// An object with the given members.
    pub fn object(members: Vec<JsonMember>) -> (r: JsonValue)
        ensures
            r@ == JsonTree::Object(member_views(members)),
    {
        let r = JsonValue::Object(members);
        proof {
            lemma_views(r);
        }
        r
    }

    /// An array with the given items.
    pub fn array(items: Vec<JsonValue>) -> (r: JsonValue)
        ensures
            r@ == JsonTree::Array(item_views(items)),
    {
        let r = JsonValue::Array(items);
        proof {
            lemma_views(r);
        }
        r
    }

    /// A text.
    pub fn text(text: &str) -> (r: JsonValue)
        ensures
            r@ == JsonTree::Text(text@),
    {
        JsonValue::Text(text.to_owned())
    }
}

impl JsonMember {
    /// A member with the given key and value.
    pub fn new(key: &str, value: JsonValue) -> (r: JsonMember)
        ensures
            r.key@ == key@,
            r.value@ == value@,
    {
        JsonMember { key: key.to_owned(), value }
    }
}

} // verus!
