//! JSON values, and their text by way of `serde_json`.

use vstd::prelude::*;

verus! {

/// A JSON value.
#[derive(Debug, PartialEq, Eq)]
pub enum Json {
    Null,
    Bool(bool),
    /// A whole number that fits in 64 bits without a sign.
    Number(u64),
    /// Any other number, as its decimal text.
    Decimal(String),
    Text(String),
    Array(Vec<Json>),
    /// The members of an object, each a key and its value.
    Object(Vec<(String, Json)>),
}

/// What a [`Json`] holds.
pub ghost enum JsonValue {
    Null,
    Bool(bool),
    Number(u64),
    Decimal(Seq<char>),
    Text(Seq<char>),
    Array(Seq<JsonValue>),
    Object(Seq<(Seq<char>, JsonValue)>),
}

impl View for Json {
    type V = JsonValue;

    open spec fn view(&self) -> JsonValue
        decreases self,
    {
        match self {
            Json::Null => JsonValue::Null,
            Json::Bool(b) => JsonValue::Bool(*b),
            Json::Number(n) => JsonValue::Number(*n),
            Json::Decimal(d) => JsonValue::Decimal(d@),
            Json::Text(t) => JsonValue::Text(t@),
            Json::Array(items) => JsonValue::Array(
                Seq::new(
                    items@.len(),
                    |i: int|
                        if 0 <= i < items@.len() {
                            items@[i]@
                        } else {
                            JsonValue::Null
                        },
                ),
            ),
            Json::Object(members) => JsonValue::Object(
                Seq::new(
                    members@.len(),
                    |i: int|
                        if 0 <= i < members@.len() {
                            (members@[i].0@, members@[i].1@)
                        } else {
                            (Seq::empty(), JsonValue::Null)
                        },
                ),
            ),
        }
    }
}

/// The value of the first of `members` whose key is `key`.
pub open spec fn first_member(members: Seq<(Seq<char>, JsonValue)>, key: Seq<char>) -> Option<
    JsonValue,
>
    decreases members.len(),
{
    if members.len() == 0 {
        None
    } else if members[0].0 == key {
        Some(members[0].1)
    } else {
        first_member(members.drop_first(), key)
    }
}

/// Whether no two of `members` have the same key.
pub open spec fn distinct_keys(members: Seq<(Seq<char>, JsonValue)>) -> bool {
    forall|i: int, j: int|
        0 <= i < j < members.len() ==> (#[trigger] members[i]).0 != (#[trigger] members[j]).0
}

impl JsonValue {
    /// The member `key` of an object; `None` for a value that is no object or
    /// has no such member.
    pub open spec fn member(self, key: Seq<char>) -> Option<JsonValue> {
        match self {
            JsonValue::Object(members) => first_member(members, key),
            _ => None,
        }
    }

    /// Whether the value is one that `serde_json` holds as it stands: no
    /// number in it is kept as text, and no object in it has two members of
    /// one key.
    pub open spec fn plain(self) -> bool
        decreases self,
    {
        match self {
            JsonValue::Decimal(_) => false,
            JsonValue::Array(items) => forall|i: int|
                0 <= i < items.len() ==> (#[trigger] items[i]).plain(),
            JsonValue::Object(members) => distinct_keys(members) && forall|i: int|
                0 <= i < members.len() ==> (#[trigger] members[i]).1.plain(),
            _ => true,
        }
    }
}

/// The view of an object lists its members in their order, each by its view.
pub proof fn lemma_object_view(members: Vec<(String, Json)>)
    ensures
        Json::Object(members)@ is Object,
        Json::Object(members)@->Object_0.len() == members@.len(),
        forall|k: int|
            0 <= k < members@.len() ==> #[trigger] Json::Object(members)@->Object_0[k] == (
                members@[k].0@,
                members@[k].1@,
            ),
{
    reveal_with_fuel(<Json as View>::view, 2);
}

/// The view of an array lists its items in their order, each by its view.
pub proof fn lemma_array_view(items: Vec<Json>)
    ensures
        Json::Array(items)@ is Array,
        Json::Array(items)@->Array_0.len() == items@.len(),
        forall|k: int| 0 <= k < items@.len() ==> #[trigger] Json::Array(items)@->Array_0[k] == items@[k]@,
{
    reveal_with_fuel(<Json as View>::view, 2);
}

/// What an optional [`Json`] holds.
pub open spec fn view_of(j: Option<&Json>) -> Option<JsonValue> {
    match j {
        Some(j) => Some(j@),
        None => None,
    }
}

impl Json {
    /// The member `key` of an object; `None` for a value that is no object or
    /// has no such member.
    pub fn get(&self, key: &str) -> (r: Option<&Json>)
        ensures
            view_of(r) == self@.member(key@),
    {
        match self {
            Json::Object(members) => {
                let wanted = key.to_owned();
                let mut i: usize = 0;
                proof {
                    lemma_object_view(*members);
                    assert(self@->Object_0.skip(0) =~= self@->Object_0);
                }
                while i < members.len()
                    invariant
                        i <= members.len(),
                        wanted@ == key@,
                        self@ is Object,
                        self@->Object_0.len() == members@.len(),
                        forall|k: int|
                            0 <= k < members@.len() ==> #[trigger] self@->Object_0[k] == (
                                members@[k].0@,
                                members@[k].1@,
                            ),
                        first_member(self@->Object_0, key@) == first_member(
                            self@->Object_0.skip(i as int),
                            key@,
                        ),
                    decreases members.len() - i,
                {
                    let ghost rest = self@->Object_0.skip(i as int);
                    assert(rest.drop_first() == self@->Object_0.skip(i + 1));
                    if members[i].0 == wanted {
                        return Some(&members[i].1);
                    }
                    i += 1;
                }
                None
            },
            _ => None,
        }
    }
}

/// `serde_json::Value`, the tree that `serde_json` reads a text into and
/// writes a text from. Nothing of it is visible here but through the
/// functions below.
#[verifier::external_type_specification]
#[verifier::external_body]
pub struct ExValue(serde_json::Value);

/// What a `serde_json::Value` holds.
pub uninterp spec fn value_content(value: serde_json::Value) -> JsonValue;

/// One level of a `serde_json::Value`: what kind of value it is, with the
/// values in it as they are, not yet looked into.
enum Level<'a> {
    Null,
    Bool(bool),
    Number(u64),
    Decimal(String),
    Text(String),
    Array(Vec<&'a serde_json::Value>),
    Object(Vec<(String, &'a serde_json::Value)>),
}

/// What a level holds.
spec fn level_content(level: Level) -> JsonValue {
    match level {
        Level::Null => JsonValue::Null,
        Level::Bool(b) => JsonValue::Bool(b),
        Level::Number(n) => JsonValue::Number(n),
        Level::Decimal(d) => JsonValue::Decimal(d@),
        Level::Text(t) => JsonValue::Text(t@),
        Level::Array(items) => JsonValue::Array(
            items@.map_values(|part: &serde_json::Value| value_content(*part)),
        ),
        Level::Object(members) => JsonValue::Object(
            members@.map_values(
                |member: (String, &serde_json::Value)| (member.0@, value_content(*member.1)),
            ),
        ),
    }
}

/// The parts that a `serde_json::Value` is put together from: one level,
/// with the values in it as they are. A number is one that fits a `u64`.
enum Parts {
    Null,
    Bool(bool),
    Number(u64),
    Text(String),
    Array(Vec<serde_json::Value>),
    Object(Vec<(String, serde_json::Value)>),
}

/// What the parts hold.
spec fn parts_content(parts: Parts) -> JsonValue {
    match parts {
        Parts::Null => JsonValue::Null,
        Parts::Bool(b) => JsonValue::Bool(b),
        Parts::Number(n) => JsonValue::Number(n),
        Parts::Text(t) => JsonValue::Text(t@),
        Parts::Array(items) => JsonValue::Array(
            items@.map_values(|part: serde_json::Value| value_content(part)),
        ),
        Parts::Object(members) => JsonValue::Object(
            members@.map_values(
                |member: (String, serde_json::Value)| (member.0@, value_content(member.1)),
            ),
        ),
    }
}

/// What `serde_json::from_str` reads from a text: the content of the value
/// that it gives, and `None` where it gives an error. It gives an error for
/// a text that is not well-formed JSON, for one that is nested deeper than
/// it reads (128 levels), and for one with a number out of its range.
pub uninterp spec fn parsed_json(text: Seq<char>) -> Option<JsonValue>;

/// The compact text that `serde_json` writes for a value with this content.
pub uninterp spec fn printed_json(content: JsonValue) -> Seq<char>;

/// Where `key` stands among `members`, if it does.
pub open spec fn key_position(members: Seq<(Seq<char>, JsonValue)>, key: Seq<char>) -> Option<int>
    decreases members.len(),
{
    if members.len() == 0 {
        None
    } else {
        match key_position(members.drop_last(), key) {
            Some(i) => Some(i),
            None => if members.last().0 == key {
                Some(members.len() - 1)
            } else {
                None
            },
        }
    }
}

/// The members that a `serde_json::Map` holds after `members` were put into
/// it one by one: a key that comes again keeps its place, and takes the
/// later value.
pub open spec fn folded(members: Seq<(Seq<char>, JsonValue)>) -> Seq<(Seq<char>, JsonValue)>
    decreases members.len(),
{
    if members.len() == 0 {
        Seq::empty()
    } else {
        let before = folded(members.drop_last());
        match key_position(before, members.last().0) {
            Some(i) => before.update(i, members.last()),
            None => before.push(members.last()),
        }
    }
}

/// What a `serde_json::Value` holds that was put together from parts with
/// this content: the content itself, but an object with one member for each
/// key, as a `serde_json::Map` holds it.
pub open spec fn assembled_json(content: JsonValue) -> JsonValue {
    match content {
        JsonValue::Object(members) => JsonValue::Object(folded(members)),
        _ => content,
    }
}

/// A key that no member has stands nowhere.
pub proof fn lemma_absent_key_has_no_position(
    members: Seq<(Seq<char>, JsonValue)>,
    key: Seq<char>,
)
    requires
        forall|i: int| 0 <= i < members.len() ==> (#[trigger] members[i]).0 != key,
    ensures
        key_position(members, key) is None,
    decreases members.len(),
{
    if members.len() > 0 {
        let earlier = members.drop_last();
        assert forall|i: int| 0 <= i < earlier.len() implies (#[trigger] earlier[i]).0 != key by {
            assert(earlier[i] == members[i]);
        }
        lemma_absent_key_has_no_position(earlier, key);
    }
}

/// Members with keys that all differ are held as they stand.
pub proof fn lemma_distinct_keys_are_kept(members: Seq<(Seq<char>, JsonValue)>)
    requires
        distinct_keys(members),
    ensures
        folded(members) == members,
    decreases members.len(),
{
    if members.len() > 0 {
        let earlier = members.drop_last();
        assert forall|i: int, j: int| 0 <= i < j < earlier.len() implies (#[trigger] earlier[i]).0
            != (#[trigger] earlier[j]).0 by {
            assert(earlier[i] == members[i]);
            assert(earlier[j] == members[j]);
        }
        lemma_distinct_keys_are_kept(earlier);
        assert forall|i: int| 0 <= i < earlier.len() implies (#[trigger] earlier[i]).0
            != members.last().0 by {
            assert(earlier[i] == members[i]);
            assert(members.last() == members[members.len() - 1]);
        }
        lemma_absent_key_has_no_position(earlier, members.last().0);
        assert(earlier.push(members.last()) =~= members);
    } else {
        assert(members =~= Seq::empty());
    }
}

/// Calls `serde_json::from_str` for a `serde_json::Value`. The result depends
/// on the text alone; `None` stands for any error of `serde_json`.
#[verifier::external_body]
fn value_from_text(text: &str) -> (r: Option<serde_json::Value>)
    ensures
        (match r {
            Some(value) => parsed_json(text@) == Some(value_content(value)),
            None => parsed_json(text@) is None,
        }),
{
    serde_json::from_str::<serde_json::Value>(text).ok()
}

/// Takes one level of a `serde_json::Value` apart, variant by variant. A
/// number that `as_u64` gives is `Number`, any other number `Decimal` with
/// the text that `serde_json` prints for it. The items of an array and the
/// members of an object come in their order (`serde_json` is built with
/// `preserve_order`).
#[verifier::external_body]
fn take_apart<'a>(value: &'a serde_json::Value) -> (level: Level<'a>)
    ensures
        level_content(level) == value_content(*value),
{
    match value {
        serde_json::Value::Null => Level::Null,
        serde_json::Value::Bool(b) => Level::Bool(*b),
        serde_json::Value::Number(n) => match n.as_u64() {
            Some(u) => Level::Number(u),
            None => Level::Decimal(n.to_string()),
        },
        serde_json::Value::String(s) => Level::Text(s.clone()),
        serde_json::Value::Array(a) => Level::Array(a.iter().collect()),
        serde_json::Value::Object(m) => Level::Object(
            m.iter().map(|(k, v)| (k.clone(), v)).collect(),
        ),
    }
}

/// Puts a `serde_json::Value` together from its parts, variant by variant.
/// The members of an object are collected into a `serde_json::Map`, which
/// keeps them in their order (`serde_json` is built with `preserve_order`)
/// and keeps one member for each key: a key that comes again keeps its
/// place, and takes the later value.
#[verifier::external_body]
fn put_together(parts: Parts) -> (value: serde_json::Value)
    ensures
        value_content(value) == assembled_json(parts_content(parts)),
{
    match parts {
        Parts::Null => serde_json::Value::Null,
        Parts::Bool(b) => serde_json::Value::Bool(b),
        Parts::Number(n) => serde_json::Value::from(n),
        Parts::Text(t) => serde_json::Value::String(t),
        Parts::Array(a) => serde_json::Value::Array(a),
        Parts::Object(m) => serde_json::Value::Object(m.into_iter().collect()),
    }
}

/// Writes a `serde_json::Value` as compact text, through its `Display`.
#[verifier::external_body]
fn text_from_value(value: &serde_json::Value) -> (text: String)
    ensures
        text@ == printed_json(value_content(*value)),
{
    value.to_string()
}

/// What a `serde_json::Value` holds once it has been built from a [`Json`]:
/// each value in the tree as `serde_json` holds it when it is put together
/// from its parts, from the leaves up. A number that is kept as text is
/// what `serde_json` reads from that text, and `null` where it reads
/// nothing. For a plain value that is the value itself.
pub open spec fn stored_json(json: JsonValue) -> JsonValue
    decreases json, 1nat,
{
    match json {
        JsonValue::Array(items) => assembled_json(JsonValue::Array(stored_items(items))),
        JsonValue::Object(members) => assembled_json(JsonValue::Object(stored_members(members))),
        JsonValue::Decimal(text) => match parsed_json(text) {
            Some(value) => value,
            None => JsonValue::Null,
        },
        _ => json,
    }
}

/// The items of an array, each as `serde_json` holds it.
pub open spec fn stored_items(items: Seq<JsonValue>) -> Seq<JsonValue>
    decreases items, 0nat,
{
    Seq::new(
        items.len(),
        |i: int|
            if 0 <= i < items.len() {
                stored_json(items[i])
            } else {
                JsonValue::Null
            },
    )
}

/// The members of an object, each with its value as `serde_json` holds it.
pub open spec fn stored_members(members: Seq<(Seq<char>, JsonValue)>) -> Seq<
    (Seq<char>, JsonValue),
>
    decreases members, 0nat,
{
    Seq::new(
        members.len(),
        |i: int|
            if 0 <= i < members.len() {
                (members[i].0, stored_json(members[i].1))
            } else {
                (Seq::empty(), JsonValue::Null)
            },
    )
}

/// The [`Json`] that holds what a `serde_json::Value` holds.
fn json_from_value(value: &serde_json::Value) -> (json: Json)
    ensures
        json@ == value_content(*value),
    decreases value_content(*value),
{
    let ghost whole = value_content(*value);
    match take_apart(value) {
        Level::Null => Json::Null,
        Level::Bool(b) => Json::Bool(b),
        Level::Number(n) => Json::Number(n),
        Level::Decimal(d) => Json::Decimal(d),
        Level::Text(t) => Json::Text(t),
        Level::Array(parts) => {
            let mut items: Vec<Json> = Vec::new();
            let mut i: usize = 0;
            while i < parts.len()
                invariant
                    i <= parts.len(),
                    items.len() == i,
                    whole == value_content(*value),
                    whole == level_content(Level::Array(parts)),
                    forall|k: int|
                        0 <= k < i ==> (#[trigger] items@[k])@ == value_content(*parts@[k]),
                decreases parts.len() - i,
            {
                proof {
                    assert(whole->Array_0[i as int] == value_content(*parts@[i as int]));
                    assert(decreases_to!(whole => whole->Array_0));
                    assert(decreases_to!(whole->Array_0 => whole->Array_0[i as int]));
                }
                let item = json_from_value(parts[i]);
                items.push(item);
                i += 1;
            }
            proof {
                lemma_array_view(items);
                assert(Json::Array(items)@->Array_0 =~= whole->Array_0);
            }
            Json::Array(items)
        },
        Level::Object(parts) => {
            let mut members: Vec<(String, Json)> = Vec::new();
            let mut i: usize = 0;
            while i < parts.len()
                invariant
                    i <= parts.len(),
                    members.len() == i,
                    whole == value_content(*value),
                    whole == level_content(Level::Object(parts)),
                    forall|k: int|
                        0 <= k < i ==> (#[trigger] members@[k]).0@ == parts@[k].0@ && members@[k].1@
                            == value_content(*parts@[k].1),
                decreases parts.len() - i,
            {
                proof {
                    assert(whole->Object_0[i as int] == (
                        parts@[i as int].0@,
                        value_content(*parts@[i as int].1),
                    ));
                    assert(decreases_to!(whole => whole->Object_0));
                    assert(decreases_to!(whole->Object_0 => whole->Object_0[i as int]));
                    assert(decreases_to!(whole->Object_0[i as int] => whole->Object_0[i as int].1));
                }
                let item = json_from_value(parts[i].1);
                members.push((parts[i].0.clone(), item));
                i += 1;
            }
            proof {
                lemma_object_view(members);
                assert(Json::Object(members)@->Object_0 =~= whole->Object_0);
            }
            Json::Object(members)
        },
    }
}

/// The `serde_json::Value` that is built from a [`Json`], from the leaves
/// up.
fn value_from_json(json: &Json) -> (value: serde_json::Value)
    ensures
        value_content(value) == stored_json(json@),
        json@.plain() ==> value_content(value) == json@,
    decreases json,
{
    match json {
        Json::Null => put_together(Parts::Null),
        Json::Bool(b) => put_together(Parts::Bool(*b)),
        Json::Number(n) => put_together(Parts::Number(*n)),
        Json::Decimal(d) => match value_from_text(d.as_str()) {
            Some(value) => value,
            None => put_together(Parts::Null),
        },
        Json::Text(t) => put_together(Parts::Text(t.clone())),
        Json::Array(items) => {
            let mut parts: Vec<serde_json::Value> = Vec::new();
            let mut i: usize = 0;
            while i < items.len()
                invariant
                    i <= items.len(),
                    parts.len() == i,
                    *json == Json::Array(*items),
                    forall|k: int|
                        0 <= k < i ==> value_content(#[trigger] parts@[k]) == stored_json(
                            items@[k]@,
                        ),
                    forall|k: int|
                        0 <= k < i && items@[k]@.plain() ==> value_content(#[trigger] parts@[k])
                            == items@[k]@,
                decreases items.len() - i,
            {
                proof {
                    assert(decreases_to!(*json => json->Array_0));
                    assert(decreases_to!(json->Array_0 => json->Array_0@));
                    assert(decreases_to!(json->Array_0@ => json->Array_0@[i as int]));
                }
                let part = value_from_json(&items[i]);
                parts.push(part);
                i += 1;
            }
            proof {
                lemma_array_view(*items);
                reveal_with_fuel(JsonValue::plain, 2);
                let held = parts_content(Parts::Array(parts));
                assert(held->Array_0 =~= stored_items(json@->Array_0));
                if json@.plain() {
                    assert(held->Array_0 =~= json@->Array_0);
                }
            }
            put_together(Parts::Array(parts))
        },
        Json::Object(members) => {
            let mut parts: Vec<(String, serde_json::Value)> = Vec::new();
            let mut i: usize = 0;
            while i < members.len()
                invariant
                    i <= members.len(),
                    parts.len() == i,
                    *json == Json::Object(*members),
                    forall|k: int|
                        0 <= k < i ==> (#[trigger] parts@[k]).0@ == members@[k].0@ && value_content(
                            parts@[k].1,
                        ) == stored_json(members@[k].1@),
                    forall|k: int|
                        0 <= k < i && members@[k].1@.plain() ==> value_content(
                            (#[trigger] parts@[k]).1,
                        ) == members@[k].1@,
                decreases members.len() - i,
            {
                proof {
                    assert(decreases_to!(*json => json->Object_0));
                    assert(decreases_to!(json->Object_0 => json->Object_0@));
                    assert(decreases_to!(json->Object_0@ => json->Object_0@[i as int]));
                    assert(decreases_to!(json->Object_0@[i as int] => json->Object_0@[i as int].1));
                }
                let part = value_from_json(&members[i].1);
                parts.push((members[i].0.clone(), part));
                i += 1;
            }
            proof {
                lemma_object_view(*members);
                reveal_with_fuel(JsonValue::plain, 2);
                let held = parts_content(Parts::Object(parts));
                assert(held->Object_0 =~= stored_members(json@->Object_0));
                if json@.plain() {
                    assert(held->Object_0 =~= json@->Object_0);
                    lemma_distinct_keys_are_kept(json@->Object_0);
                }
            }
            put_together(Parts::Object(parts))
        },
    }
}

/// Writes a value as compact JSON text. A plain value is written as it
/// stands.
pub fn print(json: &Json) -> (text: String)
    ensures
        text@ == printed_json(stored_json(json@)),
        json@.plain() ==> text@ == printed_json(json@),
{
    let value = value_from_json(json);
    text_from_value(&value)
}

/// What an optional owned [`Json`] holds.
pub open spec fn content_of(j: Option<Json>) -> Option<JsonValue> {
    match j {
        Some(j) => Some(j@),
        None => None,
    }
}

/// Reads a text as JSON: `None` where `serde_json` refuses the text.
pub fn parse(text: &str) -> (r: Option<Json>)
    ensures
        content_of(r) == parsed_json(text@),
{
    match value_from_text(text) {
        Some(value) => Some(json_from_value(&value)),
        None => None,
    }
}

} // verus!
