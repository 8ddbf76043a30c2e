//! A JSON document as the connectors read and write it.
//!
//! The exchanges speak JSON over HTTP and WebSocket. Reading and printing
//! JSON text is the work of `serde_json` ([`parse_json`], [`to_json_text`]);
//! the library works on [`Json`], a plain tree holding what
//! `serde_json::Value` holds, and states its contracts over [`JsonValue`], the
//! same tree with `Seq<char>` for text.

use vstd::prelude::*;
use crate::text::texts;

verus! {

/// A JSON value. Numbers keep their JSON text (such as `1` or `0.5`); object
/// members keep their order.
#[derive(Debug)]
pub enum Json {
    Null,
    Bool(bool),
    Number(String),
    Str(String),
    Array(Vec<Json>),
    Object(Vec<(String, Json)>),
}

/// The mathematical content of a [`Json`].
pub ghost enum JsonValue {
    Null,
    Bool(bool),
    Number(Seq<char>),
    Str(Seq<char>),
    Array(Seq<JsonValue>),
    Object(Seq<(Seq<char>, JsonValue)>),
}

/// The value of the first member of `members` named `key`, if any.
pub open spec fn member(members: Seq<(Seq<char>, JsonValue)>, key: Seq<char>) -> Option<JsonValue>
    decreases members.len(),
{
    if members.len() == 0 {
        None
    } else if members[0].0 == key {
        Some(members[0].1)
    } else {
        member(members.drop_first(), key)
    }
}

impl JsonValue {
    /// What `serde_json::Value::get(key)` finds: the member `key` of an
    /// object, and nothing for any other kind of value.
    pub open spec fn field(self, key: Seq<char>) -> Option<JsonValue> {
        match self {
            JsonValue::Object(members) => member(members, key),
            _ => None,
        }
    }

    /// The text of a string value (`serde_json::Value::as_str`).
    pub open spec fn text(self) -> Option<Seq<char>> {
        match self {
            JsonValue::Str(s) => Some(s),
            _ => None,
        }
    }

    /// The text of the string member `key` of an object.
    pub open spec fn text_field(self, key: Seq<char>) -> Option<Seq<char>> {
        match self.field(key) {
            Some(v) => v.text(),
            None => None,
        }
    }
}

impl Json {
    /// The content of this value.
    pub open spec fn model(self) -> JsonValue
        decreases self, 1int,
    {
        match self {
            Json::Null => JsonValue::Null,
            Json::Bool(b) => JsonValue::Bool(b),
            Json::Number(n) => JsonValue::Number(n@),
            Json::Str(s) => JsonValue::Str(s@),
            Json::Array(items) => JsonValue::Array(Json::model_items(items@)),
            Json::Object(members) => JsonValue::Object(Json::model_members(members@)),
        }
    }

    /// The content of each item of `items`.
    pub open spec fn model_items(items: Seq<Json>) -> Seq<JsonValue>
        decreases items, 0int,
    {
        if items.len() == 0 {
            Seq::empty()
        } else {
            seq![items[0].model()] + Json::model_items(items.subrange(1, items.len() as int))
        }
    }

    /// The name and content of each member of `members`.
    pub open spec fn model_members(members: Seq<(String, Json)>) -> Seq<(Seq<char>, JsonValue)>
        decreases members, 0int,
    {
        if members.len() == 0 {
            Seq::empty()
        } else {
            seq![(members[0].0@, members[0].1.model())] + Json::model_members(
                members.subrange(1, members.len() as int),
            )
        }
    }
}

/// The content of `members` is member-wise the content of each member.
pub proof fn lemma_model_members(members: Seq<(String, Json)>)
    ensures
        Json::model_members(members).len() == members.len(),
        forall|i: int|
            0 <= i < members.len() ==> #[trigger] Json::model_members(members)[i] == (
                members[i].0@,
                members[i].1.model(),
            ),
    decreases members.len(),
{
    if members.len() > 0 {
        let rest = members.subrange(1, members.len() as int);
        lemma_model_members(rest);
        assert forall|i: int| 0 <= i < members.len() implies #[trigger] Json::model_members(
            members,
        )[i] == (members[i].0@, members[i].1.model()) by {
            if i > 0 {
                assert(rest[i - 1] == members[i]);
            }
        }
    }
}

/// The content of `items` is item-wise the content of each item.
pub proof fn lemma_model_items(items: Seq<Json>)
    ensures
        Json::model_items(items).len() == items.len(),
        forall|i: int|
            0 <= i < items.len() ==> #[trigger] Json::model_items(items)[i] == items[i].model(),
    decreases items.len(),
{
    if items.len() > 0 {
        let rest = items.subrange(1, items.len() as int);
        lemma_model_items(rest);
        assert forall|i: int| 0 <= i < items.len() implies #[trigger] Json::model_items(items)[i]
            == items[i].model() by {
            if i > 0 {
                assert(rest[i - 1] == items[i]);
            }
        }
    }
}

/// `member` finds the first member named `key`.
pub proof fn lemma_member_first(members: Seq<(Seq<char>, JsonValue)>, key: Seq<char>, i: int)
    requires
        0 <= i <= members.len(),
        forall|j: int| 0 <= j < i ==> #[trigger] members[j].0 != key,
    ensures
        i < members.len() && members[i].0 == key ==> member(members, key) == Some(members[i].1),
        i == members.len() ==> member(members, key) is None,
    decreases i,
{
    if i > 0 {
        let rest = members.drop_first();
        assert forall|j: int| 0 <= j < i - 1 implies #[trigger] rest[j].0 != key by {
            assert(rest[j] == members[j + 1]);
        }
        lemma_member_first(rest, key, i - 1);
    }
}

/// The index of the first member of `members` named `key`.
fn position(members: &Vec<(String, Json)>, key: &str) -> (r: Option<usize>)
    ensures
        match r {
            Some(i) => i < members@.len() && member(Json::model_members(members@), key@) == Some(
                members@[i as int].1.model(),
            ),
            None => member(Json::model_members(members@), key@) is None,
        },
{
    let wanted = key.to_owned();
    let ghost ms = Json::model_members(members@);
    proof {
        lemma_model_members(members@);
    }
    let mut i: usize = 0;
    while i < members.len()
        invariant
            i <= members.len(),
            wanted@ == key@,
            ms == Json::model_members(members@),
            ms.len() == members@.len(),
            forall|k: int|
                0 <= k < members@.len() ==> #[trigger] ms[k] == (members@[k].0@, members@[k].1.model()),
            forall|j: int| 0 <= j < i ==> #[trigger] ms[j].0 != key@,
        decreases members.len() - i,
    {
        if members[i].0 == wanted {
            proof {
                assert(ms[i as int].0 == key@);
                lemma_member_first(ms, key@, i as int);
            }
            return Some(i);
        }
        i = i + 1;
    }
    proof {
        lemma_member_first(ms, key@, i as int);
    }
    None
}

impl Json {
    /// The member `key` of this value if it is an object holding one, as
    /// `serde_json::Value::get` gives it.
    pub fn get(&self, key: &str) -> (r: Option<&Json>)
        ensures
            match r {
                Some(v) => self.model().field(key@) == Some(v.model()),
                None => self.model().field(key@) is None,
            },
    {
        match self {
            Json::Object(members) => match position(members, key) {
                Some(i) => Some(&members[i].1),
                None => None,
            },
            _ => None,
        }
    }

    /// The member `key` of this value, taken out of it (the rest of the
    /// value is dropped).
    pub fn into_field(self, key: &str) -> (r: Option<Json>)
        ensures
            match r {
                Some(v) => self.model().field(key@) == Some(v.model()),
                None => self.model().field(key@) is None,
            },
    {
        match self {
            Json::Object(members) => match position(&members, key) {
                Some(i) => {
                    let mut members = members;
                    let (_, value) = members.remove(i);
                    Some(value)
                },
                None => None,
            },
            _ => None,
        }
    }

    /// The text of this value if it is a string (`serde_json::Value::as_str`).
    pub fn as_text(&self) -> (r: Option<&String>)
        ensures
            match r {
                Some(s) => self.model().text() == Some(s@),
                None => self.model().text() is None,
            },
    {
        match self {
            Json::Str(s) => Some(s),
            _ => None,
        }
    }

    /// The text of the string member `key` of this value.
    pub fn text_field(&self, key: &str) -> (r: Option<String>)
        ensures
            match r {
                Some(s) => self.model().text_field(key@) == Some(s@),
                None => self.model().text_field(key@) is None,
            },
    {
        match self.get(key) {
            Some(v) => match v.as_text() {
                Some(s) => Some(s.clone()),
                None => None,
            },
            None => None,
        }
    }

    /// A string value with the text `s`.
    pub fn text(s: &str) -> (r: Json)
        ensures
            r.model() == JsonValue::Str(s@),
    {
        Json::Str(s.to_owned())
    }

    /// An array of the strings of `items`, in order.
    pub fn texts(items: &Vec<String>) -> (r: Json)
        ensures
            r.model() == JsonValue::Array(str_values(texts(items@))),
    {
        let mut values: Vec<Json> = Vec::new();
        let mut i: usize = 0;
        while i < items.len()
            invariant
                i <= items.len(),
                values.len() == i,
                forall|j: int| 0 <= j < i ==> #[trigger] values@[j].model() == JsonValue::Str(items@[j]@),
            decreases items.len() - i,
        {
            values.push(Json::Str(items[i].clone()));
            i = i + 1;
        }
        proof {
            lemma_model_items(values@);
            assert(Json::model_items(values@) =~= str_values(texts(items@)));
        }
        Json::Array(values)
    }
}

/// String values with the texts `t`, in order.
pub open spec fn str_values(t: Seq<Seq<char>>) -> Seq<JsonValue> {
    t.map_values(|x: Seq<char>| JsonValue::Str(x))
}

/// `serde_json::Value`, the tree `serde_json` reads JSON text into.
#[verifier::external_type_specification]
#[verifier::external_body]
pub struct ExJsonValue(serde_json::Value);

/// The document `serde_json::from_str` reads from `text`, or `None` where it
/// reports an error (the text is not one JSON value).
pub uninterp spec fn parsed_json(text: Seq<char>) -> Option<JsonValue>;

/// The compact text `serde_json` prints for the document `v`
/// (`Value::to_string`), or `None` where `v` holds a number text that
/// `serde_json::Number::from_str` refuses.
pub uninterp spec fn json_text(v: JsonValue) -> Option<Seq<char>>;

/// Whether `t` is a JSON number that `serde_json` reads as a `u64`: one to
/// nineteen decimal digits, with no leading zero unless it is `0` itself.
pub open spec fn plain_number(t: Seq<char>) -> bool {
    &&& 1 <= t.len() <= 19
    &&& forall|i: int| 0 <= i < t.len() ==> '0' <= #[trigger] t[i] <= '9'
    &&& (t.len() == 1 || t[0] != '0')
}

/// Whether every number in `v` is a [`plain_number`].
pub open spec fn numbers_plain(v: JsonValue) -> bool
    decreases v, 1int,
{
    match v {
        JsonValue::Number(t) => plain_number(t),
        JsonValue::Array(items) => items_plain(items),
        JsonValue::Object(members) => members_plain(members),
        _ => true,
    }
}

/// Whether every number in `items` is a [`plain_number`].
pub open spec fn items_plain(items: Seq<JsonValue>) -> bool
    decreases items, 0int,
{
    if items.len() == 0 {
        true
    } else {
        numbers_plain(items[0]) && items_plain(items.subrange(1, items.len() as int))
    }
}

/// Whether every number in the values of `members` is a [`plain_number`].
pub open spec fn members_plain(members: Seq<(Seq<char>, JsonValue)>) -> bool
    decreases members, 0int,
{
    if members.len() == 0 {
        true
    } else {
        numbers_plain(members[0].1) && members_plain(members.subrange(1, members.len() as int))
    }
}

/// Items whose numbers are each plain hold only plain numbers.
pub proof fn lemma_items_plain(items: Seq<JsonValue>)
    requires
        forall|i: int| 0 <= i < items.len() ==> numbers_plain(#[trigger] items[i]),
    ensures
        items_plain(items),
    decreases items.len(),
{
    if items.len() > 0 {
        let rest = items.subrange(1, items.len() as int);
        assert forall|i: int| 0 <= i < rest.len() implies numbers_plain(#[trigger] rest[i]) by {
            assert(rest[i] == items[i + 1]);
        }
        lemma_items_plain(rest);
        assert(numbers_plain(items[0]));
    }
}

/// Members whose numbers are each plain hold only plain numbers.
pub proof fn lemma_members_plain(members: Seq<(Seq<char>, JsonValue)>)
    requires
        forall|i: int| 0 <= i < members.len() ==> numbers_plain(#[trigger] members[i].1),
    ensures
        members_plain(members),
    decreases members.len(),
{
    if members.len() > 0 {
        let rest = members.subrange(1, members.len() as int);
        assert forall|i: int| 0 <= i < rest.len() implies numbers_plain(#[trigger] rest[i].1) by {
            assert(rest[i] == members[i + 1]);
        }
        lemma_members_plain(rest);
        assert(numbers_plain(members[0].1));
    }
}

/// An array of strings holds no number.
pub proof fn lemma_str_values_plain(t: Seq<Seq<char>>)
    ensures
        items_plain(str_values(t)),
{
    assert forall|i: int| 0 <= i < str_values(t).len() implies numbers_plain(#[trigger] str_values(t)[i]) by {
        assert(str_values(t)[i] == JsonValue::Str(t[i]));
    }
    lemma_items_plain(str_values(t));
}

/// The library's tree for a `serde_json::Value`, node for node; a number
/// keeps the text `serde_json` prints for it. Used by [`parse_json`] only.
#[verifier::external_body]
fn json_of_value(v: &serde_json::Value) -> Json {
    match v {
        serde_json::Value::Null => Json::Null,
        serde_json::Value::Bool(b) => Json::Bool(*b),
        serde_json::Value::Number(n) => Json::Number(n.to_string()),
        serde_json::Value::String(s) => Json::Str(s.clone()),
        serde_json::Value::Array(items) => Json::Array(items.iter().map(json_of_value).collect()),
        serde_json::Value::Object(ms) => Json::Object(ms.iter().map(|(k, v)| (k.clone(), json_of_value(v))).collect()),
    }
}

/// The `serde_json::Value` for a tree of the library, node for node, or
/// `None` where `serde_json::Number::from_str` refuses a number text. Used by
/// [`to_json_text`] only.
#[verifier::external_body]
fn value_of_json(j: &Json) -> Option<serde_json::Value> {
    Some(match j {
        Json::Null => serde_json::Value::Null,
        Json::Bool(b) => serde_json::Value::Bool(*b),
        Json::Number(t) => serde_json::Value::Number(t.parse().ok()?),
        Json::Str(s) => serde_json::Value::String(s.clone()),
        Json::Array(items) => serde_json::Value::Array(items.iter().map(value_of_json).collect::<Option<_>>()?),
        Json::Object(ms) => serde_json::Value::Object(ms.iter().map(|(k, v)| Some((k.clone(), value_of_json(v)?))).collect::<Option<_>>()?),
    })
}

/// `serde_json::from_str::<serde_json::Value>`: reads `text` as one JSON
/// value. The result is only named ([`parsed_json`]), as a function of the
/// text; the error is `serde_json`'s own.
#[verifier::external_body]
pub fn parse_json(text: &str) -> (r: Result<Json, serde_json::Error>)
    ensures
        match r {
            Ok(j) => parsed_json(text@) == Some(j.model()),
            Err(_) => parsed_json(text@) is None,
        },
{
    match serde_json::from_str::<serde_json::Value>(text) {
        Ok(v) => Ok(json_of_value(&v)),
        Err(e) => Err(e),
    }
}

/// `Value::to_string` of `serde_json` on the value `j` stands for: the compact
/// JSON text of `j`. The text is only named ([`json_text`]), as a function of
/// the content of `j`. A number text is read by `serde_json::Number::from_str`,
/// which takes every [`plain_number`]; printing a value does not fail.
#[verifier::external_body]
pub fn to_json_text(j: &Json) -> (r: Option<String>)
    ensures
        match r {
            Some(s) => json_text(j.model()) == Some(s@),
            None => json_text(j.model()) is None,
        },
        numbers_plain(j.model()) ==> r is Some,
{
    match value_of_json(j) {
        Some(v) => Some(v.to_string()),
        None => None,
    }
}

} // verus!
