//! JSON values as the scheduler reads them, and the way in from text.
//!
//! Text is parsed by `serde_json`; the value it yields is copied into a tree
//! of the library's own, on which the payload rules are stated and proved.

use vstd::prelude::*;
use vstd::string::*;
use crate::text::str_eq;

verus! {

/// A JSON value. A number is kept as the text `serde_json` writes for it; an
/// object is kept as its members in the order `serde_json` yields them.
#[derive(Debug)]
pub enum Json {
    Null,
    Bool(bool),
    Number(String),
    Text(String),
    Array(Vec<Json>),
    Object(Vec<(String, Json)>),
}

/// The mathematical form of a JSON value.
pub enum JsonValue {
    Null,
    Bool(bool),
    Number(Seq<char>),
    Text(Seq<char>),
    Array(Seq<JsonValue>),
    Object(Seq<Seq<char>>, Seq<JsonValue>),
}

impl View for Json {
    type V = JsonValue;

    open spec fn view(&self) -> JsonValue
        decreases self,
    {
        match self {
            Json::Null => JsonValue::Null,
            Json::Bool(b) => JsonValue::Bool(*b),
            Json::Number(n) => JsonValue::Number(n@),
            Json::Text(s) => JsonValue::Text(s@),
            Json::Array(items) => JsonValue::Array(
                Seq::new(
                    items@.len(),
                    |i: int|
                        if 0 <= i < items@.len() {
                            items@[i].view()
                        } else {
                            JsonValue::Null
                        },
                ),
            ),
            Json::Object(members) => JsonValue::Object(
                Seq::new(members@.len(), |i: int| members@[i].0@),
                Seq::new(
                    members@.len(),
                    |i: int|
                        if 0 <= i < members@.len() {
                            members@[i].1.view()
                        } else {
                            JsonValue::Null
                        },
                ),
            ),
        }
    }
}

impl JsonValue {
    /// The value under `key` in an object with these keys and values: that
    /// of the first member with this key, looking from position `from` on.
    pub open spec fn lookup(
        keys: Seq<Seq<char>>,
        values: Seq<JsonValue>,
        key: Seq<char>,
        from: int,
    ) -> Option<JsonValue>
        decreases keys.len() - from,
    {
        if from < 0 || from >= keys.len() || from >= values.len() {
            None
        } else if keys[from] == key {
            Some(values[from])
        } else {
            JsonValue::lookup(keys, values, key, from + 1)
        }
    }

    /// The member `key` of an object; `None` for any other value.
    pub open spec fn member(self, key: Seq<char>) -> Option<JsonValue> {
        match self {
            JsonValue::Object(keys, values) => JsonValue::lookup(keys, values, key, 0),
            _ => None,
        }
    }

    /// The text of a string; `None` for any other value.
    pub open spec fn text(self) -> Option<Seq<char>> {
        match self {
            JsonValue::Text(s) => Some(s),
            _ => None,
        }
    }

    /// The text of the member `key` of an object, where that member is a
    /// string.
    pub open spec fn text_member(self, key: Seq<char>) -> Option<Seq<char>> {
        match self.member(key) {
            Some(v) => v.text(),
            None => None,
        }
    }
}

/// The view of an object, member by member.
pub proof fn lemma_object_view(members: Vec<(String, Json)>)
    ensures
        Json::Object(members)@ is Object,
        Json::Object(members)@->Object_0.len() == members@.len(),
        Json::Object(members)@->Object_1.len() == members@.len(),
        forall|j: int|
            0 <= j < members@.len() ==> (#[trigger] Json::Object(members)@->Object_0[j])
                == members@[j].0@,
        forall|j: int|
            0 <= j < members@.len() ==> (#[trigger] Json::Object(members)@->Object_1[j])
                == members@[j].1@,
{
}

/// The view of an array, item by item.
pub proof fn lemma_array_view(items: Vec<Json>)
    ensures
        Json::Array(items)@ is Array,
        Json::Array(items)@->Array_0.len() == items@.len(),
        forall|j: int| 0 <= j < items@.len() ==> (#[trigger] Json::Array(items)@->Array_0[j]) == items@[j]@,
{
}

/// The views of an optional JSON value.
pub open spec fn json_view(value: Option<Json>) -> Option<JsonValue> {
    match value {
        Some(j) => Some(j@),
        None => None,
    }
}

/// The views of an optional borrowed JSON value.
pub open spec fn json_ref_view(value: Option<&Json>) -> Option<JsonValue> {
    match value {
        Some(j) => Some(j@),
        None => None,
    }
}

impl Json {
    /// The member `key` of an object: the first with this key.
    pub fn member(&self, key: &str) -> (found: Option<&Json>)
        ensures
            json_ref_view(found) == self@.member(key@),
    {
        match self {
            Json::Object(members) => {
                let ghost keys = self@->Object_0;
                let ghost values = self@->Object_1;
                let mut i: usize = 0;
                proof {
                    lemma_object_view(*members);
                }
                while i < members.len()
                    invariant
                        i <= members@.len(),
                        keys.len() == members@.len(),
                        values.len() == members@.len(),
                        forall|j: int| 0 <= j < keys.len() ==> keys[j] == members@[j].0@,
                        forall|j: int| 0 <= j < values.len() ==> values[j] == members@[j].1@,
                        self@.member(key@) == JsonValue::lookup(keys, values, key@, i as int),
                    decreases members@.len() - i,
                {
                    if str_eq(members[i].0.as_str(), key) {
                        return Some(&members[i].1);
                    }
                    i = i + 1;
                }
                None
            },
            _ => None,
        }
    }

    /// The text of a string value.
    pub fn as_text(&self) -> (text: Option<&String>)
        ensures
            match text {
                Some(s) => self@.text() == Some(s@),
                None => self@.text() is None,
            },
    {
        match self {
            Json::Text(s) => Some(s),
            _ => None,
        }
    }

    /// The text of the member `key`, where it is a string.
    pub fn text_member(&self, key: &str) -> (text: Option<&String>)
        ensures
            match text {
                Some(s) => self@.text_member(key@) == Some(s@),
                None => self@.text_member(key@) is None,
            },
    {
        match self.member(key) {
            Some(v) => v.as_text(),
            None => None,
        }
    }

    /// The items of an array value.
    pub fn as_array(&self) -> (items: Option<&Vec<Json>>)
        ensures
            match items {
                Some(v) => self@ is Array && self@->Array_0.len() == v@.len() && forall|i: int|
                    0 <= i < v@.len() ==> self@->Array_0[i] == (#[trigger] v@[i])@,
                None => !(self@ is Array),
            },
    {
        match self {
            Json::Array(items) => {
                proof {
                    lemma_array_view(*items);
                }
                Some(items)
            },
            _ => None,
        }
    }

    /// Whether the value is `null`.
    pub fn is_null(&self) -> (b: bool)
        ensures
            b == (self@ is Null),
    {
        match self {
            Json::Null => true,
            _ => false,
        }
    }

    /// Whether the value is an object.
    pub fn is_object(&self) -> (b: bool)
        ensures
            b == (self@ is Object),
    {
        match self {
            Json::Object(_) => true,
            _ => false,
        }
    }
}

/// `serde_json::Value`, carried from the parser to the copy and not looked
/// into.
#[verifier::external_type_specification]
#[verifier::external_body]
pub struct ExSerdeValue(serde_json::Value);

/// The tree that `serde_json::from_str` reads from a text, or `None` where
/// it rejects the text.
pub uninterp spec fn json_parse(text: Seq<char>) -> Option<JsonValue>;

/// The tree that a `serde_json::Value` holds.
pub uninterp spec fn json_model(value: serde_json::Value) -> JsonValue;

/// `serde_json::from_str` at the type `serde_json::Value`. What comes back
/// depends on the text alone.
#[verifier::external_body]
fn serde_from_str(text: &str) -> (parsed: Option<serde_json::Value>)
    ensures
        match parsed {
            Some(v) => json_parse(text@) == Some(json_model(v)),
            None => json_parse(text@) is None,
        },
{
    serde_json::from_str::<serde_json::Value>(text).ok()
}

/// Copies a `serde_json::Value` into the library's tree, variant for variant:
/// a number as the text of its `Display`, an object as its members in the
/// order its iterator yields them.
#[verifier::external_body]
fn json_of_value(value: &serde_json::Value) -> (tree: Json)
    ensures
        tree@ == json_model(*value),
{
    match value {
        serde_json::Value::Null => Json::Null,
        serde_json::Value::Bool(b) => Json::Bool(*b),
        serde_json::Value::Number(n) => Json::Number(n.to_string()),
        serde_json::Value::String(s) => Json::Text(s.clone()),
        serde_json::Value::Array(a) => Json::Array(a.iter().map(|v| json_of_value(v)).collect()),
        serde_json::Value::Object(o) => {
            Json::Object(o.iter().map(|(k, v)| (k.clone(), json_of_value(v))).collect())
        },
    }
}

/// Parses a JSON text. `None` where the text is not JSON.
pub fn parse_json(text: &str) -> (parsed: Option<Json>)
    ensures
        json_view(parsed) == json_parse(text@),
{
    match serde_from_str(text) {
        Some(v) => Some(json_of_value(&v)),
        None => None,
    }
}

impl Clone for Json {
    fn clone(&self) -> (copy: Json)
        ensures
            copy@ == self@,
        decreases self,
    {
        match self {
            Json::Null => Json::Null,
            Json::Bool(b) => Json::Bool(*b),
            Json::Number(n) => Json::Number(n.clone()),
            Json::Text(s) => Json::Text(s.clone()),
            Json::Array(items) => {
                let mut out: Vec<Json> = Vec::new();
                let mut i: usize = 0;
                while i < items.len()
                    invariant
                        i <= items@.len(),
                        out@.len() == i,
                        forall|j: int| 0 <= j < i ==> out@[j]@ == items@[j]@,
                        *self == Json::Array(*items),
                    decreases items@.len() - i,
                {
                    assert(decreases_to!(self => items@[i as int])) by {
                        assert(self->Array_0 == *items);
                        assert(decreases_to!(self => self->Array_0));
                        assert(decreases_to!(*items => items[i as int]));
                    }
                    let item = items[i].clone();
                    out.push(item);
                    i = i + 1;
                }
                let copy = Json::Array(out);
                assert(copy@ == self@) by {
                    assert(copy@->Array_0 =~= self@->Array_0);
                }
                copy
            },
            Json::Object(members) => {
                let mut out: Vec<(String, Json)> = Vec::new();
                let mut i: usize = 0;
                while i < members.len()
                    invariant
                        i <= members@.len(),
                        out@.len() == i,
                        forall|j: int| 0 <= j < i ==> out@[j].0@ == members@[j].0@ && out@[j].1@ == members@[j].1@,
                        *self == Json::Object(*members),
                    decreases members@.len() - i,
                {
                    let key = members[i].0.clone();
                    assert(decreases_to!(self => members@[i as int].1)) by {
                        assert(self->Object_0 == *members);
                        assert(decreases_to!(self => self->Object_0));
                        assert(decreases_to!(*members => members[i as int]));
                        assert(decreases_to!(members[i as int] => members[i as int].1));
                    }
                    let value = members[i].1.clone();
                    out.push((key, value));
                    i = i + 1;
                }
                let copy = Json::Object(out);
                assert(copy@ == self@) by {
                    assert(copy@->Object_0 =~= self@->Object_0);
                    assert(copy@->Object_1 =~= self@->Object_1);
                }
                copy
            },
        }
    }
}

} // verus!
