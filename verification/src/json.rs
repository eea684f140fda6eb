//! A JSON document as the logic reads it: the replies of the chat service and
//! the payloads of button presses arrive in this shape.

use vstd::prelude::*;
use crate::text::str_eq;

verus! {

/// A JSON number as `serde_json` holds it.
#[verifier::external_type_specification]
#[verifier::external_body]
pub struct ExJsonNumber(serde_json::Number);

/// A JSON document parsed by `serde_json`.
#[verifier::external_type_specification]
#[verifier::external_body]
pub struct ExJsonValue(serde_json::Value);

/// A JSON value. A number is held as `serde_json` holds it, an object by its
/// entries in order (the keys of a parsed object are distinct).
#[derive(Debug)]
pub enum Json {
    Null,
    Bool(bool),
    Number(serde_json::Number),
    Str(String),
    Array(Vec<Json>),
    Object(Vec<(String, Json)>),
}

/// The value stored under `key` among `entries`: the first entry with that key.
pub open spec fn lookup(entries: Seq<(String, Json)>, key: Seq<char>) -> Option<Json>
    decreases entries.len(),
{
    if entries.len() == 0 {
        None
    } else if entries[0].0@ == key {
        Some(entries[0].1)
    } else {
        lookup(entries.drop_first(), key)
    }
}

impl Json {
    /// The member `key` of an object; `None` for a missing key or a value that
    /// is no object (as `Value::get` gives).
    pub open spec fn member(self, key: Seq<char>) -> Option<Json> {
        match self {
            Json::Object(entries) => lookup(entries@, key),
            _ => None,
        }
    }

    /// The member `key`, or `Null` where there is none (as indexing a `Value`
    /// with a key gives).
    pub open spec fn field(self, key: Seq<char>) -> Json {
        match self.member(key) {
            Some(v) => v,
            None => Json::Null,
        }
    }

    /// The element `i` of an array, or `Null` where there is none (as indexing
    /// a `Value` with a position gives).
    pub open spec fn item(self, i: int) -> Json {
        match self {
            Json::Array(items) => if 0 <= i < items@.len() {
                items@[i]
            } else {
                Json::Null
            },
            _ => Json::Null,
        }
    }

    /// The text of a string value.
    pub open spec fn text(self) -> Option<Seq<char>> {
        match self {
            Json::Str(s) => Some(s@),
            _ => None,
        }
    }

    /// Looks up the member `key` of an object.
    pub fn get(&self, key: &str) -> (r: Option<&Json>)
        ensures
            r matches Some(v) ==> self.member(key@) == Some(*v),
            r is None ==> self.member(key@) is None,
    {
        match self {
            Json::Object(entries) => {
                let n = entries.len();
                let mut i: usize = 0;
                assert(entries@.skip(0) =~= entries@);
                while i < n
                    invariant
                        n == entries@.len(),
                        i <= n,
                        self.member(key@) == lookup(entries@, key@),
                        lookup(entries@, key@) == lookup(entries@.skip(i as int), key@),
                    decreases n - i,
                {
                    let ghost rest = entries@.skip(i as int);
                    assert(rest[0] == entries@[i as int]);
                    assert(rest.drop_first() =~= entries@.skip(i + 1));
                    assert(rest.len() > 0);
                    if str_eq(entries[i].0.as_str(), key) {
                        assert(lookup(rest, key@) == Some(rest[0].1));
                        assert(self.member(key@) == Some(entries@[i as int].1));
                        let found = &entries[i].1;
                        assert(*found == entries@[i as int].1);
                        return Some(found);
                    }
                    i = i + 1;
                }
                assert(entries@.skip(n as int).len() == 0);
                None
            },
            _ => None,
        }
    }

    /// The element `i` of an array.
    pub fn at(&self, i: usize) -> (r: Option<&Json>)
        ensures
            r matches Some(v) ==> self is Array && i < self->Array_0@.len() && *v == self.item(i as int),
            r is None ==> self.item(i as int) == Json::Null && !(self is Array && i < self->Array_0@.len()),
    {
        match self {
            Json::Array(items) => {
                if i < items.len() {
                    Some(&items[i])
                } else {
                    None
                }
            },
            _ => None,
        }
    }

    /// The text of a string value.
    pub fn as_text(&self) -> (r: Option<&String>)
        ensures
            r matches Some(s) ==> self.text() == Some(s@),
            r is None ==> self.text() is None,
    {
        match self {
            Json::Str(s) => Some(s),
            _ => None,
        }
    }

    /// Whether this is the value `true`.
    pub fn is_true(&self) -> (r: bool)
        ensures
            r == (*self == Json::Bool(true)),
    {
        match self {
            Json::Bool(b) => *b,
            _ => false,
        }
    }
}

/// A text that JSON writes between its quotes unchanged: no double quote, no
/// backslash, no control character below U+0020.
pub open spec fn plain_text(s: Seq<char>) -> bool {
    forall|i: int| 0 <= i < s.len() ==> s[i] != '"' && s[i] != '\\' && (s[i] as u32) >= 0x20
}

/// Whether `serde_json::from_str` accepts a text as a JSON document.
pub uninterp spec fn json_accepts(text: Seq<char>) -> bool;

/// The `serde_json::Value` that `serde_json::from_str` parses from a text.
pub uninterp spec fn json_value_of(text: Seq<char>) -> serde_json::Value;

/// The model of a parsed value: each variant of `serde_json::Value` as the
/// variant of the same name, member for member.
pub uninterp spec fn value_model(v: serde_json::Value) -> Json;

/// The `serde_json::Value` that a model stands for.
pub uninterp spec fn model_value(j: Json) -> serde_json::Value;

/// The text of a value, as `Display` of `serde_json::Value` writes it.
pub uninterp spec fn value_text(v: serde_json::Value) -> Seq<char>;

/// The model of the document that a text holds.
pub open spec fn json_model(text: Seq<char>) -> Json {
    value_model(json_value_of(text))
}

/// The JSON text of a model.
pub open spec fn json_text(j: Json) -> Seq<char> {
    value_text(model_value(j))
}

/// Parses a text with `serde_json::from_str` into a `serde_json::Value`; a
/// parse error becomes `None`. The result is named by `json_value_of`, and
/// whether there is one by `json_accepts`; both depend on the text alone.
#[verifier::external_body]
fn parse_json_value(text: &str) -> (r: Option<serde_json::Value>)
    ensures
        r is Some <==> json_accepts(text@),
        r matches Some(v) ==> v == json_value_of(text@),
{
    serde_json::from_str::<serde_json::Value>(text).ok()
}

/// Moves a `serde_json::Value` into the library's model, one variant of the
/// outside enum to one variant of `Json`, nested values likewise. The result
/// is named by `value_model`.
#[verifier::external_body]
fn model_of_value(v: serde_json::Value) -> (r: Json)
    ensures
        r == value_model(v),
{
    match v {
        serde_json::Value::Null => Json::Null,
        serde_json::Value::Bool(b) => Json::Bool(b),
        serde_json::Value::Number(n) => Json::Number(n),
        serde_json::Value::String(s) => Json::Str(s),
        serde_json::Value::Array(items) => Json::Array(items.into_iter().map(model_of_value).collect()),
        serde_json::Value::Object(map) => Json::Object(map.into_iter().map(|(k, x)| (k, model_of_value(x))).collect()),
    }
}

/// Builds the `serde_json::Value` that a model stands for, one variant of
/// `Json` to one variant of the outside enum, nested values likewise. The
/// result is named by `model_value`; a string, `null` or a boolean comes back
/// as the same value.
#[verifier::external_body]
fn value_of_model(j: &Json) -> (r: serde_json::Value)
    ensures
        r == model_value(*j),
        (j is Str || j is Null || j is Bool) ==> value_model(r) == *j,
{
    match j {
        Json::Null => serde_json::Value::Null,
        Json::Bool(b) => serde_json::Value::Bool(*b),
        Json::Number(n) => serde_json::Value::Number(n.clone()),
        Json::Str(s) => serde_json::Value::String(s.clone()),
        Json::Array(items) => serde_json::Value::Array(items.iter().map(value_of_model).collect()),
        Json::Object(entries) => serde_json::Value::Object(entries.iter().map(|(k, x)| (k.clone(), value_of_model(x))).collect()),
    }
}

/// Writes a value as JSON text, through `Display` of `serde_json::Value`.
/// The result is named by `value_text`; besides, the serializer's source
/// shows that a string value is written between double quotes, and a plain
/// text unchanged between them, and that `null`, `true` and `false` are
/// written as those words. The escapes of other characters are left
/// unsaid.
#[verifier::external_body]
pub(crate) fn display_value(v: &serde_json::Value) -> (r: String)
    ensures
        r@ == value_text(*v),
        value_model(*v) is Str ==> r@.len() >= 2 && r@[0] == '"' && r@.last() == '"',
        value_model(*v) matches Json::Str(s) ==> (plain_text(s@) ==> r@ == seq!['"'] + s@ + seq!['"']),
        value_model(*v) == Json::Null ==> r@ == "null"@,
        value_model(*v) == Json::Bool(true) ==> r@ == "true"@,
        value_model(*v) == Json::Bool(false) ==> r@ == "false"@,
{
    v.to_string()
}

/// Reads a JSON document; `None` for a text that is no JSON document.
pub fn read_reply(text: &str) -> (r: Option<Json>)
    ensures
        r is Some <==> json_accepts(text@),
        r matches Some(j) ==> j == json_model(text@),
{
    match parse_json_value(text) {
        Some(v) => Some(model_of_value(v)),
        None => None,
    }
}

impl Json {
    /// The JSON text of this value.
    pub fn to_text(&self) -> (r: String)
        ensures
            r@ == json_text(*self),
            self is Str ==> r@.len() >= 2 && r@[0] == '"' && r@.last() == '"',
            self matches Json::Str(s) ==> (plain_text(s@) ==> r@ == seq!['"'] + s@ + seq!['"']),
            *self == Json::Null ==> r@ == "null"@,
            *self == Json::Bool(true) ==> r@ == "true"@,
            *self == Json::Bool(false) ==> r@ == "false"@,
    {
        let v = value_of_model(self);
        display_value(&v)
    }
}

} // verus!
