//! A JSON document as plain values, and the lenient readers the item
//! catalogue is read with (numbers and flags may also be written as text).

use vstd::prelude::*;
use crate::text::{ascii_lower_seq, parse_i64, parse_i64_spec, str_eq, to_ascii_lowercase, trim, trim_spec};

verus! {

broadcast use vstd::string::group_string_axioms;

/// A JSON number: its value when it is an integer that fits in `i64`, and
/// its text.
#[derive(Debug, Clone)]
pub struct JsonNumber {
    pub as_i64: Option<i64>,
    pub text: String,
}

/// A JSON value. Object members keep their order.
#[derive(Debug)]
pub enum JsonValue {
    Null,
    Bool(bool),
    Number(JsonNumber),
    Str(String),
    Array(Vec<JsonValue>),
    Object(Vec<(String, JsonValue)>),
}

/// A number or a text, kept for a reader that wants a fractional value.
#[derive(Debug, Clone)]
pub enum JsonScalar {
    Number(JsonNumber),
    Text(String),
}

/// The member of an object with the given key (the first, if several).
pub open spec fn lookup(obj: Seq<(String, JsonValue)>, key: Seq<char>) -> Option<JsonValue>
    decreases obj.len(),
{
    if obj.len() == 0 {
        None
    } else if obj[0].0@ == key {
        Some(obj[0].1)
    } else {
        lookup(obj.drop_first(), key)
    }
}

/// `Map::get`: the member of an object with the given key.
pub fn obj_get<'a>(obj: &'a Vec<(String, JsonValue)>, key: &str) -> (r: Option<&'a JsonValue>)
    ensures
        r == match lookup(obj@, key@) {
            Some(v) => Some(&v),
            None => None::<&JsonValue>,
        },
{
    let mut i: usize = 0;
    assert(obj@.skip(0) =~= obj@);
    while i < obj.len()
        invariant
            i <= obj.len(),
            lookup(obj@, key@) == lookup(obj@.skip(i as int), key@),
        decreases obj.len() - i,
    {
        assert(obj@.skip(i as int)[0] == obj@[i as int]);
        if str_eq(obj[i].0.as_str(), key) {
            return Some(&obj[i].1);
        }
        assert(obj@.skip(i as int).drop_first() =~= obj@.skip(i + 1));
        i += 1;
    }
    None
}

/// The values a node stands for: the elements of an array, or the node itself.
pub open spec fn elements(v: JsonValue) -> Seq<JsonValue> {
    match v {
        JsonValue::Array(a) => a@,
        _ => seq![v],
    }
}

/// Number of values a node stands for.
pub fn element_count(v: &JsonValue) -> (r: usize)
    ensures
        r == elements(*v).len(),
{
    match v {
        JsonValue::Array(a) => a.len(),
        _ => 1,
    }
}

/// One of the values a node stands for.
pub fn element_at(v: &JsonValue, i: usize) -> (r: &JsonValue)
    requires
        i < elements(*v).len(),
    ensures
        *r == elements(*v)[i as int],
{
    match v {
        JsonValue::Array(a) => &a[i],
        _ => v,
    }
}

/// Text of a member, when it is a string.
pub open spec fn str_member(obj: Seq<(String, JsonValue)>, key: Seq<char>) -> Option<Seq<char>> {
    match lookup(obj, key) {
        Some(JsonValue::Str(s)) => Some(s@),
        _ => None,
    }
}

/// The text of a member, when it is a string.
pub fn get_str<'a>(obj: &'a Vec<(String, JsonValue)>, key: &str) -> (r: Option<&'a str>)
    ensures
        match r {
            Some(s) => str_member(obj@, key@) == Some(s@),
            None => str_member(obj@, key@) is None,
        },
{
    match obj_get(obj, key) {
        Some(JsonValue::Str(s)) => Some(s.as_str()),
        _ => None,
    }
}

/// A text read as an integer: without surrounding white space, non-empty,
/// in `str::parse::<i64>` form.
pub open spec fn text_as_i64(s: Seq<char>) -> Option<i64> {
    let t = trim_spec(s);
    if t.len() == 0 {
        None
    } else {
        parse_i64_spec(t)
    }
}

/// An integer member: a number that is an `i64`, or a text that reads as one.
pub open spec fn i64_member(obj: Seq<(String, JsonValue)>, key: Seq<char>) -> Option<i64> {
    match lookup(obj, key) {
        Some(JsonValue::Number(n)) => n.as_i64,
        Some(JsonValue::Str(s)) => text_as_i64(s@),
        _ => None,
    }
}

fn read_i64_text(s: &str) -> (r: Option<i64>)
    ensures
        r == text_as_i64(s@),
{
    let t = trim(s);
    if t.as_str().unicode_len() == 0 {
        None
    } else {
        parse_i64(t.as_str())
    }
}

/// An integer member, leniently read.
pub fn get_i64(obj: &Vec<(String, JsonValue)>, key: &str) -> (r: Option<i64>)
    ensures
        r == i64_member(obj@, key@),
{
    match obj_get(obj, key) {
        Some(JsonValue::Number(n)) => n.as_i64,
        Some(JsonValue::Str(s)) => read_i64_text(s.as_str()),
        _ => None,
    }
}

/// A text read as a flag (ASCII case ignored, white space trimmed).
pub open spec fn text_as_bool(s: Seq<char>) -> Option<bool> {
    let l = ascii_lower_seq(trim_spec(s));
    if l == "true"@ || l == "1"@ || l == "yes"@ {
        Some(true)
    } else if l == "false"@ || l == "0"@ || l == "no"@ {
        Some(false)
    } else {
        None
    }
}

/// A flag member: a boolean, a number (true when not zero) or a text such
/// as `yes` or `false`.
pub open spec fn bool_member(obj: Seq<(String, JsonValue)>, key: Seq<char>) -> Option<bool> {
    match lookup(obj, key) {
        Some(JsonValue::Bool(b)) => Some(b),
        Some(JsonValue::Number(n)) => match n.as_i64 {
            Some(v) => Some(v != 0),
            None => None,
        },
        Some(JsonValue::Str(s)) => text_as_bool(s@),
        _ => None,
    }
}

fn read_bool_text(s: &str) -> (r: Option<bool>)
    ensures
        r == text_as_bool(s@),
{
    let t = trim(s);
    let lower = to_ascii_lowercase(t.as_str());
    let l = lower.as_str();
    if str_eq(l, "true") || str_eq(l, "1") || str_eq(l, "yes") {
        Some(true)
    } else if str_eq(l, "false") || str_eq(l, "0") || str_eq(l, "no") {
        Some(false)
    } else {
        None
    }
}

/// A flag member, leniently read.
pub fn get_bool(obj: &Vec<(String, JsonValue)>, key: &str) -> (r: Option<bool>)
    ensures
        r == bool_member(obj@, key@),
{
    match obj_get(obj, key) {
        Some(JsonValue::Bool(b)) => Some(*b),
        Some(JsonValue::Number(n)) => match n.as_i64 {
            Some(v) => Some(v != 0),
            None => None,
        },
        Some(JsonValue::Str(s)) => read_bool_text(s.as_str()),
        _ => None,
    }
}

/// A member that is a number or a text, for a fractional reading.
pub open spec fn scalar_member(obj: Seq<(String, JsonValue)>, key: Seq<char>) -> Option<JsonScalar> {
    match lookup(obj, key) {
        Some(JsonValue::Number(n)) => Some(JsonScalar::Number(n)),
        Some(JsonValue::Str(s)) => Some(JsonScalar::Text(s)),
        _ => None,
    }
}

/// Copies a number.
pub fn copy_number(n: &JsonNumber) -> (r: JsonNumber)
    ensures
        r == *n,
{
    JsonNumber { as_i64: n.as_i64, text: n.text.clone() }
}

/// A member that is a number or a text, kept as it is.
pub fn get_scalar(obj: &Vec<(String, JsonValue)>, key: &str) -> (r: Option<JsonScalar>)
    ensures
        r == scalar_member(obj@, key@),
{
    match obj_get(obj, key) {
        Some(JsonValue::Number(n)) => Some(JsonScalar::Number(copy_number(n))),
        Some(JsonValue::Str(s)) => Some(JsonScalar::Text(s.clone())),
        _ => None,
    }
}

} // verus!

verus! {

#[verifier::external_type_specification]
#[verifier::external_body]
pub struct ExSerdeJsonValue(serde_json::Value);

/// The document `serde_json` reads from a text, as a plain JSON value; `None`
/// when the text is not one JSON document. It is a function of the text
/// alone: object members come in the order `serde_json`'s map keeps them.
pub uninterp spec fn json_document(text: Seq<char>) -> Option<JsonValue>;

/// `serde_json::from_str::<serde_json::Value>`, the value taken over one for
/// one as a `JsonValue`. Claimed: the result is named by `json_document` of
/// the text; a text that is not JSON gives `None` (the parser's error is
/// dropped).
#[verifier::external_body]
pub fn parse_json_text(text: &str) -> (r: Option<JsonValue>)
    ensures
        r == json_document(text@),
{
    match serde_json::from_str::<serde_json::Value>(text) {
        Ok(v) => Some(value_of(&v)),
        Err(_) => None,
    }
}

/// A `serde_json::Value` taken over as a `JsonValue`, variant for variant: a
/// number keeps its `i64` value when it has one and its text. Nothing is
/// claimed of it beyond what `parse_json_text` claims.
#[verifier::external_body]
fn value_of(v: &serde_json::Value) -> JsonValue {
    match v {
        serde_json::Value::Null => JsonValue::Null,
        serde_json::Value::Bool(b) => JsonValue::Bool(*b),
        serde_json::Value::Number(n) => JsonValue::Number(JsonNumber { as_i64: n.as_i64(), text: n.to_string() }),
        serde_json::Value::String(s) => JsonValue::Str(s.clone()),
        serde_json::Value::Array(a) => JsonValue::Array(a.iter().map(value_of).collect()),
        serde_json::Value::Object(o) => JsonValue::Object(o.iter().map(|(k, x)| (k.clone(), value_of(x))).collect()),
    }
}

} // verus!
