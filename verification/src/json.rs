//! A JSON document as plain values, the parse of JSON text into one, and
//! the lookups the template readers use.
//!
//! `parse_json` has `serde_json` parse the text; the functions here read
//! members and strings out of the result with the meaning of
//! `serde_json::Value::get` and `as_str`.
use vstd::prelude::*;
use crate::text::str_eq;

verus! {

/// A JSON value. Numbers keep their text; object members keep their order.
#[derive(Debug)]
pub enum JsonValue {
    Null,
    Bool(bool),
    Number(String),
    Str(String),
    Array(Vec<JsonValue>),
    Object(Vec<JsonMember>),
}

/// A member of a JSON object.
#[derive(Debug)]
pub struct JsonMember {
    pub key: String,
    pub value: JsonValue,
}

#[verifier::external_type_specification]
#[verifier::external_body]
pub struct ExJsonError(serde_json::Error);

#[verifier::external_type_specification]
#[verifier::external_body]
pub struct ExSerdeJsonValue(serde_json::Value);

/// The document that `serde_json` parses `text` into, as a `JsonValue`, or
/// `None` when `text` is not one JSON document.
pub uninterp spec fn json_parsed(text: Seq<char>) -> Option<JsonValue>;

/// The `JsonValue` holding what a parsed `serde_json::Value` holds: one
/// variant for each of its variants, a number by its text, an object's
/// members in the order its map yields them.
#[verifier::external_body]
fn json_from_serde(v: serde_json::Value) -> JsonValue {
    match v {
        serde_json::Value::Null => JsonValue::Null,
        serde_json::Value::Bool(b) => JsonValue::Bool(b),
        serde_json::Value::Number(n) => JsonValue::Number(n.to_string()),
        serde_json::Value::String(s) => JsonValue::Str(s),
        serde_json::Value::Array(a) => JsonValue::Array(a.into_iter().map(json_from_serde).collect()),
        serde_json::Value::Object(m) => JsonValue::Object(
            m.into_iter().map(|(key, value)| JsonMember { key, value: json_from_serde(value) }).collect(),
        ),
    }
}

/// Calls `serde_json::from_str::<serde_json::Value>` on `text` and converts
/// the value with `json_from_serde`. Trusted: the parse depends on the text
/// alone, so it succeeds exactly when `json_parsed(text@)` is `Some`, and
/// then yields that value.
#[verifier::external_body]
pub(crate) fn parse_json(text: &str) -> (r: Result<JsonValue, serde_json::Error>)
    ensures
        match r {
            Ok(v) => json_parsed(text@) == Some(v),
            Err(_) => json_parsed(text@) is None,
        },
{
    serde_json::from_str::<serde_json::Value>(text).map(json_from_serde)
}

/// The value of the first member named `key`, if any.
pub open spec fn member_value(members: Seq<JsonMember>, key: Seq<char>) -> Option<JsonValue>
    decreases members.len(),
{
    if members.len() == 0 {
        None
    } else if members[0].key@ == key {
        Some(members[0].value)
    } else {
        member_value(members.drop_first(), key)
    }
}

/// The member `key` of `v` when `v` is an object (as `serde_json::Value::get`).
pub open spec fn json_get(v: JsonValue, key: Seq<char>) -> Option<JsonValue> {
    match v {
        JsonValue::Object(members) => member_value(members@, key),
        _ => None,
    }
}

/// `json_get` on an optional value.
pub open spec fn json_get_opt(v: Option<JsonValue>, key: Seq<char>) -> Option<JsonValue> {
    match v {
        Some(x) => json_get(x, key),
        None => None,
    }
}

/// The text of an optional value that is a string (as `as_str`).
pub open spec fn json_str(v: Option<JsonValue>) -> Option<Seq<char>> {
    match v {
        Some(JsonValue::Str(s)) => Some(s@),
        _ => None,
    }
}

/// The texts of the string elements of a sequence of values, in order;
/// other elements are skipped.
pub open spec fn string_elements(vs: Seq<JsonValue>) -> Seq<Seq<char>>
    decreases vs.len(),
{
    if vs.len() == 0 {
        seq![]
    } else {
        let rest = string_elements(vs.drop_last());
        match vs.last() {
            JsonValue::Str(s) => rest.push(s@),
            _ => rest,
        }
    }
}

impl JsonValue {
    /// Whether the value is an object.
    pub fn is_object(&self) -> (r: bool)
        ensures
            r == (*self is Object),
    {
        match self {
            JsonValue::Object(_) => true,
            _ => false,
        }
    }

    /// The member `key`, when the value is an object that has one.
    pub fn get(&self, key: &str) -> (r: Option<&JsonValue>)
        ensures
            r.is_some() == json_get(*self, key@).is_some(),
            r matches Some(x) ==> json_get(*self, key@) == Some(*x),
    {
        match self {
            JsonValue::Object(members) => {
                let mut i: usize = 0;
                assert(members@.skip(0) =~= members@);
                while i < members.len()
                    invariant
                        0 <= i <= members@.len(),
                        json_get(*self, key@) == member_value(members@, key@),
                        member_value(members@, key@) == member_value(members@.skip(i as int), key@),
                    decreases members@.len() - i,
                {
                    assert(members@.skip(i as int)[0] == members@[i as int]);
                    assert(members@.skip(i as int).drop_first() =~= members@.skip(i + 1));
                    if str_eq(members[i].key.as_str(), key) {
                        assert(members@.skip(i as int).len() > 0);
                        return Some(&members[i].value);
                    }
                    i = i + 1;
                }
                assert(members@.skip(i as int).len() == 0);
                None
            },
            _ => None,
        }
    }

    /// The text, when the value is a string.
    pub fn as_str(&self) -> (r: Option<&String>)
        ensures
            r.deep_view() == json_str(Some(*self)),
    {
        match self {
            JsonValue::Str(s) => Some(s),
            _ => None,
        }
    }

    /// The elements, when the value is an array.
    pub fn as_array(&self) -> (r: Option<&Vec<JsonValue>>)
        ensures
            match *self {
                JsonValue::Array(a) => r == Some(&a),
                _ => r is None,
            },
    {
        match self {
            JsonValue::Array(a) => Some(a),
            _ => None,
        }
    }
}

/// The text of `v` when it is a string.
pub fn opt_str(v: Option<&JsonValue>) -> (r: Option<&String>)
    ensures
        r.deep_view() == json_str(
            match v {
                Some(x) => Some(*x),
                None => None,
            },
        ),
{
    match v {
        Some(x) => x.as_str(),
        None => None,
    }
}

/// The texts of the string elements of `vs`, in order.
pub fn strings_of(vs: &Vec<JsonValue>) -> (r: Vec<String>)
    ensures
        r.deep_view() == string_elements(vs@),
{
    let mut r: Vec<String> = Vec::new();
    let mut i: usize = 0;
    while i < vs.len()
        invariant
            0 <= i <= vs@.len(),
            r.deep_view() == string_elements(vs@.take(i as int)),
        decreases vs@.len() - i,
    {
        assert(vs@.take(i + 1).drop_last() =~= vs@.take(i as int));
        assert(vs@.take(i + 1).last() == vs@[i as int]);
        match &vs[i] {
            JsonValue::Str(s) => {
                let ghost old_r = r.deep_view();
                r.push(s.clone());
                assert(r.deep_view() =~= old_r.push(s@));
            },
            _ => {},
        }
        i = i + 1;
    }
    assert(vs@.take(i as int) =~= vs@);
    r
}

} // verus!
