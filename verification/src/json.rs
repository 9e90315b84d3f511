//! A plain model of parsed JSON documents, and verified accessors over it.
//!
//! Parsing the JSON grammar is the work of an outside crate; everything the
//! schemas of this library read afterwards — object members, strings, integer
//! numbers, arrays — is decided here over the plain [`JsonValue`] model, with
//! proved contracts.

use vstd::prelude::*;

use crate::text::str_eq;

verus! {

/// A parsed JSON document as plain values.
///
/// A number keeps its value when it is an integer representable in an `i64`;
/// any other number (a fraction, or an integer out of that range) is carried
/// as `Num(None)`, which no schema of this library accepts.  Object members
/// are kept in the order the parser hands them out, with unique keys.
#[derive(Debug, PartialEq)]
pub enum JsonValue {
    Null,
    Bool(bool),
    Num(Option<i64>),
    Str(String),
    Arr(Vec<JsonValue>),
    Obj(Vec<(String, JsonValue)>),
}

/// What parsing a text as JSON yields: the parsed document, or `None` where
/// the text is not valid JSON.  The result depends on the text alone.
pub uninterp spec fn json_of(text: Seq<char>) -> Option<JsonValue>;

/// Relies on `serde_json::from_str::<serde_json::Value>` to parse the JSON
/// grammar; the parse is a function of the text alone.  The parsed document
/// is rendered as this crate's [`JsonValue`] by [`convert_value`].
#[verifier::external_body]
pub(crate) fn parse_json(text: &str) -> (r: Option<JsonValue>)
    ensures
        r == json_of(text@),
{
    match serde_json::from_str::<serde_json::Value>(text) {
        Ok(v) => Some(convert_value(&v)),
        Err(_) => None,
    }
}

#[verifier::external_type_specification]
#[verifier::external_body]
pub struct ExSerdeValue(serde_json::Value);

/// Relies on `serde_json::Value`: one arm for each variant of the parsed
/// document, moving the payload into the plain model.  Numbers keep their
/// value exactly when `serde_json::Number::as_i64` represents them.  This is
/// the recursive renderer behind [`parse_json`], and is called nowhere else.
#[verifier::external_body]
fn convert_value(v: &serde_json::Value) -> JsonValue {
    match v {
        serde_json::Value::Null => JsonValue::Null,
        serde_json::Value::Bool(b) => JsonValue::Bool(*b),
        serde_json::Value::Number(n) => JsonValue::Num(n.as_i64()),
        serde_json::Value::String(s) => JsonValue::Str(s.clone()),
        serde_json::Value::Array(a) => JsonValue::Arr(a.iter().map(convert_value).collect()),
        serde_json::Value::Object(m) => {
            JsonValue::Obj(m.iter().map(|(k, x)| (k.clone(), convert_value(x))).collect())
        },
    }
}

/// First member of `fields` at or after index `i` whose key reads as `key`.
pub open spec fn spec_lookup_from(
    fields: Seq<(String, JsonValue)>,
    key: Seq<char>,
    i: int,
) -> Option<JsonValue>
    decreases fields.len() - i,
{
    if i < 0 || i >= fields.len() {
        None
    } else if fields[i].0@ == key {
        Some(fields[i].1)
    } else {
        spec_lookup_from(fields, key, i + 1)
    }
}

/// The member of object `j` named `key`: `None` where `j` is not an object or
/// has no such member.
pub open spec fn spec_member(j: JsonValue, key: Seq<char>) -> Option<JsonValue> {
    match j {
        JsonValue::Obj(fields) => spec_lookup_from(fields@, key, 0),
        _ => None,
    }
}

/// The member named `key` when it is a string.
pub open spec fn spec_str_member(j: JsonValue, key: Seq<char>) -> Option<String> {
    match spec_member(j, key) {
        Some(JsonValue::Str(s)) => Some(s),
        _ => None,
    }
}

/// The member named `key` when it is an integer number.
pub open spec fn spec_int_member(j: JsonValue, key: Seq<char>) -> Option<i64> {
    match spec_member(j, key) {
        Some(JsonValue::Num(n)) => n,
        _ => None,
    }
}

/// The member named `key` when it is an array.
pub open spec fn spec_arr_member(j: JsonValue, key: Seq<char>) -> Option<Seq<JsonValue>> {
    match spec_member(j, key) {
        Some(JsonValue::Arr(items)) => Some(items@),
        _ => None,
    }
}

impl JsonValue {
    /// Looks up the member of an object by key.
    pub fn member<'a>(&'a self, key: &str) -> (r: Option<&'a JsonValue>)
        ensures
            match r {
                Some(v) => spec_member(*self, key@) == Some(*v),
                None => spec_member(*self, key@) is None,
            },
    {
        match self {
            JsonValue::Obj(fields) => {
                let n = fields.len();
                let mut i: usize = 0;
                while i < n
                    invariant
                        *self == JsonValue::Obj(*fields),
                        n == fields@.len(),
                        i <= n,
                        spec_lookup_from(fields@, key@, 0) == spec_lookup_from(
                            fields@,
                            key@,
                            i as int,
                        ),
                    decreases n - i,
                {
                    if str_eq(fields[i].0.as_str(), key) {
                        proof {
                            assert(spec_lookup_from(fields@, key@, i as int) == Some(
                                fields@[i as int].1,
                            ));
                        }
                        return Some(&fields[i].1);
                    }
                    i = i + 1;
                }
                None
            },
            _ => None,
        }
    }

    /// Looks up a string-valued member by key.
    pub fn str_member<'a>(&'a self, key: &str) -> (r: Option<&'a String>)
        ensures
            match r {
                Some(s) => spec_str_member(*self, key@) == Some(*s),
                None => spec_str_member(*self, key@) is None,
            },
    {
        match self.member(key) {
            Some(JsonValue::Str(s)) => Some(s),
            _ => None,
        }
    }

    /// Looks up an integer-valued member by key.
    pub fn int_member(&self, key: &str) -> (r: Option<i64>)
        ensures
            r == spec_int_member(*self, key@),
    {
        match self.member(key) {
            Some(JsonValue::Num(n)) => *n,
            _ => None,
        }
    }

    /// Looks up an array-valued member by key.
    pub fn arr_member<'a>(&'a self, key: &str) -> (r: Option<&'a Vec<JsonValue>>)
        ensures
            match r {
                Some(items) => spec_arr_member(*self, key@) == Some(items@),
                None => spec_arr_member(*self, key@) is None,
            },
    {
        match self.member(key) {
            Some(JsonValue::Arr(items)) => Some(items),
            _ => None,
        }
    }
}

} // verus!
