//! JSON values as the library reads them, and their parsing from bytes.

use vstd::prelude::*;
use vstd::string::*;
use serde_json::Error as JsonError;

verus! {

/// A JSON value. Numbers keep the form the parser gave them: a non-negative
/// integer, a negative integer, or (for any other number) its decimal text.
#[derive(Debug)]
pub enum Json {
    Null,
    Bool(bool),
    PosInt(u64),
    NegInt(i64),
    Decimal(String),
    Str(String),
    Array(Vec<Json>),
    Object(Vec<(String, Json)>),
}

/// The value of the first member named `key`, among `fields`.
pub open spec fn lookup(fields: Seq<(String, Json)>, key: Seq<char>) -> Option<Json>
    decreases fields.len(),
{
    if fields.len() == 0 {
        None
    } else if fields[0].0@ == key {
        Some(fields[0].1)
    } else {
        lookup(fields.drop_first(), key)
    }
}

/// The member `key` of `v`, when `v` is an object that has one.
pub open spec fn field(v: Json, key: Seq<char>) -> Option<Json> {
    match v {
        Json::Object(fields) => lookup(fields@, key),
        _ => None,
    }
}

/// The value that `serde_json` parses out of the bytes `b`, or `None`
/// where `b` is not one well-formed JSON document.
pub uninterp spec fn json_of(b: Seq<u8>) -> Option<Json>;

/// The JSON value model of `serde_json`, carried through opaque.
#[verifier::external_type_specification]
#[verifier::external_body]
pub struct ExValue(serde_json::Value);

/// Relies on `serde_json::from_slice`: it parses the whole byte slice as one
/// JSON document, and its result depends on the bytes alone.
#[verifier::external_body]
fn parse_value(b: &[u8]) -> (r: Result<Json, JsonError>)
    ensures
        match r {
            Ok(v) => json_of(b@) == Some(v),
            Err(_) => json_of(b@) is None,
        },
{
    serde_json::from_slice::<serde_json::Value>(b).map(from_value)
}

/// Converts `serde_json::Value` into the library's value, variant for
/// variant. Relies on `serde_json::Number::as_u64` and `as_i64` to tell the
/// kinds of number apart, on its `to_string` for the text of the others, and
/// on `serde_json::Map::into_iter` for an object's members.
#[verifier::external_body]
fn from_value(v: serde_json::Value) -> Json {
    match v {
        serde_json::Value::Null => Json::Null,
        serde_json::Value::Bool(b) => Json::Bool(b),
        serde_json::Value::Number(n) => match (n.as_u64(), n.as_i64()) {
            (Some(u), _) => Json::PosInt(u),
            (None, Some(i)) => Json::NegInt(i),
            (None, None) => Json::Decimal(n.to_string()),
        },
        serde_json::Value::String(s) => Json::Str(s),
        serde_json::Value::Array(a) => Json::Array(a.into_iter().map(from_value).collect()),
        serde_json::Value::Object(m) => Json::Object(m.into_iter().map(|(k, x)| (k, from_value(x))).collect()),
    }
}

/// Relies on `serde::de::Error::custom` as `serde_json` implements it: an
/// error that carries `msg`.
#[verifier::external_body]
pub(crate) fn shape_error(msg: &str) -> JsonError {
    <JsonError as serde::de::Error>::custom(msg)
}

/// Parses `b` as one JSON document.
pub fn parse(b: &[u8]) -> (r: Result<Json, JsonError>)
    ensures
        match r {
            Ok(v) => json_of(b@) == Some(v),
            Err(_) => json_of(b@) is None,
        },
{
    parse_value(b)
}

/// The position of the first member named `key` among `fields`.
fn position(fields: &Vec<(String, Json)>, key: &str) -> (r: Option<usize>)
    ensures
        match lookup(fields@, key@) {
            Some(x) => r is Some && r->Some_0 < fields@.len() && fields@[r->Some_0 as int].1 == x,
            None => r is None,
        },
{
    let k = String::from_str(key);
    let n = fields.len();
    let mut i: usize = 0;
    assert(fields@.subrange(0, n as int) =~= fields@);
    while i < n
        invariant
            n == fields@.len(),
            i <= n,
            k@ == key@,
            lookup(fields@, key@) == lookup(fields@.subrange(i as int, n as int), key@),
        decreases n - i,
    {
        proof {
            assert(fields@.subrange(i as int, n as int).drop_first()
                =~= fields@.subrange(i + 1, n as int));
            assert(fields@.subrange(i as int, n as int)[0] == fields@[i as int]);
        }
        if fields[i].0.eq(&k) {
            return Some(i);
        }
        i = i + 1;
    }
    None
}

impl Json {
    /// The member named `key`, when this value is an object that has one.
    pub fn get(&self, key: &str) -> (r: Option<&Json>)
        ensures
            match field(*self, key@) {
                Some(x) => r is Some && *r->Some_0 == x,
                None => r is None,
            },
    {
        match self {
            Json::Object(fields) => match position(fields, key) {
                Some(i) => Some(&fields[i].1),
                None => None,
            },
            _ => None,
        }
    }

    /// The member named `key`, taken out of this value, when it is an
    /// object that has one.
    pub fn into_field(self, key: &str) -> (r: Option<Json>)
        ensures
            r == field(self, key@),
    {
        match self {
            Json::Object(mut fields) => match position(&fields, key) {
                Some(i) => {
                    let (_, x) = fields.swap_remove(i);
                    Some(x)
                },
                None => None,
            },
            _ => None,
        }
    }
}

} // verus!
