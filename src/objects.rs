//! Typed decoding of the objects that methods return: the members of a JSON
//! object read as integers and text, strictly.

use vstd::prelude::*;
use vstd::string::*;
use crate::error::Error;
use crate::json::{field, shape_error, Json};

pub mod post;

verus! {

/// The integer type of the API's objects.
pub type Integer = i64;

/// `v` read as an `Integer`: a JSON integer in range.
pub open spec fn integer_of(v: Json) -> Option<Integer> {
    match v {
        Json::PosInt(u) => if u <= i64::MAX as u64 {
            Some(u as i64)
        } else {
            None
        },
        Json::NegInt(i) => Some(i),
        _ => None,
    }
}

/// The member `key` of `v` read as an `Integer`.
pub open spec fn integer_field(v: Json, key: Seq<char>) -> Option<Integer> {
    match field(v, key) {
        Some(x) => integer_of(x),
        None => None,
    }
}

/// The member `key` of `v` read as text.
pub open spec fn text_field(v: Json, key: Seq<char>) -> Option<Seq<char>> {
    match field(v, key) {
        Some(Json::Str(s)) => Some(s@),
        _ => None,
    }
}

/// A decode error for the member `key`, which is missing or of another type.
fn member_error(key: &str, found: bool) -> (r: Error)
    ensures
        r is Serde,
{
    let mut msg = if found {
        String::from_str("invalid type for field `")
    } else {
        String::from_str("missing field `")
    };
    msg.append(key);
    msg.append("`");
    Error::Serde(shape_error(msg.as_str()))
}

/// Reads the member `key` of `v` as an `Integer`; a missing member, or one
/// that is not an integer in range, is a decode error.
pub fn get_integer(v: &Json, key: &str) -> (r: Result<Integer, Error>)
    ensures
        match integer_field(*v, key@) {
            Some(i) => r is Ok && r->Ok_0 == i,
            None => r is Err && r->Err_0 is Serde,
        },
{
    match v.get(key) {
        Some(Json::PosInt(u)) => {
            if *u <= i64::MAX as u64 {
                Ok(*u as i64)
            } else {
                Err(member_error(key, true))
            }
        },
        Some(Json::NegInt(i)) => Ok(*i),
        Some(_) => Err(member_error(key, true)),
        None => Err(member_error(key, false)),
    }
}

/// Reads the member `key` of `v` as text; a missing member, or one that is
/// not a string, is a decode error.
pub fn get_text(v: &Json, key: &str) -> (r: Result<String, Error>)
    ensures
        match text_field(*v, key@) {
            Some(s) => r is Ok && r->Ok_0@ == s,
            None => r is Err && r->Err_0 is Serde,
        },
{
    match v.get(key) {
        Some(Json::Str(s)) => Ok(s.clone()),
        Some(_) => Err(member_error(key, true)),
        None => Err(member_error(key, false)),
    }
}

} // verus!
