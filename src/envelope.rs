//! The response envelope of a method call: `{"response": <payload>}` on
//! success, `{"error": {"error_code": <code>, "error_msg": <text>}}` on
//! failure.

use vstd::prelude::*;
use vstd::string::*;
use crate::error::{APIError, Error};
use crate::json::{field, json_of, parse, shape_error, Json};

verus! {

/// The code and message of an error object, when both members are there
/// with the right types: an unsigned integer and a string.
pub open spec fn api_error_of(e: Json) -> Option<(u64, Seq<char>)> {
    match (field(e, "error_code"@), field(e, "error_msg"@)) {
        (Some(Json::PosInt(code)), Some(Json::Str(msg))) => Some((code, msg@)),
        _ => None,
    }
}

/// The payload of a successful envelope: there is no `error` member, and
/// there is a `response` member.
pub open spec fn envelope_success(v: Json) -> Option<Json> {
    if field(v, "error"@) is Some {
        None
    } else {
        field(v, "response"@)
    }
}

/// The code and message that an envelope with an `error` member reports.
pub open spec fn envelope_api_error(v: Json) -> Option<(u64, Seq<char>)> {
    match field(v, "error"@) {
        Some(e) => api_error_of(e),
        None => None,
    }
}

/// `r` is what decoding the envelope `v` gives: its payload; the API error
/// it reports; or a decode error where it is neither.
pub open spec fn envelope_outcome(v: Json, r: Result<Json, Error>) -> bool {
    match r {
        Ok(p) => envelope_success(v) == Some(p),
        Err(Error::API(e)) => envelope_api_error(v) == Some((e.code, e.msg@)),
        Err(Error::Serde(_)) => envelope_success(v) is None && envelope_api_error(v) is None,
        Err(_) => false,
    }
}

/// `r` is what decoding the response body `b` gives: a decode error where
/// `b` is not well-formed JSON, and the envelope's outcome otherwise.
pub open spec fn response_outcome(b: Seq<u8>, r: Result<Json, Error>) -> bool {
    match json_of(b) {
        None => r is Err && r->Err_0 is Serde,
        Some(v) => envelope_outcome(v, r),
    }
}

/// A decode error that names the member that is not there.
fn missing_member(name: &str) -> (r: Error)
    ensures
        r is Serde,
{
    let mut msg = String::from_str("missing field `");
    msg.append(name);
    msg.append("`");
    Error::Serde(shape_error(msg.as_str()))
}

/// Reads the code and message out of an error object.
fn read_api_error(e: Json) -> (r: Result<APIError, Error>)
    ensures
        match api_error_of(e) {
            Some((code, msg)) => r is Ok && r->Ok_0.code == code && r->Ok_0.msg@ == msg,
            None => r is Err && r->Err_0 is Serde,
        },
{
    let code = match e.get("error_code") {
        Some(Json::PosInt(c)) => *c,
        Some(_) => {
            return Err(Error::Serde(shape_error("invalid type: `error_code` is not an unsigned integer")));
        },
        None => {
            return Err(missing_member("error_code"));
        },
    };
    match e.into_field("error_msg") {
        Some(Json::Str(msg)) => Ok(APIError::new(code, msg)),
        Some(_) => Err(Error::Serde(shape_error("invalid type: `error_msg` is not a string"))),
        None => Err(missing_member("error_msg")),
    }
}

/// Decodes a parsed envelope: an `error` member is an API error, and wins
/// over a `response` member; otherwise the `response` member is the
/// payload; an envelope with neither is a decode error.
pub fn decode_envelope(v: Json) -> (r: Result<Json, Error>)
    ensures
        envelope_outcome(v, r),
{
    if v.get("error").is_some() {
        let e = v.into_field("error");
        match e {
            Some(e) => match read_api_error(e) {
                Ok(api) => Err(Error::API(api)),
                Err(err) => Err(err),
            },
            None => Err(missing_member("error")),
        }
    } else {
        match v.into_field("response") {
            Some(p) => Ok(p),
            None => Err(missing_member("response")),
        }
    }
}

/// Decodes the body of a response: parses it as JSON, then decodes the
/// envelope. Malformed JSON is a decode error.
pub fn decode_response(b: &[u8]) -> (r: Result<Json, Error>)
    ensures
        response_outcome(b@, r),
{
    match parse(b) {
        Ok(v) => decode_envelope(v),
        Err(e) => Err(Error::Serde(e)),
    }
}

/// A decode has exactly one outcome: it succeeds, with the `response`
/// member as payload, exactly when the envelope has no `error` member and
/// has a `response` member; otherwise it fails, with an API error or a
/// decode error. Two decodes of one envelope agree.
pub proof fn lemma_one_outcome(v: Json, r1: Result<Json, Error>, r2: Result<Json, Error>)
    requires
        envelope_outcome(v, r1),
        envelope_outcome(v, r2),
    ensures
        r1 is Ok <==> (field(v, "error"@) is None && field(v, "response"@) is Some),
        r1 is Ok ==> r1->Ok_0 == field(v, "response"@)->Some_0,
        r1 is Err ==> (r1->Err_0 is API || r1->Err_0 is Serde),
        r1 is Ok <==> r2 is Ok,
        r1 is Ok ==> r1->Ok_0 == r2->Ok_0,
        (r1 is Err && r1->Err_0 is API) ==> (r2 is Err && r2->Err_0 is API
            && r1->Err_0->API_0.code == r2->Err_0->API_0.code
            && r1->Err_0->API_0.msg@ == r2->Err_0->API_0.msg@),
{
}

/// An envelope with both an `error` and a `response` member decodes to an
/// error: the error path wins.
pub proof fn lemma_error_wins(v: Json, r: Result<Json, Error>)
    requires
        field(v, "error"@) is Some,
        field(v, "response"@) is Some,
        envelope_outcome(v, r),
    ensures
        r is Err,
        envelope_api_error(v) is Some ==> r->Err_0 is API,
{
}

/// A response body that is not well-formed JSON decodes to a decode error.
pub proof fn lemma_malformed_is_decode_error(b: Seq<u8>, r: Result<Json, Error>)
    requires
        json_of(b) is None,
        response_outcome(b, r),
    ensures
        r is Err && r->Err_0 is Serde,
{
}

/// An envelope with neither an `error` nor a `response` member decodes to a
/// decode error, never to a default payload.
pub proof fn lemma_missing_response_is_decode_error(v: Json, r: Result<Json, Error>)
    requires
        field(v, "error"@) is None,
        field(v, "response"@) is None,
        envelope_outcome(v, r),
    ensures
        r is Err && r->Err_0 is Serde,
{
}

} // verus!
