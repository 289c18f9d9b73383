//! All errors that can happen during a method call.

use vstd::prelude::*;
use vstd::string::*;
use reqwest::Error as RequestError;
use serde_json::Error as JsonError;

verus! {

/// The decimal digit `d` (`d < 10`) as a character.
pub open spec fn digit_char(d: nat) -> char {
    if d == 0 {
        '0'
    } else if d == 1 {
        '1'
    } else if d == 2 {
        '2'
    } else if d == 3 {
        '3'
    } else if d == 4 {
        '4'
    } else if d == 5 {
        '5'
    } else if d == 6 {
        '6'
    } else if d == 7 {
        '7'
    } else if d == 8 {
        '8'
    } else {
        '9'
    }
}

/// The decimal rendering of `n`, without sign or leading zeros.
pub open spec fn decimal(n: nat) -> Seq<char>
    decreases n,
{
    if n < 10 {
        seq![digit_char(n)]
    } else {
        decimal(n / 10).push(digit_char(n % 10))
    }
}

/// The one-line rendering of an API error: `APIError #<code>: <message>`.
pub open spec fn api_error_text(code: u64, msg: Seq<char>) -> Seq<char> {
    "APIError #"@ + decimal(code as nat) + ": "@ + msg
}

fn digit_str(d: u64) -> (r: &'static str)
    requires
        d < 10,
    ensures
        r@ == seq![digit_char(d as nat)],
{
    if d == 0 {
        proof { reveal_strlit("0"); }
        "0"
    } else if d == 1 {
        proof { reveal_strlit("1"); }
        "1"
    } else if d == 2 {
        proof { reveal_strlit("2"); }
        "2"
    } else if d == 3 {
        proof { reveal_strlit("3"); }
        "3"
    } else if d == 4 {
        proof { reveal_strlit("4"); }
        "4"
    } else if d == 5 {
        proof { reveal_strlit("5"); }
        "5"
    } else if d == 6 {
        proof { reveal_strlit("6"); }
        "6"
    } else if d == 7 {
        proof { reveal_strlit("7"); }
        "7"
    } else if d == 8 {
        proof { reveal_strlit("8"); }
        "8"
    } else {
        proof { reveal_strlit("9"); }
        "9"
    }
}

/// Appends the decimal rendering of `n` to `s`.
pub fn append_decimal(s: &mut String, n: u64)
    ensures
        final(s)@ == old(s)@ + decimal(n as nat),
    decreases n,
{
    if n >= 10 {
        append_decimal(s, n / 10);
    }
    s.append(digit_str(n % 10));
    assert(s@ =~= old(s)@ + decimal(n as nat));
}

/// An error returned by the API.
#[derive(Debug)]
pub struct APIError {
    pub code: u64,
    pub msg: String,
}

impl APIError {
    /// Creates a new `APIError`.
    pub fn new(code: u64, msg: String) -> (r: APIError)
        ensures
            r.code == code,
            r.msg@ == msg@,
    {
        APIError { code, msg }
    }

    /// Returns the code of this `APIError`.
    pub fn code(&self) -> (r: u64)
        ensures
            r == self.code,
    {
        self.code
    }

    /// Returns the message of this `APIError`.
    pub fn msg(&self) -> (r: &String)
        ensures
            r@ == self.msg@,
    {
        &self.msg
    }

    /// The one-line message of this error: `APIError #<code>: <message>`.
    pub fn message(&self) -> (r: String)
        ensures
            r@ == api_error_text(self.code, self.msg@),
    {
        let mut s = String::from_str("APIError #");
        append_decimal(&mut s, self.code);
        s.append(": ");
        s.append(self.msg.as_str());
        s
    }
}

/// The error type of `reqwest`, carried through opaque.
#[verifier::external_type_specification]
#[verifier::external_body]
pub struct ExRequestError(RequestError);

/// The error type of `serde_json`, carried through opaque.
#[verifier::external_type_specification]
#[verifier::external_body]
pub struct ExJsonError(JsonError);

/// A generic error.
#[derive(Debug)]
pub enum Error {
    /// Errors from the API
    API(APIError),
    /// Errors with making a request
    Request(RequestError),
    /// Serde Errors
    Serde(JsonError),
    /// Other errors
    Other(String),
}

impl Error {
    /// The one-line message of this error: that of an `APIError`, the text
    /// of an `Other`, and the wrapped cause's own rendering otherwise.
    pub fn message(&self) -> (r: String)
        ensures
            self is API ==> r@ == api_error_text(self->API_0.code, self->API_0.msg@),
            self is Other ==> r@ == self->Other_0@,
            self is Request ==> to_string_from_display_ensures(&self->Request_0, r),
            self is Serde ==> to_string_from_display_ensures(&self->Serde_0, r),
    {
        match self {
            Error::API(e) => e.message(),
            Error::Request(e) => e.to_string(),
            Error::Serde(e) => e.to_string(),
            Error::Other(s) => s.clone(),
        }
    }
}

impl From<APIError> for Error {
    fn from(e: APIError) -> (r: Error) {
        Error::API(e)
    }
}

impl vstd::std_specs::convert::FromSpecImpl<APIError> for Error {
    open spec fn obeys_from_spec() -> bool {
        true
    }

    open spec fn from_spec(e: APIError) -> Error {
        Error::API(e)
    }
}

impl From<RequestError> for Error {
    fn from(e: RequestError) -> (r: Error) {
        Error::Request(e)
    }
}

impl vstd::std_specs::convert::FromSpecImpl<RequestError> for Error {
    open spec fn obeys_from_spec() -> bool {
        true
    }

    open spec fn from_spec(e: RequestError) -> Error {
        Error::Request(e)
    }
}

impl From<JsonError> for Error {
    fn from(e: JsonError) -> (r: Error) {
        Error::Serde(e)
    }
}

impl vstd::std_specs::convert::FromSpecImpl<JsonError> for Error {
    open spec fn obeys_from_spec() -> bool {
        true
    }

    open spec fn from_spec(e: JsonError) -> Error {
        Error::Serde(e)
    }
}

impl From<String> for Error {
    fn from(s: String) -> (r: Error) {
        Error::Other(s)
    }
}

impl vstd::std_specs::convert::FromSpecImpl<String> for Error {
    open spec fn obeys_from_spec() -> bool {
        true
    }

    open spec fn from_spec(s: String) -> Error {
        Error::Other(s)
    }
}

impl From<&'static str> for Error {
    fn from(s: &'static str) -> (r: Error)
        ensures
            r is Other && r->Other_0@ == s@,
    {
        Error::Other(String::from_str(s))
    }
}

impl vstd::std_specs::convert::FromSpecImpl<&'static str> for Error {
    /// A `String` has no spec-level constructor, so the conversion's
    /// result is stated by the `ensures` of `from` itself.
    open spec fn obeys_from_spec() -> bool {
        false
    }

    open spec fn from_spec(s: &'static str) -> Error {
        arbitrary()
    }
}

/// Convenience type for defining `Result`s.
pub type Result<T> = core::result::Result<T, Error>;

} // verus!
