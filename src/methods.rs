//! The names and endpoint of the remote methods.
//!
//! Rust prefers `snake_case` in function names, where the API uses
//! `camelCase`: a function `get_app_image_upload_server` of the category
//! `appWidgets` calls the method `appWidgets.getAppImageUploadServer`.

use vstd::prelude::*;
use vstd::string::*;

verus! {

/// The endpoint under which every method is called by its name.
pub const API_BASE: &'static str = "https://api.vk.com/method/";

/// What `heck` makes of `s` in mixedCase.
pub uninterp spec fn mixed_case_of(s: Seq<char>) -> Seq<char>;

/// Relies on `heck::MixedCase::to_mixed_case` for `str`: the words of `s`
/// joined in mixedCase, which depends on the characters alone; no words,
/// no characters.
#[verifier::external_body]
fn mixed_case(s: &str) -> (r: String)
    ensures
        r@ == mixed_case_of(s@),
        s@.len() == 0 ==> r@.len() == 0,
{
    heck::MixedCase::to_mixed_case(s)
}

/// The remote name of the method that the function `func` of `category`
/// calls: `<category>.<func in mixedCase>`.
pub fn method_name(category: &str, func: &str) -> (r: String)
    ensures
        r@ == category@ + "."@ + mixed_case_of(func@),
{
    let tail = mixed_case(func);
    join_method_name(category, tail.as_str())
}

/// The remote name of a method of `category` whose name within it is
/// `method`: `<category>.<method>`.
pub fn join_method_name(category: &str, method: &str) -> (r: String)
    ensures
        r@ == category@ + "."@ + method@,
{
    let mut r = String::from_str(category);
    r.append(".");
    r.append(method);
    r
}

/// The address at which the method `method` is called.
pub fn method_url(method: &str) -> (r: String)
    ensures
        r@ == API_BASE@ + method@,
{
    let mut r = String::from_str(API_BASE);
    r.append(method);
    r
}

} // verus!
