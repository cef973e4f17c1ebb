//! What is assumed rather than proved.
//!
//! Everything the rest of the crate believes about code that is not verified
//! here is collected in this file, so that the trusted base is easy to find.

use axum::response::Redirect;
use vstd::prelude::*;

verus! {

/// `String::push` appends exactly one character to the end of the string.
pub assume_specification[ String::push ](s: &mut String, c: char)
    ensures
        final(s)@ == old(s)@.push(c),
;

/// `axum::response::Redirect` is carried around as an opaque value.
#[verifier::external_type_specification]
#[verifier::external_body]
pub struct ExRedirect(Redirect);

/// The URI a redirect points at: the string that `Redirect::location` hands
/// back for it.
pub uninterp spec fn redirect_location(r: Redirect) -> Seq<char>;

/// The numeric HTTP status of a redirect: `Redirect::status_code`, as a plain
/// number.
pub uninterp spec fn redirect_status(r: Redirect) -> int;

/// `Redirect::to` stores the given URI unchanged and always uses
/// `303 See Other`. It accepts every string; a URI that is not a valid header
/// value only surfaces later, when the redirect is turned into a response.
pub assume_specification[ Redirect::to ](uri: &str) -> (r: Redirect)
    ensures
        redirect_location(r) == uri@,
        redirect_status(r) == 303,
;

} // verus!
