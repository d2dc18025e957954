use vstd::prelude::*;
use crate::text::decimal_of;

verus! {

/// Whether an HTTP status code reports success (the 2xx class).
pub open spec fn is_success_code(code: u16) -> bool {
    200 <= code < 300
}

/// Whether `code` can be an HTTP status code at all.
pub open spec fn is_status_code(code: u16) -> bool {
    100 <= code <= 999
}

/// The reason phrase that a status code is displayed with after its number.
pub uninterp spec fn status_reason_of(code: u16) -> Seq<char>;

/// Checks the 2xx class of a status code.
pub fn is_success_status(code: u16) -> (r: bool)
    ensures
        r == is_success_code(code),
{
    200 <= code && code < 300
}

/// Relies on `reqwest::StatusCode::from_u16`, which accepts 100 to 999, and on
/// the `Display` of that type, which writes the code in decimal, a space, and
/// the canonical reason phrase (or a placeholder for an unknown code).
#[verifier::external_body]
pub(crate) fn display_status(code: u16) -> (r: String)
    requires
        is_status_code(code),
    ensures
        r@ == decimal_of(code as nat) + seq![' '] + status_reason_of(code),
{
    match reqwest::StatusCode::from_u16(code) {
        Ok(status) => status.to_string(),
        Err(_) => String::new(),
    }
}

} // verus!
