//! Values the library takes from the outside world: fresh identifiers and
//! the current time. Neither is a function of its arguments, so nothing is
//! promised of the result; the functions that use them state what holds
//! whatever came back.
use vstd::prelude::*;

verus! {

/// `uuid::Uuid::new_v4()` formatted with `to_string`: a fresh random
/// identifier. Nothing is claimed of the text; it depends on chance.
#[verifier::external_body]
pub(crate) fn fresh_uuid() -> (r: String) {
    uuid::Uuid::new_v4().to_string()
}

/// `chrono::Utc::now().to_rfc3339()`: the current time in RFC 3339 form.
/// Nothing is claimed of the text; it depends on the clock.
#[verifier::external_body]
pub(crate) fn now_rfc3339() -> (r: String) {
    chrono::Utc::now().to_rfc3339()
}

} // verus!
