//! The answer to every request that no route answered.

use vstd::prelude::*;
use crate::error::{error_body, ErrorJson};

verus! {

/// The reason phrase of an HTTP status code: the canonical phrase of a known
/// code, and a phrase for the class of the code otherwise.
pub uninterp spec fn reason_phrase(code: u16) -> Seq<char>;

/// The reason phrase of a status code.
///
/// Calls `Status::new` and `Status::reason_lossy` of the web framework, which
/// look the code up in a fixed table. The contract names what they return.
#[verifier::external_body]
fn reason(code: u16) -> (phrase: &'static str)
    ensures
        phrase@ == reason_phrase(code),
{
    rocket::http::Status::new(code).reason_lossy()
}

/// The body sent for a status that no route produced a body for: always JSON,
/// with the reason phrase of the status as the message.
pub fn default_catcher(code: u16) -> (body: String)
    ensures
        body@ == error_body(code, reason_phrase(code)),
{
    ErrorJson::new(code, reason(code)).to_json()
}

} // verus!
