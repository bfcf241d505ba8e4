//! The JSON decoder that the framer hands complete frames to.

use serde_json::{Error, Value};
use vstd::prelude::*;

verus! {

/// A decoded JSON value. Its contents are not inspected here: a message is
/// carried from the decoder to whoever consumes it.
#[verifier::external_type_specification]
#[verifier::external_body]
pub struct ExValue(serde_json::Value);

/// The decoder's own error. The framer reports the text that failed instead.
#[verifier::external_type_specification]
#[verifier::external_body]
pub struct ExError(serde_json::Error);

/// What `serde_json::from_str` yields for a text, as a function of the text.
pub uninterp spec fn json_from_str(text: Seq<char>) -> Result<Value, Error>;

/// Calls `serde_json::from_str` to decode `text` as one JSON value.
///
/// Trusted: the outcome depends on the text alone, so it is named
/// `json_from_str(text@)`. Nothing is claimed about which texts decode.
#[verifier::external_body]
pub(crate) fn from_str(text: &str) -> (decoded: Result<Value, Error>)
    ensures
        decoded == json_from_str(text@),
{
    serde_json::from_str(text)
}

} // verus!
