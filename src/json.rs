//! The two JSON facts the service takes from serde_json: whether a request
//! body is a JSON object, and how a message is written as a JSON string.
use vstd::prelude::*;

verus! {

/// Whether `b` parses as one JSON object.
pub uninterp spec fn json_object_text(b: Seq<u8>) -> bool;

/// The JSON string literal that denotes `s`, quotes and escapes included.
pub uninterp spec fn json_string_text(s: Seq<char>) -> Seq<u8>;

/// Relies on serde_json::from_slice into a map from strings to JSON values:
/// it succeeds exactly on the bodies that hold one JSON object.
#[verifier::external_body]
pub(crate) fn is_json_object(b: &[u8]) -> (r: bool)
    ensures
        r == json_object_text(b@),
{
    serde_json::from_slice::<std::collections::HashMap<String, serde_json::Value>>(b).is_ok()
}

/// Relies on serde_json::to_vec on a string: the string as a JSON literal.
#[verifier::external_body]
pub(crate) fn json_string(s: &str) -> (r: Vec<u8>)
    ensures
        r@ == json_string_text(s@),
{
    match serde_json::to_vec(s) {
        Ok(v) => v,
        Err(_) => Vec::new(),
    }
}

} // verus!
