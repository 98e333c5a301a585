//! The JSON value type of `serde_json`, carried through the library unread,
//! the one parse the library makes, and copying a value.

use vstd::prelude::*;

verus! {

#[verifier::external_type_specification]
#[verifier::external_body]
pub struct ExJsonValue(serde_json::Value);

#[verifier::external_type_specification]
#[verifier::external_body]
pub struct ExJsonError(serde_json::Error);

/// Whether `serde_json::from_str::<serde_json::Value>` accepts the text, that
/// is whether the text is one well-formed JSON document (within the parser's
/// nesting limit) with nothing but white space after it.
pub uninterp spec fn json_text_parses(text: Seq<char>) -> bool;

/// The value that `serde_json::from_str::<serde_json::Value>` gives for a
/// text it accepts. Without the `preserve_order` feature objects are sorted
/// maps, so the value depends on the text alone.
pub uninterp spec fn json_value_of(text: Seq<char>) -> serde_json::Value;

/// Calls `serde_json::from_str::<serde_json::Value>`.
///
/// Claimed: the call succeeds exactly when `json_text_parses` holds of the
/// text, and the value it gives is `json_value_of` of the text.
#[verifier::external_body]
pub(crate) fn parse_json_text(text: &str) -> (r: Result<serde_json::Value, serde_json::Error>)
    ensures
        r is Ok <==> json_text_parses(text@),
        r matches Ok(v) ==> v == json_value_of(text@),
{
    serde_json::from_str(text)
}

/// `<serde_json::Value as Clone>::clone`, which the crate derives: the copy
/// is the same value.
#[verifier::external_body]
pub(crate) fn clone_json_value(v: &serde_json::Value) -> (r: serde_json::Value)
    ensures
        r == *v,
{
    v.clone()
}

} // verus!
