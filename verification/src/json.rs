//! The few things this crate needs from `serde_json`.

use vstd::prelude::*;

verus! {

/// A JSON document of any shape. The crate carries such values through
/// (the arguments of a tool call) and never looks inside them.
#[verifier::external_type_specification]
#[verifier::external_body]
pub struct ExJsonValue(serde_json::Value);

/// The error that `serde_json` reports when it cannot read or write JSON.
#[verifier::external_type_specification]
#[verifier::external_body]
pub struct ExJsonError(serde_json::Error);

/// `serde_json::Value::clone` is the derived clone of an enum of plain
/// data: the copy equals the value it was made from.
pub assume_specification[ <serde_json::Value as Clone>::clone ](value: &serde_json::Value) -> (copy:
    serde_json::Value)
    ensures
        copy == *value,
;

/// The message that a `serde_json::Error` prints: what went wrong, and
/// the line and column where the error knows them.
pub uninterp spec fn json_error_text(error: serde_json::Error) -> Seq<char>;

/// The message that `serde_json::Error` prints through `Display`.
#[verifier::external_body]
pub(crate) fn error_message(error: &serde_json::Error) -> (message: String)
    ensures
        message@ == json_error_text(*error),
{
    error.to_string()
}

} // verus!
