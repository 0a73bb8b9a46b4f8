//! JSON documents as parameters.

use vstd::prelude::*;

verus! {

/// A JSON document of `serde_json`. Nothing is known of what it holds.
#[verifier::external_type_specification]
#[verifier::external_body]
pub struct ExJsonValue(serde_json::Value);

/// The error of `serde_json`. Nothing is known of what it holds.
#[verifier::external_type_specification]
#[verifier::external_body]
pub struct ExJsonError(serde_json::Error);

/// The compact JSON text of a document, where it can be written.
pub uninterp spec fn json_text(value: serde_json::Value) -> Option<Seq<char>>;

/// `serde_json::to_string` writes the document as compact JSON text, or
/// fails. What it gives depends on the document alone.
#[verifier::external_body]
pub(crate) fn write_json(value: &serde_json::Value) -> (out: Result<String, serde_json::Error>)
    ensures
        match out {
            Ok(text) => json_text(*value) == Some(text@),
            Err(_) => json_text(*value) is None,
        },
{
    serde_json::to_string(value)
}

/// The `clone` of a `serde_json::Value` is a document equal to it.
pub assume_specification[ <serde_json::Value as Clone>::clone ](
    value: &serde_json::Value,
) -> (out: serde_json::Value)
    ensures
        out == *value,
;

} // verus!
