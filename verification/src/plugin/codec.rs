//! The encodings of command payloads: Base64 for preview images, JSON for
//! relayed data.

use vstd::prelude::*;
use base64::Engine;

verus! {

#[verifier::external_type_specification]
#[verifier::external_body]
pub struct ExDecodeError(base64::DecodeError);

#[verifier::external_type_specification]
#[verifier::external_body]
pub struct ExJsonValue(serde_json::Value);

/// The bytes that `input` stands for in standard Base64 with canonical
/// padding, `None` if it is no such text.
pub uninterp spec fn base64_standard_decoded(input: Seq<char>) -> Option<Seq<u8>>;

/// Decodes with `Engine::decode` of `base64::engine::general_purpose::STANDARD`.
/// The result depends on the text alone: it is the decoded bytes, or the
/// decoder's error where the text is not standard Base64.
#[verifier::external_body]
pub(crate) fn decode_standard(input: &str) -> (r: Result<Vec<u8>, base64::DecodeError>)
    ensures
        match r {
            Ok(bytes) => base64_standard_decoded(input@) == Some(bytes@),
            Err(_) => base64_standard_decoded(input@) is None,
        },
{
    base64::engine::general_purpose::STANDARD.decode(input)
}

/// The text of a decoder error, as its `Display` gives it. Nothing is
/// claimed of the text.
#[verifier::external_body]
pub(crate) fn decode_error_text(error: &base64::DecodeError) -> String {
    format!("{}", error)
}

/// The value that `bytes` stand for as one JSON text, `None` if they are
/// no JSON text.
pub uninterp spec fn json_value_of(bytes: Seq<u8>) -> Option<serde_json::Value>;

/// Parses JSON with `serde_json::from_slice`. The result depends on the
/// bytes alone: the value they stand for, or `None` where they are no JSON
/// text. The value is opaque here, so nothing is claimed of what it holds.
#[verifier::external_body]
pub(crate) fn json_from_slice(bytes: &[u8]) -> (r: Option<serde_json::Value>)
    ensures
        r == json_value_of(bytes@),
{
    serde_json::from_slice::<serde_json::Value>(bytes).ok()
}

/// The JSON text of a value, `None` if it cannot be written as JSON.
pub uninterp spec fn json_text_of(value: serde_json::Value) -> Option<Seq<u8>>;

/// Writes a value as JSON text with `serde_json::to_vec`; an error is
/// handed on as the text its `Display` gives. The result depends on the
/// value alone: its JSON text, or an error where it has none.
#[verifier::external_body]
pub(crate) fn json_to_vec(value: &serde_json::Value) -> (r: Result<Vec<u8>, String>)
    ensures
        match r {
            Ok(bytes) => json_text_of(*value) == Some(bytes@),
            Err(_) => json_text_of(*value) is None,
        },
{
    serde_json::to_vec(value).map_err(|e| format!("{}", e))
}

} // verus!
