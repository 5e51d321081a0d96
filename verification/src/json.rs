//! JSON values as `serde_json` holds them, and the few operations the state
//! document needs from that crate. A value stays opaque here: what the logic
//! knows of one is its compact text.

use vstd::prelude::*;

verus! {

/// `serde_json::Value`, a JSON value. What is known of one is `json_text`.
#[verifier::external_type_specification]
#[verifier::external_body]
pub struct ExValue(serde_json::Value);

/// `serde_json::Error`, the failure to read or write JSON text.
#[verifier::external_type_specification]
#[verifier::external_body]
pub struct ExJsonError(serde_json::Error);

/// The compact JSON text that `serde_json::to_vec` writes for `value`, or
/// `None` where it reports an error.
pub uninterp spec fn json_text(value: serde_json::Value) -> Option<Seq<u8>>;

/// The value that `serde_json::from_slice` reads from `bytes`, or `None`
/// where it rejects them.
pub uninterp spec fn json_parsed(bytes: Seq<u8>) -> Option<serde_json::Value>;

/// The text of the JSON null value: the four bytes `null`.
pub open spec fn null_text() -> Seq<u8> {
    seq![110u8, 117u8, 108u8, 108u8]
}

/// Whether `value` has a JSON text.
pub open spec fn encodable(value: serde_json::Value) -> bool {
    json_text(value) is Some
}

/// Calls `serde_json::from_slice` for a `Value`. Trusted: the outcome is a
/// function of the bytes alone, which `json_parsed` names.
#[verifier::external_body]
pub(crate) fn value_from_slice(bytes: &[u8]) -> (r: Result<serde_json::Value, serde_json::Error>)
    ensures
        r is Ok <==> json_parsed(bytes@) is Some,
        r is Ok ==> r->Ok_0 == json_parsed(bytes@)->Some_0,
{
    serde_json::from_slice(bytes)
}

/// Calls `serde_json::to_vec` on a `Value`. Trusted: the outcome is a
/// function of the value alone, which `json_text` names.
#[verifier::external_body]
pub(crate) fn value_to_vec(value: &serde_json::Value) -> (r: Result<Vec<u8>, serde_json::Error>)
    ensures
        r is Ok <==> json_text(*value) is Some,
        r is Ok ==> r->Ok_0@ == json_text(*value)->Some_0,
{
    serde_json::to_vec(value)
}

/// `Value::clone`. Trusted: the copy equals the value that it was made of.
pub assume_specification[ <serde_json::Value as Clone>::clone ](value: &serde_json::Value) -> (r:
    serde_json::Value)
    ensures
        r == *value,
;

/// Makes `Value::Null`. Trusted: `serde_json` writes it as `null`.
#[verifier::external_body]
pub(crate) fn value_null() -> (r: serde_json::Value)
    ensures
        json_text(r) == Some(null_text()),
{
    serde_json::Value::Null
}

} // verus!
