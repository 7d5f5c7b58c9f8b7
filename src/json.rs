use crate::error::ErrorKind;
use vstd::prelude::*;

verus! {

#[verifier::external_type_specification]
#[verifier::external_body]
pub struct ExJsonValue(serde_json::Value);

/// Relies on `serde_json::from_slice` into a `serde_json::Value`: whether the
/// decoder accepts the bytes. It accepts one well-formed JSON document, nested
/// no deeper than its recursion limit and with numbers it can represent.
pub uninterp spec fn json_accepts(bytes: Seq<u8>) -> bool;

/// Relies on `serde_json::from_slice` into a `serde_json::Value`: the value it
/// decodes from bytes it accepts, which depends on the bytes alone.
pub uninterp spec fn json_value_of(bytes: Seq<u8>) -> serde_json::Value;

/// Relies on `serde_json::from_slice` into a `serde_json::Value`: whether it
/// decodes, and what, depends on the bytes alone. A failure is handed back as the text of the decoder's error.
#[verifier::external_body]
fn parse_value(bytes: &[u8]) -> (r: Result<serde_json::Value, String>)
    ensures
        r is Ok == json_accepts(bytes@),
        r is Ok ==> r->Ok_0 == json_value_of(bytes@),
{
    serde_json::from_slice::<serde_json::Value>(bytes).map_err(|e| e.to_string())
}

/// Relies on `serde_json::to_vec`: the compact JSON text of a value, which
/// depends on the value alone.
pub uninterp spec fn json_bytes_of(value: serde_json::Value) -> Seq<u8>;

/// Relies on `serde_json::to_vec` of a `serde_json::Value`: it fails only where
/// a `Serialize` impl fails or a map key is not a string, and `Value`'s impl
/// does neither, so it always succeeds. A failure would be handed back as the
/// text of the encoder's error.
#[verifier::external_body]
fn encode_value(value: &serde_json::Value) -> (r: Result<Vec<u8>, String>)
    ensures
        r is Ok && r->Ok_0@ == json_bytes_of(*value),
{
    serde_json::to_vec(value).map_err(|e| e.to_string())
}

/// The JSON encoding of `value`.
pub fn to_json(value: &serde_json::Value) -> (r: Result<Vec<u8>, crate::error::Error>)
    ensures
        r is Ok && r->Ok_0@ == json_bytes_of(*value),
{
    match encode_value(value) {
        Ok(bytes) => Ok(bytes),
        Err(text) => Err(crate::error::Error::new(ErrorKind::DataConversion, text)),
    }
}

/// The JSON document in `body`. Malformed bytes are a `DataConversion` error
/// whose cause is the decoder's complaint.
pub fn from_json(body: &[u8]) -> (r: Result<serde_json::Value, crate::error::Error>)
    ensures
        r is Ok == json_accepts(body@),
        r is Ok ==> r->Ok_0 == json_value_of(body@),
        r is Err ==> r->Err_0.kind_spec() == ErrorKind::DataConversion
            && r->Err_0.cause_spec() is Some,
{
    match parse_value(body) {
        Ok(v) => Ok(v),
        Err(text) => Err(crate::error::Error::new(ErrorKind::DataConversion, text)),
    }
}

} // verus!
