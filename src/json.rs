//! Decoding of response bodies.
use vstd::prelude::*;
use crate::error::Error;

verus! {

#[verifier::external_type_specification]
#[verifier::external_body]
pub struct ExValue(serde_json::Value);

/// Whether serde_json accepts `text` as one complete JSON document.
pub uninterp spec fn json_accepts(text: Seq<char>) -> bool;

/// Relies on `serde_json::from_str::<serde_json::Value>`: it parses one JSON
/// document followed by nothing but whitespace (refusing truncated text,
/// trailing text and nesting beyond its depth limit), and whether it succeeds
/// depends on the text alone.
#[verifier::external_body]
fn parse_value(text: &str) -> (r: Result<serde_json::Value, serde_json::Error>)
    ensures
        r is Ok <==> json_accepts(text@),
{
    serde_json::from_str(text)
}

/// Turns the outcome of parsing into the library's result: a parse failure
/// becomes a decode error, a parsed value is handed on as it is.
pub fn decode_result(parsed: Result<serde_json::Value, serde_json::Error>) -> (r: Result<serde_json::Value, Error>)
    ensures
        parsed is Ok ==> r == Ok::<serde_json::Value, Error>(parsed->Ok_0),
        parsed is Err ==> r == Err::<serde_json::Value, Error>(Error::Json(parsed->Err_0)),
{
    match parsed {
        Ok(v) => Ok(v),
        Err(e) => Err(Error::Json(e)),
    }
}

/// Decodes a body into an untyped JSON value. The whole body is decoded or
/// the call fails with a decode error.
pub fn decode_value(text: &str) -> (r: Result<serde_json::Value, Error>)
    ensures
        r is Ok <==> json_accepts(text@),
        r is Err ==> r->Err_0 is Json,
{
    decode_result(parse_value(text))
}

} // verus!
