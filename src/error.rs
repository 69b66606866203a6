//! The three ways a call to the archive can fail.
use vstd::prelude::*;
use serde_json::Error as JsonError;

verus! {

#[verifier::external_type_specification]
#[verifier::external_body]
pub struct ExJsonError(JsonError);

/// A request that could not be completed, or that the service answered with
/// a status other than success.
#[derive(Debug)]
pub struct TransportFailure {
    /// The status the service answered with; `None` when no answer came.
    pub status: Option<u16>,
    /// What went wrong, in words (for a status: the body the service sent).
    pub message: String,
}

/// Failure of a call to the archive.
#[derive(Debug)]
pub enum Error {
    /// The body is not JSON, or not of the shape asked for.
    Json(JsonError),
    /// The body could not be read.
    Io(String),
    /// The request did not complete, or was refused by the service.
    Http(TransportFailure),
}

/// A serde_json failure is a decode error.
impl From<JsonError> for Error {
    fn from(e: JsonError) -> Error {
        Error::Json(e)
    }
}

impl vstd::std_specs::convert::FromSpecImpl<JsonError> for Error {
    open spec fn obeys_from_spec() -> bool {
        true
    }

    open spec fn from_spec(e: JsonError) -> Error {
        Error::Json(e)
    }
}

} // verus!
