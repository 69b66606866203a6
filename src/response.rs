//! What a finished HTTP exchange with the archive means.
use vstd::prelude::*;
use crate::error::{Error, TransportFailure};
use crate::json::{decode_value, json_accepts};

verus! {

/// How an HTTP GET ended, as the caller that performed it saw it.
#[derive(Debug)]
pub enum Fetched {
    /// The service answered with `status`, and its body was read as `text`.
    Answered { status: u16, text: String },
    /// No answer came (connection refused, name lookup, TLS, ...).
    Unreachable(String),
    /// The service answered but its body could not be read.
    ReadFailed(String),
}

/// A status of the success class (2xx).
pub open spec fn is_success(status: u16) -> bool {
    200 <= status <= 299
}

/// The error that an exchange which gave no usable body stands for.
pub open spec fn failure_of(fetched: Fetched) -> Error {
    match fetched {
        Fetched::Answered { status, text } => Error::Http(TransportFailure { status: Some(status), message: text }),
        Fetched::Unreachable(m) => Error::Http(TransportFailure { status: None, message: m }),
        Fetched::ReadFailed(m) => Error::Io(m),
    }
}

/// Whether the exchange produced a body to decode.
pub open spec fn has_body(fetched: Fetched) -> bool {
    fetched matches Fetched::Answered { status, .. } && is_success(status)
}

/// The body of a successful exchange, or the error it stands for: a status
/// outside 2xx or no answer is a transport error, an unreadable body an I/O
/// error. Nothing is ever decoded here.
pub fn accept_body(fetched: Fetched) -> (r: Result<String, Error>)
    ensures
        has_body(fetched) ==> r == Ok::<String, Error>(fetched->text),
        !has_body(fetched) ==> r == Err::<String, Error>(failure_of(fetched)),
{
    match fetched {
        Fetched::Answered { status, text } => {
            if 200 <= status && status <= 299 {
                Ok(text)
            } else {
                Err(Error::Http(TransportFailure { status: Some(status), message: text }))
            }
        },
        Fetched::Unreachable(m) => Err(Error::Http(TransportFailure { status: None, message: m })),
        Fetched::ReadFailed(m) => Err(Error::Io(m)),
    }
}

/// Finishes a column-subset request: the body of a successful exchange is
/// decoded as untyped JSON; any other outcome is the error it stands for.
pub fn finish_select(fetched: Fetched) -> (r: Result<serde_json::Value, Error>)
    ensures
        !has_body(fetched) ==> r == Err::<serde_json::Value, Error>(failure_of(fetched)),
        has_body(fetched) ==> (r is Ok <==> json_accepts(fetched->text@)),
        has_body(fetched) && r is Err ==> r->Err_0 is Json,
{
    match accept_body(fetched) {
        Ok(text) => decode_value(text.as_str()),
        Err(e) => Err(e),
    }
}

/// An exchange that got no answer, or an answer outside 2xx, stands for a
/// transport error and never for a decode error.
pub proof fn lemma_refusal_is_transport_error(fetched: Fetched)
    requires
        fetched is Unreachable || (fetched matches Fetched::Answered { status, .. } && !is_success(
            status,
        )),
    ensures
        !has_body(fetched),
        failure_of(fetched) is Http,
{
}

} // verus!
