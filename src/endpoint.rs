//! Tables of the archive that can be requested.
use vstd::prelude::*;
use crate::error::Error;
use crate::response::{accept_body, failure_of, has_body, Fetched};

verus! {

/// A table of the archive whose rows decode into `Self`.
///
/// An implementation names its table and turns a response body into rows;
/// the handling of an exchange's outcome is the same for every table (see
/// `finish_load`).
pub trait ApiEndpoint: Sized {
    /// The table's identifier, as the service knows it; never empty. The
    /// address of a request for the table is built from it by
    /// `query::load_url` or `query::select_columns_url`.
    fn table_name() -> (r: &'static str)
        ensures
            r@.len() > 0,
    ;

    /// Decodes a response body into rows, in the order the body holds them;
    /// a body it cannot decode as a whole gives an error and no rows.
    fn handle_data(data: &str) -> Result<Vec<Self>, Error>;
}

/// Finishes a request for every column of a table: the body of a successful
/// exchange goes to `decode` (the table's `handle_data`), and what it returns,
/// rows or its error, comes back unchanged; any other outcome is the error it
/// stands for, and nothing is decoded.
pub fn finish_load<T, F: Fn(&str) -> Result<Vec<T>, Error>>(fetched: Fetched, decode: F) -> (r: Result<Vec<T>, Error>)
    requires
        forall|data: &str| decode.requires((data,)),
    ensures
        !has_body(fetched) ==> r == Err::<Vec<T>, Error>(failure_of(fetched)),
        has_body(fetched) ==> exists|data: &str| data@ == fetched->text@ && decode.ensures((data,), r),
{
    match accept_body(fetched) {
        Ok(text) => decode(text.as_str()),
        Err(e) => Err(e),
    }
}

} // verus!
