//! The failures that a request or a search can end in.

use vstd::prelude::*;
use vstd::std_specs::convert::FromSpecImpl;

verus! {

/// `hyper::Error`, what the transport reports when a request fails. It is
/// carried to the caller unopened.
#[verifier::external_type_specification]
#[verifier::external_body]
pub struct ExHyperError(hyper::Error);

/// `serde_json::Error`, the diagnostic of a body that did not parse as the
/// expected records. It is carried to the caller unopened.
#[verifier::external_type_specification]
#[verifier::external_body]
pub struct ExJsonError(serde_json::Error);

/// Why a request or a search produced no records.
#[derive(Debug)]
pub enum FetchError {
    /// The transport failed: no connection, a broken exchange, a bad response.
    Http(hyper::Error),
    /// The body was not the array of records that the listing promises.
    Json(serde_json::Error),
    /// The catalogue was read, and nothing in it answers the query. The text
    /// names the query.
    NotFound(String),
}

impl From<hyper::Error> for FetchError {
    /// A failure of the transport is an `Http` error that holds it.
    fn from(err: hyper::Error) -> (failure: FetchError)
        ensures
            failure == FetchError::Http(err),
    {
        FetchError::Http(err)
    }
}

impl FromSpecImpl<hyper::Error> for FetchError {
    open spec fn obeys_from_spec() -> bool {
        true
    }

    open spec fn from_spec(err: hyper::Error) -> FetchError {
        FetchError::Http(err)
    }
}

impl From<serde_json::Error> for FetchError {
    /// A failure to read the body is a `Json` error that holds it.
    fn from(err: serde_json::Error) -> (failure: FetchError)
        ensures
            failure == FetchError::Json(err),
    {
        FetchError::Json(err)
    }
}

impl FromSpecImpl<serde_json::Error> for FetchError {
    open spec fn obeys_from_spec() -> bool {
        true
    }

    open spec fn from_spec(err: serde_json::Error) -> FetchError {
        FetchError::Json(err)
    }
}

} // verus!
