//! Translation of an answer into transport terms: the response bodies and
//! the mapping from each error kind to an HTTP status code and message.
//!
//! The surrounding process serializes these bodies and sends them; the
//! library fixes their contents.

use vstd::prelude::*;

use crate::taller::{YodaTallerError, YodaTallerOutcome};

verus! {

/// Status code for a query the service answered.
pub const STATUS_OK: u16 = 200;

/// Status code for a query the service could not answer from the data.
pub const STATUS_NOT_FOUND: u16 = 404;

/// Status code for a query that failed in the remote round trip.
pub const STATUS_INTERNAL_SERVER_ERROR: u16 = 500;

/// Success body of the route: the query echoed beside the outcome.
#[derive(Clone, Debug, PartialEq, Eq)]
pub struct YodaTallerResponse {
    /// The queried name, verbatim.
    pub query: String,
    /// The answer for that name.
    pub result: YodaTallerOutcome,
}

/// Failure body of the route: the query echoed beside a fixed message.
#[derive(Clone, Debug, PartialEq, Eq)]
pub struct ErrorBody {
    /// The queried name, verbatim.
    pub query: String,
    /// A message naming the error kind, with any underlying cause elided.
    pub error: String,
}

/// A failed query together with its typed error, before translation to
/// transport terms.
#[derive(Clone, Debug, PartialEq, Eq)]
pub struct YodaTallerErrorResponse {
    /// The queried name, verbatim.
    pub query: String,
    /// Why the query produced no answer.
    pub error: YodaTallerError,
}

/// The transport form of a success: status 200 beside the body pairing the
/// query, verbatim, with its outcome.
pub fn success_response_parts(query: String, result: YodaTallerOutcome) -> (parts: (
    u16,
    YodaTallerResponse,
))
    ensures
        parts.0 == STATUS_OK,
        parts.1.query == query,
        parts.1.result == result,
{
    (STATUS_OK, YodaTallerResponse { query, result })
}

/// The status code each error kind is surfaced as: both not-found kinds are
/// the client-facing 404, a failed round trip is the server-side 500.
pub open spec fn status_of(e: YodaTallerError) -> u16 {
    match e {
        YodaTallerError::UnexpectedError(_) => STATUS_INTERNAL_SERVER_ERROR,
        YodaTallerError::PersonNotFound => STATUS_NOT_FOUND,
        YodaTallerError::HeightNotFound => STATUS_NOT_FOUND,
    }
}

/// The message each error kind carries in the response body. The underlying
/// cause of a failed round trip is never exposed.
pub open spec fn message_of(e: YodaTallerError) -> Seq<char> {
    match e {
        YodaTallerError::UnexpectedError(_) => "Unexpected error"@,
        YodaTallerError::PersonNotFound => "Person not found"@,
        YodaTallerError::HeightNotFound => "Person's height is unknown"@,
    }
}

impl YodaTallerErrorResponse {
    /// The transport form of the failure: the status code for the error kind
    /// and the body carrying the query verbatim and the kind's message.
    pub fn into_response_parts(self) -> (parts: (u16, ErrorBody))
        ensures
            parts.0 == status_of(self.error),
            parts.1.query == self.query,
            parts.1.error@ == message_of(self.error),
    {
        let (status, message): (u16, String) = match &self.error {
            YodaTallerError::UnexpectedError(_) => (
                STATUS_INTERNAL_SERVER_ERROR,
                "Unexpected error".to_owned(),
            ),
            YodaTallerError::PersonNotFound => (STATUS_NOT_FOUND, "Person not found".to_owned()),
            YodaTallerError::HeightNotFound => (
                STATUS_NOT_FOUND,
                "Person's height is unknown".to_owned(),
            ),
        };
        (status, ErrorBody { query: self.query, error: message })
    }
}

} // verus!
