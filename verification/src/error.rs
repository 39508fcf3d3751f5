//! What can go wrong in the storage-access layer, and how each failure is
//! shown to an HTTP client.

use vstd::prelude::*;
use vstd::string::*;

verus! {

/// A failure of an operation on either backend.
#[derive(Debug, PartialEq)]
pub enum Error {
    /// The addressed resource does not exist; holds a description of it.
    NotFound(String),
    /// The request cannot be served as it was made; holds the reason.
    BadRequest(String),
    /// No pooled connection could be acquired; holds the pool's report.
    PoolError(String),
    /// The backend, its driver or the record codec failed; holds the report.
    BackendError(String),
}

pub enum ErrorView {
    NotFound(Seq<char>),
    BadRequest(Seq<char>),
    PoolError(Seq<char>),
    BackendError(Seq<char>),
}

impl View for Error {
    type V = ErrorView;

    open spec fn view(&self) -> ErrorView {
        match self {
            Error::NotFound(resource) => ErrorView::NotFound(resource@),
            Error::BadRequest(reason) => ErrorView::BadRequest(reason@),
            Error::PoolError(detail) => ErrorView::PoolError(detail@),
            Error::BackendError(detail) => ErrorView::BackendError(detail@),
        }
    }
}

/// The HTTP status that reports `error`.
pub open spec fn status_of(error: ErrorView) -> int {
    match error {
        ErrorView::NotFound(_) => 404,
        ErrorView::BadRequest(_) => 400,
        ErrorView::PoolError(_) => 500,
        ErrorView::BackendError(_) => 500,
    }
}

/// The message that accompanies the status of `error`. A pool failure is not
/// described to the client.
pub open spec fn message_of(error: ErrorView) -> Seq<char> {
    match error {
        ErrorView::NotFound(resource) => "Resource not found: "@ + resource,
        ErrorView::BadRequest(reason) => reason,
        ErrorView::PoolError(_) => "Internal Server Error: Failed to get connection"@,
        ErrorView::BackendError(detail) =>
            "Internal Server Error: Database operation failed with error: "@ + detail,
    }
}

impl Clone for Error {
    fn clone(&self) -> (r: Self)
        ensures
            r == *self,
    {
        match self {
            Error::NotFound(resource) => Error::NotFound(resource.clone()),
            Error::BadRequest(reason) => Error::BadRequest(reason.clone()),
            Error::PoolError(detail) => Error::PoolError(detail.clone()),
            Error::BackendError(detail) => Error::BackendError(detail.clone()),
        }
    }
}

impl Error {
    /// The HTTP status that reports this failure.
    pub fn status_code(&self) -> (r: u16)
        ensures
            r == status_of(self@),
    {
        match self {
            Error::NotFound(_) => 404,
            Error::BadRequest(_) => 400,
            Error::PoolError(_) => 500,
            Error::BackendError(_) => 500,
        }
    }

    /// The HTTP status and the message body that report this failure.
    pub fn into_response(self) -> (r: (u16, String))
        ensures
            r.0 == status_of(self@),
            r.1@ == message_of(self@),
    {
        match self {
            Error::NotFound(resource) => {
                let mut message = String::from_str("Resource not found: ");
                message.append(resource.as_str());
                (404, message)
            },
            Error::BadRequest(reason) => (400, reason),
            Error::PoolError(_) => (
                500,
                String::from_str("Internal Server Error: Failed to get connection"),
            ),
            Error::BackendError(detail) => {
                let mut message = String::from_str(
                    "Internal Server Error: Database operation failed with error: ",
                );
                message.append(detail.as_str());
                (500, message)
            },
        }
    }
}

/// `bb8::RunError`, the pool's refusal to hand out a connection: it ran out
/// of time, or the connection manager failed. Nothing is claimed of what it
/// holds; the library only turns it into text.
#[verifier::external_type_specification]
#[verifier::external_body]
#[verifier::reject_recursive_types(E)]
pub struct ExRunError<E>(bb8::RunError<E>);

/// Turns the pool's refusal to hand out a connection into a
/// [`Error::PoolError`] that holds what the refusal displays as. A failure
/// to acquire a connection is thereby never reported as a failure of the
/// backend.
pub fn map_pool_error<E: std::error::Error + 'static>(e: bb8::RunError<E>) -> (r: Error)
    ensures
        r is PoolError,
        to_string_from_display_ensures::<bb8::RunError<E>>(&e, r->PoolError_0),
{
    Error::PoolError(e.to_string())
}

} // verus!
