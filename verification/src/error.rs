//! The error taxonomy of the service and its mapping to HTTP status codes.

use vstd::prelude::*;

verus! {

/// Every way an operation on the game store can fail.
///
/// `NotFound`: no game matches the given id. `Validation`: the request
/// payload is malformed or incomplete, detected before storage is touched.
/// `Storage`: the underlying database or connection pool failed for a
/// reason other than "no matching row".
#[derive(Clone, Copy, PartialEq, Eq, Structural, Debug)]
pub enum ApiError {
    NotFound,
    Validation,
    Storage,
}

/// The HTTP status code each error maps to.
pub open spec fn spec_status_of(e: ApiError) -> u16 {
    match e {
        ApiError::NotFound => 404,
        ApiError::Validation => 400,
        ApiError::Storage => 500,
    }
}

impl ApiError {
    /// Maps the error to its HTTP status code: one central mapping, so
    /// the handlers cannot drift apart.
    pub fn status_code(&self) -> (s: u16)
        ensures
            s == spec_status_of(*self),
    {
        match self {
            ApiError::NotFound => 404,
            ApiError::Validation => 400,
            ApiError::Storage => 500,
        }
    }

    /// A generic client-facing message. Internal detail (raw database
    /// error text) must never leak into a response body.
    pub fn message(&self) -> (m: &'static str)
        ensures
            *self is NotFound ==> m@ == "not found"@,
            *self is Validation ==> m@ == "invalid request payload"@,
            *self is Storage ==> m@ == "internal server error"@,
    {
        match self {
            ApiError::NotFound => "not found",
            ApiError::Validation => "invalid request payload",
            ApiError::Storage => "internal server error",
        }
    }
}

} // verus!
