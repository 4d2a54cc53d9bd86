//! The failures the services report, and the body of an error response.
use vstd::prelude::*;
use crate::store::{EntityKind, StoreError};

verus! {

/// A failure of a service call.
#[derive(Clone, Copy, Debug, PartialEq, Eq, Structural)]
pub enum ApiError {
    /// The store itself failed.
    Database(StoreError),
    /// A write or a listing named a parent of the given kind and id that
    /// does not exist.
    ParentNotFound(EntityKind, u128),
}

impl ApiError {
    /// The HTTP status that reports the failure.
    pub open spec fn spec_status(self) -> u16 {
        match self {
            ApiError::Database(StoreError::RecordNotFound(_)) => 404,
            ApiError::Database(StoreError::DuplicateKey(_)) => 500,
            ApiError::ParentNotFound(_, _) => 400,
        }
    }

    /// The HTTP status that reports the failure: a missing row is not
    /// found, a dangling reference is a bad request, any other failure of
    /// the store is an internal error.
    pub fn status_code(&self) -> (r: u16)
        ensures
            r == self.spec_status(),
    {
        match self {
            ApiError::Database(StoreError::RecordNotFound(_)) => 404,
            ApiError::Database(StoreError::DuplicateKey(_)) => 500,
            ApiError::ParentNotFound(_, _) => 400,
        }
    }
}

/// The body of an error response.
#[derive(Debug, PartialEq)]
pub struct ErrorResponse {
    pub code: u16,
    pub message: String,
}

impl ErrorResponse {
    /// The response for a request that failed inside the server.
    pub fn internal_error() -> (r: Self)
        ensures
            r.code == 500,
            r.message@ == "Internal server error"@,
    {
        ErrorResponse { code: 500, message: "Internal server error".to_owned() }
    }

    /// The response for a path that names nothing.
    pub fn not_found() -> (r: Self)
        ensures
            r.code == 404,
            r.message@ == "Resource not found"@,
    {
        ErrorResponse { code: 404, message: "Resource not found".to_owned() }
    }
}

} // verus!
