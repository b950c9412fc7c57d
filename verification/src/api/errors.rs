//! The HTTP answers to refused requests and failed queries.
use crate::api::HttpStatus;
use crate::store::errors::{store_error_text, StoreError};
use vstd::prelude::*;

verus! {

/// Validation error for invalid table references.
#[derive(Debug)]
pub struct InvalidTableReference {
    pub message: String,
}

impl InvalidTableReference {
    /// The message of the error.
    pub fn to_string(&self) -> (r: String)
        ensures
            r@ == self.message@,
    {
        self.message.clone()
    }

    /// A refused table reference is answered `400 Bad Request` with its message.
    pub fn into_response(self) -> (r: (HttpStatus, String))
        ensures
            r.0 == HttpStatus::BadRequest,
            r.1 == self.message,
    {
        (HttpStatus::BadRequest, self.message)
    }
}

/// The status that answers a store error: a missing table is not found, a
/// table without geometry is a bad request, a failed query is a server error.
pub open spec fn store_error_status(e: StoreError) -> HttpStatus {
    match e {
        StoreError::TableNotFound { .. } => HttpStatus::NotFound,
        StoreError::NoGeometryColumn { .. } => HttpStatus::BadRequest,
        StoreError::DatabaseError { .. } => HttpStatus::InternalServerError,
    }
}

/// Converts a store error to the status and body of an HTTP response.
pub fn store_error_to_response(e: StoreError) -> (r: (HttpStatus, String))
    ensures
        r.0 == store_error_status(e),
        r.1@ == store_error_text(e),
{
    let status = match &e {
        StoreError::TableNotFound { .. } => HttpStatus::NotFound,
        StoreError::NoGeometryColumn { .. } => HttpStatus::BadRequest,
        StoreError::DatabaseError { .. } => HttpStatus::InternalServerError,
    };
    (status, e.to_string())
}

/// The answer when listing tables fails: `500` with the error after `Database error: `.
pub fn listing_error_response(e: &StoreError) -> (r: (HttpStatus, String))
    ensures
        r.0 == HttpStatus::InternalServerError,
        r.1@ == "Database error: "@ + store_error_text(*e),
{
    let mut m = String::from_str("Database error: ");
    let text = e.to_string();
    m.append(text.as_str());
    (HttpStatus::InternalServerError, m)
}

} // verus!
