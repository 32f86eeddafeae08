//! What a request can fail with, and the body describing it.
use vstd::prelude::*;

use crate::scheduler::storage::StorageError;
use crate::web::auth::PermissionError;

verus! {

#[derive(Debug)]
pub enum ApiError {
    Permission(PermissionError),
    Validation(String),
    NotFound,
    Conflict(String),
    Storage(StorageError),
}

/// A store failure as a request outcome: a missing schedule is `NotFound`.
pub fn api_error_of(e: StorageError) -> (r: ApiError)
    ensures
        e is NotFound ==> r is NotFound,
        !(e is NotFound) ==> r == ApiError::Storage(e),
{
    match e {
        StorageError::NotFound(_) => ApiError::NotFound,
        other => ApiError::Storage(other),
    }
}

pub open spec fn status_of(e: ApiError) -> u16 {
    match e {
        ApiError::Permission(_) => 403,
        ApiError::Validation(_) => 400,
        ApiError::NotFound => 404,
        ApiError::Conflict(_) => 409,
        ApiError::Storage(_) => 500,
    }
}

impl ApiError {
    /// The HTTP status this outcome is answered with.
    pub fn status_code(&self) -> (r: u16)
        ensures
            r == status_of(*self),
    {
        match self {
            ApiError::Permission(_) => 403,
            ApiError::Validation(_) => 400,
            ApiError::NotFound => 404,
            ApiError::Conflict(_) => 409,
            ApiError::Storage(_) => 500,
        }
    }
}

#[derive(Debug, Clone, PartialEq)]
pub struct ErrorResponse {
    pub error: String,
    pub message: Option<String>,
}

impl ErrorResponse {
    pub fn new(error: &str) -> (r: ErrorResponse)
        ensures
            r.error@ == error@,
            r.message is None,
    {
        ErrorResponse { error: String::from_str(error), message: None }
    }

    pub fn with_message(error: &str, message: &str) -> (r: ErrorResponse)
        ensures
            r.error@ == error@,
            r.message matches Some(m) && m@ == message@,
    {
        ErrorResponse { error: String::from_str(error), message: Some(String::from_str(message)) }
    }
}

} // verus!
