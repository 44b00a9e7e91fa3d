//! Errors of the FreshBlu API and the HTTP status each one answers with.
use vstd::prelude::*;

use crate::text::{push_str, string_of};

verus! {

/// An error of a FreshBlu operation.
#[derive(Debug)]
pub enum FreshBluError {
    NotFound,
    Forbidden,
    Unauthorized,
    InvalidToken,
    Conflict,
    Validation(String),
    Storage(String),
    Internal(String),
    RateLimitExceeded,
    MessageTooLarge,
}

/// The HTTP status code that answers an error.
pub open spec fn status_of(e: FreshBluError) -> u16 {
    match e {
        FreshBluError::NotFound => 404,
        FreshBluError::Forbidden => 403,
        FreshBluError::Unauthorized => 401,
        FreshBluError::InvalidToken => 401,
        FreshBluError::Conflict => 409,
        FreshBluError::Validation(_) => 422,
        FreshBluError::RateLimitExceeded => 429,
        FreshBluError::MessageTooLarge => 413,
        _ => 500,
    }
}

/// The human-readable text of an error.
pub open spec fn message_of(e: FreshBluError) -> Seq<char> {
    match e {
        FreshBluError::NotFound => "device not found"@,
        FreshBluError::Forbidden => "forbidden"@,
        FreshBluError::Unauthorized => "unauthorized"@,
        FreshBluError::InvalidToken => "invalid token"@,
        FreshBluError::Conflict => "device already exists"@,
        FreshBluError::Validation(s) => "validation error: "@ + s@,
        FreshBluError::Storage(s) => "storage error: "@ + s@,
        FreshBluError::Internal(s) => "internal error: "@ + s@,
        FreshBluError::RateLimitExceeded => "rate limit exceeded"@,
        FreshBluError::MessageTooLarge => "message too large"@,
    }
}

impl FreshBluError {
    /// The HTTP status code this error answers with.
    pub fn http_status(&self) -> (r: u16)
        ensures
            r == status_of(*self),
    {
        match self {
            FreshBluError::NotFound => 404,
            FreshBluError::Forbidden => 403,
            FreshBluError::Unauthorized => 401,
            FreshBluError::InvalidToken => 401,
            FreshBluError::Conflict => 409,
            FreshBluError::Validation(_) => 422,
            FreshBluError::RateLimitExceeded => 429,
            FreshBluError::MessageTooLarge => 413,
            _ => 500,
        }
    }

    /// The error's text, as shown in an API error body.
    pub fn message(&self) -> (r: String)
        ensures
            r@ == message_of(*self),
    {
        match self {
            FreshBluError::NotFound => string_of("device not found"),
            FreshBluError::Forbidden => string_of("forbidden"),
            FreshBluError::Unauthorized => string_of("unauthorized"),
            FreshBluError::InvalidToken => string_of("invalid token"),
            FreshBluError::Conflict => string_of("device already exists"),
            FreshBluError::Validation(s) => {
                let mut r = string_of("validation error: ");
                push_str(&mut r, s.as_str());
                r
            },
            FreshBluError::Storage(s) => {
                let mut r = string_of("storage error: ");
                push_str(&mut r, s.as_str());
                r
            },
            FreshBluError::Internal(s) => {
                let mut r = string_of("internal error: ");
                push_str(&mut r, s.as_str());
                r
            },
            FreshBluError::RateLimitExceeded => string_of("rate limit exceeded"),
            FreshBluError::MessageTooLarge => string_of("message too large"),
        }
    }
}

/// An API error: the error a request handler answers with.
pub struct ApiError(pub FreshBluError);

impl From<FreshBluError> for ApiError {
    fn from(e: FreshBluError) -> (r: ApiError) {
        ApiError(e)
    }
}

impl vstd::std_specs::convert::FromSpecImpl<FreshBluError> for ApiError {
    open spec fn obeys_from_spec() -> bool {
        true
    }

    open spec fn from_spec(v: FreshBluError) -> ApiError {
        ApiError(v)
    }
}

impl ApiError {
    /// The HTTP status code of the response.
    pub fn status(&self) -> (r: u16)
        ensures
            r == status_of(self.0),
    {
        self.0.http_status()
    }
}

} // verus!
