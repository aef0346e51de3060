//! Classified errors and their mapping to HTTP status codes and
//! messages: a closed set of variants with one arm per variant, so the
//! mapping is checked exhaustively instead of probing error values at
//! run time. Infrastructure errors map to a generic failure status and
//! never leak internals; an unclassified failure falls back to a
//! generic internal error rather than crashing the process.

use crate::create::CreateError;
use vstd::prelude::*;

verus! {

/// The store adapter's error, as the rest of the service sees it.
pub enum DbError {
    DatabaseError,
}

impl DbError {
    /// The error's display text.
    pub fn message(&self) -> (r: String)
        ensures
            r@ == "Database error"@,
    {
        "Database error".to_owned()
    }
}

/// Everything a request can be rejected or failed with, one variant per
/// classified cause.
pub enum ServiceError {
    /// The submitted URL was rejected by the acceptance filter.
    InvalidLink,
    /// The client exhausted its rate-limit window.
    TooManyRequests,
    /// The store could not be reached, or a write kept failing.
    Database,
    /// Anything that no variant classifies.
    Unclassified,
}

/// The HTTP status a classified error maps to: user-correctable
/// rejection to 400, rate limiting to 429, everything infrastructural
/// or unclassified to 500.
pub fn status_of(e: &ServiceError) -> (r: u16)
    ensures
        r == (match e {
            ServiceError::InvalidLink => 400u16,
            ServiceError::TooManyRequests => 429u16,
            ServiceError::Database => 500u16,
            ServiceError::Unclassified => 500u16,
        }),
{
    match e {
        ServiceError::InvalidLink => 400,
        ServiceError::TooManyRequests => 429,
        ServiceError::Database => 500,
        ServiceError::Unclassified => 500,
    }
}

/// The body text a classified error maps to.
pub fn message_of(e: &ServiceError) -> (r: String)
    ensures
        e matches ServiceError::InvalidLink ==> r@ == "Invalid link provided"@,
        e matches ServiceError::TooManyRequests ==> r@ == "Too many requests, slow down!"@,
        e matches ServiceError::Database ==> r@ == "Database error occurred"@,
        e matches ServiceError::Unclassified ==> r@ == "Unhandled rejection"@,
{
    match e {
        ServiceError::InvalidLink => "Invalid link provided".to_owned(),
        ServiceError::TooManyRequests => "Too many requests, slow down!".to_owned(),
        ServiceError::Database => "Database error occurred".to_owned(),
        ServiceError::Unclassified => "Unhandled rejection".to_owned(),
    }
}

/// How a failed creation is classified: the rejected URL keeps its own
/// variant and status, while exhausted generation and an unreachable
/// store are both infrastructure failures.
pub fn classify_create_error(e: &CreateError) -> (r: ServiceError)
    ensures
        r == (match e {
            CreateError::InvalidLink => ServiceError::InvalidLink,
            CreateError::GenerationExhausted => ServiceError::Database,
            CreateError::StoreUnavailable => ServiceError::Database,
        }),
{
    match e {
        CreateError::InvalidLink => ServiceError::InvalidLink,
        CreateError::GenerationExhausted => ServiceError::Database,
        CreateError::StoreUnavailable => ServiceError::Database,
    }
}

} // verus!
