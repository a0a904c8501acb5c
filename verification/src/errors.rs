use vstd::prelude::*;

use crate::json::JsonValue;
use crate::json::error_body;
use crate::json::is_error_body;

verus! {

/// The uniform shape of every non-2xx response: an HTTP status code paired
/// with a human-readable message.
#[derive(Debug, PartialEq)]
pub struct ErrorEnvelope {
    pub status: u16,
    pub message: String,
}

/// A raw data-store failure as the driver reports it: either an error raised
/// explicitly by a procedure (a business-rule violation, recoverable), or any
/// other store or driver failure, connectivity loss among them.
#[derive(Debug, PartialEq)]
pub enum StoreError {
    Application(String),
    Transport(String),
}

/// Classifies a raw store failure into the HTTP-shaped taxonomy: a
/// business-rule violation becomes 400, anything else 500, the message passed
/// through unchanged in both cases. The zero-rows condition is not an error
/// from the store's point of view and never reaches this function.
pub fn classify(e: StoreError) -> (env: ErrorEnvelope)
    ensures
        e matches StoreError::Application(m) ==> env.status == 400 && env.message == m,
        e matches StoreError::Transport(m) ==> env.status == 500 && env.message == m,
{
    match e {
        StoreError::Application(m) => ErrorEnvelope { status: 400, message: m },
        StoreError::Transport(m) => ErrorEnvelope { status: 500, message: m },
    }
}

/// Catch-all body for status 400 (a malformed parameter or request body).
pub fn badrequest() -> (v: JsonValue)
    ensures
        is_error_body(v, "An error occurred on the server"@),
{
    error_body(String::from_str("An error occurred on the server"))
}

/// Catch-all body for status 401 (missing or ambiguous credential header).
pub fn unauthorized() -> (v: JsonValue)
    ensures
        is_error_body(v, "No Authorization header found"@),
{
    error_body(String::from_str("No Authorization header found"))
}

/// Catch-all body for status 404 (no route matched the request).
pub fn notfound() -> (v: JsonValue)
    ensures
        is_error_body(v, "Resource not found"@),
{
    error_body(String::from_str("Resource not found"))
}

} // verus!
