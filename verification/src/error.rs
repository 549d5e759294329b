//! Errors surfaced by API operations.

use vstd::prelude::*;

verus! {

/// Why an API operation failed.  Quota-header problems are deliberately not
/// here: quota tracking is best effort and a malformed header is swallowed,
/// never surfaced.
#[derive(Debug, Clone, PartialEq)]
pub enum ApiError {
    /// Network or connection failure while issuing a request.
    Transport(String),
    /// The server answered with a non-success HTTP status.
    HttpStatus(u16),
    /// The response body did not match the expected schema.
    Deserialization(String),
    /// The token endpoint reported an error or returned no token.
    Auth(String),
}

/// Accepts exactly the successful HTTP statuses; any other status becomes
/// the error that carries it.
pub fn check_status(status: u16) -> (r: Result<(), ApiError>)
    ensures
        r is Ok <==> 200 <= status < 300,
        !(200 <= status < 300) ==> r == Result::<(), ApiError>::Err(ApiError::HttpStatus(status)),
{
    if 200 <= status && status < 300 {
        Ok(())
    } else {
        Err(ApiError::HttpStatus(status))
    }
}

} // verus!
