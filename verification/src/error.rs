//! The single failure kind that the engine surfaces at its boundary, and
//! the form in which a service built on the engine reports it.

use vstd::prelude::*;

verus! {

/// Failure of a mandatory upstream: the transport failed, or the body did
/// not have the expected shape. The two are not told apart.
#[derive(Debug, Clone, Copy, PartialEq, Eq, Structural)]
pub enum Error {
    ApiRequestFailed,
}

impl Error {
    /// The HTTP status under which the failure is reported.
    pub fn status_code(&self) -> (status: u16)
        ensures
            status == 500,
    {
        500
    }

    /// The body under which the failure is reported. It says nothing of the
    /// cause.
    pub fn client_message(&self) -> (message: &'static str)
        ensures
            message@ == "UNHANDLED_CLIENT_ERROR"@,
    {
        "UNHANDLED_CLIENT_ERROR"
    }
}

/// The engine's failure as a request handler reports it.
#[derive(Debug, Clone, Copy, PartialEq, Eq, Structural)]
pub enum ApiError {
    ApiRequestFailed,
}

impl ApiError {
    /// The HTTP status under which the failure is reported.
    pub fn status_code(&self) -> (status: u16)
        ensures
            status == 500,
    {
        500
    }

    /// The body under which the failure is reported.
    pub fn client_message(&self) -> (message: &'static str)
        ensures
            message@ == "API_REQUEST_FAILED"@,
    {
        "API_REQUEST_FAILED"
    }
}

impl From<Error> for ApiError {
    fn from(error: Error) -> (reported: ApiError)
    {
        match error {
            Error::ApiRequestFailed => ApiError::ApiRequestFailed,
        }
    }
}

impl vstd::std_specs::convert::FromSpecImpl<Error> for ApiError {
    open spec fn obeys_from_spec() -> bool {
        true
    }

    open spec fn from_spec(error: Error) -> ApiError {
        match error {
            Error::ApiRequestFailed => ApiError::ApiRequestFailed,
        }
    }
}

} // verus!
