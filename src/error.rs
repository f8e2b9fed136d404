use vstd::prelude::*;

verus! {

/// The HTTP status that a request ends with.
#[derive(Clone, Copy, Debug, PartialEq, Eq, Structural)]
pub enum HttpStatus {
    Success,
    BadRequest,
    InternalServerError,
}

impl HttpStatus {
    /// The numeric HTTP status code.
    pub open spec fn spec_number(self) -> u16 {
        match self {
            HttpStatus::Success => 200,
            HttpStatus::BadRequest => 400,
            HttpStatus::InternalServerError => 500,
        }
    }

    pub fn number(self) -> (r: u16)
        ensures
            r == self.spec_number(),
    {
        match self {
            HttpStatus::Success => 200,
            HttpStatus::BadRequest => 400,
            HttpStatus::InternalServerError => 500,
        }
    }
}

/// Code of every internal failure: unreadable body, unusable sender lock,
/// failed send.
pub const INTERNAL_CODE: u32 = 501;

/// Code of a URL pattern that does not compile.
pub const BAD_PATTERN_CODE: u32 = 101;

/// Code of a URL that the pattern does not match.
pub const URL_REJECTED_CODE: u32 = 102;

/// A failed request: the status to answer with and a stable numeric code.
#[derive(Clone, Copy, Debug, PartialEq, Eq, Structural)]
pub struct EndpointError {
    pub status: HttpStatus,
    pub code: u32,
}

impl EndpointError {
    pub open spec fn spec_internal() -> EndpointError {
        EndpointError { status: HttpStatus::InternalServerError, code: INTERNAL_CODE }
    }

    pub open spec fn spec_bad_request(code: u32) -> EndpointError {
        EndpointError { status: HttpStatus::BadRequest, code }
    }

    /// The answer to every internal failure: 500 with code 501.
    pub fn internal() -> (r: EndpointError)
        ensures
            r == EndpointError::spec_internal(),
    {
        EndpointError { status: HttpStatus::InternalServerError, code: INTERNAL_CODE }
    }

    /// A client error: 400 with the given code.
    pub fn bad_request(code: u32) -> (r: EndpointError)
        ensures
            r == EndpointError::spec_bad_request(code),
    {
        EndpointError { status: HttpStatus::BadRequest, code }
    }

    /// Whether the failure is the client's (400) rather than the server's.
    pub fn is_client_error(&self) -> (r: bool)
        ensures
            r == (self.status == HttpStatus::BadRequest),
    {
        self.status == HttpStatus::BadRequest
    }
}

} // verus!
