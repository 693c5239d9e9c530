//! The local error taxonomy of the activity operations, and its mapping to
//! the plain responses that the HTTP dispatcher sends back.

use vstd::prelude::*;

verus! {

/// Failure of a local activity operation. An upstream call that failed in
/// any way (transport, status, body) is a generic external-service failure;
/// a listing that succeeded but held no activity with the requested id is a
/// not-found failure. These are the only two outcomes besides full success.
#[derive(Debug, Clone, Copy, PartialEq, Eq, Structural)]
pub enum AnalyzerError {
    ExternalServiceError,
    ActivityNotFoundError,
}

/// A plain response for the dispatcher: a status code and a text body.
#[derive(Debug)]
pub struct ErrorResponse {
    pub status: u16,
    pub body: String,
}

impl AnalyzerError {
    /// The local response for this error: an external-service failure maps
    /// to 500, a missed lookup to 404.
    pub fn error_response(&self) -> (r: ErrorResponse)
        ensures
            *self == AnalyzerError::ExternalServiceError ==> r.status == 500u16 && r.body@
                == "external service error"@,
            *self == AnalyzerError::ActivityNotFoundError ==> r.status == 404u16 && r.body@
                == "activity not found"@,
    {
        match self {
            AnalyzerError::ExternalServiceError => ErrorResponse {
                status: 500,
                body: "external service error".to_owned(),
            },
            AnalyzerError::ActivityNotFoundError => ErrorResponse {
                status: 404,
                body: "activity not found".to_owned(),
            },
        }
    }
}

} // verus!
