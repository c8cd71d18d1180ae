//! The structured response body a completion is encoded into.
//!
//! The listener layer serializes this into whatever wire format is in use;
//! the library only guarantees its semantic content: a status line, an
//! optional data or error message, and the elapsed time of the attempt.

use vstd::prelude::*;

use crate::handler::Completion;
use crate::status::StatusCategory;

verus! {

/// One structured response: status, optional data, optional error message,
/// and the elapsed time in milliseconds.
pub struct ApiResponse {
    pub status: String,
    pub data: Option<String>,
    pub error: Option<String>,
    pub time_taken_ms: u64,
}

/// The status line for each category.
pub open spec fn status_line(s: StatusCategory) -> Seq<char> {
    match s {
        StatusCategory::Success => "Ok"@,
        StatusCategory::ValidationError => "Invalid request"@,
        StatusCategory::ResourceUnavailable => "Service busy"@,
        StatusCategory::OperationFailed => "Operation failed"@,
        StatusCategory::Cancelled => "Cancelled"@,
    }
}

impl ApiResponse {
    /// An error response: no data, the given message, the given elapsed
    /// time.
    pub fn error(message: &str, elapsed_ms: u64) -> (r: ApiResponse)
        ensures
            r.status@ == "Error"@,
            r.data is None,
            r.error matches Some(m) && m@ == message@,
            r.time_taken_ms == elapsed_ms,
    {
        ApiResponse {
            status: String::from_str("Error"),
            data: None,
            error: Some(String::from_str(message)),
            time_taken_ms: elapsed_ms,
        }
    }

    /// The response for a completion: the status line of its category, data
    /// given by the caller's encoding of the body, no error message for a
    /// success and the given one otherwise.
    pub fn for_completion(c: &Completion, data: Option<String>, message: &str) -> (r: ApiResponse)
        ensures
            r.status@ == status_line(c.status),
            r.data == data,
            c.status is Success ==> r.error is None,
            !(c.status is Success) ==> (r.error matches Some(m) && m@ == message@),
            r.time_taken_ms == c.elapsed_ms,
    {
        let status = match c.status {
            StatusCategory::Success => String::from_str("Ok"),
            StatusCategory::ValidationError => String::from_str("Invalid request"),
            StatusCategory::ResourceUnavailable => String::from_str("Service busy"),
            StatusCategory::OperationFailed => String::from_str("Operation failed"),
            StatusCategory::Cancelled => String::from_str("Cancelled"),
        };
        let error = match c.status {
            StatusCategory::Success => None,
            _ => Some(String::from_str(message)),
        };
        ApiResponse { status, data, error, time_taken_ms: c.elapsed_ms }
    }
}

} // verus!
