//! The answers of the HTTP service: its health check and the outcome of an
//! audit request.
use vstd::prelude::*;
use crate::{ApiError, error_json};

verus! {

/// The body of the health check.
pub const HEALTH_BODY: &'static str = "{\"status\":\"ok\"}";

/// The body of a successful audit.
pub const AUDIT_DONE_BODY: &'static str = "{\"message\":\"created the file\",\"status\":\"success\"}";

/// The answer to the health check: status and body.
pub fn health() -> (answer: (u16, String))
    ensures
        answer.0 == 200,
        answer.1@ == HEALTH_BODY@,
{
    (200, String::from_str(HEALTH_BODY))
}

/// The answer to an audit request, from its outcome: 200 and a confirmation,
/// or the error's status and `{"error": message}`.
pub fn get_audit(outcome: &Result<(), ApiError>) -> (answer: (u16, String))
    ensures
        match outcome {
            Ok(()) => answer.0 == 200 && answer.1@ == AUDIT_DONE_BODY@,
            Err(e) => answer.0 == e.spec_status() && answer.1@ == error_json(e.spec_message()),
        },
{
    match outcome {
        Ok(()) => (200, String::from_str(AUDIT_DONE_BODY)),
        Err(e) => (e.status_code(), e.error_body()),
    }
}

} // verus!
