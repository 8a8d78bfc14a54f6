//! Matching accessibility issues against validation rules: the verified core of
//! the audit service (CSV intake, request bodies, reply interpretation and the
//! decisions of the response-sheet run).
pub mod actual_work;
pub mod clients_connection;
pub mod json;
pub mod json_text;
pub mod pre_process;
pub mod response_sheet;
pub mod service;
pub mod upload;

use vstd::prelude::*;
use crate::json_text::{json_quoted, quote};

verus! {

/// The errors that the audit service answers with.
#[derive(Debug, PartialEq, Eq)]
pub enum ApiError {
    NotFound(String),
    InvalidInput(String),
    InternalError(String),
}

impl ApiError {
    /// The HTTP status code of the answer.
    pub open spec fn spec_status(&self) -> u16 {
        match self {
            ApiError::NotFound(_) => 404,
            ApiError::InvalidInput(_) => 400,
            ApiError::InternalError(_) => 500,
        }
    }

    /// The message carried by the error.
    pub open spec fn spec_message(&self) -> Seq<char> {
        match self {
            ApiError::NotFound(m) => m@,
            ApiError::InvalidInput(m) => m@,
            ApiError::InternalError(m) => m@,
        }
    }

    /// The HTTP status code with which the service answers this error.
    pub fn status_code(&self) -> (code: u16)
        ensures
            code == self.spec_status(),
    {
        match self {
            ApiError::NotFound(_) => 404,
            ApiError::InvalidInput(_) => 400,
            ApiError::InternalError(_) => 500,
        }
    }

    /// The message carried by the error.
    pub fn message(&self) -> (m: &String)
        ensures
            m@ == self.spec_message(),
    {
        match self {
            ApiError::NotFound(m) => m,
            ApiError::InvalidInput(m) => m,
            ApiError::InternalError(m) => m,
        }
    }

    /// The body of the answer: `{"error": message}`.
    pub fn error_body(&self) -> (body: String)
        ensures
            body@ == error_json(self.spec_message()),
    {
        let mut body = String::from_str("{\"error\":");
        let quoted = quote(self.message().as_str());
        body.append(quoted.as_str());
        body.append("}");
        body
    }
}

/// The JSON object `{"error": message}`.
pub open spec fn error_json(message: Seq<char>) -> Seq<char> {
    "{\"error\":"@ + json_quoted(message) + "}"@
}

} // verus!
