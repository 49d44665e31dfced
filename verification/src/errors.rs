//! The service's error taxonomy and its HTTP-facing mapping: validation and
//! not-found conditions keep their message, everything else is reported to
//! the caller as a generic internal error.

use vstd::prelude::*;
use vstd::string::StringExecFns;

verus! {

/// Everything that can go wrong while serving a request.
#[derive(Clone, Debug)]
pub enum AppError {
    /// Caller input was rejected.
    Validation(String),
    /// A requested record does not exist.
    NotFound(String),
    /// The relational store failed; the payload is its message.
    Database(String),
    /// A provider call failed terminally.
    Llm(String),
    /// A pipeline stage failed terminally.
    Pipeline(String),
    /// Any other internal failure.
    Internal(String),
}

/// Convenience alias used throughout the service.
pub type AppResult<T> = Result<T, AppError>;

impl AppError {
    /// The full error text, prefix and payload.
    pub fn message(&self) -> (r: String)
        ensures
            self matches AppError::Validation(m) ==> r@ == "Validation error: "@ + m@,
            self matches AppError::NotFound(m) ==> r@ == "Not found: "@ + m@,
            self matches AppError::Database(m) ==> r@ == "Database error: "@ + m@,
            self matches AppError::Llm(m) ==> r@ == "LLM error: "@ + m@,
            self matches AppError::Pipeline(m) ==> r@ == "Pipeline error: "@ + m@,
            self matches AppError::Internal(m) ==> r@ == "Internal error: "@ + m@,
    {
        let mut s = String::new();
        match self {
            AppError::Validation(m) => {
                s.append("Validation error: ");
                s.append(m.as_str());
            },
            AppError::NotFound(m) => {
                s.append("Not found: ");
                s.append(m.as_str());
            },
            AppError::Database(m) => {
                s.append("Database error: ");
                s.append(m.as_str());
            },
            AppError::Llm(m) => {
                s.append("LLM error: ");
                s.append(m.as_str());
            },
            AppError::Pipeline(m) => {
                s.append("Pipeline error: ");
                s.append(m.as_str());
            },
            AppError::Internal(m) => {
                s.append("Internal error: ");
                s.append(m.as_str());
            },
        }
        s
    }

    /// The HTTP status this error maps to: 400 for validation, 404 for
    /// not-found, 500 for everything else.
    pub fn status_code(&self) -> (r: u16)
        ensures
            self matches AppError::Validation(m) ==> r == 400,
            self matches AppError::NotFound(m) ==> r == 404,
            self matches AppError::Database(m) ==> r == 500,
            self matches AppError::Llm(m) ==> r == 500,
            self matches AppError::Pipeline(m) ==> r == 500,
            self matches AppError::Internal(m) ==> r == 500,
    {
        match self {
            AppError::Validation(_) => 400,
            AppError::NotFound(_) => 404,
            AppError::Database(_) => 500,
            AppError::Llm(_) => 500,
            AppError::Pipeline(_) => 500,
            AppError::Internal(_) => 500,
        }
    }

    /// What the caller is shown: validation and not-found messages pass
    /// through, internal failures never echo their cause.
    pub fn user_message(&self) -> (r: String)
        ensures
            self matches AppError::Validation(m) ==> r@ == m@,
            self matches AppError::NotFound(m) ==> r@ == m@,
            self matches AppError::Database(m) ==> r@ == "Internal server error"@,
            self matches AppError::Llm(m) ==> r@ == "Internal server error"@,
            self matches AppError::Pipeline(m) ==> r@ == "Internal server error"@,
            self matches AppError::Internal(m) ==> r@ == "Internal server error"@,
    {
        match self {
            AppError::Validation(m) => m.clone(),
            AppError::NotFound(m) => m.clone(),
            AppError::Database(_) => String::from_str("Internal server error"),
            AppError::Llm(_) => String::from_str("Internal server error"),
            AppError::Pipeline(_) => String::from_str("Internal server error"),
            AppError::Internal(_) => String::from_str("Internal server error"),
        }
    }
}

} // verus!
