//! The error type of the CLI/MCP surface.

use vstd::prelude::*;

use crate::envelope::ErrorCategory;

verus! {

#[verifier::external_type_specification]
#[verifier::external_body]
pub struct ExIoError(std::io::Error);

#[verifier::external_type_specification]
#[verifier::external_body]
pub struct ExSerdeJsonError(serde_json::Error);

/// Errors surfaced by the reusable CLI/MCP façade.
#[derive(Debug)]
pub enum McpCliError {
    Io(std::io::Error),
    Json(serde_json::Error),
    Protocol(String),
}

impl McpCliError {
    /// The structured category under which this error is reported.
    pub fn category(&self) -> (r: ErrorCategory)
        ensures
            r == match self {
                McpCliError::Io(_) => ErrorCategory::ExecutionFailure,
                McpCliError::Json(_) => ErrorCategory::SerializationError,
                McpCliError::Protocol(_) => ErrorCategory::Validation,
            },
    {
        match self {
            McpCliError::Io(_) => ErrorCategory::ExecutionFailure,
            McpCliError::Json(_) => ErrorCategory::SerializationError,
            McpCliError::Protocol(_) => ErrorCategory::Validation,
        }
    }
}

} // verus!
