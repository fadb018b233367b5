//! The error taxonomy exposed to callers.
//!
//! Every failure of a tool or prompt invocation is terminal for that call and
//! falls into exactly one of three kinds: the requested operation does not
//! exist, the caller-supplied parameters did not match the declared schema,
//! or the backend reported a failure.

use vstd::prelude::*;

verus! {

/// The mathematical model of a [`ToolError`]: the same three kinds, each
/// carrying its text as a sequence of characters.
pub enum ErrorModel {
    ToolNotFound { name: Seq<char> },
    InvalidParameters { detail: Seq<char> },
    BackendFailure { message: Seq<char> },
}

impl ErrorModel {
    /// The human-readable message of an error of this model.
    pub open spec fn message(self) -> Seq<char> {
        match self {
            ErrorModel::ToolNotFound { name } => "Tool not found: "@ + name,
            ErrorModel::InvalidParameters { detail } => "Invalid parameters: "@ + detail,
            ErrorModel::BackendFailure { message } => message,
        }
    }
}

/// A structured error reported to the caller of a tool or prompt.
///
/// - `ToolNotFound` carries the operation name that no registry entry matches.
/// - `InvalidParameters` carries the schema violation detail.
/// - `BackendFailure` carries the complete message, already prefixed with the
///   fixed text identifying which operation failed.
#[derive(Debug)]
pub enum ToolError {
    ToolNotFound(String),
    InvalidParameters(String),
    BackendFailure(String),
}

impl View for ToolError {
    type V = ErrorModel;

    open spec fn view(&self) -> ErrorModel {
        match self {
            ToolError::ToolNotFound(name) => ErrorModel::ToolNotFound { name: name@ },
            ToolError::InvalidParameters(detail) => ErrorModel::InvalidParameters {
                detail: detail@,
            },
            ToolError::BackendFailure(message) => ErrorModel::BackendFailure {
                message: message@,
            },
        }
    }
}

impl ToolError {
    /// The single human-readable message that the caller receives.
    pub fn message(&self) -> (r: String)
        ensures
            r@ == self@.message(),
    {
        match self {
            ToolError::ToolNotFound(name) => String::from_str("Tool not found: ").concat(
                name.as_str(),
            ),
            ToolError::InvalidParameters(detail) => String::from_str("Invalid parameters: ").concat(
                detail.as_str(),
            ),
            ToolError::BackendFailure(message) => message.clone(),
        }
    }
}

} // verus!
