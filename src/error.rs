//! Errors surfaced to the caller of an operation.

use vstd::prelude::*;

verus! {

/// What went wrong, by stage.
#[derive(PartialEq, Eq, Structural, Clone, Copy, Debug)]
pub enum ErrorKind {
    /// No session could be obtained.
    ConnectionError,
    /// The arguments miss a required field or have the wrong shape.
    InvalidParameters,
    /// A value cannot be bound as a parameter.
    ValueShapeError,
    /// The database rejected the statement, or answered in an unexpected shape.
    QueryExecutionError,
}

/// A failed invocation: its kind and a message for people.
pub struct ToolError {
    pub kind: ErrorKind,
    pub message: String,
}

impl ToolError {
    /// An error of the given kind with the given message.
    pub fn new(kind: ErrorKind, message: &str) -> (r: ToolError)
        ensures
            r.kind == kind,
            r.message@ == message@,
    {
        ToolError { kind, message: String::from_str(message) }
    }
}

} // verus!
