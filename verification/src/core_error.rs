//! Errors of task and session orchestration.

use vstd::prelude::*;

verus! {

/// Error of task and session orchestration.
#[derive(Debug)]
pub enum CoreError {
    Task { message: String },
    Session { message: String },
    Io(std::io::Error),
    Serde(serde_json::Error),
    Generic(String),
}

/// Result of task and session orchestration.
pub type CoreResult<T> = Result<T, CoreError>;

impl CoreError {
    /// A task-related error.
    pub fn task(message: String) -> (e: Self)
        ensures
            e == (CoreError::Task { message }),
    {
        CoreError::Task { message }
    }

    /// A session-related error.
    pub fn session(message: String) -> (e: Self)
        ensures
            e == (CoreError::Session { message }),
    {
        CoreError::Session { message }
    }

    /// A generic error.
    pub fn generic(message: String) -> (e: Self)
        ensures
            e == CoreError::Generic(message),
    {
        CoreError::Generic(message)
    }
}

} // verus!
