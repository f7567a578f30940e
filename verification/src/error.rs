//! Error type shared by the filesystem core.

use vstd::prelude::*;

verus! {

/// Errors reported by filesystem operations.
#[derive(Clone, Copy, Debug, PartialEq, Eq, Structural)]
pub enum FsError {
    NotFound,
    AlreadyExists,
    AccessDenied,
    PermissionDenied,
    InvalidArgument,
    InvalidName,
    NotADirectory,
    IsADirectory,
    Busy,
    NotEmpty,
    NoSpace,
    TooManyOpenFiles,
    Unsupported,
}

/// Result type of filesystem operations.
pub type FsResult<T> = Result<T, FsError>;

/// Human readable description of an error.
pub open spec fn error_text(e: FsError) -> Seq<char> {
    match e {
        FsError::NotFound => "not found"@,
        FsError::AlreadyExists => "already exists"@,
        FsError::AccessDenied => "access denied"@,
        FsError::PermissionDenied => "permission denied"@,
        FsError::InvalidArgument => "invalid argument"@,
        FsError::InvalidName => "invalid name"@,
        FsError::NotADirectory => "not a directory"@,
        FsError::IsADirectory => "is a directory"@,
        FsError::Busy => "resource busy"@,
        FsError::NotEmpty => "directory not empty"@,
        FsError::NoSpace => "no space left"@,
        FsError::TooManyOpenFiles => "too many open files"@,
        FsError::Unsupported => "operation not supported"@,
    }
}

impl FsError {
    /// Human readable description of the error.
    pub fn message(&self) -> (s: &'static str)
        ensures
            s@ == error_text(*self),
    {
        match self {
            FsError::NotFound => "not found",
            FsError::AlreadyExists => "already exists",
            FsError::AccessDenied => "access denied",
            FsError::PermissionDenied => "permission denied",
            FsError::InvalidArgument => "invalid argument",
            FsError::InvalidName => "invalid name",
            FsError::NotADirectory => "not a directory",
            FsError::IsADirectory => "is a directory",
            FsError::Busy => "resource busy",
            FsError::NotEmpty => "directory not empty",
            FsError::NoSpace => "no space left",
            FsError::TooManyOpenFiles => "too many open files",
            FsError::Unsupported => "operation not supported",
        }
    }
}

} // verus!
