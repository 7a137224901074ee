//! Why an operation failed.

use crate::reg::{
    ERROR_ACCESS_DENIED, ERROR_FILE_NOT_FOUND, ERROR_INVALID_PARAMETER, ERROR_MORE_DATA,
    ERROR_PATH_NOT_FOUND, ERROR_UNSUPPORTED_TYPE,
};
use vstd::prelude::*;

verus! {

/// Why an external process did not do its work.
#[derive(Clone, Copy, Debug, PartialEq, Eq, Structural, Hash)]
pub enum ProcessFailure {
    /// The process could not be started.
    NotLaunched,
    /// The process ran and ended with this exit code, which is not zero.
    ExitCode(i32),
    /// The process was ended by a signal.
    Signaled,
}

/// Why an operation failed.
#[derive(Clone, Copy, Debug, PartialEq, Eq, Structural, Hash)]
pub enum Error {
    /// The key or value asked for does not exist.
    NotFound,
    /// The caller's rights do not allow the access asked for.
    AccessDenied,
    /// This platform has no such store.
    Unsupported,
    /// The stored value is not of the kind asked for.
    TypeMismatch,
    /// The buffer offered cannot hold the result.
    BufferTooSmall,
    /// An argument breaks the rules of the native call, such as a path
    /// without its terminator.
    InvalidArgument,
    /// An external process failed.
    ExternalProcessFailure(ProcessFailure),
    /// The store reported a status that has no kind of its own.
    Status(u32),
}

impl Error {
    /// The error that a native status other than success stands for.
    pub open spec fn spec_from_status(status: u32) -> Error {
        if status == ERROR_FILE_NOT_FOUND || status == ERROR_PATH_NOT_FOUND {
            Error::NotFound
        } else if status == ERROR_ACCESS_DENIED {
            Error::AccessDenied
        } else if status == ERROR_UNSUPPORTED_TYPE {
            Error::TypeMismatch
        } else if status == ERROR_MORE_DATA {
            Error::BufferTooSmall
        } else if status == ERROR_INVALID_PARAMETER {
            Error::InvalidArgument
        } else {
            Error::Status(status)
        }
    }

    /// The error that a native status other than success stands for.
    #[verifier::when_used_as_spec(spec_from_status)]
    pub fn from_status(status: u32) -> (error: Error)
        ensures
            error == Error::spec_from_status(status),
    {
        if status == ERROR_FILE_NOT_FOUND || status == ERROR_PATH_NOT_FOUND {
            Error::NotFound
        } else if status == ERROR_ACCESS_DENIED {
            Error::AccessDenied
        } else if status == ERROR_UNSUPPORTED_TYPE {
            Error::TypeMismatch
        } else if status == ERROR_MORE_DATA {
            Error::BufferTooSmall
        } else if status == ERROR_INVALID_PARAMETER {
            Error::InvalidArgument
        } else {
            Error::Status(status)
        }
    }
}

} // verus!
