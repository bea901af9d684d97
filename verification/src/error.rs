//! How an operation of the service fails, and what the caller is told.

use vstd::prelude::*;
use vstd::string::StringExecFns;

verus! {

/// The status codes with which a call of the RPC protocol can fail.
#[derive(Clone, Copy, Debug, PartialEq, Eq, Structural)]
pub enum Code {
    Cancelled,
    Unknown,
    InvalidArgument,
    DeadlineExceeded,
    NotFound,
    AlreadyExists,
    PermissionDenied,
    ResourceExhausted,
    FailedPrecondition,
    Aborted,
    OutOfRange,
    Unimplemented,
    Internal,
    Unavailable,
    DataLoss,
    Unauthenticated,
}

/// What the caller of a failed operation is told: a code and a message.
#[derive(Clone, Debug, PartialEq)]
pub struct Status {
    pub code: Code,
    pub message: String,
}

impl Status {
    /// The status of a service that is unavailable, with the given message.
    pub fn unavailable(message: String) -> (s: Status)
        ensures
            s == (Status { code: Code::Unavailable, message }),
    {
        Status { code: Code::Unavailable, message }
    }

    /// The status of an internal error with the given message.
    pub fn internal(message: String) -> (s: Status)
        ensures
            s == (Status { code: Code::Internal, message }),
    {
        Status { code: Code::Internal, message }
    }
}

/// How reading a file failed.
#[derive(Clone, Debug, PartialEq)]
pub struct ReadFailure {
    /// Whether the file was missing, rather than present and unreadable.
    pub not_found: bool,
    /// The failure in words.
    pub detail: String,
}

/// Why an operation of the service failed. The failure is that of the one
/// call: it leaves no trace in the service.
#[derive(Clone, Debug, PartialEq)]
pub enum ServiceError {
    /// The requested file is absent.
    NotFound { detail: String },
    /// The requested file is present but could not be read.
    Io { detail: String },
    /// The file was read, but its content is not valid JSON.
    Decode { detail: String },
    /// The snapshot directory itself could not be listed: the service is
    /// configured with a directory that it cannot use. `status` is what the
    /// transport makes of the failure.
    Directory { status: Status },
}

impl ServiceError {
    /// The error that a failed read of a requested file amounts to.
    pub open spec fn spec_from_read(failure: ReadFailure) -> ServiceError {
        if failure.not_found {
            ServiceError::NotFound { detail: failure.detail }
        } else {
            ServiceError::Io { detail: failure.detail }
        }
    }

    /// The error that a failed read of a requested file amounts to: a missing
    /// file is told apart from an unreadable one, and neither is ever a
    /// decoding error.
    #[verifier::when_used_as_spec(spec_from_read)]
    pub fn from_read(failure: ReadFailure) -> (e: ServiceError)
        ensures
            e == ServiceError::spec_from_read(failure),
    {
        if failure.not_found {
            ServiceError::NotFound { detail: failure.detail }
        } else {
            ServiceError::Io { detail: failure.detail }
        }
    }

    /// The code under which the error reaches the caller: a file that is
    /// absent or cannot be read makes the service unavailable, content that
    /// cannot be decoded is an internal error, and a directory that cannot be
    /// listed keeps the code it came with.
    pub open spec fn code(self) -> Code {
        match self {
            ServiceError::NotFound { .. } => Code::Unavailable,
            ServiceError::Io { .. } => Code::Unavailable,
            ServiceError::Decode { .. } => Code::Internal,
            ServiceError::Directory { status } => status.code,
        }
    }

    /// The message with which the error reaches the caller.
    pub open spec fn message(self) -> Seq<char> {
        match self {
            ServiceError::NotFound { detail } => "Failed to read JSON file: "@ + detail@,
            ServiceError::Io { detail } => "Failed to read JSON file: "@ + detail@,
            ServiceError::Decode { detail } => "Failed to parse JSON: "@ + detail@,
            ServiceError::Directory { status } => status.message@,
        }
    }

    /// What the caller is told of the error.
    pub fn into_status(self) -> (s: Status)
        ensures
            s.code == self.code(),
            s.message@ == self.message(),
    {
        match self {
            ServiceError::NotFound { detail } => Status::unavailable(
                String::from_str("Failed to read JSON file: ").concat(detail.as_str()),
            ),
            ServiceError::Io { detail } => Status::unavailable(
                String::from_str("Failed to read JSON file: ").concat(detail.as_str()),
            ),
            ServiceError::Decode { detail } => Status::internal(
                String::from_str("Failed to parse JSON: ").concat(detail.as_str()),
            ),
            ServiceError::Directory { status } => status,
        }
    }
}

} // verus!
