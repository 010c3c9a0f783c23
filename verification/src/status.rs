//! The error taxonomy that every remote call answers with.

use vstd::prelude::*;

verus! {

/// The class of a failed call.
#[derive(Clone, Copy, Debug, PartialEq, Eq, Structural)]
pub enum Code {
    /// The credential pair was missing or wrong; never says which part failed.
    Unauthenticated,
    /// The caller is known but is not a member of the room.
    PermissionDenied,
    /// A malformed identifier or a missing required field.
    InvalidArgument,
    /// No such user or room.
    NotFound,
    /// A duplicate registration.
    AlreadyExists,
    /// The store or the cache refused the operation.
    Internal,
}

/// A failed call: its class and a message for the caller.
#[derive(Debug)]
pub struct Status {
    pub code: Code,
    pub message: String,
}

impl Status {
    /// Builds a status of the given class.
    pub fn new(code: Code, message: &str) -> (status: Status)
        ensures
            status.code == code,
            status.message@ == message@,
    {
        Status { code, message: String::from_str(message) }
    }

    pub fn unauthenticated(message: &str) -> (status: Status)
        ensures
            status.code == Code::Unauthenticated,
            status.message@ == message@,
    {
        Status::new(Code::Unauthenticated, message)
    }

    pub fn permission_denied(message: &str) -> (status: Status)
        ensures
            status.code == Code::PermissionDenied,
            status.message@ == message@,
    {
        Status::new(Code::PermissionDenied, message)
    }

    pub fn invalid_argument(message: &str) -> (status: Status)
        ensures
            status.code == Code::InvalidArgument,
            status.message@ == message@,
    {
        Status::new(Code::InvalidArgument, message)
    }

    pub fn not_found(message: &str) -> (status: Status)
        ensures
            status.code == Code::NotFound,
            status.message@ == message@,
    {
        Status::new(Code::NotFound, message)
    }

    pub fn already_exists(message: &str) -> (status: Status)
        ensures
            status.code == Code::AlreadyExists,
            status.message@ == message@,
    {
        Status::new(Code::AlreadyExists, message)
    }

    pub fn internal(message: &str) -> (status: Status)
        ensures
            status.code == Code::Internal,
            status.message@ == message@,
    {
        Status::new(Code::Internal, message)
    }

    /// The class of this status.
    pub fn code(&self) -> (code: Code)
        ensures
            code == self.code,
    {
        self.code
    }

    /// The message of this status.
    pub fn message(&self) -> (message: &str)
        ensures
            message@ == self.message@,
    {
        self.message.as_str()
    }
}

} // verus!
