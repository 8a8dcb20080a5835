//! The named outcomes that every failing operation reports.

use vstd::prelude::*;

verus! {

/// Why an operation did not succeed.
#[derive(Debug, Clone, Copy, PartialEq, Eq, Structural)]
pub enum ErrorKind {
    /// No token, or a token that is malformed, badly signed or expired.
    Unauthenticated,
    /// The principal is known but its role is too low.
    Forbidden,
    /// Login failed; does not tell whether the username exists.
    InvalidCredentials,
    /// Login with the right password on an account not yet verified.
    NotVerified,
    /// A principal, claim or category that does not exist.
    NotFound,
    /// The claim has already been accepted or rejected.
    AlreadyProcessed,
    /// The principal already holds the Manager role or a higher one.
    AlreadyElevated,
    /// An account or category with the same name already exists.
    AlreadyExists,
    /// Malformed input, refused before any storage work.
    ValidationFailed,
    /// The storage collaborator failed.
    StorageUnavailable,
    /// A signing or hashing primitive failed.
    Internal,
}

impl ErrorKind {
    /// The HTTP status that the boundary answers with.
    pub fn status_code(&self) -> (r: u16)
        ensures
            r == status_of(*self),
    {
        match self {
            ErrorKind::Unauthenticated => 401,
            ErrorKind::Forbidden => 403,
            ErrorKind::InvalidCredentials => 400,
            ErrorKind::NotVerified => 403,
            ErrorKind::NotFound => 404,
            ErrorKind::AlreadyProcessed => 409,
            ErrorKind::AlreadyElevated => 409,
            ErrorKind::AlreadyExists => 409,
            ErrorKind::ValidationFailed => 400,
            ErrorKind::StorageUnavailable => 500,
            ErrorKind::Internal => 500,
        }
    }
}

/// The HTTP status of each error kind.
pub open spec fn status_of(e: ErrorKind) -> u16 {
    match e {
        ErrorKind::Unauthenticated => 401,
        ErrorKind::Forbidden => 403,
        ErrorKind::InvalidCredentials => 400,
        ErrorKind::NotVerified => 403,
        ErrorKind::NotFound => 404,
        ErrorKind::AlreadyProcessed => 409,
        ErrorKind::AlreadyElevated => 409,
        ErrorKind::AlreadyExists => 409,
        ErrorKind::ValidationFailed => 400,
        ErrorKind::StorageUnavailable => 500,
        ErrorKind::Internal => 500,
    }
}

} // verus!
