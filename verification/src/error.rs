//! The closed set of failures the service reports.

use vstd::prelude::*;

verus! {

/// Why the storage backend could not do what it was asked.
#[derive(Clone, Copy, Debug, PartialEq, Eq, Structural)]
pub enum StorageFault {
    /// The round trip itself failed.
    Backend,
    /// A delete removed nothing although the note had just been seen.
    LostDeleteRace,
    /// An insert was refused because the id is already taken.
    DuplicateId,
    /// The backend answered a different question than the one asked.
    UnexpectedReply,
}

/// Every failure a caller can branch on.
#[derive(Clone, Copy, Debug, PartialEq, Eq, Structural)]
pub enum ServiceError {
    /// The target of the operation does not exist.
    NotFound,
    /// An argument is outside what the operation accepts.
    InvalidArgument,
    /// The backend failed, or a mutation had no effect.
    StorageError(StorageFault),
    /// A required configuration value is absent.
    ConfigurationError,
    /// The token could not be signed.
    SigningError,
}

impl ServiceError {
    /// The status class a boundary should answer with.
    pub open spec fn spec_status(self) -> u16 {
        match self {
            ServiceError::NotFound => 404,
            ServiceError::InvalidArgument => 400,
            ServiceError::StorageError(_) => 500,
            ServiceError::ConfigurationError => 500,
            ServiceError::SigningError => 500,
        }
    }

    /// The status class a boundary should answer with.
    pub fn status(&self) -> (code: u16)
        ensures
            code == self.spec_status(),
    {
        match self {
            ServiceError::NotFound => 404,
            ServiceError::InvalidArgument => 400,
            ServiceError::StorageError(_) => 500,
            ServiceError::ConfigurationError => 500,
            ServiceError::SigningError => 500,
        }
    }
}

} // verus!
