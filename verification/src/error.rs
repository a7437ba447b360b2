//! The ways in which an ingestion fails.

use vstd::prelude::*;

verus! {

/// What went wrong, without the wording.
#[derive(Clone, Copy, Debug, PartialEq, Eq, Structural)]
pub enum ErrorKind {
    /// The request has the wrong shape: not exactly one file, or a user
    /// identifier that is not one.
    InvalidInput,
    /// A blob could not be written, read back or encoded for writing.
    StorageError,
    /// The metadata store refused an insert.
    PersistenceError,
    /// The uploaded bytes are not an image in a supported format.
    DecodeError,
}

/// A failed ingestion: its kind, and a description for the caller.
#[derive(Debug, PartialEq, Eq)]
pub enum IngestError {
    InvalidInput(String),
    StorageError(String),
    PersistenceError(String),
    DecodeError(String),
}

impl View for IngestError {
    type V = ErrorKind;

    open spec fn view(&self) -> ErrorKind {
        match self {
            IngestError::InvalidInput(_) => ErrorKind::InvalidInput,
            IngestError::StorageError(_) => ErrorKind::StorageError,
            IngestError::PersistenceError(_) => ErrorKind::PersistenceError,
            IngestError::DecodeError(_) => ErrorKind::DecodeError,
        }
    }
}

impl IngestError {
    /// An error of the given kind with the given description.
    pub fn of(kind: ErrorKind, description: String) -> (e: IngestError)
        ensures
            e@ == kind,
            e.text() == description@,
    {
        match kind {
            ErrorKind::InvalidInput => IngestError::InvalidInput(description),
            ErrorKind::StorageError => IngestError::StorageError(description),
            ErrorKind::PersistenceError => IngestError::PersistenceError(description),
            ErrorKind::DecodeError => IngestError::DecodeError(description),
        }
    }

    /// The description that the error carries.
    pub open spec fn text(&self) -> Seq<char> {
        match self {
            IngestError::InvalidInput(s) => s@,
            IngestError::StorageError(s) => s@,
            IngestError::PersistenceError(s) => s@,
            IngestError::DecodeError(s) => s@,
        }
    }

    pub fn kind(&self) -> (kind: ErrorKind)
        ensures
            kind == self@,
    {
        match self {
            IngestError::InvalidInput(_) => ErrorKind::InvalidInput,
            IngestError::StorageError(_) => ErrorKind::StorageError,
            IngestError::PersistenceError(_) => ErrorKind::PersistenceError,
            IngestError::DecodeError(_) => ErrorKind::DecodeError,
        }
    }

    pub fn description(&self) -> (text: String)
        ensures
            text@ == self.text(),
    {
        match self {
            IngestError::InvalidInput(s) => s.clone(),
            IngestError::StorageError(s) => s.clone(),
            IngestError::PersistenceError(s) => s.clone(),
            IngestError::DecodeError(s) => s.clone(),
        }
    }

    /// Whether the requester, not the service, is at fault.
    pub fn is_client_error(&self) -> (client: bool)
        ensures
            client == (self@ == ErrorKind::InvalidInput),
    {
        match self {
            IngestError::InvalidInput(_) => true,
            _ => false,
        }
    }
}

} // verus!
