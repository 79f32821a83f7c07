//! Errors of the storage layer.

use crate::storage::text::join;
use vstd::prelude::*;

verus! {

/// What can go wrong in the storage layer. Each variant but `Timeout`
/// carries the detail that its message ends with.
#[derive(Debug, PartialEq, Eq)]
pub enum StorageError {
    /// The node could not be started.
    IrohInitialization(String),
    /// A namespace could not be opened, queried or written.
    Docs(String),
    /// The content store failed.
    Blobs(String),
    /// The broadcast layer failed.
    Gossip(String),
    /// A record could not be encoded or decoded.
    Serialization(String),
    /// Data was asked for by a key that the store does not have.
    NotFound(String),
    /// An entry is there but its content is not at hand yet. This is not
    /// the same as the entry not being there.
    ContentMissing(String),
    /// A key is not of the expected form.
    InvalidKey(String),
    /// The file system failed.
    Io(String),
    /// The caller passed something that is not accepted.
    Validation(String),
    /// An operation did not finish in time.
    Timeout,
    /// Anything else.
    Internal(String),
}

/// The result of a storage operation.
pub type StorageResult<T> = Result<T, StorageError>;

impl StorageError {
    /// The detail an error carries: empty for `Timeout`.
    pub open spec fn detail(&self) -> Seq<char> {
        match self {
            StorageError::IrohInitialization(m) => m@,
            StorageError::Docs(m) => m@,
            StorageError::Blobs(m) => m@,
            StorageError::Gossip(m) => m@,
            StorageError::Serialization(m) => m@,
            StorageError::NotFound(m) => m@,
            StorageError::ContentMissing(m) => m@,
            StorageError::InvalidKey(m) => m@,
            StorageError::Io(m) => m@,
            StorageError::Validation(m) => m@,
            StorageError::Timeout => Seq::empty(),
            StorageError::Internal(m) => m@,
        }
    }

    /// The message shown for an error.
    pub open spec fn spec_message(&self) -> Seq<char> {
        match self {
            StorageError::IrohInitialization(m) => "Iroh initialization failed: "@ + m@,
            StorageError::Docs(m) => "Iroh Docs operation failed: "@ + m@,
            StorageError::Blobs(m) => "Iroh Blobs operation failed: "@ + m@,
            StorageError::Gossip(_) => "Iroh Gossip operation failed"@,
            StorageError::Serialization(m) => "Serialization failed: "@ + m@,
            StorageError::NotFound(m) => "Data not found for key: "@ + m@,
            StorageError::ContentMissing(m) => "Content is not at hand: "@ + m@,
            StorageError::InvalidKey(m) => "Invalid key format: "@ + m@,
            StorageError::Io(m) => "Filesystem operation failed: "@ + m@,
            StorageError::Validation(m) => "Data validation failed: "@ + m@,
            StorageError::Timeout => "Operation timed out"@,
            StorageError::Internal(m) => "Internal storage error: "@ + m@,
        }
    }

    /// The message shown for an error: what kind it is, then its detail.
    pub fn message(&self) -> (r: String)
        ensures
            r@ == self.spec_message(),
    {
        match self {
            StorageError::IrohInitialization(m) => join("Iroh initialization failed: ", m.as_str()),
            StorageError::Docs(m) => join("Iroh Docs operation failed: ", m.as_str()),
            StorageError::Blobs(m) => join("Iroh Blobs operation failed: ", m.as_str()),
            StorageError::Gossip(_) => "Iroh Gossip operation failed".to_string(),
            StorageError::Serialization(m) => join("Serialization failed: ", m.as_str()),
            StorageError::NotFound(m) => join("Data not found for key: ", m.as_str()),
            StorageError::ContentMissing(m) => join("Content is not at hand: ", m.as_str()),
            StorageError::InvalidKey(m) => join("Invalid key format: ", m.as_str()),
            StorageError::Io(m) => join("Filesystem operation failed: ", m.as_str()),
            StorageError::Validation(m) => join("Data validation failed: ", m.as_str()),
            StorageError::Timeout => "Operation timed out".to_string(),
            StorageError::Internal(m) => join("Internal storage error: ", m.as_str()),
        }
    }
}

} // verus!
