//! The failures a unit of work can surface.

use vstd::prelude::*;

verus! {

/// An opaque failure reported by the storage engine. The core never
/// interprets it; it only carries it to the caller.
#[derive(Debug, Clone, PartialEq, Eq)]
pub struct StorageFailure {
    pub message: String,
}

/// Every way an operation of the core can fail.
#[derive(Debug, Clone, PartialEq, Eq)]
pub enum Error {
    /// `begin` was called while a transaction was in flight.
    TransactionAlreadyActive,
    /// `commit` or `rollback` was called with nothing in flight.
    NoActiveTransaction,
    /// A read found no matching record.
    NotFound,
    /// The storage engine failed to open a transaction or to execute a
    /// statement.
    StorageError(StorageFailure),
    /// The storage engine failed to durably apply a transaction.
    CommitFailed(StorageFailure),
    /// The storage engine failed to discard a transaction.
    RollbackFailed(StorageFailure),
}

impl Error {
    /// The text that describes this error to a reader: a fixed sentence for
    /// a misuse or a missing record, the storage engine's own words for its
    /// failures.
    pub open spec fn description(self) -> Seq<char> {
        match self {
            Error::TransactionAlreadyActive => "Transaction already exists"@,
            Error::NoActiveTransaction => "No active transaction"@,
            Error::NotFound => "Post not found"@,
            Error::StorageError(failure) => failure.message@,
            Error::CommitFailed(failure) => failure.message@,
            Error::RollbackFailed(failure) => failure.message@,
        }
    }

    /// Renders this error for a reader.
    pub fn message(&self) -> (text: String)
        ensures
            text@ == self.description(),
    {
        match self {
            Error::TransactionAlreadyActive => "Transaction already exists".to_owned(),
            Error::NoActiveTransaction => "No active transaction".to_owned(),
            Error::NotFound => "Post not found".to_owned(),
            Error::StorageError(failure) => failure.message.clone(),
            Error::CommitFailed(failure) => failure.message.clone(),
            Error::RollbackFailed(failure) => failure.message.clone(),
        }
    }
}

} // verus!
