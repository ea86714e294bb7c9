//! The storage engine, as far as this crate asks anything of it.
//!
//! Neither trait promises anything about what its methods return: the code
//! that calls them is verified for every answer.

use vstd::prelude::*;
use crate::error::StorageFailure;
use crate::infrastructure::tables::post::ActiveModel;
use crate::infrastructure::tables::post::Model;

verus! {

/// One open transaction of the storage engine. It can be used once: both
/// methods consume it.
pub trait Transaction: Sized {
    /// Asks the engine to durably apply the transaction.
    fn commit(self) -> Result<(), StorageFailure>;

    /// Asks the engine to discard the transaction's effects.
    fn rollback(self) -> Result<(), StorageFailure>;
}

/// A connection to the storage engine.
pub trait Connection {
    type Transaction: Transaction;

    /// Opens a transaction.
    fn begin(&self) -> Result<Self::Transaction, StorageFailure>;

    /// Looks a post up by its key.
    fn find_post_by_id(&self, id: i32) -> Result<Option<Model>, StorageFailure>;

    /// Inserts a post and returns the row as stored.
    fn insert_post(&self, model: ActiveModel) -> Result<Model, StorageFailure>;
}

} // verus!
