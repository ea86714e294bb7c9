//! The transaction manager over a connection to the storage engine.

use std::sync::Arc;
use vstd::prelude::*;
use crate::application::transaction_manager::call;
use crate::application::transaction_manager::call_keeps_consistent;
use crate::application::transaction_manager::consistent;
use crate::application::transaction_manager::Call;
use crate::application::transaction_manager::Operation;
use crate::application::transaction_manager::TransactionManager;
use crate::error::Error;
use crate::error::StorageFailure;
use crate::infrastructure::datastore::connection::Connection;
use crate::infrastructure::datastore::connection::Transaction;

verus! {

/// What `begin` returns once the storage engine has answered `opened` to the
/// request for a transaction.
pub open spec fn begin_result<T>(opened: Result<T, StorageFailure>) -> Result<(), Error> {
    match opened {
        Ok(_) => Ok(()),
        Err(failure) => Err(Error::StorageError(failure)),
    }
}

/// The transaction that `begin` keeps once the storage engine has answered
/// `opened`.
pub open spec fn begin_keeps<T>(opened: Result<T, StorageFailure>) -> Option<T> {
    match opened {
        Ok(transaction) => Some(transaction),
        Err(_) => None,
    }
}

/// What `commit` returns once the storage engine has answered `applied`.
pub open spec fn commit_result(applied: Result<(), StorageFailure>) -> Result<(), Error> {
    match applied {
        Ok(()) => Ok(()),
        Err(failure) => Err(Error::CommitFailed(failure)),
    }
}

/// What `rollback` returns once the storage engine has answered `discarded`.
pub open spec fn rollback_result(discarded: Result<(), StorageFailure>) -> Result<(), Error> {
    match discarded {
        Ok(()) => Ok(()),
        Err(failure) => Err(Error::RollbackFailed(failure)),
    }
}

/// Decides what `begin` keeps and returns for the storage engine's answer:
/// an opened transaction is kept, a failure is surfaced as `StorageError`.
pub fn on_begin<T>(opened: Result<T, StorageFailure>) -> (decided: (Option<T>, Result<(), Error>))
    ensures
        decided.0 == begin_keeps(opened),
        decided.1 == begin_result(opened),
{
    match opened {
        Ok(transaction) => (Some(transaction), Ok(())),
        Err(failure) => (None, Err(Error::StorageError(failure))),
    }
}

/// Decides what `commit` returns for the storage engine's answer: a failure
/// is surfaced as `CommitFailed`.
pub fn on_commit(applied: Result<(), StorageFailure>) -> (result: Result<(), Error>)
    ensures
        result == commit_result(applied),
{
    match applied {
        Ok(()) => Ok(()),
        Err(failure) => Err(Error::CommitFailed(failure)),
    }
}

/// Decides what `rollback` returns for the storage engine's answer: a
/// failure is surfaced as `RollbackFailed`.
pub fn on_rollback(discarded: Result<(), StorageFailure>) -> (result: Result<(), Error>)
    ensures
        result == rollback_result(discarded),
{
    match discarded {
        Ok(()) => Ok(()),
        Err(failure) => Err(Error::RollbackFailed(failure)),
    }
}

/// A transaction manager that opens its transactions on a connection and
/// keeps the one in flight in a single slot.
pub struct TransactionManagerImpl<C: Connection> {
    con: Arc<C>,
    transaction: Option<C::Transaction>,
    calls: Ghost<Seq<Call>>,
}

impl<C: Connection> TransactionManagerImpl<C> {
    /// The connection that transactions are opened on.
    pub closed spec fn connection(&self) -> C {
        *self.con
    }

    /// The transaction in flight, if there is one.
    pub closed spec fn transaction(&self) -> Option<C::Transaction> {
        self.transaction
    }

    /// A manager on `connection` with nothing in flight and no call answered.
    pub fn new(connection: Arc<C>) -> (manager: Self)
        ensures
            manager.connection() == *connection,
            manager.transaction() is None,
            manager.calls() == Seq::<Call>::empty(),
            consistent(manager.is_active(), manager.calls()),
    {
        Self { con: connection, transaction: None, calls: Ghost(Seq::empty()) }
    }
}

impl<C: Connection> TransactionManager for TransactionManagerImpl<C> {
    open spec fn is_active(&self) -> bool {
        self.transaction() is Some
    }

    closed spec fn calls(&self) -> Seq<Call> {
        self.calls@
    }

    /// With nothing in flight, asks the connection for a transaction and
    /// keeps what it opens; a failure of the connection is returned as
    /// `StorageError`. With a transaction in flight, asks nothing and keeps
    /// that transaction.
    fn begin(&mut self) -> (result: Result<(), Error>)
        ensures
            final(self).connection() == old(self).connection(),
            old(self).is_active() ==> final(self).transaction() == old(self).transaction(),
            !old(self).is_active() ==> exists|opened: Result<C::Transaction, StorageFailure>|
                call_ensures(C::begin, (&old(self).connection(),), opened) && result
                    == #[trigger] begin_result(opened) && final(self).transaction() == begin_keeps(
                    opened,
                ),
    {
        let result = if self.transaction.is_none() {
            let opened = self.con.begin();
            let (kept, result) = on_begin(opened);
            self.transaction = kept;
            result
        } else {
            Err(Error::TransactionAlreadyActive)
        };
        proof {
            if consistent(old(self).is_active(), old(self).calls()) {
                call_keeps_consistent(
                    old(self).is_active(),
                    old(self).calls(),
                    call(Operation::Begin, result),
                );
            }
        }
        self.calls = Ghost(self.calls@.push(call(Operation::Begin, result)));
        result
    }

    /// Empties the slot and, if it held a transaction, asks the storage
    /// engine to apply exactly that transaction; the engine's failure is
    /// returned as `CommitFailed`.
    fn commit(&mut self) -> (result: Result<(), Error>)
        ensures
            final(self).connection() == old(self).connection(),
            old(self).transaction() matches Some(transaction) ==> exists|
                applied: Result<(), StorageFailure>,
            |
                call_ensures(<C::Transaction as Transaction>::commit, (transaction,), applied)
                    && result == #[trigger] commit_result(applied),
    {
        let result = match self.transaction.take() {
            Some(transaction) => {
                let applied = transaction.commit();
                on_commit(applied)
            },
            None => Err(Error::NoActiveTransaction),
        };
        proof {
            if consistent(old(self).is_active(), old(self).calls()) {
                call_keeps_consistent(
                    old(self).is_active(),
                    old(self).calls(),
                    call(Operation::Commit, result),
                );
            }
        }
        self.calls = Ghost(self.calls@.push(call(Operation::Commit, result)));
        result
    }

    /// Empties the slot and, if it held a transaction, asks the storage
    /// engine to discard exactly that transaction; the engine's failure is
    /// returned as `RollbackFailed`.
    fn rollback(&mut self) -> (result: Result<(), Error>)
        ensures
            final(self).connection() == old(self).connection(),
            old(self).transaction() matches Some(transaction) ==> exists|
                discarded: Result<(), StorageFailure>,
            |
                call_ensures(<C::Transaction as Transaction>::rollback, (transaction,), discarded)
                    && result == #[trigger] rollback_result(discarded),
    {
        let result = match self.transaction.take() {
            Some(transaction) => {
                let discarded = transaction.rollback();
                on_rollback(discarded)
            },
            None => Err(Error::NoActiveTransaction),
        };
        proof {
            if consistent(old(self).is_active(), old(self).calls()) {
                call_keeps_consistent(
                    old(self).is_active(),
                    old(self).calls(),
                    call(Operation::Rollback, result),
                );
            }
        }
        self.calls = Ghost(self.calls@.push(call(Operation::Rollback, result)));
        result
    }
}

} // verus!
