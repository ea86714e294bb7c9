//! The transaction manager: at most one transaction in flight.
//!
//! A manager is described by the calls made on it. Each call is one of three
//! operations together with what it returned; whether a transaction is in
//! flight follows from the calls so far.

use vstd::prelude::*;
use crate::error::Error;

verus! {

/// The operations that change a transaction manager's state.
pub enum Operation {
    Begin,
    Commit,
    Rollback,
}

/// One finished call on a transaction manager.
pub struct Call {
    pub operation: Operation,
    pub result: Result<(), Error>,
}

/// The call of `operation` that returned `result`.
pub open spec fn call(operation: Operation, result: Result<(), Error>) -> Call {
    Call { operation, result }
}

/// Whether `call` asked to finish a transaction.
pub open spec fn closes(call: Call) -> bool {
    call.operation is Commit || call.operation is Rollback
}

/// Whether `call` opened a transaction.
pub open spec fn opens(call: Call) -> bool {
    call.operation is Begin && call.result is Ok
}

/// Whether a manager that is `active` may answer `call.result` to
/// `call.operation`.
///
/// `begin` is refused while a transaction is in flight and otherwise fails
/// only with what the storage engine reported; `commit` and `rollback` are
/// refused while nothing is in flight and otherwise fail only with the
/// engine's refusal to apply or to discard.
pub open spec fn permitted(active: bool, call: Call) -> bool {
    match call.operation {
        Operation::Begin => if active {
            call.result == Err::<(), Error>(Error::TransactionAlreadyActive)
        } else {
            call.result matches Err(e) ==> e is StorageError
        },
        Operation::Commit => if active {
            call.result matches Err(e) ==> e is CommitFailed
        } else {
            call.result == Err::<(), Error>(Error::NoActiveTransaction)
        },
        Operation::Rollback => if active {
            call.result matches Err(e) ==> e is RollbackFailed
        } else {
            call.result == Err::<(), Error>(Error::NoActiveTransaction)
        },
    }
}

/// Whether a transaction is in flight once a manager that was `active` has
/// answered `call`.
///
/// A refused or failed `begin` changes nothing and a successful one opens a
/// transaction. `commit` and `rollback` leave nothing in flight, whatever
/// they return: the transaction is used up even when the engine fails.
pub open spec fn active_after_call(active: bool, call: Call) -> bool {
    match call.operation {
        Operation::Begin => active || call.result is Ok,
        Operation::Commit => false,
        Operation::Rollback => false,
    }
}

/// Whether a transaction is in flight once a new manager has answered
/// `calls`, oldest first.
pub open spec fn active_after(calls: Seq<Call>) -> bool
    decreases calls.len(),
{
    if calls.len() == 0 {
        false
    } else {
        active_after_call(active_after(calls.drop_last()), calls.last())
    }
}

/// Whether a new manager may have answered `calls`, oldest first: every call
/// is [`permitted`] in the state its predecessors left.
pub open spec fn lawful(calls: Seq<Call>) -> bool
    decreases calls.len(),
{
    calls.len() == 0 || (lawful(calls.drop_last()) && permitted(
        active_after(calls.drop_last()),
        calls.last(),
    ))
}

/// Whether `active` and `calls` describe one manager: the calls are
/// [`lawful`] and leave a transaction in flight exactly if `active`.
pub open spec fn consistent(active: bool, calls: Seq<Call>) -> bool {
    lawful(calls) && active == active_after(calls)
}

/// Owner of at most one in-flight transaction. `begin`, `commit` and
/// `rollback` are the only operations that change its state, and `&mut self`
/// gives each of them exclusive access for the length of the call. Each of
/// them adds itself to the calls answered and keeps a [`consistent`] manager
/// consistent.
pub trait TransactionManager {
    /// Whether a transaction is in flight.
    spec fn is_active(&self) -> bool;

    /// The calls answered so far, oldest first.
    spec fn calls(&self) -> Seq<Call>;

    /// Opens a transaction if none is in flight; fails with
    /// `TransactionAlreadyActive`, changing nothing, if one is.
    fn begin(&mut self) -> (result: Result<(), Error>)
        ensures
            permitted(old(self).is_active(), call(Operation::Begin, result)),
            final(self).is_active() == active_after_call(
                old(self).is_active(),
                call(Operation::Begin, result),
            ),
            final(self).calls() == old(self).calls().push(call(Operation::Begin, result)),
            consistent(old(self).is_active(), old(self).calls()) ==> consistent(
                final(self).is_active(),
                final(self).calls(),
            ),
    ;

    /// Takes the transaction in flight and asks the storage engine to apply
    /// it; fails with `NoActiveTransaction` if there is none. Nothing is in
    /// flight afterwards.
    fn commit(&mut self) -> (result: Result<(), Error>)
        ensures
            permitted(old(self).is_active(), call(Operation::Commit, result)),
            !final(self).is_active(),
            final(self).calls() == old(self).calls().push(call(Operation::Commit, result)),
            consistent(old(self).is_active(), old(self).calls()) ==> consistent(
                final(self).is_active(),
                final(self).calls(),
            ),
    ;

    /// Takes the transaction in flight and asks the storage engine to discard
    /// it; fails with `NoActiveTransaction` if there is none. Nothing is in
    /// flight afterwards.
    fn rollback(&mut self) -> (result: Result<(), Error>)
        ensures
            permitted(old(self).is_active(), call(Operation::Rollback, result)),
            !final(self).is_active(),
            final(self).calls() == old(self).calls().push(call(Operation::Rollback, result)),
            consistent(old(self).is_active(), old(self).calls()) ==> consistent(
                final(self).is_active(),
                final(self).calls(),
            ),
    ;
}

/// Answering one more permitted call keeps a manager's description
/// consistent.
pub proof fn call_keeps_consistent(active: bool, calls: Seq<Call>, next: Call)
    requires
        consistent(active, calls),
        permitted(active, next),
    ensures
        consistent(active_after_call(active, next), calls.push(next)),
{
    assert(calls.push(next).drop_last() =~= calls);
}

/// Every prefix of a lawful sequence of calls is lawful, and each call is
/// permitted in the state that the calls before it left.
pub proof fn prefix_is_lawful(calls: Seq<Call>, len: int)
    requires
        lawful(calls),
        0 <= len <= calls.len(),
    ensures
        lawful(calls.take(len)),
        len < calls.len() ==> permitted(active_after(calls.take(len)), calls[len]),
    decreases calls.len(),
{
    if len == calls.len() {
        assert(calls.take(len) =~= calls);
    } else {
        let shorter = calls.drop_last();
        assert(shorter.take(len) =~= calls.take(len));
        if len == shorter.len() {
            assert(shorter.take(len) =~= shorter);
        } else {
            prefix_is_lawful(shorter, len);
        }
    }
}

/// A transaction is in flight after `calls` exactly if some `begin` succeeded
/// and no `commit` or `rollback` followed it.
pub proof fn active_means_open_begin(calls: Seq<Call>)
    ensures
        active_after(calls) <==> exists|opened: int|
            0 <= opened < calls.len() && opens(#[trigger] calls[opened]) && forall|later: int|
                opened < later < calls.len() ==> !closes(#[trigger] calls[later]),
    decreases calls.len(),
{
    if calls.len() > 0 {
        let shorter = calls.drop_last();
        let last = calls.len() - 1;
        active_means_open_begin(shorter);
        if active_after(calls) {
            if opens(calls[last]) {
                assert(opens(calls[last]) && forall|later: int|
                    last < later < calls.len() ==> !closes(#[trigger] calls[later]));
            } else {
                let opened = choose|opened: int|
                    0 <= opened < shorter.len() && opens(#[trigger] shorter[opened]) && forall|
                        later: int,
                    |
                        opened < later < shorter.len() ==> !closes(#[trigger] shorter[later]);
                assert(opens(calls[opened]));
                assert forall|later: int| opened < later < calls.len() implies !closes(
                    #[trigger] calls[later],
                ) by {
                    if later < shorter.len() {
                        assert(!closes(shorter[later]));
                    }
                }
            }
        } else {
            assert forall|opened: int|
                0 <= opened < calls.len() && opens(#[trigger] calls[opened]) implies exists|
                later: int,
            |
                opened < later < calls.len() && closes(#[trigger] calls[later]) by {
                if closes(calls[last]) {
                    assert(opened < last);
                    assert(closes(calls[last]));
                } else {
                    assert(opened < last);
                    assert(opens(shorter[opened]));
                    let later = choose|later: int|
                        opened < later < shorter.len() && closes(#[trigger] shorter[later]);
                    assert(closes(calls[later]));
                }
            }
        }
    }
}

/// `begin` never succeeds twice without a `commit` or a `rollback` in
/// between, whatever calls are made.
pub proof fn begin_succeeds_once(calls: Seq<Call>, first: int, second: int)
    requires
        lawful(calls),
        0 <= first < second < calls.len(),
        opens(calls[first]),
        opens(calls[second]),
    ensures
        exists|between: int| first < between < second && closes(#[trigger] calls[between]),
{
    let before = calls.take(second);
    prefix_is_lawful(calls, second);
    active_means_open_begin(before);
    assert(opens(before[first]));
    let between = choose|between: int|
        first < between < before.len() && closes(#[trigger] before[between]);
    assert(closes(calls[between]));
}

/// A `commit` or `rollback` that no successful `begin` precedes, or only
/// ones that an earlier `commit` or `rollback` has finished, fails with
/// `NoActiveTransaction`; nothing was in flight before it and nothing is
/// after it.
pub proof fn close_without_transaction_fails(calls: Seq<Call>, at: int)
    requires
        lawful(calls),
        0 <= at < calls.len(),
        closes(calls[at]),
        forall|opened: int|
            0 <= opened < at && opens(#[trigger] calls[opened]) ==> exists|finished: int|
                opened < finished < at && closes(#[trigger] calls[finished]),
    ensures
        calls[at].result == Err::<(), Error>(Error::NoActiveTransaction),
        !active_after(calls.take(at)),
        !active_after(calls.take(at + 1)),
{
    let before = calls.take(at);
    prefix_is_lawful(calls, at);
    active_means_open_begin(before);
    assert forall|opened: int| 0 <= opened < before.len() && opens(#[trigger] before[opened])
        implies exists|finished: int|
        opened < finished < before.len() && closes(#[trigger] before[finished]) by {
        assert(opens(calls[opened]));
        let finished = choose|finished: int|
            opened < finished < at && closes(#[trigger] calls[finished]);
        assert(closes(before[finished]));
    }
    assert(calls.take(at + 1).drop_last() =~= before);
}

/// After a `rollback`, successful or not, every further `rollback` fails
/// with `NoActiveTransaction` for as long as nothing but `rollback` is
/// called: no transaction is discarded twice.
pub proof fn repeated_rollback_fails(calls: Seq<Call>, first: int, again: int)
    requires
        lawful(calls),
        0 <= first < again < calls.len(),
        forall|at: int| first <= at <= again ==> (#[trigger] calls[at]).operation is Rollback,
    ensures
        calls[again].result == Err::<(), Error>(Error::NoActiveTransaction),
{
    let before = calls.take(again);
    prefix_is_lawful(calls, again);
    assert(before.last() == calls[again - 1]);
}

} // verus!
