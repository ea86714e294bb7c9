//! Creating a post inside a transaction.

use std::sync::Arc;
use vstd::prelude::*;
use crate::application::transaction_manager::active_after;
use crate::application::transaction_manager::call;
use crate::application::transaction_manager::call_keeps_consistent;
use crate::application::transaction_manager::consistent;
use crate::application::transaction_manager::permitted;
use crate::application::transaction_manager::Call;
use crate::application::transaction_manager::Operation;
use crate::application::transaction_manager::TransactionManager;
use crate::domain::entity::new_post::NewPost;
use crate::domain::entity::post::Post;
use crate::domain::repository::post_repository::PostRepository;
use crate::error::Error;

verus! {

/// The operation that finishes a unit of work whose insert returned
/// `created`: `commit` after a successful insert, `rollback` after a failed
/// one.
pub open spec fn closing(created: Result<Post, Error>) -> Operation {
    if created is Ok {
        Operation::Commit
    } else {
        Operation::Rollback
    }
}

/// What a unit of work returns once its insert has returned `created` and
/// the operation that finished it has returned `closed`.
///
/// The post is returned only if the commit succeeded. A failed insert is
/// surfaced if the rollback succeeded; the failure of a commit or of a
/// rollback is surfaced in place of anything else.
pub open spec fn settled(created: Result<Post, Error>, closed: Result<(), Error>) -> Result<
    Post,
    Error,
> {
    match closed {
        Ok(()) => created,
        Err(error) => Err(error),
    }
}

/// A unit of work that ended at `begin`: the manager refused or failed to
/// open a transaction, the error is returned, and nothing else was asked of
/// the manager.
pub open spec fn ended_at_begin(
    active: bool,
    calls: Seq<Call>,
    result: Result<Post, Error>,
    now_active: bool,
    now_calls: Seq<Call>,
) -> bool {
    &&& result matches Err(refusal)
    &&& permitted(active, call(Operation::Begin, Err(refusal)))
    &&& now_calls == calls.push(call(Operation::Begin, Err(refusal)))
    &&& now_active == active
}

/// A unit of work that ran to its end: a transaction was opened, the insert
/// returned `created`, the manager was asked once to finish the transaction,
/// by [`closing`], and answered `closed`; the result is [`settled`] and
/// nothing is in flight.
pub open spec fn ran_to_end(
    active: bool,
    calls: Seq<Call>,
    created: Result<Post, Error>,
    closed: Result<(), Error>,
    result: Result<Post, Error>,
    now_active: bool,
    now_calls: Seq<Call>,
) -> bool {
    &&& !active
    &&& created matches Err(error) ==> error is StorageError
    &&& permitted(true, call(closing(created), closed))
    &&& result == settled(created, closed)
    &&& now_calls == calls.push(call(Operation::Begin, Ok(()))).push(
        call(closing(created), closed),
    )
    &&& !now_active
}

/// Decides what a unit of work returns from what its insert and the
/// operation that finished it returned.
pub fn settle(created: Result<Post, Error>, closed: Result<(), Error>) -> (result: Result<
    Post,
    Error,
>)
    ensures
        result == settled(created, closed),
{
    match closed {
        Ok(()) => created,
        Err(error) => Err(error),
    }
}

/// A post is returned only by a unit of work whose insert succeeded and
/// whose transaction was committed successfully, and it is the post that the
/// insert returned.
pub proof fn post_only_after_commit(created: Result<Post, Error>, closed: Result<(), Error>)
    requires
        settled(created, closed) is Ok,
    ensures
        created is Ok,
        closing(created) is Commit,
        closed is Ok,
        settled(created, closed) == created,
{
}

/// If the insert fails, the transaction is rolled back and nothing is in
/// flight afterwards; the insert's error is the one returned where the
/// rollback succeeds, and the rollback's error where it does not.
pub proof fn failed_insert_is_rolled_back(
    calls: Seq<Call>,
    error: Error,
    closed: Result<(), Error>,
)
    ensures
        closing(Err(error)) is Rollback,
        !active_after(
            calls.push(call(Operation::Begin, Ok(()))).push(call(closing(Err(error)), closed)),
        ),
        closed is Ok ==> settled(Err(error), closed) == Err::<Post, Error>(error),
        closed matches Err(failure) ==> settled(Err(error), closed) == Err::<Post, Error>(
            failure,
        ),
{
}

/// If the commit fails after a successful insert, the commit's error is
/// returned and the post is not.
pub proof fn failed_commit_returns_its_error(post: Post, error: Error)
    ensures
        closing(Ok(post)) is Commit,
        settled(Ok(post), Err(error)) == Err::<Post, Error>(error),
{
}

/// A unit of work leaves a consistent transaction manager consistent,
/// however it ends.
pub proof fn unit_of_work_keeps_consistent(
    active: bool,
    calls: Seq<Call>,
    created: Result<Post, Error>,
    closed: Result<(), Error>,
    result: Result<Post, Error>,
    now_active: bool,
    now_calls: Seq<Call>,
)
    requires
        consistent(active, calls),
        ended_at_begin(active, calls, result, now_active, now_calls) || ran_to_end(
            active,
            calls,
            created,
            closed,
            result,
            now_active,
            now_calls,
        ),
    ensures
        consistent(now_active, now_calls),
{
    if ended_at_begin(active, calls, result, now_active, now_calls) {
        call_keeps_consistent(active, calls, call(Operation::Begin, Err(result->Err_0)));
    } else {
        let begun = call(Operation::Begin, Ok(()));
        call_keeps_consistent(active, calls, begun);
        call_keeps_consistent(true, calls.push(begun), call(closing(created), closed));
    }
}

/// The transactional operation: create a post, all or nothing.
pub trait CreatePostUsecase {
    /// Whether the transaction manager has a transaction in flight.
    spec fn transaction_active(&self) -> bool;

    /// The calls that the transaction manager has answered, oldest first.
    spec fn transaction_calls(&self) -> Seq<Call>;

    /// Whether the repository may answer `created` when asked to store
    /// `post`.
    spec fn stores(&self, post: NewPost, created: Result<Post, Error>) -> bool;

    /// Creates `post` in a transaction of its own: begin, insert, then
    /// commit if the insert succeeded and rollback if it failed. Nothing is
    /// retried.
    fn execute(&mut self, post: NewPost) -> (result: Result<Post, Error>)
        ensures
            ended_at_begin(
                old(self).transaction_active(),
                old(self).transaction_calls(),
                result,
                final(self).transaction_active(),
                final(self).transaction_calls(),
            ) || exists|created: Result<Post, Error>, closed: Result<(), Error>|
                old(self).stores(post, created) && #[trigger] ran_to_end(
                    old(self).transaction_active(),
                    old(self).transaction_calls(),
                    created,
                    closed,
                    result,
                    final(self).transaction_active(),
                    final(self).transaction_calls(),
                ),
            consistent(old(self).transaction_active(), old(self).transaction_calls())
                ==> consistent(final(self).transaction_active(), final(self).transaction_calls()),
    ;
}

/// The unit of work over a post repository and a transaction manager.
pub struct CreatePostUsecaseImpl<P, TM> where P: PostRepository, TM: TransactionManager {
    post_repository: Arc<P>,
    transaction_manager: TM,
}

impl<P, TM> CreatePostUsecaseImpl<P, TM> where P: PostRepository, TM: TransactionManager {
    /// The repository that inserts.
    pub closed spec fn post_repository(&self) -> P {
        *self.post_repository
    }

    /// The manager of the transaction around the insert.
    pub closed spec fn transaction_manager(&self) -> TM {
        self.transaction_manager
    }

    /// A unit of work over `post_repository` and `transaction_manager`.
    pub fn new(post_repository: Arc<P>, transaction_manager: TM) -> (usecase: Self)
        ensures
            usecase.post_repository() == *post_repository,
            usecase.transaction_manager() == transaction_manager,
    {
        Self { post_repository, transaction_manager }
    }
}

impl<P, TM> CreatePostUsecase for CreatePostUsecaseImpl<P, TM> where
    P: PostRepository,
    TM: TransactionManager,
 {
    open spec fn transaction_active(&self) -> bool {
        self.transaction_manager().is_active()
    }

    open spec fn transaction_calls(&self) -> Seq<Call> {
        self.transaction_manager().calls()
    }

    open spec fn stores(&self, post: NewPost, created: Result<Post, Error>) -> bool {
        call_ensures(P::create, (&self.post_repository(), post), created)
    }

    /// The repository is the one this use case was made with, before and
    /// after.
    fn execute(&mut self, post: NewPost) -> (result: Result<Post, Error>)
        ensures
            final(self).post_repository() == old(self).post_repository(),
    {
        match self.transaction_manager.begin() {
            Err(refusal) => Err(refusal),
            Ok(opened) => {
                // Lets the prover see that `begin` returned exactly `Ok(())`.
                assert(opened == ());
                let created = self.post_repository.create(post);
                let closed = if created.is_ok() {
                    self.transaction_manager.commit()
                } else {
                    self.transaction_manager.rollback()
                };
                let result = settle(created, closed);
                assert(ran_to_end(
                    old(self).transaction_active(),
                    old(self).transaction_calls(),
                    created,
                    closed,
                    result,
                    self.transaction_active(),
                    self.transaction_calls(),
                ));
                result
            },
        }
    }
}

} // verus!
