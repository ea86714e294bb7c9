//! The post controller.

use vstd::prelude::*;
use crate::application::transaction_manager::consistent;
use crate::application::transaction_manager::Call;
use crate::application::usecase::create_post_usecase::ended_at_begin;
use crate::application::usecase::create_post_usecase::ran_to_end;
use crate::application::usecase::create_post_usecase::CreatePostUsecase;
use crate::application::usecase::get_post_usecase::GetPostUsecase;
use crate::domain::entity::new_post::NewPost;
use crate::domain::entity::post::Post;
use crate::error::Error;

verus! {

/// The call contract that the boundary layer sees: two operations, and
/// nothing of transactions.
pub trait PostController: Send + Sync {
    /// Whether the transaction manager behind `create_post` has a
    /// transaction in flight.
    spec fn transaction_active(&self) -> bool;

    /// The calls that the transaction manager behind `create_post` has
    /// answered, oldest first.
    spec fn transaction_calls(&self) -> Seq<Call>;

    /// Whether the repository behind `create_post` may answer `created` when
    /// asked to store `post`.
    spec fn stores(&self, post: NewPost, created: Result<Post, Error>) -> bool;

    /// Fetches the post with key `id`. Fails with `NotFound` where no post
    /// has that key, and otherwise only with the storage engine's failure.
    fn get_post(&self, id: i32) -> (result: Result<Post, Error>)
        ensures
            result matches Err(error) ==> error is NotFound || error is StorageError,
    ;

    /// Creates `post` in a transaction of its own, as
    /// [`CreatePostUsecase::execute`] does.
    fn create_post(&mut self, post: NewPost) -> (result: Result<Post, Error>)
        ensures
            ended_at_begin(
                old(self).transaction_active(),
                old(self).transaction_calls(),
                result,
                final(self).transaction_active(),
                final(self).transaction_calls(),
            ) || exists|created: Result<Post, Error>, closed: Result<(), Error>|
                old(self).stores(post, created) && #[trigger] ran_to_end(
                    old(self).transaction_active(),
                    old(self).transaction_calls(),
                    created,
                    closed,
                    result,
                    final(self).transaction_active(),
                    final(self).transaction_calls(),
                ),
            consistent(old(self).transaction_active(), old(self).transaction_calls())
                ==> consistent(final(self).transaction_active(), final(self).transaction_calls()),
    ;
}

/// The controller over the two use cases. It adds nothing to them.
pub struct PostControllerImpl<GU, CU> where GU: GetPostUsecase, CU: CreatePostUsecase {
    get_post_usecase: GU,
    create_post_usecase: CU,
}

impl<GU, CU> PostControllerImpl<GU, CU> where GU: GetPostUsecase, CU: CreatePostUsecase {
    /// The use case behind `get_post`.
    pub closed spec fn get_post_usecase(&self) -> GU {
        self.get_post_usecase
    }

    /// The use case behind `create_post`.
    pub closed spec fn create_post_usecase(&self) -> CU {
        self.create_post_usecase
    }

    /// A controller over `get_post_usecase` and `create_post_usecase`.
    pub fn new(get_post_usecase: GU, create_post_usecase: CU) -> (controller: Self)
        ensures
            controller.get_post_usecase() == get_post_usecase,
            controller.create_post_usecase() == create_post_usecase,
    {
        PostControllerImpl { get_post_usecase, create_post_usecase }
    }
}

impl<GU, CU> PostController for PostControllerImpl<GU, CU> where
    GU: GetPostUsecase + Send + Sync,
    CU: CreatePostUsecase + Send + Sync,
 {
    open spec fn transaction_active(&self) -> bool {
        self.create_post_usecase().transaction_active()
    }

    open spec fn transaction_calls(&self) -> Seq<Call> {
        self.create_post_usecase().transaction_calls()
    }

    open spec fn stores(&self, post: NewPost, created: Result<Post, Error>) -> bool {
        self.create_post_usecase().stores(post, created)
    }

    /// Returns exactly what the fetch use case answers to `execute(id)`.
    fn get_post(&self, id: i32) -> (result: Result<Post, Error>)
        ensures
            call_ensures(GU::execute, (&self.get_post_usecase(), id), result),
    {
        self.get_post_usecase.execute(id)
    }

    /// Returns what the create use case answers to `execute(post)`; the
    /// fetch use case stays as it was.
    fn create_post(&mut self, post: NewPost) -> (result: Result<Post, Error>)
        ensures
            final(self).get_post_usecase() == old(self).get_post_usecase(),
    {
        self.create_post_usecase.execute(post)
    }
}

} // verus!
