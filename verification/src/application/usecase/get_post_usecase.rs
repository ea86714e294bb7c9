//! Fetching a post.

use std::sync::Arc;
use vstd::prelude::*;
use crate::domain::entity::post::Post;
use crate::domain::repository::post_repository::PostRepository;
use crate::error::Error;

verus! {

/// The read-only operation: fetch the post with a given key.
pub trait GetPostUsecase {
    /// Fetches the post with key `id`. Fails with `NotFound` where no post
    /// has that key, and otherwise only with the storage engine's failure.
    fn execute(&self, id: i32) -> (result: Result<Post, Error>)
        ensures
            result matches Err(error) ==> error is NotFound || error is StorageError,
    ;
}

/// The fetch over a post repository. It opens no transaction.
pub struct GetPostUsecaseImpl<P> where P: PostRepository {
    post_repository: Arc<P>,
}

impl<P> GetPostUsecaseImpl<P> where P: PostRepository {
    /// The repository that is asked.
    pub closed spec fn post_repository(&self) -> P {
        *self.post_repository
    }

    /// A fetch over `post_repository`.
    pub fn new(post_repository: Arc<P>) -> (usecase: Self)
        ensures
            usecase.post_repository() == *post_repository,
    {
        Self { post_repository }
    }
}

impl<P> GetPostUsecase for GetPostUsecaseImpl<P> where P: PostRepository {
    /// Returns exactly what the repository answers to `find_by_id(id)`.
    fn execute(&self, id: i32) -> (result: Result<Post, Error>)
        ensures
            call_ensures(P::find_by_id, (&self.post_repository(), id), result),
    {
        self.post_repository.find_by_id(id)
    }
}

} // verus!
