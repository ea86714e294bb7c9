//! The post repository.

use vstd::prelude::*;
use crate::domain::entity::new_post::NewPost;
use crate::domain::entity::post::Post;
use crate::error::Error;

verus! {

/// The two storage operations on posts. A repository runs its statements in
/// whatever transaction is in flight on its connection; it never opens or
/// finishes one itself.
pub trait PostRepository {
    /// Fetches the post with key `id`. Fails with `NotFound` where no post
    /// has that key, and otherwise only with the storage engine's failure.
    fn find_by_id(&self, id: i32) -> (result: Result<Post, Error>)
        ensures
            result matches Err(error) ==> error is NotFound || error is StorageError,
    ;

    /// Stores `post` and returns it as stored, with the key that the storage
    /// engine assigned. Fails only with the storage engine's failure.
    fn create(&self, post: NewPost) -> (result: Result<Post, Error>)
        ensures
            result matches Err(error) ==> error is StorageError,
    ;
}

} // verus!
