//! The answers that the boundary layer gives.
//!
//! The functions here decide what is answered; turning an answer into bytes
//! on a connection is left to the boundary layer itself.

use vstd::prelude::*;
use crate::adapter::controller::post_controller::PostController;
use crate::application::usecase::create_post_usecase::ended_at_begin;
use crate::application::usecase::create_post_usecase::ran_to_end;
use crate::domain::entity::new_post::NewPost;
use crate::domain::entity::post::Post;
use crate::error::Error;

verus! {

/// The kinds of answer.
#[derive(Debug, Clone, Copy, PartialEq, Eq)]
pub enum Status {
    /// The operation succeeded.
    Success,
    /// The operation found no matching record.
    NotFound,
    /// The operation failed in any other way.
    InternalServerError,
}

/// An answer: its kind, the post to show if there is one, and the error to
/// report if there is one.
#[derive(Debug, Clone, PartialEq, Eq)]
pub struct Response {
    pub status: Status,
    pub post: Option<Post>,
    pub error: Option<Error>,
}

/// The kind of answer that reports `error`: a missing record is told apart
/// from every other failure.
pub open spec fn status_of(error: Error) -> Status {
    if error is NotFound {
        Status::NotFound
    } else {
        Status::InternalServerError
    }
}

/// The answer to a fetch that returned `result`: the post on success, the
/// error otherwise.
pub open spec fn get_post_response(result: Result<Post, Error>) -> Response {
    match result {
        Ok(post) => Response { status: Status::Success, post: Some(post), error: None },
        Err(error) => Response { status: status_of(error), post: None, error: Some(error) },
    }
}

/// The answer to a creation that returned `result`: nothing but success on
/// success, the error otherwise.
pub open spec fn create_post_response(result: Result<Post, Error>) -> Response {
    match result {
        Ok(_) => Response { status: Status::Success, post: None, error: None },
        Err(error) => Response { status: status_of(error), post: None, error: Some(error) },
    }
}

/// Decides the kind of answer that reports `error`.
pub fn status_for(error: &Error) -> (status: Status)
    ensures
        status == status_of(*error),
{
    match error {
        Error::NotFound => Status::NotFound,
        _ => Status::InternalServerError,
    }
}

/// Decides the answer to a fetch that returned `result`.
pub fn respond_to_get(result: Result<Post, Error>) -> (response: Response)
    ensures
        response == get_post_response(result),
{
    match result {
        Ok(post) => Response { status: Status::Success, post: Some(post), error: None },
        Err(error) => Response { status: status_for(&error), post: None, error: Some(error) },
    }
}

/// Decides the answer to a creation that returned `result`.
pub fn respond_to_create(result: Result<Post, Error>) -> (response: Response)
    ensures
        response == create_post_response(result),
{
    match result {
        Ok(_) => Response { status: Status::Success, post: None, error: None },
        Err(error) => Response { status: status_for(&error), post: None, error: Some(error) },
    }
}

/// Fetches the post with key `id` through `controller` and answers with
/// what [`respond_to_get`] decides for the outcome.
pub fn get_post_handler<C: PostController>(controller: &C, id: i32) -> (response: Response)
    ensures
        exists|result: Result<Post, Error>|
            call_ensures(C::get_post, (controller, id), result) && response
                == #[trigger] get_post_response(result),
{
    let result = controller.get_post(id);
    respond_to_get(result)
}

/// Creates `post` through `controller` and answers with what
/// [`respond_to_create`] decides for the outcome.
pub fn create_post_handler<C: PostController>(controller: &mut C, post: NewPost) -> (response:
    Response)
    ensures
        exists|result: Result<Post, Error>|
            response == #[trigger] create_post_response(result) && (ended_at_begin(
                old(controller).transaction_active(),
                old(controller).transaction_calls(),
                result,
                final(controller).transaction_active(),
                final(controller).transaction_calls(),
            ) || exists|created: Result<Post, Error>, closed: Result<(), Error>|
                old(controller).stores(post, created) && #[trigger] ran_to_end(
                    old(controller).transaction_active(),
                    old(controller).transaction_calls(),
                    created,
                    closed,
                    result,
                    final(controller).transaction_active(),
                    final(controller).transaction_calls(),
                )),
{
    let result = controller.create_post(post);
    respond_to_create(result)
}

} // verus!
