//! The post repository over a connection to the storage engine.

use std::sync::Arc;
use vstd::prelude::*;
use crate::application::transaction_manager::TransactionManager;
use crate::application::usecase::create_post_usecase::closing;
use crate::application::usecase::create_post_usecase::settled;
use crate::application::usecase::create_post_usecase::CreatePostUsecase;
use crate::application::usecase::create_post_usecase::CreatePostUsecaseImpl;
use crate::application::usecase::get_post_usecase::GetPostUsecase;
use crate::application::usecase::get_post_usecase::GetPostUsecaseImpl;
use crate::domain::entity::new_post::NewPost;
use crate::domain::entity::post::Post;
use crate::domain::repository::post_repository::PostRepository;
use crate::error::Error;
use crate::error::StorageFailure;
use crate::infrastructure::datastore::connection::Connection;
use crate::infrastructure::tables::post::ActiveModel;
use crate::infrastructure::tables::post::Model;

verus! {

/// The post that a row of the table stands for: the same key and texts.
pub open spec fn post_of(entity: Model) -> Post {
    Post { id: entity.id, title: entity.title, text: entity.text }
}

/// The row that is handed to the storage engine to store `post`: both texts
/// set, the key left to the engine.
pub open spec fn active_model_of(post: NewPost) -> ActiveModel {
    ActiveModel { id: None, title: Some(post.title), text: Some(post.text) }
}

/// What `find_by_id` returns once the storage engine has answered `lookup`.
pub open spec fn find_by_id_result(lookup: Result<Option<Model>, StorageFailure>) -> Result<
    Post,
    Error,
> {
    match lookup {
        Ok(Some(entity)) => Ok(post_of(entity)),
        Ok(None) => Err(Error::NotFound),
        Err(failure) => Err(Error::StorageError(failure)),
    }
}

/// What `create` returns once the storage engine has answered `inserted`.
pub open spec fn create_result(inserted: Result<Model, StorageFailure>) -> Result<Post, Error> {
    match inserted {
        Ok(entity) => Ok(post_of(entity)),
        Err(failure) => Err(Error::StorageError(failure)),
    }
}

/// Decides what `find_by_id` returns for the storage engine's answer: the
/// row found becomes the post, no row is `NotFound`, and a failure is
/// surfaced as `StorageError`.
pub fn on_lookup(lookup: Result<Option<Model>, StorageFailure>) -> (result: Result<Post, Error>)
    ensures
        result == find_by_id_result(lookup),
{
    match lookup {
        Ok(Some(entity)) => Ok(from_entity(entity)),
        Ok(None) => Err(Error::NotFound),
        Err(failure) => Err(Error::StorageError(failure)),
    }
}

/// Decides what `create` returns for the storage engine's answer: the row
/// stored becomes the post, and a failure is surfaced as `StorageError`.
pub fn on_insert(inserted: Result<Model, StorageFailure>) -> (result: Result<Post, Error>)
    ensures
        result == create_result(inserted),
{
    match inserted {
        Ok(entity) => Ok(from_entity(entity)),
        Err(failure) => Err(Error::StorageError(failure)),
    }
}

/// Turns a row of the table into the post it stands for.
pub fn from_entity(entity: Model) -> (post: Post)
    ensures
        post == post_of(entity),
        post@ == entity@,
{
    Post { id: entity.id, title: entity.title, text: entity.text }
}

/// Turns a request into the row to insert: the texts as submitted and no
/// key, so that the storage engine assigns one.
pub fn to_active_model(post: NewPost) -> (model: ActiveModel)
    ensures
        model == active_model_of(post),
{
    ActiveModel { id: None, title: Some(post.title), text: Some(post.text) }
}

/// A post repository that runs its statements on a connection.
pub struct PostRepositoryImpl<C: Connection> {
    con: Arc<C>,
}

impl<C: Connection> PostRepositoryImpl<C> {
    /// The connection that statements run on.
    pub closed spec fn connection(&self) -> C {
        *self.con
    }

    /// A repository on `con`.
    pub fn new(con: Arc<C>) -> (repository: Self)
        ensures
            repository.connection() == *con,
    {
        Self { con }
    }
}

impl<C: Connection> PostRepository for PostRepositoryImpl<C> {
    /// Asks the connection for the row with key `id` and returns what
    /// [`on_lookup`] decides for its answer.
    fn find_by_id(&self, id: i32) -> (result: Result<Post, Error>)
        ensures
            exists|lookup: Result<Option<Model>, StorageFailure>|
                call_ensures(C::find_post_by_id, (&self.connection(), id), lookup) && result
                    == #[trigger] find_by_id_result(lookup),
    {
        let lookup = self.con.find_post_by_id(id);
        on_lookup(lookup)
    }

    /// Asks the connection to insert the row that [`to_active_model`] makes
    /// of `post` and returns what [`on_insert`] decides for its answer.
    fn create(&self, post: NewPost) -> (result: Result<Post, Error>)
        ensures
            exists|inserted: Result<Model, StorageFailure>|
                call_ensures(C::insert_post, (&self.connection(), active_model_of(post)), inserted)
                    && result == #[trigger] create_result(inserted),
    {
        let model = to_active_model(post);
        let inserted = self.con.insert_post(model);
        on_insert(inserted)
    }
}

/// A post that was created and committed has the key of the stored row, and
/// the texts that were submitted wherever the storage engine stored the
/// texts it was handed. The row that is handed to the engine carries no key:
/// the key is the engine's to assign.
pub proof fn created_post_matches_request(post: NewPost, entity: Model, closed: Result<(), Error>)
    requires
        Some(entity.title) == active_model_of(post).title,
        Some(entity.text) == active_model_of(post).text,
        closed is Ok,
    ensures
        active_model_of(post).id is None,
        settled(create_result(Ok(entity)), closed) matches Ok(created) && created@.id == entity.id
            && created@.title == post@.title && created@.text == post@.text,
{
}

/// A post that a unit of work over this repository returns is the row that
/// the connection returned when asked to insert exactly the submitted texts,
/// without a key, and the transaction around the insert was committed.
pub proof fn created_post_is_the_stored_row<C: Connection, TM: TransactionManager>(
    usecase: CreatePostUsecaseImpl<PostRepositoryImpl<C>, TM>,
    post: NewPost,
    created: Result<Post, Error>,
    closed: Result<(), Error>,
)
    requires
        usecase.stores(post, created),
        settled(created, closed) is Ok,
    ensures
        closing(created) is Commit,
        closed is Ok,
        exists|entity: Model|
            call_ensures(
                C::insert_post,
                (&usecase.post_repository().connection(), active_model_of(post)),
                Ok::<Model, StorageFailure>(entity),
            ) && settled(created, closed) == Ok::<Post, Error>(#[trigger] post_of(entity)),
{
}

/// What a fetch returns is decided by what the connection answers to the
/// lookup of that key: `NotFound` where it finds no row, and otherwise the
/// post with exactly the key and texts of the row found.
pub proof fn fetch_reflects_lookup<C: Connection>(
    usecase: GetPostUsecaseImpl<PostRepositoryImpl<C>>,
    id: i32,
    result: Result<Post, Error>,
)
    requires
        call_ensures(
            <GetPostUsecaseImpl<PostRepositoryImpl<C>> as GetPostUsecase>::execute,
            (&usecase, id),
            result,
        ),
    ensures
        exists|lookup: Result<Option<Model>, StorageFailure>|
            call_ensures(
                C::find_post_by_id,
                (&usecase.post_repository().connection(), id),
                lookup,
            ) && result == #[trigger] find_by_id_result(lookup) && (lookup == Ok::<
                Option<Model>,
                StorageFailure,
            >(None) ==> result == Err::<Post, Error>(Error::NotFound)) && (lookup matches Ok(
                Some(entity),
            ) ==> result matches Ok(post) && post@ == entity@),
{
}

} // verus!
