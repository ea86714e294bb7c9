//! The composition root: one repository, one transaction manager, the two
//! use cases and the controller over them.

use std::sync::Arc;
use vstd::prelude::*;
use crate::adapter::controller::post_controller::PostController;
use crate::adapter::controller::post_controller::PostControllerImpl;
use crate::application::transaction_manager::Call;
use crate::application::transaction_manager::TransactionManager;
use crate::application::usecase::create_post_usecase::CreatePostUsecaseImpl;
use crate::application::usecase::get_post_usecase::GetPostUsecaseImpl;
use crate::infrastructure::datastore::connection::Connection;
use crate::infrastructure::datastore::db_client::DBClient;
use crate::infrastructure::datastore::transaction_manager_impl::TransactionManagerImpl;
use crate::infrastructure::repository_impl::post_repository_impl::PostRepositoryImpl;

verus! {

/// An assembler of controllers.
pub trait DIContainer {
    type Controller: PostController;

    /// A controller whose transaction manager is new: nothing in flight, no
    /// call answered.
    fn post_container(&self) -> (controller: Self::Controller)
        ensures
            !controller.transaction_active(),
            controller.transaction_calls() == Seq::<Call>::empty(),
    ;
}

/// The assembler over a database client.
pub struct DIContainerImpl<D> where D: DBClient {
    db_client: D,
}

impl<D> DIContainerImpl<D> where D: DBClient {
    /// The client whose connection everything is built on.
    pub closed spec fn db_client(&self) -> D {
        self.db_client
    }

    /// An assembler over `db_client`.
    pub fn new(db_client: D) -> (container: Self)
        ensures
            container.db_client() == db_client,
    {
        Self { db_client }
    }
}

impl<D> DIContainer for DIContainerImpl<D> where
    D: DBClient,
    D::Connection: Send + Sync,
    <D::Connection as Connection>::Transaction: Send + Sync,
 {
    type Controller = PostControllerImpl<
        GetPostUsecaseImpl<PostRepositoryImpl<D::Connection>>,
        CreatePostUsecaseImpl<PostRepositoryImpl<D::Connection>, TransactionManagerImpl<D::Connection>>,
    >;

    /// Asks the client for its connection twice, once for the repository
    /// and once for the transaction manager, and builds one repository,
    /// shared by both use cases, and one new transaction manager.
    fn post_container(&self) -> (controller: Self::Controller)
        ensures
            controller.create_post_usecase().post_repository()
                == controller.get_post_usecase().post_repository(),
            controller.create_post_usecase().transaction_manager().transaction() is None,
            exists|connection: Arc<D::Connection>| #[trigger]
                call_ensures(D::get_connection, (&self.db_client(),), connection)
                    && controller.get_post_usecase().post_repository().connection() == *connection,
            exists|connection: Arc<D::Connection>| #[trigger]
                call_ensures(D::get_connection, (&self.db_client(),), connection)
                    && controller.create_post_usecase().transaction_manager().connection()
                    == *connection,
    {
        let repository_connection = self.db_client.get_connection();
        let post_repository = Arc::new(PostRepositoryImpl::new(repository_connection));

        let get_post_usecase = GetPostUsecaseImpl::new(Arc::clone(&post_repository));

        let manager_connection = self.db_client.get_connection();
        let transaction_manager = TransactionManagerImpl::new(manager_connection);

        let create_post_usecase = CreatePostUsecaseImpl::new(post_repository, transaction_manager);

        proof {
            assert(call_ensures(D::get_connection, (&self.db_client(),), repository_connection));
            assert(call_ensures(D::get_connection, (&self.db_client(),), manager_connection));
        }
        PostControllerImpl::new(get_post_usecase, create_post_usecase)
    }
}

} // verus!
