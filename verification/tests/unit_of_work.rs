//! The transaction manager, the repository, the use cases, the controller
//! and their assembly, run against a storage engine that lives in memory and
//! fails on request.

use std::sync::Arc;
use std::sync::Mutex;

use unit_of_work::adapter::controller::post_controller::PostController;
use unit_of_work::adapter::controller::post_controller::PostControllerImpl;
use unit_of_work::adapter::handler::post_handler::create_post_handler;
use unit_of_work::adapter::handler::post_handler::get_post_handler;
use unit_of_work::adapter::handler::post_handler::Response;
use unit_of_work::adapter::handler::post_handler::Status;
use unit_of_work::application::transaction_manager::TransactionManager;
use unit_of_work::application::usecase::create_post_usecase::CreatePostUsecase;
use unit_of_work::application::usecase::create_post_usecase::CreatePostUsecaseImpl;
use unit_of_work::application::usecase::get_post_usecase::GetPostUsecase;
use unit_of_work::application::usecase::get_post_usecase::GetPostUsecaseImpl;
use unit_of_work::domain::entity::new_post::NewPost;
use unit_of_work::domain::entity::post::Post;
use unit_of_work::domain::repository::post_repository::PostRepository;
use unit_of_work::error::Error;
use unit_of_work::error::StorageFailure;
use unit_of_work::infrastructure::datastore::connection::Connection;
use unit_of_work::infrastructure::datastore::connection::Transaction;
use unit_of_work::infrastructure::datastore::db_client::DBClient;
use unit_of_work::infrastructure::datastore::transaction_manager_impl::TransactionManagerImpl;
use unit_of_work::infrastructure::di::DIContainer;
use unit_of_work::infrastructure::di::DIContainerImpl;
use unit_of_work::infrastructure::repository_impl::post_repository_impl::PostRepositoryImpl;
use unit_of_work::infrastructure::server::RequestContext;
use unit_of_work::infrastructure::tables::post::ActiveModel;
use unit_of_work::infrastructure::tables::post::Model;

/// What the engine holds and what it was asked to do.
#[derive(Default)]
struct Engine {
    rows: Vec<Model>,
    staged: Vec<Model>,
    open: bool,
    next_id: i32,
    fail_begin: Option<String>,
    fail_insert: Option<String>,
    fail_find: Option<String>,
    fail_commit: Option<String>,
    fail_rollback: Option<String>,
    begun: u32,
    committed: u32,
    rolled_back: u32,
    lookups: Vec<i32>,
    inserts: Vec<ActiveModel>,
}

fn failure(message: &str) -> StorageFailure {
    StorageFailure { message: message.to_string() }
}

struct FakeConnection {
    engine: Arc<Mutex<Engine>>,
}

struct FakeTransaction {
    engine: Arc<Mutex<Engine>>,
}

impl Transaction for FakeTransaction {
    fn commit(self) -> Result<(), StorageFailure> {
        let mut engine = self.engine.lock().unwrap();
        engine.committed += 1;
        engine.open = false;
        let staged = std::mem::take(&mut engine.staged);
        match &engine.fail_commit {
            Some(message) => Err(failure(message)),
            None => {
                engine.rows.extend(staged);
                Ok(())
            }
        }
    }

    fn rollback(self) -> Result<(), StorageFailure> {
        let mut engine = self.engine.lock().unwrap();
        engine.rolled_back += 1;
        engine.open = false;
        engine.staged.clear();
        match &engine.fail_rollback {
            Some(message) => Err(failure(message)),
            None => Ok(()),
        }
    }
}

impl Connection for FakeConnection {
    type Transaction = FakeTransaction;

    fn begin(&self) -> Result<FakeTransaction, StorageFailure> {
        let mut engine = self.engine.lock().unwrap();
        engine.begun += 1;
        match &engine.fail_begin {
            Some(message) => Err(failure(message)),
            None => {
                engine.open = true;
                Ok(FakeTransaction { engine: Arc::clone(&self.engine) })
            }
        }
    }

    fn find_post_by_id(&self, id: i32) -> Result<Option<Model>, StorageFailure> {
        let mut engine = self.engine.lock().unwrap();
        engine.lookups.push(id);
        match &engine.fail_find {
            Some(message) => Err(failure(message)),
            None => Ok(engine.rows.iter().find(|row| row.id == id).cloned()),
        }
    }

    fn insert_post(&self, model: ActiveModel) -> Result<Model, StorageFailure> {
        let mut engine = self.engine.lock().unwrap();
        engine.inserts.push(model.clone());
        if let Some(message) = &engine.fail_insert {
            return Err(failure(message));
        }
        let id = match model.id {
            Some(id) => id,
            None => engine.next_id,
        };
        engine.next_id = id + 1;
        let row = Model {
            id,
            title: model.title.unwrap_or_default(),
            text: model.text.unwrap_or_default(),
        };
        if engine.open {
            engine.staged.push(row.clone());
        } else {
            engine.rows.push(row.clone());
        }
        Ok(row)
    }
}

struct FakeClient {
    connection: Arc<FakeConnection>,
}

impl DBClient for FakeClient {
    type Connection = FakeConnection;

    fn get_connection(&self) -> Arc<FakeConnection> {
        Arc::clone(&self.connection)
    }
}

type Repository = PostRepositoryImpl<FakeConnection>;
type Manager = TransactionManagerImpl<FakeConnection>;
type Controller =
    PostControllerImpl<GetPostUsecaseImpl<Repository>, CreatePostUsecaseImpl<Repository, Manager>>;

fn engine_assigning(next_id: i32) -> Arc<Mutex<Engine>> {
    Arc::new(Mutex::new(Engine { next_id, ..Engine::default() }))
}

fn connection(engine: &Arc<Mutex<Engine>>) -> Arc<FakeConnection> {
    Arc::new(FakeConnection { engine: Arc::clone(engine) })
}

fn manager(engine: &Arc<Mutex<Engine>>) -> Manager {
    TransactionManagerImpl::new(connection(engine))
}

fn controller(engine: &Arc<Mutex<Engine>>) -> Controller {
    DIContainerImpl::new(FakeClient { connection: connection(engine) }).post_container()
}

fn new_post(title: &str, text: &str) -> NewPost {
    NewPost { title: title.to_string(), text: text.to_string() }
}

fn post(id: i32, title: &str, text: &str) -> Post {
    Post { id, title: title.to_string(), text: text.to_string() }
}

// The transaction manager.

#[test]
fn begin_opens_a_transaction_on_the_connection() {
    let engine = engine_assigning(1);
    let mut manager = manager(&engine);
    assert_eq!(manager.begin(), Ok(()));
    assert_eq!(engine.lock().unwrap().begun, 1);
    assert!(engine.lock().unwrap().open);
}

#[test]
fn begin_does_not_succeed_twice_in_a_row() {
    let engine = engine_assigning(1);
    let mut manager = manager(&engine);
    assert_eq!(manager.begin(), Ok(()));
    assert_eq!(manager.begin(), Err(Error::TransactionAlreadyActive));
    assert_eq!(manager.begin(), Err(Error::TransactionAlreadyActive));
    // The refused calls asked nothing of the engine and kept the transaction.
    assert_eq!(engine.lock().unwrap().begun, 1);
    assert_eq!(manager.commit(), Ok(()));
    assert_eq!(engine.lock().unwrap().committed, 1);
}

#[test]
fn begin_succeeds_again_after_commit_and_after_rollback() {
    let engine = engine_assigning(1);
    let mut manager = manager(&engine);
    assert_eq!(manager.begin(), Ok(()));
    assert_eq!(manager.commit(), Ok(()));
    assert_eq!(manager.begin(), Ok(()));
    assert_eq!(manager.rollback(), Ok(()));
    assert_eq!(manager.begin(), Ok(()));
    assert_eq!(engine.lock().unwrap().begun, 3);
}

#[test]
fn begin_surfaces_the_engine_failure_and_stays_inactive() {
    let engine = engine_assigning(1);
    engine.lock().unwrap().fail_begin = Some("pool exhausted".to_string());
    let mut manager = manager(&engine);
    assert_eq!(manager.begin(), Err(Error::StorageError(failure("pool exhausted"))));
    assert_eq!(manager.commit(), Err(Error::NoActiveTransaction));
    engine.lock().unwrap().fail_begin = None;
    assert_eq!(manager.begin(), Ok(()));
}

#[test]
fn commit_without_begin_fails_and_changes_nothing() {
    let engine = engine_assigning(1);
    let mut manager = manager(&engine);
    assert_eq!(manager.commit(), Err(Error::NoActiveTransaction));
    assert_eq!(engine.lock().unwrap().committed, 0);
    assert_eq!(manager.begin(), Ok(()));
}

#[test]
fn rollback_without_begin_fails_and_changes_nothing() {
    let engine = engine_assigning(1);
    let mut manager = manager(&engine);
    assert_eq!(manager.rollback(), Err(Error::NoActiveTransaction));
    assert_eq!(engine.lock().unwrap().rolled_back, 0);
    assert_eq!(manager.begin(), Ok(()));
}

#[test]
fn commit_after_commit_fails() {
    let engine = engine_assigning(1);
    let mut manager = manager(&engine);
    assert_eq!(manager.begin(), Ok(()));
    assert_eq!(manager.commit(), Ok(()));
    assert_eq!(manager.commit(), Err(Error::NoActiveTransaction));
    assert_eq!(manager.rollback(), Err(Error::NoActiveTransaction));
    assert_eq!(engine.lock().unwrap().committed, 1);
    assert_eq!(engine.lock().unwrap().rolled_back, 0);
}

#[test]
fn repeated_rollback_fails_each_time() {
    let engine = engine_assigning(1);
    let mut manager = manager(&engine);
    assert_eq!(manager.begin(), Ok(()));
    assert_eq!(manager.rollback(), Ok(()));
    assert_eq!(manager.rollback(), Err(Error::NoActiveTransaction));
    assert_eq!(manager.rollback(), Err(Error::NoActiveTransaction));
    assert_eq!(manager.rollback(), Err(Error::NoActiveTransaction));
    // The engine discarded one transaction, once.
    assert_eq!(engine.lock().unwrap().rolled_back, 1);
}

#[test]
fn a_failed_commit_uses_the_transaction_up() {
    let engine = engine_assigning(1);
    engine.lock().unwrap().fail_commit = Some("disk full".to_string());
    let mut manager = manager(&engine);
    assert_eq!(manager.begin(), Ok(()));
    assert_eq!(manager.commit(), Err(Error::CommitFailed(failure("disk full"))));
    assert_eq!(manager.commit(), Err(Error::NoActiveTransaction));
    assert_eq!(engine.lock().unwrap().committed, 1);
    assert_eq!(manager.begin(), Ok(()));
}

#[test]
fn a_failed_rollback_uses_the_transaction_up() {
    let engine = engine_assigning(1);
    engine.lock().unwrap().fail_rollback = Some("connection reset".to_string());
    let mut manager = manager(&engine);
    assert_eq!(manager.begin(), Ok(()));
    assert_eq!(manager.rollback(), Err(Error::RollbackFailed(failure("connection reset"))));
    assert_eq!(manager.rollback(), Err(Error::NoActiveTransaction));
    assert_eq!(engine.lock().unwrap().rolled_back, 1);
    assert_eq!(manager.begin(), Ok(()));
}

// The repository.

#[test]
fn the_repository_finds_a_stored_post() {
    let engine = engine_assigning(1);
    engine.lock().unwrap().rows.push(Model {
        id: 7,
        title: "A".to_string(),
        text: "B".to_string(),
    });
    let repository = PostRepositoryImpl::new(connection(&engine));
    assert_eq!(repository.find_by_id(7), Ok(post(7, "A", "B")));
    assert_eq!(engine.lock().unwrap().lookups, vec![7]);
}

#[test]
fn the_repository_reports_a_missing_post() {
    let engine = engine_assigning(1);
    let repository = PostRepositoryImpl::new(connection(&engine));
    assert_eq!(repository.find_by_id(999), Err(Error::NotFound));
    assert_eq!(engine.lock().unwrap().lookups, vec![999]);
}

#[test]
fn the_repository_surfaces_a_failed_lookup() {
    let engine = engine_assigning(1);
    engine.lock().unwrap().fail_find = Some("timeout".to_string());
    let repository = PostRepositoryImpl::new(connection(&engine));
    assert_eq!(repository.find_by_id(7), Err(Error::StorageError(failure("timeout"))));
}

#[test]
fn the_repository_inserts_the_texts_and_no_key() {
    let engine = engine_assigning(7);
    let repository = PostRepositoryImpl::new(connection(&engine));
    assert_eq!(repository.create(new_post("A", "B")), Ok(post(7, "A", "B")));
    assert_eq!(
        engine.lock().unwrap().inserts,
        vec![ActiveModel { id: None, title: Some("A".to_string()), text: Some("B".to_string()) }]
    );
}

#[test]
fn the_repository_surfaces_a_failed_insert() {
    let engine = engine_assigning(7);
    engine.lock().unwrap().fail_insert = Some("unique violation".to_string());
    let repository = PostRepositoryImpl::new(connection(&engine));
    assert_eq!(
        repository.create(new_post("A", "B")),
        Err(Error::StorageError(failure("unique violation")))
    );
}

// The use cases.

#[test]
fn the_fetch_returns_what_the_repository_finds() {
    let engine = engine_assigning(1);
    engine.lock().unwrap().rows.push(Model {
        id: 7,
        title: "A".to_string(),
        text: "B".to_string(),
    });
    let usecase = GetPostUsecaseImpl::new(Arc::new(PostRepositoryImpl::new(connection(&engine))));
    assert_eq!(usecase.execute(7), Ok(post(7, "A", "B")));
    assert_eq!(usecase.execute(999), Err(Error::NotFound));
    // The fetch opens no transaction.
    assert_eq!(engine.lock().unwrap().begun, 0);
}

fn create_usecase(engine: &Arc<Mutex<Engine>>) -> CreatePostUsecaseImpl<Repository, Manager> {
    CreatePostUsecaseImpl::new(
        Arc::new(PostRepositoryImpl::new(connection(engine))),
        manager(engine),
    )
}

#[test]
fn create_commits_and_returns_the_stored_post() {
    let engine = engine_assigning(7);
    let mut usecase = create_usecase(&engine);
    assert_eq!(usecase.execute(new_post("A", "B")), Ok(post(7, "A", "B")));
    let engine = engine.lock().unwrap();
    assert_eq!((engine.begun, engine.committed, engine.rolled_back), (1, 1, 0));
    assert_eq!(engine.rows, vec![Model { id: 7, title: "A".to_string(), text: "B".to_string() }]);
}

#[test]
fn create_leaves_nothing_in_flight_so_that_the_next_one_can_begin() {
    let engine = engine_assigning(7);
    let mut usecase = create_usecase(&engine);
    assert_eq!(usecase.execute(new_post("A", "B")), Ok(post(7, "A", "B")));
    assert_eq!(usecase.execute(new_post("C", "D")), Ok(post(8, "C", "D")));
    let engine = engine.lock().unwrap();
    assert_eq!((engine.begun, engine.committed, engine.rolled_back), (2, 2, 0));
}

#[test]
fn create_stops_at_a_failed_begin() {
    let engine = engine_assigning(7);
    engine.lock().unwrap().fail_begin = Some("pool exhausted".to_string());
    let mut usecase = create_usecase(&engine);
    assert_eq!(
        usecase.execute(new_post("A", "B")),
        Err(Error::StorageError(failure("pool exhausted")))
    );
    let engine = engine.lock().unwrap();
    assert!(engine.inserts.is_empty());
    assert_eq!((engine.begun, engine.committed, engine.rolled_back), (1, 0, 0));
}

#[test]
fn create_stops_at_a_refused_begin_and_keeps_the_transaction_in_flight() {
    let engine = engine_assigning(7);
    let mut manager = manager(&engine);
    assert_eq!(manager.begin(), Ok(()));
    let mut usecase =
        CreatePostUsecaseImpl::new(Arc::new(PostRepositoryImpl::new(connection(&engine))), manager);
    assert_eq!(usecase.execute(new_post("A", "B")), Err(Error::TransactionAlreadyActive));
    let engine = engine.lock().unwrap();
    assert!(engine.inserts.is_empty());
    assert!(engine.open);
    assert_eq!((engine.begun, engine.committed, engine.rolled_back), (1, 0, 0));
}

#[test]
fn create_rolls_back_and_surfaces_the_insert_error() {
    let engine = engine_assigning(7);
    engine.lock().unwrap().fail_insert = Some("unique violation".to_string());
    let mut usecase = create_usecase(&engine);
    assert_eq!(
        usecase.execute(new_post("A", "B")),
        Err(Error::StorageError(failure("unique violation")))
    );
    {
        let engine = engine.lock().unwrap();
        assert_eq!((engine.begun, engine.committed, engine.rolled_back), (1, 0, 1));
        assert!(!engine.open);
        assert!(engine.rows.is_empty());
    }
    // Nothing is in flight: the next unit of work begins.
    engine.lock().unwrap().fail_insert = None;
    assert_eq!(usecase.execute(new_post("A", "B")), Ok(post(7, "A", "B")));
}

#[test]
fn create_surfaces_the_rollback_error_where_the_rollback_fails_too() {
    let engine = engine_assigning(7);
    engine.lock().unwrap().fail_insert = Some("unique violation".to_string());
    engine.lock().unwrap().fail_rollback = Some("connection reset".to_string());
    let mut usecase = create_usecase(&engine);
    assert_eq!(
        usecase.execute(new_post("A", "B")),
        Err(Error::RollbackFailed(failure("connection reset")))
    );
    {
        let engine = engine.lock().unwrap();
        assert_eq!((engine.begun, engine.committed, engine.rolled_back), (1, 0, 1));
    }
    engine.lock().unwrap().fail_insert = None;
    engine.lock().unwrap().fail_rollback = None;
    assert_eq!(usecase.execute(new_post("A", "B")), Ok(post(7, "A", "B")));
}

#[test]
fn create_returns_the_commit_error_and_no_post() {
    let engine = engine_assigning(7);
    engine.lock().unwrap().fail_commit = Some("disk full".to_string());
    let mut usecase = create_usecase(&engine);
    assert_eq!(
        usecase.execute(new_post("A", "B")),
        Err(Error::CommitFailed(failure("disk full")))
    );
    {
        let engine = engine.lock().unwrap();
        assert_eq!((engine.begun, engine.committed, engine.rolled_back), (1, 1, 0));
        assert!(engine.rows.is_empty());
    }
    engine.lock().unwrap().fail_commit = None;
    assert_eq!(usecase.execute(new_post("C", "D")), Ok(post(8, "C", "D")));
}

// The controller and its assembly.

#[test]
fn create_then_get_through_the_controller() {
    let engine = engine_assigning(7);
    let mut controller = controller(&engine);
    assert_eq!(controller.create_post(new_post("A", "B")), Ok(post(7, "A", "B")));
    assert_eq!(controller.get_post(7), Ok(post(7, "A", "B")));
    assert_eq!(controller.get_post(999), Err(Error::NotFound));
}

#[test]
fn the_assembled_controller_starts_with_nothing_in_flight() {
    let engine = engine_assigning(7);
    let mut controller = controller(&engine);
    assert_eq!(engine.lock().unwrap().begun, 0);
    // A transaction in flight would have the first creation refused.
    assert_eq!(controller.create_post(new_post("A", "B")), Ok(post(7, "A", "B")));
}

#[test]
fn the_assembled_use_cases_share_the_connection_of_the_client() {
    let engine = engine_assigning(7);
    let client = FakeClient { connection: connection(&engine) };
    let handed_out = Arc::clone(&client.connection);
    let container = DIContainerImpl::new(client);
    let mut controller = container.post_container();
    // The client, this test, the repository and the transaction manager.
    assert_eq!(Arc::strong_count(&handed_out), 4);
    assert_eq!(controller.create_post(new_post("A", "B")), Ok(post(7, "A", "B")));
    assert_eq!(controller.get_post(7), Ok(post(7, "A", "B")));
    assert_eq!(engine.lock().unwrap().lookups, vec![7]);
    assert_eq!(engine.lock().unwrap().inserts.len(), 1);
}

#[test]
fn the_controller_adds_nothing_to_the_use_cases() {
    let engine = engine_assigning(7);
    engine.lock().unwrap().fail_find = Some("timeout".to_string());
    engine.lock().unwrap().fail_commit = Some("disk full".to_string());
    let repository = Arc::new(PostRepositoryImpl::new(connection(&engine)));
    let mut controller = PostControllerImpl::new(
        GetPostUsecaseImpl::new(Arc::clone(&repository)),
        CreatePostUsecaseImpl::new(repository, manager(&engine)),
    );
    assert_eq!(controller.get_post(7), Err(Error::StorageError(failure("timeout"))));
    assert_eq!(
        controller.create_post(new_post("A", "B")),
        Err(Error::CommitFailed(failure("disk full")))
    );
}

// The answers of the boundary layer.

#[test]
fn the_handlers_answer_for_the_controller() {
    let engine = engine_assigning(7);
    let mut controller = controller(&engine);
    assert_eq!(
        create_post_handler(&mut controller, new_post("A", "B")),
        Response { status: Status::Success, post: None, error: None }
    );
    assert_eq!(
        get_post_handler(&controller, 7),
        Response { status: Status::Success, post: Some(post(7, "A", "B")), error: None }
    );
    assert_eq!(
        get_post_handler(&controller, 999),
        Response { status: Status::NotFound, post: None, error: Some(Error::NotFound) }
    );
}

#[test]
fn the_handlers_answer_a_failure_with_a_server_error() {
    let engine = engine_assigning(7);
    engine.lock().unwrap().fail_insert = Some("unique violation".to_string());
    engine.lock().unwrap().fail_find = Some("timeout".to_string());
    let mut controller = controller(&engine);
    assert_eq!(
        create_post_handler(&mut controller, new_post("A", "B")),
        Response {
            status: Status::InternalServerError,
            post: None,
            error: Some(Error::StorageError(failure("unique violation"))),
        }
    );
    assert_eq!(
        get_post_handler(&controller, 7),
        Response {
            status: Status::InternalServerError,
            post: None,
            error: Some(Error::StorageError(failure("timeout"))),
        }
    );
}

#[test]
fn the_request_context_holds_the_assembled_controller() {
    let engine = engine_assigning(7);
    let container = DIContainerImpl::new(FakeClient { connection: connection(&engine) });
    let mut context = RequestContext::new(&container);
    assert_eq!(engine.lock().unwrap().begun, 0);
    assert_eq!(context.post_controller.create_post(new_post("A", "B")), Ok(post(7, "A", "B")));
    assert_eq!(context.post_controller.get_post(7), Ok(post(7, "A", "B")));
    assert_eq!(context.post_controller.get_post(999), Err(Error::NotFound));
}
