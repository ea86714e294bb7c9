//! The transactional resource and the manager of its transactions.

pub mod connection;
pub mod db_client;
pub mod transaction_manager_impl;
