//! The storage-backed implementations and their assembly.

pub mod datastore;
pub mod di;
pub mod repository_impl;
pub mod server;
pub mod tables;
