//! Repositories over a connection.

pub mod post_repository_impl;
