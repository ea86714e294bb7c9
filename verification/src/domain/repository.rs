//! Storage of posts, as the use cases see it.

pub mod post_repository;
