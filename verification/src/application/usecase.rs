//! The two operations on posts: fetch one, create one.

pub mod create_post_usecase;
pub mod get_post_usecase;
