//! The post, and the request that creates one.

pub mod new_post;
pub mod post;
