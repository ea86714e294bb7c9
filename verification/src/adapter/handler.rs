//! What the boundary layer answers.

pub mod post_handler;
