//! The rows of the storage engine's tables.

pub mod post;
