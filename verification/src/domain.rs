//! The entities of the service and the repository that stores them.

pub mod entity;
pub mod repository;
