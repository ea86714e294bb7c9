//! Transaction-scoped unit-of-work core for a post service.
//!
//! The crate coordinates one transactional resource per unit of work: a
//! transaction manager that owns at most one transaction at a time, a post
//! repository, and the two use cases built on them. The storage engine stays
//! behind the two traits of [`infrastructure::datastore::connection`]; every
//! function here is verified for whatever the engine answers.

pub mod adapter;
pub mod application;
pub mod domain;
pub mod error;
pub mod infrastructure;
