//! The stable call contract over the use cases.

pub mod post_controller;
