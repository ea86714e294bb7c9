//! What the boundary layer talks to.

pub mod controller;
pub mod handler;
