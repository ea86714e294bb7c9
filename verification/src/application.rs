//! The use cases and the transaction manager they rely on.

pub mod transaction_manager;
pub mod usecase;
