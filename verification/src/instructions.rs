//! The four operations of the pool lifecycle.

pub mod claim;
pub mod deposit;
pub mod initialize_pool;
pub mod resolve;
