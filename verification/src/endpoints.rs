//! The operations that the entity offers to its clients.

pub mod deposit;
pub mod util;
