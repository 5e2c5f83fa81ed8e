//! The records that the registry keeps.

pub mod identity;
pub mod counter;
pub mod receipt;
