//! The transitions of a single record, one module for each operation.
//!
//! Each operation has a context that holds the records it works on, as the
//! host found them in its store, and a handler that either applies the whole
//! transition to the context or refuses it and leaves the context unchanged.

pub mod initialize_identity;
pub mod initialize;
pub mod register_commitment;
pub mod verify_proof;
pub mod revoke_identity;
