//! Identity-verification registry.
//!
//! A principal registers a commitment to private attributes, later presents a
//! proof against it, and has that verification recorded exactly once. An
//! identity can be revoked by its owner, which is final.
//!
//! The crate has two layers. The modules under [`instructions`] hold the
//! transitions of a single record, for hosts that keep the records
//! themselves. [`registry`] holds an in-memory store of all records together
//! with the same operations addressed by key. [`model`] says what a registry
//! is and what each operation makes of it, and [`laws`] states what holds of
//! every sequence of operations.
//!
//! Principals, commitments and digests are 32-byte values. Times and
//! ordinals are handed in by the caller: the crate reads no clock.

pub mod errors;
pub mod bytes;
pub mod hash;
pub mod state;
pub mod events;
pub mod predicate;
pub mod instructions;
mod table;
pub mod model;
pub mod registry;
pub mod laws;

pub use errors::{ErrorCode, MinKycError};
pub use events::VerificationEvent;
pub use registry::{
    initialize_identity, register_commitment, revoke_identity, verify_proof,
    verify_proof_with_nullifier, Registry,
};
pub use state::counter::IdentityCounter;
pub use state::identity::{Identity, IdentityAccount, IdentityStatus};
pub use state::receipt::ProofReceipt;
