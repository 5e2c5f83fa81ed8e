use vstd::prelude::*;

verus! {

/// What is announced to outside indexers when a proof was accepted.
///
/// The ledger is what counts; the event only tells of it.
#[derive(Clone, Copy, Debug, PartialEq, Eq)]
pub struct VerificationEvent {
    /// Index of the verified identity, under `owner`.
    pub identity_index: u64,
    /// Owner of the verified identity.
    pub owner: [u8; 32],
    /// Digest that names the requirement the proof was checked against.
    pub requirement_hash: [u8; 32],
    /// Digest of the proof's bytes.
    pub proof_hash: [u8; 32],
    /// When the proof was accepted.
    pub timestamp: i64,
    /// Ordinal of the acceptance.
    pub slot: u64,
}

} // verus!
