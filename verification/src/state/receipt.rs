use vstd::prelude::*;
use crate::bytes::zeroed;

verus! {

/// The record that a proof was consumed for an identity.
///
/// It lives at the address `(owner, identity_index, proof_hash)`, so the same
/// proof presented again for the same identity meets the same receipt. Once
/// `used`, a receipt never changes again.
#[derive(Clone, Copy, Debug, PartialEq, Eq)]
pub struct ProofReceipt {
    /// Whether the proof was consumed.
    pub used: bool,
    /// Digest of the proof's bytes.
    pub proof_hash: [u8; 32],
    /// Digest that names the requirement the proof was checked against.
    pub requirement_hash: [u8; 32],
    /// When the proof was accepted.
    pub timestamp: i64,
    /// Ordinal of the acceptance, for audit ordering.
    pub slot: u64,
    /// Index of the identity that was verified, under `owner`.
    pub identity_index: u64,
    /// Owner of the identity that was verified.
    pub owner: [u8; 32],
}

impl ProofReceipt {
    /// What a receipt slot holds before any proof was entered in it.
    pub open spec fn vacant() -> ProofReceipt {
        ProofReceipt {
            used: false,
            proof_hash: zeroed(),
            requirement_hash: zeroed(),
            timestamp: 0,
            slot: 0,
            identity_index: 0,
            owner: zeroed(),
        }
    }

    /// The address of the receipt.
    pub open spec fn key(&self) -> ([u8; 32], u64, [u8; 32]) {
        (self.owner, self.identity_index, self.proof_hash)
    }

    /// An unused receipt, as a newly allocated slot holds it.
    pub fn new() -> (receipt: ProofReceipt)
        ensures
            receipt == ProofReceipt::vacant(),
    {
        ProofReceipt {
            used: false,
            proof_hash: [0u8; 32],
            requirement_hash: [0u8; 32],
            timestamp: 0,
            slot: 0,
            identity_index: 0,
            owner: [0u8; 32],
        }
    }
}

} // verus!
