use vstd::prelude::*;

verus! {

/// Every way in which an operation of the registry can be refused.
///
/// A refused operation changes nothing.
#[derive(Clone, Copy, Debug, PartialEq, Eq, Structural)]
pub enum MinKycError {
    /// An identity already occupies the address at which one was to be created.
    IdentityAlreadyExists,
    /// The proof was rejected by the proof predicate.
    InvalidProof,
    /// The identity is revoked; nothing can be done to it any more.
    IdentityRevoked,
    /// The caller is not the owner of the identity.
    Unauthorized,
    /// The commitment of a verified identity can no longer be changed.
    IdentityImmutable,
    /// The identity to be revoked is revoked already.
    AlreadyRevoked,
    /// The same proof was accepted for this identity before.
    ProofAlreadyUsed,
    /// A counter is at its maximum and cannot be incremented.
    CounterOverflow,
}

/// The error type under the name used by the multi-identity entry points.
pub type ErrorCode = MinKycError;

} // verus!
