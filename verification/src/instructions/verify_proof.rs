use vstd::prelude::*;
use crate::errors::MinKycError;
use crate::events::VerificationEvent;
use crate::hash::{proof_hash, sha256};
use crate::predicate::{check_proof, proof_accepted};
use crate::state::identity::IdentityAccount;
use crate::state::receipt::ProofReceipt;

verus! {

/// The records that a verification works on.
#[derive(Clone, Copy, Debug, PartialEq, Eq)]
pub struct VerifyProof {
    /// The identity to be verified.
    pub identity: IdentityAccount,
    /// What the ledger holds at the address of this identity and this proof:
    /// the receipt of an earlier acceptance, or a vacant slot.
    pub proof_receipt: ProofReceipt,
    /// The principal that submits the proof. Anyone may; it need not be the
    /// owner.
    pub verifier: [u8; 32],
}

/// Why a verification is refused, if it is. The first reason that applies is
/// the one reported.
pub open spec fn verification_refusal(
    identity: IdentityAccount,
    receipt: ProofReceipt,
    proof: Seq<u8>,
    requirement_hash: [u8; 32],
) -> Option<MinKycError> {
    if identity.revoked {
        Some(MinKycError::IdentityRevoked)
    } else if !proof_accepted(proof, identity.commitment, requirement_hash) {
        Some(MinKycError::InvalidProof)
    } else if receipt.used {
        Some(MinKycError::ProofAlreadyUsed)
    } else if identity.verification_count == u64::MAX {
        Some(MinKycError::CounterOverflow)
    } else {
        None
    }
}

/// The identity after one more proof was accepted for it.
pub open spec fn identity_after_verification(identity: IdentityAccount) -> IdentityAccount {
    IdentityAccount {
        verified: true,
        verification_count: (identity.verification_count + 1) as u64,
        ..identity
    }
}

/// The receipt that records the acceptance of a proof for `identity`.
pub open spec fn receipt_of_verification(
    identity: IdentityAccount,
    nullifier: [u8; 32],
    requirement_hash: [u8; 32],
    timestamp: i64,
    slot: u64,
) -> ProofReceipt {
    ProofReceipt {
        used: true,
        proof_hash: nullifier,
        requirement_hash,
        timestamp,
        slot,
        identity_index: identity.index,
        owner: identity.authority,
    }
}

/// The event that tells of the acceptance of a proof for `identity`.
pub open spec fn event_of_verification(
    identity: IdentityAccount,
    nullifier: [u8; 32],
    requirement_hash: [u8; 32],
    timestamp: i64,
    slot: u64,
) -> VerificationEvent {
    VerificationEvent {
        identity_index: identity.index,
        owner: identity.authority,
        requirement_hash,
        proof_hash: nullifier,
        timestamp,
        slot,
    }
}

/// Verifies `proof` for the identity in `ctx`, entering it in the ledger
/// under `nullifier`.
///
/// `nullifier` is the key under which the proof is consumed: the host has
/// looked up `ctx.proof_receipt` with it. [`verify_proof`] derives it from the
/// proof's bytes.
///
/// The call is refused, and `ctx` left as it was, if the identity is revoked,
/// if the proof predicate rejects the proof, if the receipt is used already,
/// or if the identity's count of verifications cannot grow, in this order.
/// Otherwise the receipt is filled in and marked used, the identity is marked
/// verified and its count grows by one, and the event to announce is returned.
pub fn process_verify_proof(
    ctx: &mut VerifyProof,
    nullifier: [u8; 32],
    proof: Vec<u8>,
    requirement_hash: [u8; 32],
    timestamp: i64,
    slot: u64,
) -> (result: Result<VerificationEvent, MinKycError>)
    ensures
        final(ctx).verifier == old(ctx).verifier,
        old(ctx).identity.well_formed() ==> final(ctx).identity.well_formed(),
        match verification_refusal(
            old(ctx).identity,
            old(ctx).proof_receipt,
            proof@,
            requirement_hash,
        ) {
            Some(refusal) => result == Err::<VerificationEvent, MinKycError>(refusal) && *final(ctx)
                == *old(ctx),
            None => result == Ok::<VerificationEvent, MinKycError>(
                event_of_verification(
                    old(ctx).identity,
                    nullifier,
                    requirement_hash,
                    timestamp,
                    slot,
                ),
            ) && final(ctx).identity == identity_after_verification(old(ctx).identity)
                && final(ctx).proof_receipt == receipt_of_verification(
                old(ctx).identity,
                nullifier,
                requirement_hash,
                timestamp,
                slot,
            ),
        },
{
    if ctx.identity.revoked {
        return Err(MinKycError::IdentityRevoked);
    }
    if !check_proof(&proof, &ctx.identity.commitment, &requirement_hash) {
        return Err(MinKycError::InvalidProof);
    }
    if ctx.proof_receipt.used {
        return Err(MinKycError::ProofAlreadyUsed);
    }
    let count = match ctx.identity.verification_count.checked_add(1) {
        Some(count) => count,
        None => {
            return Err(MinKycError::CounterOverflow);
        },
    };
    ctx.proof_receipt = ProofReceipt {
        used: true,
        proof_hash: nullifier,
        requirement_hash,
        timestamp,
        slot,
        identity_index: ctx.identity.index,
        owner: ctx.identity.authority,
    };
    ctx.identity.verification_count = count;
    ctx.identity.verified = true;
    Ok(
        VerificationEvent {
            identity_index: ctx.identity.index,
            owner: ctx.identity.authority,
            requirement_hash,
            proof_hash: nullifier,
            timestamp,
            slot,
        },
    )
}

/// Verifies `proof` for the identity in `ctx`, entering it in the ledger
/// under the digest of its bytes.
///
/// `ctx.proof_receipt` is what the ledger holds for this identity and that
/// digest. See [`process_verify_proof`] for what is refused and what changes.
pub fn verify_proof(
    ctx: &mut VerifyProof,
    proof: Vec<u8>,
    requirement_hash: [u8; 32],
    timestamp: i64,
    slot: u64,
) -> (result: Result<VerificationEvent, MinKycError>)
    ensures
        final(ctx).verifier == old(ctx).verifier,
        old(ctx).identity.well_formed() ==> final(ctx).identity.well_formed(),
        match verification_refusal(
            old(ctx).identity,
            old(ctx).proof_receipt,
            proof@,
            requirement_hash,
        ) {
            Some(refusal) => result == Err::<VerificationEvent, MinKycError>(refusal) && *final(ctx)
                == *old(ctx),
            None => result == Ok::<VerificationEvent, MinKycError>(
                event_of_verification(
                    old(ctx).identity,
                    sha256(proof@),
                    requirement_hash,
                    timestamp,
                    slot,
                ),
            ) && final(ctx).identity == identity_after_verification(old(ctx).identity)
                && final(ctx).proof_receipt == receipt_of_verification(
                old(ctx).identity,
                sha256(proof@),
                requirement_hash,
                timestamp,
                slot,
            ),
        },
{
    let nullifier = proof_hash(&proof);
    process_verify_proof(ctx, nullifier, proof, requirement_hash, timestamp, slot)
}

} // verus!
