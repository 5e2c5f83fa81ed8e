use vstd::prelude::*;
use crate::bytes::bytes_eq;
use crate::errors::MinKycError;
use crate::state::identity::IdentityAccount;

verus! {

/// The records that a change of commitment works on.
#[derive(Clone, Copy, Debug, PartialEq, Eq)]
pub struct RegisterCommitment {
    /// The identity whose commitment is to change.
    pub identity: IdentityAccount,
    /// The principal that asks for the change.
    pub authority: [u8; 32],
}

/// Why a change of commitment is refused, if it is. The first reason that
/// applies is the one reported.
pub open spec fn registration_refusal(identity: IdentityAccount, caller: [u8; 32]) -> Option<
    MinKycError,
> {
    if caller != identity.authority {
        Some(MinKycError::Unauthorized)
    } else if identity.verified {
        Some(MinKycError::IdentityImmutable)
    } else if identity.revoked {
        Some(MinKycError::IdentityRevoked)
    } else {
        None
    }
}

/// The identity after its commitment was replaced.
pub open spec fn identity_after_registration(
    identity: IdentityAccount,
    commitment: [u8; 32],
) -> IdentityAccount {
    IdentityAccount { commitment, ..identity }
}

/// Replaces the commitment of the identity in `ctx`.
///
/// The call is refused, and `ctx` left as it was, if the caller is not the
/// owner, if the identity is verified, or if it is revoked, in this order:
/// a proof is accepted for the commitment as it stands, so the commitment must
/// not change under it afterwards. The commitment itself is not examined.
pub fn process_register_commitment(ctx: &mut RegisterCommitment, commitment: [u8; 32]) -> (result:
    Result<(), MinKycError>)
    ensures
        final(ctx).authority == old(ctx).authority,
        old(ctx).identity.well_formed() ==> final(ctx).identity.well_formed(),
        match registration_refusal(old(ctx).identity, old(ctx).authority) {
            Some(refusal) => result == Err::<(), MinKycError>(refusal) && *final(ctx) == *old(ctx),
            None => result is Ok && final(ctx).identity == identity_after_registration(
                old(ctx).identity,
                commitment,
            ),
        },
{
    if !bytes_eq(&ctx.authority, &ctx.identity.authority) {
        return Err(MinKycError::Unauthorized);
    }
    if ctx.identity.verified {
        return Err(MinKycError::IdentityImmutable);
    }
    if ctx.identity.revoked {
        return Err(MinKycError::IdentityRevoked);
    }
    ctx.identity.commitment = commitment;
    Ok(())
}

} // verus!
