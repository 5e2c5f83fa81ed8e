use vstd::prelude::*;
use crate::bytes::bytes_eq;
use crate::errors::MinKycError;
use crate::state::identity::IdentityAccount;

verus! {

/// The records that a revocation works on.
#[derive(Clone, Copy, Debug, PartialEq, Eq)]
pub struct RevokeIdentity {
    /// The identity to be revoked.
    pub identity: IdentityAccount,
    /// The principal that asks for the revocation.
    pub authority: [u8; 32],
}

/// Why a revocation is refused, if it is. The first reason that applies is
/// the one reported.
pub open spec fn revocation_refusal(identity: IdentityAccount, caller: [u8; 32]) -> Option<
    MinKycError,
> {
    if caller != identity.authority {
        Some(MinKycError::Unauthorized)
    } else if identity.revoked {
        Some(MinKycError::AlreadyRevoked)
    } else {
        None
    }
}

/// The identity after its revocation. What it committed to stays on record.
pub open spec fn identity_after_revocation(identity: IdentityAccount) -> IdentityAccount {
    IdentityAccount { revoked: true, verified: false, ..identity }
}

/// Revokes the identity in `ctx`, for good.
///
/// The call is refused, and `ctx` left as it was, if the caller is not the
/// owner or, else, if the identity is revoked already. Otherwise the identity
/// is marked revoked and no longer verified; nothing else of it changes.
pub fn process_revoke_identity(ctx: &mut RevokeIdentity) -> (result: Result<(), MinKycError>)
    ensures
        final(ctx).authority == old(ctx).authority,
        old(ctx).identity.well_formed() ==> final(ctx).identity.well_formed(),
        match revocation_refusal(old(ctx).identity, old(ctx).authority) {
            Some(refusal) => result == Err::<(), MinKycError>(refusal) && *final(ctx) == *old(ctx),
            None => result is Ok && final(ctx).identity == identity_after_revocation(
                old(ctx).identity,
            ),
        },
{
    if !bytes_eq(&ctx.authority, &ctx.identity.authority) {
        return Err(MinKycError::Unauthorized);
    }
    if ctx.identity.revoked {
        return Err(MinKycError::AlreadyRevoked);
    }
    ctx.identity.revoked = true;
    ctx.identity.verified = false;
    Ok(())
}

} // verus!
