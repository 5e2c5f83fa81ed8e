use vstd::prelude::*;
use crate::errors::MinKycError;
use crate::state::identity::IdentityAccount;

verus! {

/// The records that the creation of an owner's single identity works on.
#[derive(Clone, Copy, Debug, PartialEq, Eq)]
pub struct InitializeIdentity {
    /// What the store holds at the address `(authority, 0)`: `None` if it is
    /// vacant.
    pub identity: Option<IdentityAccount>,
    /// The principal that creates the identity and will own it.
    pub authority: [u8; 32],
}

/// Creates the identity of `ctx.authority`, at index 0.
///
/// The call is refused with `IdentityAlreadyExists`, and `ctx` left as it
/// was, if the address is occupied: an owner cannot take or replace an
/// identity that exists.
pub fn process_initialize_identity(
    ctx: &mut InitializeIdentity,
    commitment: [u8; 32],
    created_at: i64,
) -> (result: Result<(), MinKycError>)
    ensures
        final(ctx).authority == old(ctx).authority,
        old(ctx).identity is Some ==> result == Err::<(), MinKycError>(
            MinKycError::IdentityAlreadyExists,
        ) && *final(ctx) == *old(ctx),
        old(ctx).identity is None ==> result is Ok && final(ctx).identity == Some(
            IdentityAccount::fresh(old(ctx).authority, 0, commitment, created_at),
        ),
{
    if ctx.identity.is_some() {
        return Err(MinKycError::IdentityAlreadyExists);
    }
    ctx.identity = Some(IdentityAccount::new(ctx.authority, 0, commitment, created_at));
    Ok(())
}

} // verus!
