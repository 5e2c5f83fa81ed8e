use vstd::prelude::*;
use crate::errors::MinKycError;
use crate::state::counter::IdentityCounter;
use crate::state::identity::IdentityAccount;

verus! {

/// The records that the creation of one more identity of an owner works on.
#[derive(Clone, Copy, Debug, PartialEq, Eq)]
pub struct Initialize {
    /// The owner's counter, as the store holds it, or a new one at zero.
    pub identity_counter: IdentityCounter,
    /// What the store holds at the address `(owner, identity_counter.count)`:
    /// `None` if it is vacant.
    pub identity: Option<IdentityAccount>,
    /// The principal that creates the identity and will own it.
    pub owner: [u8; 32],
}

/// Why the creation is refused, if it is.
pub open spec fn initialize_refusal(ctx: Initialize) -> Option<MinKycError> {
    if ctx.identity is Some {
        Some(MinKycError::IdentityAlreadyExists)
    } else if ctx.identity_counter.count == u64::MAX {
        Some(MinKycError::CounterOverflow)
    } else {
        None
    }
}

/// Creates the owner's next identity, with the index that the counter gives,
/// and moves the counter on by one.
///
/// The call is refused, and `ctx` left as it was, if the address is occupied
/// or, else, if the counter is at its maximum.
pub fn initialize(ctx: &mut Initialize, commitment: [u8; 32], created_at: i64) -> (result: Result<
    (),
    MinKycError,
>)
    ensures
        final(ctx).owner == old(ctx).owner,
        match initialize_refusal(*old(ctx)) {
            Some(refusal) => result == Err::<(), MinKycError>(refusal) && *final(ctx) == *old(ctx),
            None => result is Ok && final(ctx).identity == Some(
                IdentityAccount::fresh(
                    old(ctx).owner,
                    old(ctx).identity_counter.count,
                    commitment,
                    created_at,
                ),
            ) && final(ctx).identity_counter.count == old(ctx).identity_counter.count + 1,
        },
{
    if ctx.identity.is_some() {
        return Err(MinKycError::IdentityAlreadyExists);
    }
    let index = ctx.identity_counter.advance()?;
    ctx.identity = Some(IdentityAccount::new(ctx.owner, index, commitment, created_at));
    Ok(())
}

} // verus!
