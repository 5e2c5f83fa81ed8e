use vstd::prelude::*;

verus! {

/// Where an identity stands in its lifecycle.
///
/// `Fresh` may become `Verified`; either may become `Revoked`; nothing leaves
/// `Revoked`, and nothing returns to `Fresh`.
#[derive(Clone, Copy, Debug, PartialEq, Eq, Structural)]
pub enum IdentityStatus {
    /// Created, not yet verified, not revoked.
    Fresh,
    /// At least one proof was accepted.
    Verified,
    /// Revoked by its owner.
    Revoked,
}

/// One registered identity.
///
/// It lives at the address `(authority, index)`; neither changes after
/// creation.
#[derive(Clone, Copy, Debug, PartialEq, Eq)]
pub struct IdentityAccount {
    /// The principal that controls the identity.
    pub authority: [u8; 32],
    /// Tells apart the identities of one owner; 0 where an owner has one.
    pub index: u64,
    /// Digest that commits to the owner's private attributes.
    pub commitment: [u8; 32],
    /// Whether a proof was accepted and the identity was not revoked since.
    pub verified: bool,
    /// Whether the identity was revoked.
    pub revoked: bool,
    /// How many proofs were accepted for this identity.
    pub verification_count: u64,
    /// When the identity was created.
    pub created_at: i64,
}

/// The identity record under the name used by the multi-identity entry points.
pub type Identity = IdentityAccount;

impl IdentityAccount {
    /// The record of an identity that was just created.
    pub open spec fn fresh(
        authority: [u8; 32],
        index: u64,
        commitment: [u8; 32],
        created_at: i64,
    ) -> IdentityAccount {
        IdentityAccount {
            authority,
            index,
            commitment,
            verified: false,
            revoked: false,
            verification_count: 0,
            created_at,
        }
    }

    /// What holds of every record that was created fresh and changed by the
    /// operations only: the two flags never hold together, since revoking
    /// clears `verified`; a verified identity has at least one verification
    /// to its name; and one that is neither verified nor revoked has none.
    pub open spec fn well_formed(&self) -> bool {
        &&& !(self.verified && self.revoked)
        &&& self.verified ==> self.verification_count > 0
        &&& !self.verified && !self.revoked ==> self.verification_count == 0
    }

    /// The address of the record.
    pub open spec fn key(&self) -> ([u8; 32], u64) {
        (self.authority, self.index)
    }

    /// The status that the two flags stand for. `revoked` dominates.
    pub open spec fn spec_status(&self) -> IdentityStatus {
        if self.revoked {
            IdentityStatus::Revoked
        } else if self.verified {
            IdentityStatus::Verified
        } else {
            IdentityStatus::Fresh
        }
    }

    /// Creates the record of a new identity.
    pub fn new(authority: [u8; 32], index: u64, commitment: [u8; 32], created_at: i64) -> (identity:
        IdentityAccount)
        ensures
            identity == IdentityAccount::fresh(authority, index, commitment, created_at),
    {
        IdentityAccount {
            authority,
            index,
            commitment,
            verified: false,
            revoked: false,
            verification_count: 0,
            created_at,
        }
    }

    /// The status of the identity.
    #[verifier::when_used_as_spec(spec_status)]
    pub fn status(&self) -> (status: IdentityStatus)
        ensures
            status == self.spec_status(),
    {
        if self.revoked {
            IdentityStatus::Revoked
        } else if self.verified {
            IdentityStatus::Verified
        } else {
            IdentityStatus::Fresh
        }
    }
}

} // verus!
