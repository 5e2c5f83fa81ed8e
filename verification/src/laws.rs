//! What holds of every registry and of every sequence of operations on it.
//!
//! The laws are stated over [`RegistryState`], which is what the operations of
//! [`crate::registry`] are specified by: whatever is proved here of
//! `after_*` and `*_result` holds of the calls themselves.

use vstd::prelude::*;
use crate::errors::MinKycError;
use crate::events::VerificationEvent;
use crate::hash::sha256;
use crate::instructions::verify_proof::receipt_of_verification;
use crate::model::{Operation, RegistryState};
use crate::state::identity::{IdentityAccount, IdentityStatus};

verus! {

/// No operation removes an identity, moves it, or changes who owns it and
/// when it was created; and none lowers its count of verifications.
pub proof fn lemma_identity_persists(
    state: RegistryState,
    owner: [u8; 32],
    index: u64,
    op: Operation,
)
    requires
        state.identities.contains_key((owner, index)),
    ensures
        state.apply(op).multi_identity == state.multi_identity,
        state.apply(op).identities.contains_key((owner, index)),
        state.apply(op).identities[(owner, index)].authority == state.identities[(
            owner,
            index,
        )].authority,
        state.apply(op).identities[(owner, index)].index == state.identities[(owner, index)].index,
        state.apply(op).identities[(owner, index)].created_at == state.identities[(
            owner,
            index,
        )].created_at,
        state.apply(op).identities[(owner, index)].verification_count
            >= state.identities[(owner, index)].verification_count,
{
}

/// The count of verifications of an identity never goes down, whatever is
/// done to the registry.
pub proof fn lemma_count_never_decreases(
    state: RegistryState,
    owner: [u8; 32],
    index: u64,
    ops: Seq<Operation>,
)
    requires
        state.identities.contains_key((owner, index)),
    ensures
        state.apply_all(ops).multi_identity == state.multi_identity,
        state.apply_all(ops).identities.contains_key((owner, index)),
        state.apply_all(ops).identities[(owner, index)].verification_count
            >= state.identities[(owner, index)].verification_count,
    decreases ops.len(),
{
    if ops.len() > 0 {
        lemma_identity_persists(state, owner, index, ops.first());
        lemma_count_never_decreases(state.apply(ops.first()), owner, index, ops.drop_first());
    }
}

/// The count of verifications of an identity grows by exactly one with each
/// proof that is accepted for it, and by nothing else.
pub proof fn lemma_count_counts_accepted_proofs(
    state: RegistryState,
    owner: [u8; 32],
    index: u64,
    ops: Seq<Operation>,
)
    requires
        state.identities.contains_key((owner, index)),
    ensures
        state.apply_all(ops).identities.contains_key((owner, index)),
        state.apply_all(ops).identities[(owner, index)].verification_count
            == state.identities[(owner, index)].verification_count + state.accepted_proofs(
            owner,
            index,
            ops,
        ),
    decreases ops.len(),
{
    if ops.len() > 0 {
        lemma_identity_persists(state, owner, index, ops.first());
        lemma_count_counts_accepted_proofs(
            state.apply(ops.first()),
            owner,
            index,
            ops.drop_first(),
        );
    }
}

/// An identity starts with no verifications, and after any operations its
/// count is the number of proofs that were accepted for it since.
pub proof fn lemma_count_of_new_identity(
    state: RegistryState,
    owner: [u8; 32],
    commitment: [u8; 32],
    created_at: i64,
    ops: Seq<Operation>,
)
    requires
        state.initialize_identity_result(owner, commitment, created_at) is Ok,
    ensures
        ({
            let created = state.after_initialize_identity(owner, commitment, created_at);
            let index = state.next_index(owner);
            &&& created.identities.contains_key((owner, index))
            &&& created.identities[(owner, index)].verification_count == 0
            &&& created.apply_all(ops).identities.contains_key((owner, index))
            &&& created.apply_all(ops).identities[(owner, index)].verification_count
                == created.accepted_proofs(owner, index, ops)
        }),
{
    let created = state.after_initialize_identity(owner, commitment, created_at);
    lemma_count_counts_accepted_proofs(created, owner, state.next_index(owner), ops);
}

/// On a revoked identity every operation is refused and changes nothing.
pub proof fn lemma_revoked_refuses(state: RegistryState, owner: [u8; 32], index: u64, op: Operation)
    requires
        state.identities.contains_key((owner, index)),
        state.identities[(owner, index)].revoked,
        op.targets(owner, index),
    ensures
        !state.accepts(op),
        state.apply(op) == state,
        op is VerifyProof ==> state.verify_result(
            owner,
            index,
            op->nullifier,
            op->proof,
            op->requirement_hash,
            op->timestamp,
            op->slot,
        ) == Some(Err::<VerificationEvent, MinKycError>(MinKycError::IdentityRevoked)),
{
}

/// Revocation is final: once an identity is revoked, its record never
/// changes again, whatever is done to the registry, and every later
/// operation on it is refused.
pub proof fn lemma_revocation_is_final(
    state: RegistryState,
    owner: [u8; 32],
    index: u64,
    ops: Seq<Operation>,
    op: Operation,
)
    requires
        state.identities.contains_key((owner, index)),
        state.identities[(owner, index)].revoked,
        op.targets(owner, index),
    ensures
        state.apply_all(ops).identities.contains_key((owner, index)),
        state.apply_all(ops).identities[(owner, index)] == state.identities[(owner, index)],
        !state.apply_all(ops).accepts(op),
        state.apply_all(ops).apply(op) == state.apply_all(ops),
    decreases ops.len(),
{
    if ops.len() > 0 {
        lemma_revocation_is_final(state.apply(ops.first()), owner, index, ops.drop_first(), op);
    }
}

/// The status of an identity only moves forward: a fresh identity may become
/// verified or revoked, a verified one may become revoked, and a revoked one
/// stays revoked.
pub proof fn lemma_status_moves_forward(
    state: RegistryState,
    owner: [u8; 32],
    index: u64,
    op: Operation,
)
    requires
        state.identities.contains_key((owner, index)),
    ensures
        state.apply(op).identities.contains_key((owner, index)),
        match state.identities[(owner, index)].status() {
            IdentityStatus::Fresh => true,
            IdentityStatus::Verified => state.apply(op).identities[(owner, index)].status()
                != IdentityStatus::Fresh,
            IdentityStatus::Revoked => state.apply(op).identities[(owner, index)].status()
                == IdentityStatus::Revoked,
        },
        state.apply(op).identities[(owner, index)].status() != state.identities[(
            owner,
            index,
        )].status() ==> op.targets(owner, index) && state.accepts(op),
{
}

/// Whether an identity is neither verified nor revoked.
pub open spec fn is_fresh(identity: IdentityAccount) -> bool {
    !identity.verified && !identity.revoked
}

/// An operation changes the commitment of an identity only if the identity
/// is neither verified nor revoked; and an identity that is no longer fresh
/// does not become fresh again.
pub proof fn lemma_commitment_changes_only_while_fresh(
    state: RegistryState,
    owner: [u8; 32],
    index: u64,
    op: Operation,
)
    requires
        state.identities.contains_key((owner, index)),
    ensures
        state.apply(op).identities.contains_key((owner, index)),
        state.apply(op).identities[(owner, index)].commitment != state.identities[(
            owner,
            index,
        )].commitment ==> is_fresh(state.identities[(owner, index)]) && op
            is RegisterCommitment && op.targets(owner, index),
        !is_fresh(state.identities[(owner, index)]) ==> !is_fresh(
            state.apply(op).identities[(owner, index)],
        ),
{
}

/// From the moment an identity is verified or revoked, its commitment is the
/// same for ever.
pub proof fn lemma_commitment_is_fixed_once_verified(
    state: RegistryState,
    owner: [u8; 32],
    index: u64,
    ops: Seq<Operation>,
)
    requires
        state.identities.contains_key((owner, index)),
        !is_fresh(state.identities[(owner, index)]),
    ensures
        state.apply_all(ops).identities.contains_key((owner, index)),
        !is_fresh(state.apply_all(ops).identities[(owner, index)]),
        state.apply_all(ops).identities[(owner, index)].commitment == state.identities[(
            owner,
            index,
        )].commitment,
    decreases ops.len(),
{
    if ops.len() > 0 {
        lemma_commitment_changes_only_while_fresh(state, owner, index, ops.first());
        lemma_commitment_is_fixed_once_verified(
            state.apply(ops.first()),
            owner,
            index,
            ops.drop_first(),
        );
    }
}

/// A change of the commitment of a verified identity is refused and changes
/// nothing: with `IdentityImmutable` where the owner asks for it, with
/// `Unauthorized` where another does.
pub proof fn lemma_verified_is_immutable(
    state: RegistryState,
    owner: [u8; 32],
    index: u64,
    caller: [u8; 32],
    commitment: [u8; 32],
)
    requires
        state.identities.contains_key((owner, index)),
        state.identities[(owner, index)].verified,
    ensures
        state.register_commitment_result(owner, index, caller) == Some(
            Err::<(), MinKycError>(
                if caller == state.identities[(owner, index)].authority {
                    MinKycError::IdentityImmutable
                } else {
                    MinKycError::Unauthorized
                },
            ),
        ),
        state.after_register_commitment(owner, index, caller, commitment) == state,
{
}

/// A receipt that is marked used never changes again and is never removed.
pub proof fn lemma_used_receipt_is_frozen(
    state: RegistryState,
    owner: [u8; 32],
    index: u64,
    nullifier: [u8; 32],
    ops: Seq<Operation>,
)
    requires
        state.receipts.contains_key((owner, index, nullifier)),
        state.receipts[(owner, index, nullifier)].used,
    ensures
        state.apply_all(ops).receipts.contains_key((owner, index, nullifier)),
        state.apply_all(ops).receipts[(owner, index, nullifier)] == state.receipts[(
            owner,
            index,
            nullifier,
        )],
    decreases ops.len(),
{
    if ops.len() > 0 {
        lemma_used_receipt_is_frozen(
            state.apply(ops.first()),
            owner,
            index,
            nullifier,
            ops.drop_first(),
        );
    }
}

/// A proof is accepted for an identity at most once. After it was accepted,
/// its receipt stays in the ledger as it was entered, and the same bytes
/// presented for the same identity again are refused, whatever was done to
/// the registry in between and whatever requirement they are presented for:
/// with `ProofAlreadyUsed`, or with `IdentityRevoked` where the identity was
/// revoked since.
pub proof fn lemma_proof_is_accepted_once(
    state: RegistryState,
    owner: [u8; 32],
    index: u64,
    proof: Seq<u8>,
    requirement_hash: [u8; 32],
    timestamp: i64,
    slot: u64,
    ops: Seq<Operation>,
    later_requirement_hash: [u8; 32],
    later_timestamp: i64,
    later_slot: u64,
)
    requires
        state.verify_proof_result(owner, index, proof, requirement_hash, timestamp, slot) matches Some(
            Ok(_),
        ),
    ensures
        ({
            let later = state.after_verify_proof(
                owner,
                index,
                proof,
                requirement_hash,
                timestamp,
                slot,
            ).apply_all(ops);
            &&& later.identities.contains_key((owner, index))
            &&& later.receipts.contains_key((owner, index, sha256(proof)))
            &&& later.receipts[(owner, index, sha256(proof))] == receipt_of_verification(
                state.identities[(owner, index)],
                sha256(proof),
                requirement_hash,
                timestamp,
                slot,
            )
            &&& later.verify_proof_result(
                owner,
                index,
                proof,
                later_requirement_hash,
                later_timestamp,
                later_slot,
            ) == Some(
                Err::<VerificationEvent, MinKycError>(
                    if later.identities[(owner, index)].revoked {
                        MinKycError::IdentityRevoked
                    } else {
                        MinKycError::ProofAlreadyUsed
                    },
                ),
            )
            &&& later.after_verify_proof(
                owner,
                index,
                proof,
                later_requirement_hash,
                later_timestamp,
                later_slot,
            ) == later
        }),
{
    let accepted = state.after_verify_proof(
        owner,
        index,
        proof,
        requirement_hash,
        timestamp,
        slot,
    );
    lemma_count_never_decreases(accepted, owner, index, ops);
    lemma_used_receipt_is_frozen(accepted, owner, index, sha256(proof), ops);
}

/// Where an identity occupies the address at which the next identity of
/// `owner` would be created, the creation is refused with
/// `IdentityAlreadyExists` and changes nothing: the identity that is there
/// stays as it is.
pub proof fn lemma_occupied_address_refuses_creation(
    state: RegistryState,
    owner: [u8; 32],
    commitment: [u8; 32],
    created_at: i64,
)
    requires
        state.identities.contains_key((owner, state.next_index(owner))),
    ensures
        state.initialize_identity_result(owner, commitment, created_at) == Err::<
            IdentityAccount,
            MinKycError,
        >(MinKycError::IdentityAlreadyExists),
        state.after_initialize_identity(owner, commitment, created_at) == state,
{
}

/// Where an owner has a single identity, the owner can create it only once:
/// after it was created, every later creation for the same owner is refused
/// with `IdentityAlreadyExists` and changes nothing, whatever was done to the
/// registry in between.
pub proof fn lemma_single_identity_is_created_once(
    state: RegistryState,
    owner: [u8; 32],
    commitment: [u8; 32],
    created_at: i64,
    ops: Seq<Operation>,
    later_commitment: [u8; 32],
    later_created_at: i64,
)
    requires
        !state.multi_identity,
        state.initialize_identity_result(owner, commitment, created_at) is Ok,
    ensures
        ({
            let later = state.after_initialize_identity(owner, commitment, created_at).apply_all(
                ops,
            );
            &&& later.initialize_identity_result(owner, later_commitment, later_created_at) == Err::<
                IdentityAccount,
                MinKycError,
            >(MinKycError::IdentityAlreadyExists)
            &&& later.after_initialize_identity(owner, later_commitment, later_created_at) == later
        }),
{
    let created = state.after_initialize_identity(owner, commitment, created_at);
    lemma_count_never_decreases(created, owner, 0, ops);
}

/// Where an owner may have several identities, each creation that succeeds
/// gets the index that the owner's counter gave and moves the counter on by
/// exactly one, so the owner's next identity gets another address.
pub proof fn lemma_counter_advances_by_one(
    state: RegistryState,
    owner: [u8; 32],
    commitment: [u8; 32],
    created_at: i64,
)
    requires
        state.multi_identity,
        state.initialize_identity_result(owner, commitment, created_at) is Ok,
    ensures
        ({
            let created = state.after_initialize_identity(owner, commitment, created_at);
            &&& created.identities.contains_key((owner, state.next_index(owner)))
            &&& created.next_index(owner) == state.next_index(owner) + 1
        }),
{
}

/// Every operation keeps a well-formed registry well formed.
pub proof fn lemma_well_formed_is_kept(state: RegistryState, op: Operation)
    requires
        state.well_formed(),
    ensures
        state.apply(op).well_formed(),
{
    let next = state.apply(op);
    assert forall|key: ([u8; 32], u64)| #[trigger] next.identities.contains_key(key) implies {
        &&& next.nullifiers_of(key.0, key.1).finite()
        &&& next.nullifiers_of(key.0, key.1).len() == next.identities[key].verification_count
    } by {
        let before = state.nullifiers_of(key.0, key.1);
        let after = next.nullifiers_of(key.0, key.1);
        if !state.identities.contains_key(key) {
            assert(after =~= Set::empty());
        } else if op is VerifyProof && op.targets(key.0, key.1) && state.accepts(op) {
            assert(!state.receipts.contains_key((key.0, key.1, op->nullifier)));
            assert(after =~= before.insert(op->nullifier));
        } else {
            assert(after =~= before);
        }
    }
}

/// A registry that started empty and was changed by the operations only is
/// well formed.
pub proof fn lemma_reachable_is_well_formed(multi_identity: bool, ops: Seq<Operation>)
    ensures
        RegistryState::empty(multi_identity).apply_all(ops).well_formed(),
{
    lemma_well_formed_is_kept_by_all(RegistryState::empty(multi_identity), ops);
}

/// Every sequence of operations keeps a well-formed registry well formed.
pub proof fn lemma_well_formed_is_kept_by_all(state: RegistryState, ops: Seq<Operation>)
    requires
        state.well_formed(),
    ensures
        state.apply_all(ops).well_formed(),
    decreases ops.len(),
{
    if ops.len() > 0 {
        lemma_well_formed_is_kept(state, ops.first());
        lemma_well_formed_is_kept_by_all(state.apply(ops.first()), ops.drop_first());
    }
}

/// Where an owner may have several identities, the address that the owner's
/// counter gives is vacant: in a well-formed registry the creation of an
/// identity is never refused because one exists, only where the counter is
/// at its maximum.
pub proof fn lemma_numbered_address_is_vacant(
    state: RegistryState,
    owner: [u8; 32],
    commitment: [u8; 32],
    created_at: i64,
)
    requires
        state.well_formed(),
        state.multi_identity,
    ensures
        !state.identities.contains_key((owner, state.next_index(owner))),
        state.initialize_identity_result(owner, commitment, created_at) is Ok
            <==> state.next_index(owner) < u64::MAX,
{
}

/// In a well-formed registry, the count of verifications of an identity is
/// the number of receipts that the ledger holds for it, and each of them is
/// used.
pub proof fn lemma_count_is_number_of_receipts(state: RegistryState, owner: [u8; 32], index: u64)
    requires
        state.well_formed(),
        state.identities.contains_key((owner, index)),
    ensures
        state.nullifiers_of(owner, index).finite(),
        state.nullifiers_of(owner, index).len() == state.identities[(
            owner,
            index,
        )].verification_count,
        forall|nullifier: [u8; 32]| #[trigger]
            state.nullifiers_of(owner, index).contains(nullifier) ==> state.receipts[(
                owner,
                index,
                nullifier,
            )].used,
{
}

} // verus!
