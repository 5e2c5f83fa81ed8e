use vstd::prelude::*;
use crate::bytes::bytes_eq;
use crate::errors::MinKycError;
use crate::events::VerificationEvent;
use crate::hash::proof_hash;
use crate::instructions::initialize::{initialize, Initialize};
use crate::instructions::initialize_identity::{process_initialize_identity, InitializeIdentity};
use crate::instructions::register_commitment::{process_register_commitment, RegisterCommitment};
use crate::instructions::revoke_identity::{process_revoke_identity, RevokeIdentity};
use crate::instructions::verify_proof::{process_verify_proof, VerifyProof};
use crate::laws::lemma_well_formed_is_kept;
use crate::model::{Operation, RegistryState};
use crate::state::counter::IdentityCounter;
use crate::state::identity::IdentityAccount;
use crate::state::receipt::ProofReceipt;
use crate::table::{Row, Table};

verus! {

impl Row for IdentityAccount {
    type Key = ([u8; 32], u64);

    open spec fn row_key(&self) -> ([u8; 32], u64) {
        self.key()
    }

    fn has_key(&self, key: &([u8; 32], u64)) -> (found: bool) {
        self.index == key.1 && bytes_eq(&self.authority, &key.0)
    }
}

impl Row for ProofReceipt {
    type Key = ([u8; 32], u64, [u8; 32]);

    open spec fn row_key(&self) -> ([u8; 32], u64, [u8; 32]) {
        self.key()
    }

    fn has_key(&self, key: &([u8; 32], u64, [u8; 32])) -> (found: bool) {
        self.identity_index == key.1 && bytes_eq(&self.owner, &key.0) && bytes_eq(
            &self.proof_hash,
            &key.2,
        )
    }
}

/// The counter of one owner, as the registry stores it.
#[derive(Clone, Copy)]
struct OwnerCounter {
    owner: [u8; 32],
    counter: IdentityCounter,
}

impl Row for OwnerCounter {
    type Key = [u8; 32];

    closed spec fn row_key(&self) -> [u8; 32] {
        self.owner
    }

    fn has_key(&self, key: &[u8; 32]) -> (found: bool) {
        bytes_eq(&self.owner, key)
    }
}

/// A registry of identities with its ledger of consumed proofs, in memory.
///
/// What it holds is `self@`. Each operation on it is one indivisible step:
/// it applies all of its effects or, where it is refused, none.
pub struct Registry {
    multi_identity: bool,
    identities: Table<IdentityAccount>,
    counters: Table<OwnerCounter>,
    receipts: Table<ProofReceipt>,
}

impl View for Registry {
    type V = RegistryState;

    closed spec fn view(&self) -> RegistryState {
        RegistryState {
            multi_identity: self.multi_identity,
            identities: self.identities@,
            counters: Map::new(
                |owner: [u8; 32]| self.counters@.contains_key(owner),
                |owner: [u8; 32]| self.counters@[owner].counter,
            ),
            receipts: self.receipts@,
        }
    }
}

/// The registry after an identity, and with it possibly the counter of its
/// owner and a receipt, were written, each under its own address.
spec fn written(
    state: RegistryState,
    identity: IdentityAccount,
    counter: Option<IdentityCounter>,
    receipt: Option<ProofReceipt>,
) -> RegistryState {
    RegistryState {
        multi_identity: state.multi_identity,
        identities: state.identities.insert(identity.key(), identity),
        counters: match counter {
            Some(counter) => state.counters.insert(identity.authority, counter),
            None => state.counters,
        },
        receipts: match receipt {
            Some(receipt) => state.receipts.insert(receipt.key(), receipt),
            None => state.receipts,
        },
    }
}

impl Registry {
    #[verifier::type_invariant]
    spec fn inv(self) -> bool {
        self.view().well_formed()
    }

    /// A registry in which nothing was created yet. With `multi_identity` an
    /// owner may create several identities, numbered from 0 by the owner's
    /// counter; without it an owner has at most one, at index 0.
    pub fn new(multi_identity: bool) -> (registry: Registry)
        ensures
            registry@ == RegistryState::empty(multi_identity),
    {
        let identities = Table::new();
        let counters = Table::new();
        let receipts = Table::new();
        proof {
            let empty = (Registry { multi_identity, identities, counters, receipts })@;
            assert(empty.counters =~= Map::empty());
        }
        Registry { multi_identity, identities, counters, receipts }
    }

    /// Whether an owner may have several identities.
    pub fn multi_identity(&self) -> (multi: bool)
        ensures
            self@.well_formed(),
            multi == self@.multi_identity,
    {
        proof {
            use_type_invariant(self);
        }
        self.multi_identity
    }

    /// The identity at `(owner, index)`, if there is one.
    pub fn identity(&self, owner: [u8; 32], index: u64) -> (identity: Option<IdentityAccount>)
        ensures
            self@.well_formed(),
            identity == (if self@.identities.contains_key((owner, index)) {
                Some(self@.identities[(owner, index)])
            } else {
                None
            }),
    {
        proof {
            use_type_invariant(self);
        }
        self.identities.get(&(owner, index))
    }

    /// The counter of `owner`, if the owner has one.
    pub fn counter(&self, owner: [u8; 32]) -> (counter: Option<IdentityCounter>)
        ensures
            self@.well_formed(),
            counter == (if self@.counters.contains_key(owner) {
                Some(self@.counters[owner])
            } else {
                None
            }),
    {
        proof {
            use_type_invariant(self);
        }
        match self.counters.get(&owner) {
            Some(row) => Some(row.counter),
            None => None,
        }
    }

    /// The receipt entered for the identity at `(owner, index)` under
    /// `proof_hash`, if there is one.
    pub fn receipt(&self, owner: [u8; 32], index: u64, proof_hash: [u8; 32]) -> (receipt: Option<
        ProofReceipt,
    >)
        ensures
            self@.well_formed(),
            receipt == (if self@.receipts.contains_key((owner, index, proof_hash)) {
                Some(self@.receipts[(owner, index, proof_hash)])
            } else {
                None
            }),
    {
        proof {
            use_type_invariant(self);
        }
        self.receipts.get(&(owner, index, proof_hash))
    }

    /// Writes up to three records in one step: an identity, the counter of
    /// its owner and a receipt, each under its own address.
    fn commit(
        &mut self,
        identity: IdentityAccount,
        counter: Option<IdentityCounter>,
        receipt: Option<ProofReceipt>,
    )
        requires
            written(old(self)@, identity, counter, receipt).well_formed(),
        ensures
            final(self)@ == written(old(self)@, identity, counter, receipt),
    {
        let mut taken = Registry::new(self.multi_identity);
        std::mem::swap(&mut taken, self);
        let Registry { multi_identity, mut identities, mut counters, mut receipts } = taken;
        identities.put(&(identity.authority, identity.index), identity);
        if let Some(counter) = counter {
            counters.put(&identity.authority, OwnerCounter { owner: identity.authority, counter });
        }
        if let Some(receipt) = receipt {
            receipts.put(&(receipt.owner, receipt.identity_index, receipt.proof_hash), receipt);
        }
        proof {
            let next = (Registry { multi_identity, identities, counters, receipts })@;
            assert(next.counters =~= written(old(self)@, identity, counter, receipt).counters);
        }
        *self = Registry { multi_identity, identities, counters, receipts };
    }
}

/// Creates an identity for `owner` with the given commitment and returns its
/// record.
///
/// In a registry with several identities for an owner, the identity gets
/// the index that the owner's counter gives, and the counter moves on by one;
/// else it gets index 0. The call is refused if an identity occupies that
/// address, or, else, if the counter is at its maximum.
pub fn initialize_identity(
    registry: &mut Registry,
    owner: [u8; 32],
    commitment: [u8; 32],
    created_at: i64,
) -> (result: Result<IdentityAccount, MinKycError>)
    ensures
        result == old(registry)@.initialize_identity_result(owner, commitment, created_at),
        final(registry)@ == old(registry)@.after_initialize_identity(owner, commitment, created_at),
        final(registry)@.well_formed(),
{
    proof {
        use_type_invariant(&*registry);
        lemma_well_formed_is_kept(
            registry@,
            Operation::InitializeIdentity { owner, commitment, created_at },
        );
    }
    if registry.multi_identity {
        let identity_counter = match registry.counters.get(&owner) {
            Some(row) => row.counter,
            None => IdentityCounter::new(),
        };
        let mut ctx = Initialize {
            identity_counter,
            identity: registry.identities.get(&(owner, identity_counter.count)),
            owner,
        };
        initialize(&mut ctx, commitment, created_at)?;
        let identity = ctx.identity.unwrap();
        registry.commit(identity, Some(ctx.identity_counter), None);
        Ok(identity)
    } else {
        let mut ctx = InitializeIdentity {
            identity: registry.identities.get(&(owner, 0)),
            authority: owner,
        };
        process_initialize_identity(&mut ctx, commitment, created_at)?;
        let identity = ctx.identity.unwrap();
        registry.commit(identity, None, None);
        Ok(identity)
    }
}

/// Replaces the commitment of the identity at `(owner, index)` on behalf of
/// `caller`.
///
/// Returns `None`, and changes nothing, if there is no such identity. The
/// call is refused if the caller is not the owner, if the identity is
/// verified, or if it is revoked, in this order.
pub fn register_commitment(
    registry: &mut Registry,
    owner: [u8; 32],
    index: u64,
    caller: [u8; 32],
    commitment: [u8; 32],
) -> (result: Option<Result<(), MinKycError>>)
    ensures
        result == old(registry)@.register_commitment_result(owner, index, caller),
        final(registry)@ == old(registry)@.after_register_commitment(
            owner,
            index,
            caller,
            commitment,
        ),
        final(registry)@.well_formed(),
{
    proof {
        use_type_invariant(&*registry);
        lemma_well_formed_is_kept(
            registry@,
            Operation::RegisterCommitment { owner, index, caller, commitment },
        );
    }
    let identity = match registry.identities.get(&(owner, index)) {
        Some(identity) => identity,
        None => {
            return None;
        },
    };
    let mut ctx = RegisterCommitment { identity, authority: caller };
    match process_register_commitment(&mut ctx, commitment) {
        Err(refusal) => Some(Err(refusal)),
        Ok(()) => {
            registry.commit(ctx.identity, None, None);
            Some(Ok(()))
        },
    }
}

/// Verifies `proof` for the identity at `(owner, index)` and enters it in the
/// ledger under `nullifier`.
///
/// [`verify_proof`] is this with the digest of the proof as the nullifier,
/// which is what keeps a proof from being accepted twice. Returns `None`, and
/// changes nothing, if there is no such identity. The call is refused if the
/// identity is revoked, if the proof predicate rejects the proof, if a proof
/// was entered for this identity under this nullifier before, or if the
/// identity's count of verifications cannot grow, in this order. Otherwise
/// the receipt is entered, the identity is marked verified, its count grows
/// by one, and the event to announce is returned.
pub fn verify_proof_with_nullifier(
    registry: &mut Registry,
    owner: [u8; 32],
    index: u64,
    verifier: [u8; 32],
    nullifier: [u8; 32],
    proof: Vec<u8>,
    requirement_hash: [u8; 32],
    timestamp: i64,
    slot: u64,
) -> (result: Option<Result<VerificationEvent, MinKycError>>)
    ensures
        result == old(registry)@.verify_result(
            owner,
            index,
            nullifier,
            proof@,
            requirement_hash,
            timestamp,
            slot,
        ),
        final(registry)@ == old(registry)@.after_verify(
            owner,
            index,
            nullifier,
            proof@,
            requirement_hash,
            timestamp,
            slot,
        ),
        final(registry)@.well_formed(),
{
    proof {
        use_type_invariant(&*registry);
        lemma_well_formed_is_kept(
            registry@,
            Operation::VerifyProof {
                owner,
                index,
                nullifier,
                proof: proof@,
                requirement_hash,
                timestamp,
                slot,
            },
        );
    }
    let identity = match registry.identities.get(&(owner, index)) {
        Some(identity) => identity,
        None => {
            return None;
        },
    };
    let proof_receipt = match registry.receipts.get(&(owner, index, nullifier)) {
        Some(receipt) => receipt,
        None => ProofReceipt::new(),
    };
    let mut ctx = VerifyProof { identity, proof_receipt, verifier };
    match process_verify_proof(&mut ctx, nullifier, proof, requirement_hash, timestamp, slot) {
        Err(refusal) => Some(Err(refusal)),
        Ok(event) => {
            registry.commit(ctx.identity, None, Some(ctx.proof_receipt));
            Some(Ok(event))
        },
    }
}

/// Verifies `proof` for the identity at `(owner, index)` and enters it in the
/// ledger under the digest of its bytes, so that the same bytes are never
/// accepted for this identity again. Anyone may submit a proof.
///
/// See [`verify_proof_with_nullifier`] for what is returned, refused and
/// changed.
pub fn verify_proof(
    registry: &mut Registry,
    owner: [u8; 32],
    index: u64,
    verifier: [u8; 32],
    proof: Vec<u8>,
    requirement_hash: [u8; 32],
    timestamp: i64,
    slot: u64,
) -> (result: Option<Result<VerificationEvent, MinKycError>>)
    ensures
        result == old(registry)@.verify_proof_result(
            owner,
            index,
            proof@,
            requirement_hash,
            timestamp,
            slot,
        ),
        final(registry)@ == old(registry)@.after_verify_proof(
            owner,
            index,
            proof@,
            requirement_hash,
            timestamp,
            slot,
        ),
        final(registry)@.well_formed(),
{
    let nullifier = proof_hash(&proof);
    verify_proof_with_nullifier(
        registry,
        owner,
        index,
        verifier,
        nullifier,
        proof,
        requirement_hash,
        timestamp,
        slot,
    )
}

/// Revokes the identity at `(owner, index)` on behalf of `caller`, for good.
///
/// Returns `None`, and changes nothing, if there is no such identity. The
/// call is refused if the caller is not the owner or, else, if the identity
/// is revoked already. Otherwise the identity is marked revoked and no longer
/// verified; its commitment and its receipts stay on record.
pub fn revoke_identity(registry: &mut Registry, owner: [u8; 32], index: u64, caller: [u8; 32]) -> (result:
    Option<Result<(), MinKycError>>)
    ensures
        result == old(registry)@.revoke_identity_result(owner, index, caller),
        final(registry)@ == old(registry)@.after_revoke_identity(owner, index, caller),
        final(registry)@.well_formed(),
{
    proof {
        use_type_invariant(&*registry);
        lemma_well_formed_is_kept(registry@, Operation::RevokeIdentity { owner, index, caller });
    }
    let identity = match registry.identities.get(&(owner, index)) {
        Some(identity) => identity,
        None => {
            return None;
        },
    };
    let mut ctx = RevokeIdentity { identity, authority: caller };
    match process_revoke_identity(&mut ctx) {
        Err(refusal) => Some(Err(refusal)),
        Ok(()) => {
            registry.commit(ctx.identity, None, None);
            Some(Ok(()))
        },
    }
}

} // verus!
