use vstd::prelude::*;
use crate::errors::MinKycError;
use crate::events::VerificationEvent;
use crate::hash::sha256;
use crate::instructions::register_commitment::{identity_after_registration, registration_refusal};
use crate::instructions::revoke_identity::{identity_after_revocation, revocation_refusal};
use crate::instructions::verify_proof::{
    event_of_verification,
    identity_after_verification,
    receipt_of_verification,
    verification_refusal,
};
use crate::state::counter::IdentityCounter;
use crate::state::identity::IdentityAccount;
use crate::state::receipt::ProofReceipt;

verus! {

/// What a registry holds, as three maps from addresses to records.
///
/// An identity lives at `(owner, index)`, the counter of an owner at `owner`,
/// and the receipt of a proof at `(owner, index, digest of the proof)`.
pub struct RegistryState {
    /// Whether an owner may have several identities, numbered by a counter.
    /// If not, an owner has at most one, at index 0, and there are no
    /// counters.
    pub multi_identity: bool,
    /// The identities.
    pub identities: Map<([u8; 32], u64), IdentityAccount>,
    /// The counters of the owners that have created an identity.
    pub counters: Map<[u8; 32], IdentityCounter>,
    /// The receipts of the proofs that were entered.
    pub receipts: Map<([u8; 32], u64, [u8; 32]), ProofReceipt>,
}

impl RegistryState {
    /// The registry in which nothing was created yet.
    pub open spec fn empty(multi_identity: bool) -> RegistryState {
        RegistryState {
            multi_identity,
            identities: Map::empty(),
            counters: Map::empty(),
            receipts: Map::empty(),
        }
    }

    /// The nullifiers under which proofs were entered for the identity at
    /// `(owner, index)`.
    pub open spec fn nullifiers_of(self, owner: [u8; 32], index: u64) -> Set<[u8; 32]> {
        Set::new(|nullifier: [u8; 32]| self.receipts.contains_key((owner, index, nullifier)))
    }

    /// What holds of every registry that started empty and was changed by the
    /// operations only.
    ///
    /// Every record lies at the address that its own fields give. Every
    /// identity is well formed, and its count of verifications is the number
    /// of receipts that the ledger holds for it. Every receipt in the ledger
    /// is used and is the receipt of an identity of the registry. Where an
    /// owner may have several identities, each of them has an index below
    /// the owner's counter; where not, each identity has index 0 and there
    /// are no counters.
    pub open spec fn well_formed(self) -> bool {
        &&& forall|key: ([u8; 32], u64)| #[trigger]
            self.identities.contains_key(key) ==> {
                &&& self.identities[key].key() == key
                &&& self.identities[key].well_formed()
                &&& self.nullifiers_of(key.0, key.1).finite()
                &&& self.nullifiers_of(key.0, key.1).len()
                    == self.identities[key].verification_count
                &&& self.multi_identity ==> self.counters.contains_key(key.0) && key.1
                    < self.counters[key.0].count
                &&& !self.multi_identity ==> key.1 == 0
            }
        &&& forall|key: ([u8; 32], u64, [u8; 32])| #[trigger]
            self.receipts.contains_key(key) ==> {
                &&& self.receipts[key].key() == key
                &&& self.receipts[key].used
                &&& self.identities.contains_key((key.0, key.1))
            }
        &&& !self.multi_identity ==> self.counters == Map::<[u8; 32], IdentityCounter>::empty()
    }

    /// The index at which the next identity of `owner` is created.
    pub open spec fn next_index(self, owner: [u8; 32]) -> u64 {
        if self.multi_identity && self.counters.contains_key(owner) {
            self.counters[owner].count
        } else {
            0
        }
    }

    /// Why the creation of an identity for `owner` is refused, if it is.
    pub open spec fn creation_refusal(self, owner: [u8; 32]) -> Option<MinKycError> {
        if self.identities.contains_key((owner, self.next_index(owner))) {
            Some(MinKycError::IdentityAlreadyExists)
        } else if self.multi_identity && self.next_index(owner) == u64::MAX {
            Some(MinKycError::CounterOverflow)
        } else {
            None
        }
    }

    /// What the creation of an identity for `owner` returns: the new record,
    /// or the refusal.
    pub open spec fn initialize_identity_result(
        self,
        owner: [u8; 32],
        commitment: [u8; 32],
        created_at: i64,
    ) -> Result<IdentityAccount, MinKycError> {
        match self.creation_refusal(owner) {
            Some(refusal) => Err(refusal),
            None => Ok(
                IdentityAccount::fresh(owner, self.next_index(owner), commitment, created_at),
            ),
        }
    }

    /// The registry after the creation of an identity for `owner` was asked
    /// for.
    pub open spec fn after_initialize_identity(
        self,
        owner: [u8; 32],
        commitment: [u8; 32],
        created_at: i64,
    ) -> RegistryState {
        match self.initialize_identity_result(owner, commitment, created_at) {
            Err(_) => self,
            Ok(identity) => RegistryState {
                identities: self.identities.insert((owner, identity.index), identity),
                counters: if self.multi_identity {
                    self.counters.insert(
                        owner,
                        IdentityCounter { count: (identity.index + 1) as u64 },
                    )
                } else {
                    self.counters
                },
                ..self
            },
        }
    }

    /// What a change of commitment returns: `None` if there is no identity at
    /// `(owner, index)`, else whether it was done or why not.
    pub open spec fn register_commitment_result(
        self,
        owner: [u8; 32],
        index: u64,
        caller: [u8; 32],
    ) -> Option<Result<(), MinKycError>> {
        if !self.identities.contains_key((owner, index)) {
            None
        } else {
            match registration_refusal(self.identities[(owner, index)], caller) {
                Some(refusal) => Some(Err(refusal)),
                None => Some(Ok(())),
            }
        }
    }

    /// The registry after a change of commitment was asked for.
    pub open spec fn after_register_commitment(
        self,
        owner: [u8; 32],
        index: u64,
        caller: [u8; 32],
        commitment: [u8; 32],
    ) -> RegistryState {
        if self.register_commitment_result(owner, index, caller) == Some(Ok::<(), MinKycError>(())) {
            RegistryState {
                identities: self.identities.insert(
                    (owner, index),
                    identity_after_registration(self.identities[(owner, index)], commitment),
                ),
                ..self
            }
        } else {
            self
        }
    }

    /// What the ledger holds for an identity and a nullifier: the receipt
    /// that was entered, or a vacant slot.
    pub open spec fn receipt_slot(self, owner: [u8; 32], index: u64, nullifier: [u8; 32]) -> ProofReceipt {
        if self.receipts.contains_key((owner, index, nullifier)) {
            self.receipts[(owner, index, nullifier)]
        } else {
            ProofReceipt::vacant()
        }
    }

    /// What a verification under a given nullifier returns: `None` if there
    /// is no identity at `(owner, index)`, else the event or the refusal.
    pub open spec fn verify_result(
        self,
        owner: [u8; 32],
        index: u64,
        nullifier: [u8; 32],
        proof: Seq<u8>,
        requirement_hash: [u8; 32],
        timestamp: i64,
        slot: u64,
    ) -> Option<Result<VerificationEvent, MinKycError>> {
        if !self.identities.contains_key((owner, index)) {
            None
        } else {
            let identity = self.identities[(owner, index)];
            match verification_refusal(
                identity,
                self.receipt_slot(owner, index, nullifier),
                proof,
                requirement_hash,
            ) {
                Some(refusal) => Some(Err(refusal)),
                None => Some(
                    Ok(
                        event_of_verification(
                            identity,
                            nullifier,
                            requirement_hash,
                            timestamp,
                            slot,
                        ),
                    ),
                ),
            }
        }
    }

    /// The registry after a verification under a given nullifier was asked
    /// for.
    pub open spec fn after_verify(
        self,
        owner: [u8; 32],
        index: u64,
        nullifier: [u8; 32],
        proof: Seq<u8>,
        requirement_hash: [u8; 32],
        timestamp: i64,
        slot: u64,
    ) -> RegistryState {
        match self.verify_result(
            owner,
            index,
            nullifier,
            proof,
            requirement_hash,
            timestamp,
            slot,
        ) {
            Some(Ok(_)) => {
                let identity = self.identities[(owner, index)];
                RegistryState {
                    identities: self.identities.insert(
                        (owner, index),
                        identity_after_verification(identity),
                    ),
                    receipts: self.receipts.insert(
                        (owner, index, nullifier),
                        receipt_of_verification(
                            identity,
                            nullifier,
                            requirement_hash,
                            timestamp,
                            slot,
                        ),
                    ),
                    ..self
                }
            },
            _ => self,
        }
    }

    /// What the verification of `proof` returns. The nullifier is the digest
    /// of the proof.
    pub open spec fn verify_proof_result(
        self,
        owner: [u8; 32],
        index: u64,
        proof: Seq<u8>,
        requirement_hash: [u8; 32],
        timestamp: i64,
        slot: u64,
    ) -> Option<Result<VerificationEvent, MinKycError>> {
        self.verify_result(owner, index, sha256(proof), proof, requirement_hash, timestamp, slot)
    }

    /// The registry after the verification of `proof` was asked for.
    pub open spec fn after_verify_proof(
        self,
        owner: [u8; 32],
        index: u64,
        proof: Seq<u8>,
        requirement_hash: [u8; 32],
        timestamp: i64,
        slot: u64,
    ) -> RegistryState {
        self.after_verify(owner, index, sha256(proof), proof, requirement_hash, timestamp, slot)
    }

    /// What a revocation returns: `None` if there is no identity at
    /// `(owner, index)`, else whether it was done or why not.
    pub open spec fn revoke_identity_result(
        self,
        owner: [u8; 32],
        index: u64,
        caller: [u8; 32],
    ) -> Option<Result<(), MinKycError>> {
        if !self.identities.contains_key((owner, index)) {
            None
        } else {
            match revocation_refusal(self.identities[(owner, index)], caller) {
                Some(refusal) => Some(Err(refusal)),
                None => Some(Ok(())),
            }
        }
    }

    /// The registry after a revocation was asked for.
    pub open spec fn after_revoke_identity(
        self,
        owner: [u8; 32],
        index: u64,
        caller: [u8; 32],
    ) -> RegistryState {
        if self.revoke_identity_result(owner, index, caller) == Some(Ok::<(), MinKycError>(())) {
            RegistryState {
                identities: self.identities.insert(
                    (owner, index),
                    identity_after_revocation(self.identities[(owner, index)]),
                ),
                ..self
            }
        } else {
            self
        }
    }
}

/// One call of an operation of the registry, with its arguments.
pub enum Operation {
    /// The creation of an identity for `owner`.
    InitializeIdentity { owner: [u8; 32], commitment: [u8; 32], created_at: i64 },
    /// A change of the commitment of the identity at `(owner, index)`.
    RegisterCommitment { owner: [u8; 32], index: u64, caller: [u8; 32], commitment: [u8; 32] },
    /// The verification of a proof for the identity at `(owner, index)`.
    VerifyProof {
        owner: [u8; 32],
        index: u64,
        nullifier: [u8; 32],
        proof: Seq<u8>,
        requirement_hash: [u8; 32],
        timestamp: i64,
        slot: u64,
    },
    /// The revocation of the identity at `(owner, index)`.
    RevokeIdentity { owner: [u8; 32], index: u64, caller: [u8; 32] },
}

impl Operation {
    /// Whether the operation is one on the identity at `(owner, index)`, as
    /// opposed to the creation of an identity or an operation on another one.
    pub open spec fn targets(self, owner: [u8; 32], index: u64) -> bool {
        match self {
            Operation::InitializeIdentity { .. } => false,
            Operation::RegisterCommitment { owner: o, index: i, .. } => o == owner && i == index,
            Operation::VerifyProof { owner: o, index: i, .. } => o == owner && i == index,
            Operation::RevokeIdentity { owner: o, index: i, .. } => o == owner && i == index,
        }
    }
}

impl RegistryState {
    /// Whether the operation succeeds in this registry.
    pub open spec fn accepts(self, op: Operation) -> bool {
        match op {
            Operation::InitializeIdentity { owner, commitment, created_at } => {
                self.initialize_identity_result(owner, commitment, created_at) is Ok
            },
            Operation::RegisterCommitment { owner, index, caller, commitment } => {
                self.register_commitment_result(owner, index, caller) matches Some(Ok(_))
            },
            Operation::VerifyProof {
                owner,
                index,
                nullifier,
                proof,
                requirement_hash,
                timestamp,
                slot,
            } => {
                self.verify_result(
                    owner,
                    index,
                    nullifier,
                    proof,
                    requirement_hash,
                    timestamp,
                    slot,
                ) matches Some(Ok(_))
            },
            Operation::RevokeIdentity { owner, index, caller } => {
                self.revoke_identity_result(owner, index, caller) matches Some(Ok(_))
            },
        }
    }

    /// The registry after the operation.
    pub open spec fn apply(self, op: Operation) -> RegistryState {
        match op {
            Operation::InitializeIdentity { owner, commitment, created_at } => {
                self.after_initialize_identity(owner, commitment, created_at)
            },
            Operation::RegisterCommitment { owner, index, caller, commitment } => {
                self.after_register_commitment(owner, index, caller, commitment)
            },
            Operation::VerifyProof {
                owner,
                index,
                nullifier,
                proof,
                requirement_hash,
                timestamp,
                slot,
            } => {
                self.after_verify(
                    owner,
                    index,
                    nullifier,
                    proof,
                    requirement_hash,
                    timestamp,
                    slot,
                )
            },
            Operation::RevokeIdentity { owner, index, caller } => {
                self.after_revoke_identity(owner, index, caller)
            },
        }
    }

    /// The registry after the operations, one after the other.
    pub open spec fn apply_all(self, ops: Seq<Operation>) -> RegistryState
        decreases ops.len(),
    {
        if ops.len() == 0 {
            self
        } else {
            self.apply(ops.first()).apply_all(ops.drop_first())
        }
    }

    /// How many of the operations are verifications of a proof for the
    /// identity at `(owner, index)` that succeed, when the operations are
    /// applied one after the other.
    pub open spec fn accepted_proofs(self, owner: [u8; 32], index: u64, ops: Seq<Operation>) -> nat
        decreases ops.len(),
    {
        if ops.len() == 0 {
            0
        } else {
            let first: nat = if ops.first() is VerifyProof && ops.first().targets(owner, index)
                && self.accepts(ops.first()) {
                1
            } else {
                0
            };
            first + self.apply(ops.first()).accepted_proofs(owner, index, ops.drop_first())
        }
    }
}

} // verus!
