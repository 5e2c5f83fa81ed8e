use minkyc::hash::proof_hash;
use minkyc::{
    initialize_identity, register_commitment, revoke_identity, verify_proof,
    verify_proof_with_nullifier, IdentityAccount, IdentityCounter, MinKycError, ProofReceipt,
    Registry, VerificationEvent,
};

const O: [u8; 32] = [0xA1u8; 32];
const P: [u8; 32] = [0xB2u8; 32];
const V: [u8; 32] = [0xC3u8; 32];
const C1: [u8; 32] = [1u8; 32];
const C2: [u8; 32] = [2u8; 32];
const C3: [u8; 32] = [3u8; 32];
const R1: [u8; 32] = [0x71u8; 32];
const R2: [u8; 32] = [0x72u8; 32];

#[test]
fn lifecycle_from_creation_to_revocation() {
    let mut registry = Registry::new(false);
    let created = initialize_identity(&mut registry, O, C1, 100).unwrap();
    assert_eq!(created, IdentityAccount::new(O, 0, C1, 100));

    assert_eq!(register_commitment(&mut registry, O, 0, O, C2), Some(Ok(())));
    let identity = registry.identity(O, 0).unwrap();
    assert_eq!(identity.commitment, C2);
    assert!(!identity.verified && !identity.revoked);

    let event = verify_proof(&mut registry, O, 0, V, b"p".to_vec(), R1, 200, 7).unwrap().unwrap();
    assert_eq!(
        event,
        VerificationEvent {
            identity_index: 0,
            owner: O,
            requirement_hash: R1,
            proof_hash: proof_hash(&b"p".to_vec()),
            timestamp: 200,
            slot: 7,
        }
    );
    let identity = registry.identity(O, 0).unwrap();
    assert!(identity.verified);
    assert_eq!(identity.verification_count, 1);

    assert_eq!(
        register_commitment(&mut registry, O, 0, O, C3),
        Some(Err(MinKycError::IdentityImmutable))
    );
    assert_eq!(registry.identity(O, 0).unwrap().commitment, C2);

    assert_eq!(
        verify_proof(&mut registry, O, 0, V, b"p".to_vec(), R1, 201, 8),
        Some(Err(MinKycError::ProofAlreadyUsed))
    );
    assert_eq!(registry.identity(O, 0).unwrap().verification_count, 1);

    assert_eq!(revoke_identity(&mut registry, O, 0, O), Some(Ok(())));
    let identity = registry.identity(O, 0).unwrap();
    assert!(identity.revoked);
    assert!(!identity.verified);

    assert_eq!(
        verify_proof(&mut registry, O, 0, V, b"p".to_vec(), R1, 202, 9),
        Some(Err(MinKycError::IdentityRevoked))
    );
    assert_eq!(
        verify_proof(&mut registry, O, 0, V, b"another".to_vec(), R1, 203, 10),
        Some(Err(MinKycError::IdentityRevoked))
    );
    assert_eq!(
        verify_proof(&mut registry, O, 0, V, vec![], R1, 204, 11),
        Some(Err(MinKycError::IdentityRevoked))
    );
}

#[test]
fn empty_proof_is_always_invalid() {
    let mut registry = Registry::new(false);
    initialize_identity(&mut registry, O, C1, 1).unwrap();
    assert_eq!(
        verify_proof(&mut registry, O, 0, V, vec![], R1, 2, 3),
        Some(Err(MinKycError::InvalidProof))
    );
    assert_eq!(registry.identity(O, 0), Some(IdentityAccount::new(O, 0, C1, 1)));
    assert_eq!(registry.receipt(O, 0, proof_hash(&vec![])), None);

    verify_proof(&mut registry, O, 0, V, b"p".to_vec(), R1, 4, 5).unwrap().unwrap();
    assert_eq!(
        verify_proof(&mut registry, O, 0, V, vec![], R1, 6, 7),
        Some(Err(MinKycError::InvalidProof))
    );
    assert_eq!(registry.identity(O, 0).unwrap().verification_count, 1);
}

#[test]
fn new_registry_is_empty() {
    for multi in [false, true] {
        let registry = Registry::new(multi);
        assert_eq!(registry.multi_identity(), multi);
        assert_eq!(registry.identity(O, 0), None);
        assert_eq!(registry.counter(O), None);
        assert_eq!(registry.receipt(O, 0, [0u8; 32]), None);
    }
}

#[test]
fn operations_on_a_missing_identity_return_none() {
    let mut registry = Registry::new(false);
    initialize_identity(&mut registry, O, C1, 1).unwrap();
    assert_eq!(register_commitment(&mut registry, P, 0, P, C2), None);
    assert_eq!(register_commitment(&mut registry, O, 1, O, C2), None);
    assert_eq!(verify_proof(&mut registry, P, 0, V, b"p".to_vec(), R1, 2, 3), None);
    assert_eq!(verify_proof_with_nullifier(&mut registry, O, 1, V, [0u8; 32], vec![1], R1, 2, 3), None);
    assert_eq!(revoke_identity(&mut registry, P, 0, P), None);
    assert_eq!(registry.identity(O, 0), Some(IdentityAccount::new(O, 0, C1, 1)));
    assert_eq!(registry.identity(P, 0), None);
    assert_eq!(registry.receipt(P, 0, proof_hash(&b"p".to_vec())), None);
}

#[test]
fn second_creation_for_the_same_owner_fails_and_changes_nothing() {
    let mut registry = Registry::new(false);
    initialize_identity(&mut registry, O, C1, 1).unwrap();
    register_commitment(&mut registry, O, 0, O, C2).unwrap().unwrap();
    verify_proof(&mut registry, O, 0, V, b"p".to_vec(), R1, 2, 3).unwrap().unwrap();
    let before = registry.identity(O, 0).unwrap();
    assert_eq!(
        initialize_identity(&mut registry, O, C3, 9),
        Err(MinKycError::IdentityAlreadyExists)
    );
    assert_eq!(registry.identity(O, 0), Some(before));
    assert_eq!(registry.identity(O, 1), None);
    assert_eq!(registry.counter(O), None);
}

#[test]
fn revoked_identity_still_occupies_its_address() {
    let mut registry = Registry::new(false);
    initialize_identity(&mut registry, O, C1, 1).unwrap();
    revoke_identity(&mut registry, O, 0, O).unwrap().unwrap();
    assert_eq!(
        initialize_identity(&mut registry, O, C2, 2),
        Err(MinKycError::IdentityAlreadyExists)
    );
}

#[test]
fn owners_have_separate_identities() {
    let mut registry = Registry::new(false);
    initialize_identity(&mut registry, O, C1, 1).unwrap();
    assert_eq!(initialize_identity(&mut registry, P, C2, 2), Ok(IdentityAccount::new(P, 0, C2, 2)));
    revoke_identity(&mut registry, O, 0, O).unwrap().unwrap();
    assert_eq!(registry.identity(P, 0), Some(IdentityAccount::new(P, 0, C2, 2)));
    assert!(registry.identity(O, 0).unwrap().revoked);
}

#[test]
fn numbered_identities_get_consecutive_indices() {
    let mut registry = Registry::new(true);
    assert_eq!(registry.counter(O), None);
    assert_eq!(initialize_identity(&mut registry, O, C1, 1), Ok(IdentityAccount::new(O, 0, C1, 1)));
    assert_eq!(registry.counter(O), Some(IdentityCounter { count: 1 }));
    assert_eq!(initialize_identity(&mut registry, O, C2, 2), Ok(IdentityAccount::new(O, 1, C2, 2)));
    assert_eq!(initialize_identity(&mut registry, P, C3, 3), Ok(IdentityAccount::new(P, 0, C3, 3)));
    assert_eq!(initialize_identity(&mut registry, O, C3, 4), Ok(IdentityAccount::new(O, 2, C3, 4)));
    assert_eq!(registry.counter(O), Some(IdentityCounter { count: 3 }));
    assert_eq!(registry.counter(P), Some(IdentityCounter { count: 1 }));
    assert_eq!(registry.identity(O, 0), Some(IdentityAccount::new(O, 0, C1, 1)));
    assert_eq!(registry.identity(O, 1), Some(IdentityAccount::new(O, 1, C2, 2)));
    assert_eq!(registry.identity(O, 2), Some(IdentityAccount::new(O, 2, C3, 4)));
    assert_eq!(registry.identity(O, 3), None);
}

#[test]
fn numbered_identities_are_independent() {
    let mut registry = Registry::new(true);
    initialize_identity(&mut registry, O, C1, 1).unwrap();
    initialize_identity(&mut registry, O, C1, 2).unwrap();
    verify_proof(&mut registry, O, 1, V, b"p".to_vec(), R1, 3, 4).unwrap().unwrap();
    assert_eq!(registry.identity(O, 0), Some(IdentityAccount::new(O, 0, C1, 1)));
    assert_eq!(registry.identity(O, 1).unwrap().verification_count, 1);
    // The same bytes are a new proof for the owner's other identity.
    assert!(verify_proof(&mut registry, O, 0, V, b"p".to_vec(), R1, 5, 6).unwrap().is_ok());
    revoke_identity(&mut registry, O, 0, O).unwrap().unwrap();
    assert!(!registry.identity(O, 1).unwrap().revoked);
    assert_eq!(register_commitment(&mut registry, O, 1, O, C2), Some(Err(MinKycError::IdentityImmutable)));
}

#[test]
fn nothing_succeeds_on_a_revoked_identity() {
    let mut registry = Registry::new(false);
    initialize_identity(&mut registry, O, C1, 1).unwrap();
    revoke_identity(&mut registry, O, 0, O).unwrap().unwrap();
    let tombstone = registry.identity(O, 0).unwrap();
    assert_eq!(
        tombstone,
        IdentityAccount { revoked: true, ..IdentityAccount::new(O, 0, C1, 1) }
    );
    assert_eq!(
        register_commitment(&mut registry, O, 0, O, C2),
        Some(Err(MinKycError::IdentityRevoked))
    );
    assert_eq!(
        register_commitment(&mut registry, O, 0, P, C2),
        Some(Err(MinKycError::Unauthorized))
    );
    assert_eq!(
        verify_proof(&mut registry, O, 0, O, b"p".to_vec(), R1, 2, 3),
        Some(Err(MinKycError::IdentityRevoked))
    );
    assert_eq!(revoke_identity(&mut registry, O, 0, O), Some(Err(MinKycError::AlreadyRevoked)));
    assert_eq!(revoke_identity(&mut registry, O, 0, P), Some(Err(MinKycError::Unauthorized)));
    assert_eq!(registry.identity(O, 0), Some(tombstone));
    assert_eq!(registry.receipt(O, 0, proof_hash(&b"p".to_vec())), None);
}

#[test]
fn only_the_owner_changes_commitment_or_revokes() {
    let mut registry = Registry::new(false);
    initialize_identity(&mut registry, O, C1, 1).unwrap();
    assert_eq!(
        register_commitment(&mut registry, O, 0, P, C2),
        Some(Err(MinKycError::Unauthorized))
    );
    assert_eq!(revoke_identity(&mut registry, O, 0, P), Some(Err(MinKycError::Unauthorized)));
    assert_eq!(registry.identity(O, 0), Some(IdentityAccount::new(O, 0, C1, 1)));
    // Anyone may submit a proof.
    assert!(verify_proof(&mut registry, O, 0, P, b"p".to_vec(), R1, 2, 3).unwrap().is_ok());
}

#[test]
fn commitment_may_change_repeatedly_until_verified() {
    let mut registry = Registry::new(false);
    initialize_identity(&mut registry, O, C1, 1).unwrap();
    for commitment in [C2, C3, C1, C3] {
        assert_eq!(register_commitment(&mut registry, O, 0, O, commitment), Some(Ok(())));
        assert_eq!(registry.identity(O, 0).unwrap().commitment, commitment);
    }
    verify_proof(&mut registry, O, 0, V, b"p".to_vec(), R1, 2, 3).unwrap().unwrap();
    assert_eq!(
        register_commitment(&mut registry, O, 0, O, C1),
        Some(Err(MinKycError::IdentityImmutable))
    );
    assert_eq!(
        register_commitment(&mut registry, O, 0, P, C1),
        Some(Err(MinKycError::Unauthorized))
    );
    revoke_identity(&mut registry, O, 0, O).unwrap().unwrap();
    assert_eq!(
        register_commitment(&mut registry, O, 0, O, C1),
        Some(Err(MinKycError::IdentityRevoked))
    );
    assert_eq!(registry.identity(O, 0).unwrap().commitment, C3);
}

#[test]
fn count_equals_number_of_distinct_accepted_proofs() {
    let mut registry = Registry::new(false);
    initialize_identity(&mut registry, O, C1, 1).unwrap();
    let mut expected = 0u64;
    for round in 0..3 {
        for byte in 1u8..=5 {
            let result =
                verify_proof(&mut registry, O, 0, V, vec![byte; 3], R1, 10, 20).unwrap();
            if round == 0 {
                assert!(result.is_ok());
                expected += 1;
            } else {
                assert_eq!(result, Err(MinKycError::ProofAlreadyUsed));
            }
            let count = registry.identity(O, 0).unwrap().verification_count;
            assert_eq!(count, expected);
        }
    }
    assert_eq!(registry.identity(O, 0).unwrap().verification_count, 5);
}

#[test]
fn replay_is_refused_whatever_happens_in_between() {
    let mut registry = Registry::new(true);
    initialize_identity(&mut registry, O, C1, 1).unwrap();
    verify_proof(&mut registry, O, 0, V, b"first".to_vec(), R1, 2, 3).unwrap().unwrap();
    let receipt = registry.receipt(O, 0, proof_hash(&b"first".to_vec())).unwrap();
    assert_eq!(
        receipt,
        ProofReceipt {
            used: true,
            proof_hash: proof_hash(&b"first".to_vec()),
            requirement_hash: R1,
            timestamp: 2,
            slot: 3,
            identity_index: 0,
            owner: O,
        }
    );

    initialize_identity(&mut registry, O, C2, 4).unwrap();
    initialize_identity(&mut registry, P, C2, 5).unwrap();
    verify_proof(&mut registry, O, 0, V, b"second".to_vec(), R2, 6, 7).unwrap().unwrap();
    verify_proof(&mut registry, P, 0, V, b"first".to_vec(), R1, 8, 9).unwrap().unwrap();
    let _ = register_commitment(&mut registry, O, 0, O, C3);

    // Another requirement, another submitter, another time: still the same proof.
    assert_eq!(
        verify_proof(&mut registry, O, 0, P, b"first".to_vec(), R2, 10, 11),
        Some(Err(MinKycError::ProofAlreadyUsed))
    );
    assert_eq!(registry.receipt(O, 0, proof_hash(&b"first".to_vec())), Some(receipt));
    assert_eq!(registry.identity(O, 0).unwrap().verification_count, 2);

    revoke_identity(&mut registry, O, 0, O).unwrap().unwrap();
    assert_eq!(
        verify_proof(&mut registry, O, 0, V, b"first".to_vec(), R1, 12, 13),
        Some(Err(MinKycError::IdentityRevoked))
    );
    assert_eq!(registry.receipt(O, 0, proof_hash(&b"first".to_vec())), Some(receipt));
    assert_eq!(registry.identity(O, 0).unwrap().verification_count, 2);
}

#[test]
fn receipts_survive_revocation() {
    let mut registry = Registry::new(false);
    initialize_identity(&mut registry, O, C1, 1).unwrap();
    verify_proof(&mut registry, O, 0, V, b"p".to_vec(), R1, 2, 3).unwrap().unwrap();
    let receipt = registry.receipt(O, 0, proof_hash(&b"p".to_vec()));
    assert!(receipt.is_some());
    revoke_identity(&mut registry, O, 0, O).unwrap().unwrap();
    assert_eq!(registry.receipt(O, 0, proof_hash(&b"p".to_vec())), receipt);
    let identity = registry.identity(O, 0).unwrap();
    assert_eq!(identity.commitment, C1);
    assert_eq!(identity.verification_count, 1);
}

#[test]
fn nullifier_is_the_replay_key() {
    let mut registry = Registry::new(false);
    initialize_identity(&mut registry, O, C1, 1).unwrap();
    let n = [0x5Au8; 32];
    let event =
        verify_proof_with_nullifier(&mut registry, O, 0, V, n, b"a".to_vec(), R1, 2, 3).unwrap();
    assert_eq!(
        event,
        Ok(VerificationEvent {
            identity_index: 0,
            owner: O,
            requirement_hash: R1,
            proof_hash: n,
            timestamp: 2,
            slot: 3,
        })
    );
    assert!(registry.receipt(O, 0, n).unwrap().used);
    // Other bytes under the same nullifier are a replay.
    assert_eq!(
        verify_proof_with_nullifier(&mut registry, O, 0, V, n, b"b".to_vec(), R1, 4, 5),
        Some(Err(MinKycError::ProofAlreadyUsed))
    );
    // The same bytes under another nullifier are not.
    let m = [0x5Bu8; 32];
    assert!(verify_proof_with_nullifier(&mut registry, O, 0, V, m, b"a".to_vec(), R1, 6, 7)
        .unwrap()
        .is_ok());
    // An empty proof is invalid under any nullifier.
    assert_eq!(
        verify_proof_with_nullifier(&mut registry, O, 0, V, [0u8; 32], vec![], R1, 8, 9),
        Some(Err(MinKycError::InvalidProof))
    );
    assert_eq!(registry.identity(O, 0).unwrap().verification_count, 2);
}

#[test]
fn verify_proof_uses_the_digest_as_nullifier() {
    let mut registry = Registry::new(false);
    initialize_identity(&mut registry, O, C1, 1).unwrap();
    let proof = b"proof bytes".to_vec();
    verify_proof(&mut registry, O, 0, V, proof.clone(), R1, 2, 3).unwrap().unwrap();
    assert_eq!(
        verify_proof_with_nullifier(
            &mut registry,
            O,
            0,
            V,
            proof_hash(&proof),
            b"other bytes".to_vec(),
            R1,
            4,
            5
        ),
        Some(Err(MinKycError::ProofAlreadyUsed))
    );
}

#[test]
fn refused_verification_leaves_no_receipt() {
    let mut registry = Registry::new(false);
    initialize_identity(&mut registry, O, C1, 1).unwrap();
    revoke_identity(&mut registry, O, 0, O).unwrap().unwrap();
    let _ = verify_proof(&mut registry, O, 0, V, b"p".to_vec(), R1, 2, 3);
    assert_eq!(registry.receipt(O, 0, proof_hash(&b"p".to_vec())), None);
}

#[test]
fn many_identities_are_found_again() {
    let mut registry = Registry::new(true);
    for round in 0u64..20 {
        for owner in 0u8..5 {
            let created =
                initialize_identity(&mut registry, [owner; 32], [round as u8; 32], round as i64)
                    .unwrap();
            assert_eq!(created.index, round);
        }
    }
    for owner in 0u8..5 {
        assert_eq!(registry.counter([owner; 32]), Some(IdentityCounter { count: 20 }));
        for index in 0u64..20 {
            assert_eq!(
                registry.identity([owner; 32], index),
                Some(IdentityAccount::new([owner; 32], index, [index as u8; 32], index as i64))
            );
        }
        assert_eq!(registry.identity([owner; 32], 20), None);
    }
}
