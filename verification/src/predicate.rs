use vstd::prelude::*;

verus! {

/// Whether a proof shows that the attributes behind `commitment` meet the
/// requirement named by `requirement_hash`.
///
/// This is the one place that decides it. As it stands the predicate accepts
/// every proof that is not empty, and looks at neither digest.
pub open spec fn proof_accepted(
    proof: Seq<u8>,
    commitment: [u8; 32],
    requirement_hash: [u8; 32],
) -> bool {
    proof.len() > 0
}

/// Evaluates the proof predicate.
#[allow(unused_variables)]
pub fn check_proof(proof: &Vec<u8>, commitment: &[u8; 32], requirement_hash: &[u8; 32]) -> (accepted:
    bool)
    ensures
        accepted == proof_accepted(proof@, *commitment, *requirement_hash),
{
    proof.len() > 0
}

} // verus!
