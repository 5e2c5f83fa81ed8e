use vstd::prelude::*;

verus! {

/// The SHA-256 digest of a byte string.
///
/// The digest is computed outside this crate; this is merely its name. All
/// that is known of it here is that equal inputs have equal digests.
pub uninterp spec fn sha256(data: Seq<u8>) -> [u8; 32];

/// Calls `anchor_lang::solana_program::hash::hash` and returns the digest's
/// bytes.
///
/// Trusted: the result is the SHA-256 digest of `data`, a function of the
/// bytes of `data` alone.
#[verifier::external_body]
fn sha256_digest(data: &[u8]) -> (digest: [u8; 32])
    ensures
        digest == sha256(data@),
{
    anchor_lang::solana_program::hash::hash(data).to_bytes()
}

/// The digest under which a proof is entered in the ledger.
pub fn proof_hash(proof: &Vec<u8>) -> (digest: [u8; 32])
    ensures
        digest == sha256(proof@),
{
    sha256_digest(proof.as_slice())
}

} // verus!
