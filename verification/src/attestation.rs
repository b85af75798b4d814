//! Checking attestations.
//!
//! An attestation is a byte string that the confidentiality oracle produces
//! for one position in one state and for one amount. The ledger cannot read
//! the encrypted amounts, so it checks only that the attestation is long
//! enough, that it names the position's stored ciphertexts, and that it names
//! the amount asked for.
//!
//! | bytes  | meaning                                                  |
//! |--------|----------------------------------------------------------|
//! | 0..16  | first 16 bytes of the position's collateral ciphertext   |
//! | 16..32 | first 16 bytes of the position's debt ciphertext         |
//! | 32..40 | the amount, `u64`, little-endian                         |
//! | 40..42 | a parameter, `u16`, little-endian                        |
//! | 42..58 | the oracle's signature over the fields above             |
//! | 58..64 | reserved                                                 |
//!
//! A liquidation attestation carries a 16-bit threshold at 32..34 in place of
//! the amount.

use vstd::prelude::*;
use crate::bytes::{
    all_zero, is_all_zero, le_u16, le_u64, push_u16_le, push_u64_le, ranges_equal, read_u16_le,
    read_u64_le, u16_le_bytes, u64_le_bytes,
};
use crate::state::Position;

verus! {

/// The least length of an attestation.
pub const PROOF_MIN_LENGTH: usize = 64;

/// Where the signature starts.
pub const PROOF_HASH_OFFSET: usize = 42;

/// The length of the signature.
pub const PROOF_HASH_LENGTH: usize = 16;

/// The SHA-256 digest of `data`.
pub uninterp spec fn sha256_of(data: Seq<u8>) -> Seq<u8>;

/// Calls `anchor_lang::solana_program::hash::hash` and takes the bytes of the
/// `Hash` it returns. Trusted: that function returns the SHA-256 digest of
/// its argument, which depends on the argument alone.
#[verifier::external_body]
fn sha256(data: &[u8]) -> (digest: [u8; 32])
    ensures
        digest@ == sha256_of(data@),
{
    anchor_lang::solana_program::hash::hash(data).to_bytes()
}

/// The attestation is long enough and starts with the first 16 bytes of the
/// position's collateral ciphertext, then the first 16 bytes of its debt
/// ciphertext.
pub open spec fn bound_to(proof: Seq<u8>, position: Position) -> bool {
    &&& proof.len() >= PROOF_MIN_LENGTH
    &&& proof.subrange(0, 16) == position.encrypted_collateral@.subrange(0, 16)
    &&& proof.subrange(16, 32) == position.encrypted_debt@.subrange(0, 16)
}

/// The amount that the attestation names.
pub open spec fn embedded_amount(proof: Seq<u8>) -> int {
    le_u64(proof.subrange(32, 40))
}

/// The parameter that the attestation names: the loan-to-value ratio in a
/// borrow attestation.
pub open spec fn embedded_param(proof: Seq<u8>) -> int {
    le_u16(proof.subrange(40, 42))
}

/// The threshold that a liquidation attestation names.
pub open spec fn embedded_threshold(proof: Seq<u8>) -> int {
    le_u16(proof.subrange(32, 34))
}

/// The signature that the attestation carries.
pub open spec fn embedded_signature(proof: Seq<u8>) -> Seq<u8> {
    proof.subrange(PROOF_HASH_OFFSET as int, PROOF_HASH_OFFSET + PROOF_HASH_LENGTH)
}

/// What is hashed to bind an attestation: both ciphertexts in full, then the
/// amount and the parameter in little-endian bytes.
pub open spec fn binding_preimage(
    collateral: Seq<u8>,
    debt: Seq<u8>,
    amount: u64,
    param: u16,
) -> Seq<u8> {
    collateral + debt + u64_le_bytes(amount) + u16_le_bytes(param)
}

/// The binding value: the first 16 bytes of the SHA-256 digest of the
/// preimage.
pub open spec fn proof_binding(
    collateral: Seq<u8>,
    debt: Seq<u8>,
    amount: u64,
    param: u16,
) -> Seq<u8> {
    sha256_of(binding_preimage(collateral, debt, amount, param)).subrange(0, 16)
}

/// A signature is accepted when it is all zero or equals the binding value.
///
/// The all-zero case accepts an attestation that nobody signed. It stands in
/// until the oracle's signature is checked for real: a production ledger must
/// not keep it.
pub open spec fn signature_accepted(signature: Seq<u8>, expected: Seq<u8>) -> bool {
    all_zero(signature) || signature == expected
}

/// A borrow attestation holds for `position` and `amount`.
pub open spec fn borrow_proof_valid(proof: Seq<u8>, position: Position, amount: u64) -> bool {
    &&& bound_to(proof, position)
    &&& embedded_amount(proof) == amount
    &&& signature_accepted(
        embedded_signature(proof),
        proof_binding(
            position.encrypted_collateral@,
            position.encrypted_debt@,
            amount,
            embedded_param(proof) as u16,
        ),
    )
}

/// A withdrawal attestation holds for `position` and `amount`. The signature
/// is not looked at.
pub open spec fn withdrawal_proof_valid(proof: Seq<u8>, position: Position, amount: u64) -> bool {
    &&& bound_to(proof, position)
    &&& embedded_amount(proof) == amount
}

/// A liquidation attestation holds for `position`. Neither the threshold it
/// names nor the signature is looked at.
pub open spec fn liquidation_proof_valid(proof: Seq<u8>, position: Position) -> bool {
    bound_to(proof, position)
}

/// Whether `proof` is long enough and names the position's two ciphertexts.
pub fn is_bound_to(proof: &[u8], position: &Position) -> (bound: bool)
    ensures
        bound == bound_to(proof@, *position),
{
    if proof.len() < PROOF_MIN_LENGTH {
        return false;
    }
    if !ranges_equal(proof, 0, &position.encrypted_collateral, 0, 16) {
        return false;
    }
    ranges_equal(proof, 16, &position.encrypted_debt, 0, 16)
}

/// The first 16 bytes of a digest.
pub fn truncate_digest(digest: &[u8; 32]) -> (head: [u8; 16])
    ensures
        head@ == digest@.subrange(0, 16),
{
    let mut head = [0u8; 16];
    let mut i: usize = 0;
    while i < 16
        invariant
            i <= 16,
            forall|k: int| 0 <= k < i ==> head@[k] == digest@[k],
        decreases 16 - i,
    {
        head[i] = digest[i];
        i += 1;
    }
    assert(head@ =~= digest@.subrange(0, 16));
    head
}

/// Computes the binding value of an attestation for the given ciphertexts,
/// amount and parameter.
pub fn compute_proof_binding(
    encrypted_collateral: &[u8; 32],
    encrypted_debt: &[u8; 32],
    amount: u64,
    param: u16,
) -> (binding: [u8; 16])
    ensures
        binding@ == proof_binding(encrypted_collateral@, encrypted_debt@, amount, param),
{
    let mut data: Vec<u8> = Vec::with_capacity(32 + 32 + 8 + 2);
    data.extend_from_slice(encrypted_collateral);
    data.extend_from_slice(encrypted_debt);
    push_u64_le(&mut data, amount);
    push_u16_le(&mut data, param);
    assert(data@ =~= binding_preimage(encrypted_collateral@, encrypted_debt@, amount, param));
    let digest = sha256(data.as_slice());
    truncate_digest(&digest)
}

/// Whether a signature is accepted against the binding value `expected`.
pub fn check_signature(signature: &[u8], expected: &[u8; 16]) -> (accepted: bool)
    ensures
        accepted == signature_accepted(signature@, expected@),
{
    if is_all_zero(signature) {
        return true;
    }
    if signature.len() != 16 {
        return false;
    }
    let same = ranges_equal(signature, 0, expected, 0, 16);
    proof {
        assert(signature@.subrange(0, 16) =~= signature@);
        assert(expected@.subrange(0, 16) =~= expected@);
    }
    same
}

/// Checks a borrow attestation against the position's stored ciphertexts
/// and the amount asked for.
pub fn verify_inco_borrow_proof(proof: &[u8], position: &Position, amount: u64) -> (ok: bool)
    ensures
        ok == borrow_proof_valid(proof@, *position, amount),
{
    if !is_bound_to(proof, position) {
        return false;
    }
    let proof_amount = read_u64_le(proof, 32);
    if proof_amount != amount {
        return false;
    }
    let ltv_ratio = read_u16_le(proof, 40);
    let expected_hash = compute_proof_binding(
        &position.encrypted_collateral,
        &position.encrypted_debt,
        amount,
        ltv_ratio,
    );
    let proof_hash = vstd::slice::slice_subrange(
        proof,
        PROOF_HASH_OFFSET,
        PROOF_HASH_OFFSET + PROOF_HASH_LENGTH,
    );
    check_signature(proof_hash, &expected_hash)
}

/// Checks a withdrawal attestation against the position's stored
/// ciphertexts and the amount asked for.
pub fn verify_inco_withdrawal_proof(proof: &[u8], position: &Position, amount: u64) -> (ok: bool)
    ensures
        ok == withdrawal_proof_valid(proof@, *position, amount),
{
    if !is_bound_to(proof, position) {
        return false;
    }
    let proof_amount = read_u64_le(proof, 32);
    proof_amount == amount
}

/// Checks a liquidation attestation against the position's stored
/// ciphertexts.
pub fn verify_inco_liquidation_proof(proof: &[u8], position: &Position) -> (ok: bool)
    ensures
        ok == liquidation_proof_valid(proof@, *position),
{
    is_bound_to(proof, position)
}

/// The threshold that a liquidation attestation names, for the record; `None`
/// if the attestation is too short. It decides nothing.
pub fn liquidation_threshold_of(proof: &[u8]) -> (threshold: Option<u16>)
    ensures
        match threshold {
            Some(value) => proof@.len() >= PROOF_MIN_LENGTH && value == embedded_threshold(proof@),
            None => proof@.len() < PROOF_MIN_LENGTH,
        },
{
    if proof.len() < PROOF_MIN_LENGTH {
        None
    } else {
        Some(read_u16_le(proof, 32))
    }
}

} // verus!
