//! Groth16 verification on BN254 over arkworks-shaped byte buffers.
//!
//! Wire formats accepted by [`verify`]:
//!
//! * `vk_bytes`: the compressed arkworks verifying key, a 224-byte fixed
//!   header (`alpha_g1 ‖ beta_g2 ‖ gamma_g2 ‖ delta_g2`), an 8-byte
//!   little-endian `u64` entry count `ic_len`, then `ic_len × 32` bytes of
//!   `gamma_abc_g1` entries.
//! * `proof_bytes`: the compressed arkworks proof, always 128 bytes.
//! * `public_inputs_bytes`: a 4-byte little-endian `u32` count, then
//!   `count × 32` bytes of scalar-field elements.
//!
//! Every length is checked exactly before anything is decoded, so no length
//! prefix chosen by an attacker ever reaches an allocation.
use vstd::prelude::*;
use vstd::bytes::{spec_u32_from_le_bytes, spec_u64_from_le_bytes, u32_from_le_bytes, u64_from_le_bytes};
use vstd::slice::slice_subrange;
use crate::arkworks::{
    ark_g1_decode, ark_g2_decompress, ark_g2_in_subgroup, ark_groth16_accepts, fr_canonical,
    fr_decodes, g1_decode, g2_decompress, g2_in_subgroup, groth16_accepts,
};

verus! {

/// Length of a compressed G1 point.
pub const G1_AFFINE_LEN: usize = 32;
/// Length of a compressed G2 point.
pub const G2_AFFINE_LEN: usize = 64;
/// Length of a scalar-field element.
pub const FR_LEN: usize = 32;
/// `alpha_g1 ‖ beta_g2 ‖ gamma_g2 ‖ delta_g2`.
pub const VK_FIXED_HEADER_LEN: usize = 224;
/// The fixed header followed by the `u64` entry count.
pub const VK_PRELUDE_LEN: usize = 232;
/// `a ‖ b ‖ c`.
pub const PROOF_LEN: usize = 128;
/// The `u32` count in front of the public inputs.
pub const PI_PREFIX_LEN: usize = 4;

/// Why a verification did not succeed.
#[derive(Debug, PartialEq, Eq, Clone, Copy, Structural)]
pub enum VerifyError {
    /// VK bytes failed length validation, parsing, or contained invalid points.
    InvalidVk,
    /// Proof bytes failed length validation, parsing, or contained a point at infinity.
    InvalidProof,
    /// Public-input bytes failed length validation or parsing.
    InvalidPublicInputs,
    /// `count + 1` disagrees with the number of `gamma_abc_g1` entries.
    PublicInputCountMismatch,
    /// The pairing check rejected the proof.
    VerificationFailed,
}

/// The `ic_len` field of a verifying key buffer.
pub open spec fn vk_ic_len(vk: Seq<u8>) -> nat {
    spec_u64_from_le_bytes(vk.subrange(224, 232)) as nat
}

/// The `count` field of a public-input buffer.
pub open spec fn pi_count(pi: Seq<u8>) -> nat {
    spec_u32_from_le_bytes(pi.subrange(0, 4)) as nat
}

/// The length checks, in the order they are made: on success the number of
/// public inputs, which is then one less than the number of key entries.
pub open spec fn spec_check_lengths(vk: Seq<u8>, proof: Seq<u8>, pi: Seq<u8>) -> Result<nat, VerifyError> {
    if proof.len() != 128 {
        Err(VerifyError::InvalidProof)
    } else if vk.len() < 232 || vk_ic_len(vk) == 0 || vk.len() != 232 + 32 * vk_ic_len(vk) {
        Err(VerifyError::InvalidVk)
    } else if pi.len() < 4 || pi.len() != 4 + 32 * pi_count(pi) {
        Err(VerifyError::InvalidPublicInputs)
    } else if pi_count(pi) + 1 != vk_ic_len(vk) {
        Err(VerifyError::PublicInputCountMismatch)
    } else {
        Ok(pi_count(pi))
    }
}

/// A compressed G1 point is usable when arkworks accepts it and it is not
/// the point at infinity.
pub open spec fn g1_usable(b: Seq<u8>) -> bool {
    ark_g1_decode(b) == Some(false)
}

/// A compressed G2 point is usable when arkworks decompresses it to a point
/// other than the point at infinity and that point lies in the prime-order
/// subgroup.
pub open spec fn g2_usable(b: Seq<u8>) -> bool {
    &&& ark_g2_decompress(b) == Some(false)
    &&& ark_g2_in_subgroup(b)
}

/// The `i`-th `gamma_abc_g1` entry of a verifying key buffer.
pub open spec fn vk_entry(vk: Seq<u8>, i: int) -> Seq<u8> {
    vk.subrange(232 + 32 * i, 232 + 32 * i + 32)
}

/// Every point of the key (`alpha_g1`, `beta_g2`, `gamma_g2`, `delta_g2` and
/// the first `entries` of `gamma_abc_g1`) is usable.
pub open spec fn vk_points_usable(vk: Seq<u8>, entries: nat) -> bool {
    &&& g1_usable(vk.subrange(0, 32))
    &&& g2_usable(vk.subrange(32, 96))
    &&& g2_usable(vk.subrange(96, 160))
    &&& g2_usable(vk.subrange(160, 224))
    &&& forall|i: int| 0 <= i < entries ==> g1_usable(#[trigger] vk_entry(vk, i))
}

/// Every point of the proof (`a`, `b`, `c`) is usable.
pub open spec fn proof_points_usable(proof: Seq<u8>) -> bool {
    &&& g1_usable(proof.subrange(0, 32))
    &&& g2_usable(proof.subrange(32, 96))
    &&& g1_usable(proof.subrange(96, 128))
}

/// The `i`-th public input of a public-input buffer.
pub open spec fn pi_element(pi: Seq<u8>, i: int) -> Seq<u8> {
    pi.subrange(4 + 32 * i, 4 + 32 * i + 32)
}

/// Every one of the first `count` public inputs is the canonical encoding
/// of a scalar: a little-endian number below the modulus.
pub open spec fn inputs_decode(pi: Seq<u8>, count: nat) -> bool {
    forall|i: int| 0 <= i < count ==> fr_canonical(#[trigger] pi_element(pi, i))
}

/// The outcome of verifying `proof` for `pi` under `vk`.
pub open spec fn spec_verify(vk: Seq<u8>, proof: Seq<u8>, pi: Seq<u8>) -> Result<(), VerifyError> {
    match spec_check_lengths(vk, proof, pi) {
        Err(e) => Err(e),
        Ok(count) => if !vk_points_usable(vk, vk_ic_len(vk)) {
            Err(VerifyError::InvalidVk)
        } else if !proof_points_usable(proof) {
            Err(VerifyError::InvalidProof)
        } else if !inputs_decode(pi, count) {
            Err(VerifyError::InvalidPublicInputs)
        } else if !ark_groth16_accepts(vk, proof, pi.subrange(4, pi.len() as int)) {
            Err(VerifyError::VerificationFailed)
        } else {
            Ok(())
        },
    }
}

/// Checks every length and length prefix of the three buffers against the
/// buffers themselves; on success returns the number of public inputs.
pub fn check_lengths(vk_bytes: &[u8], proof_bytes: &[u8], public_inputs_bytes: &[u8]) -> (res: Result<u32, VerifyError>)
    ensures
        res matches Ok(c) ==> spec_check_lengths(vk_bytes@, proof_bytes@, public_inputs_bytes@) == Ok::<nat, VerifyError>(c as nat),
        res matches Err(e) ==> spec_check_lengths(vk_bytes@, proof_bytes@, public_inputs_bytes@) == Err::<nat, VerifyError>(e),
{
    if proof_bytes.len() != PROOF_LEN {
        return Err(VerifyError::InvalidProof);
    }
    if vk_bytes.len() < VK_PRELUDE_LEN {
        return Err(VerifyError::InvalidVk);
    }
    let ic_len = u64_from_le_bytes(slice_subrange(vk_bytes, VK_FIXED_HEADER_LEN, VK_PRELUDE_LEN));
    if ic_len == 0 {
        return Err(VerifyError::InvalidVk);
    }
    // `vk_bytes.len()` fits in a usize, so a key claiming more entries than
    // that can hold is too long for its buffer.
    if ic_len > ((usize::MAX - VK_PRELUDE_LEN) / G1_AFFINE_LEN) as u64 {
        return Err(VerifyError::InvalidVk);
    }
    let ic_body_len = (ic_len as usize) * G1_AFFINE_LEN;
    if vk_bytes.len() != VK_PRELUDE_LEN + ic_body_len {
        return Err(VerifyError::InvalidVk);
    }
    if public_inputs_bytes.len() < PI_PREFIX_LEN {
        return Err(VerifyError::InvalidPublicInputs);
    }
    let count = u32_from_le_bytes(slice_subrange(public_inputs_bytes, 0, PI_PREFIX_LEN));
    if (count as u64) > ((usize::MAX - PI_PREFIX_LEN) / FR_LEN) as u64 {
        return Err(VerifyError::InvalidPublicInputs);
    }
    let pi_body_len = (count as usize) * FR_LEN;
    if public_inputs_bytes.len() != PI_PREFIX_LEN + pi_body_len {
        return Err(VerifyError::InvalidPublicInputs);
    }
    // Catches a flip in either prefix before any point is decoded.
    if (count as u64) + 1 != ic_len {
        return Err(VerifyError::PublicInputCountMismatch);
    }
    Ok(count)
}

/// Whether the G1 point at `start` is usable.
fn g1_usable_at(buf: &[u8], start: usize) -> (ok: bool)
    requires
        start + 32 <= buf.len(),
    ensures
        ok == g1_usable(buf@.subrange(start as int, start + 32)),
{
    match g1_decode(slice_subrange(buf, start, start + 32)) {
        Some(infinity) => !infinity,
        None => false,
    }
}

/// Whether the G2 point at `start` decompresses to a point other than the
/// point at infinity (the cheap half of [`g2_usable`]).
fn g2_finite_at(buf: &[u8], start: usize) -> (ok: bool)
    requires
        start + 64 <= buf.len(),
    ensures
        ok == (ark_g2_decompress(buf@.subrange(start as int, start + 64)) == Some(false)),
{
    match g2_decompress(slice_subrange(buf, start, start + 64)) {
        Some(infinity) => !infinity,
        None => false,
    }
}

/// Whether the G2 point at `start` lies in the prime-order subgroup (the
/// costly half of [`g2_usable`]).
fn g2_valid_at(buf: &[u8], start: usize) -> (ok: bool)
    requires
        start + 64 <= buf.len(),
    ensures
        ok == ark_g2_in_subgroup(buf@.subrange(start as int, start + 64)),
{
    g2_in_subgroup(slice_subrange(buf, start, start + 64))
}

/// Whether every point of a verifying key buffer that passed the length
/// checks is usable. G1 points and G2 decompressions are tried before any G2
/// subgroup check.
pub fn vk_points_are_usable(vk_bytes: &[u8], entries: u64) -> (ok: bool)
    requires
        vk_bytes@.len() == 232 + 32 * entries,
    ensures
        ok == vk_points_usable(vk_bytes@, entries as nat),
{
    let ghost vk = vk_bytes@;
    if !g1_usable_at(vk_bytes, 0) {
        return false;
    }
    let len = vk_bytes.len();
    let mut i: u64 = 0;
    while i < entries
        invariant
            i <= entries,
            vk == vk_bytes@,
            len == vk.len(),
            vk.len() == 232 + 32 * entries,
            forall|j: int| 0 <= j < i ==> g1_usable(#[trigger] vk_entry(vk, j)),
        decreases entries - i,
    {
        assert(32 * (i as int) + 32 <= 32 * (entries as int)) by (nonlinear_arith)
            requires i < entries;
        let start = VK_PRELUDE_LEN + (i as usize) * G1_AFFINE_LEN;
        if !g1_usable_at(vk_bytes, start) {
            assert(!vk_points_usable(vk, entries as nat)) by {
                assert(vk.subrange(start as int, start + 32) == vk_entry(vk, i as int));
            }
            return false;
        }
        assert(vk.subrange(start as int, start + 32) == vk_entry(vk, i as int));
        i = i + 1;
    }
    g2_finite_at(vk_bytes, 32) && g2_finite_at(vk_bytes, 96) && g2_finite_at(vk_bytes, 160)
        && g2_valid_at(vk_bytes, 32) && g2_valid_at(vk_bytes, 96) && g2_valid_at(vk_bytes, 160)
}

/// Whether every point of a 128-byte proof buffer is usable. G1 points and
/// the G2 decompression are tried before the G2 subgroup check.
pub fn proof_points_are_usable(proof_bytes: &[u8]) -> (ok: bool)
    requires
        proof_bytes@.len() == 128,
    ensures
        ok == proof_points_usable(proof_bytes@),
{
    g1_usable_at(proof_bytes, 0) && g1_usable_at(proof_bytes, 96) && g2_finite_at(proof_bytes, 32)
        && g2_valid_at(proof_bytes, 32)
}

/// Verify a Groth16 proof on BN254.
///
/// Returns `Ok(())` only if the proof is valid for the given verifying key
/// and public inputs. Every other outcome (malformed inputs, a point at
/// infinity, count mismatch, failed pairing check) is a distinct
/// `VerifyError` variant.
pub fn verify(vk_bytes: &[u8], proof_bytes: &[u8], public_inputs_bytes: &[u8]) -> (res: Result<(), VerifyError>)
    ensures
        res == spec_verify(vk_bytes@, proof_bytes@, public_inputs_bytes@),
{
    let count = match check_lengths(vk_bytes, proof_bytes, public_inputs_bytes) {
        Ok(c) => c,
        Err(e) => return Err(e),
    };
    if !vk_points_are_usable(vk_bytes, (count as u64) + 1) {
        return Err(VerifyError::InvalidVk);
    }
    if !proof_points_are_usable(proof_bytes) {
        return Err(VerifyError::InvalidProof);
    }
    let ghost pi = public_inputs_bytes@;
    let pi_len = public_inputs_bytes.len();
    let mut i: u32 = 0;
    while i < count
        invariant
            i <= count,
            pi == public_inputs_bytes@,
            pi.len() == pi_len,
            pi.len() == 4 + 32 * (count as nat),
            spec_check_lengths(vk_bytes@, proof_bytes@, pi) == Ok::<nat, VerifyError>(count as nat),
            vk_points_usable(vk_bytes@, vk_ic_len(vk_bytes@)),
            proof_points_usable(proof_bytes@),
            forall|j: int| 0 <= j < i ==> fr_canonical(#[trigger] pi_element(pi, j)),
        decreases count - i,
    {
        assert(32 * (i as int) + 32 <= 32 * (count as int)) by (nonlinear_arith)
            requires i < count;
        let start = PI_PREFIX_LEN + (i as usize) * FR_LEN;
        let chunk = slice_subrange(public_inputs_bytes, start, start + FR_LEN);
        if !fr_decodes(chunk) {
            assert(!inputs_decode(pi, count as nat)) by {
                assert(chunk@ == pi_element(pi, i as int));
            }
            return Err(VerifyError::InvalidPublicInputs);
        }
        assert(chunk@ == pi_element(pi, i as int));
        i = i + 1;
    }
    let body = slice_subrange(public_inputs_bytes, PI_PREFIX_LEN, public_inputs_bytes.len());
    assert(body@.len() % 32 == 0) by {
        vstd::arithmetic::div_mod::lemma_mod_multiples_basic(count as int, 32);
    }
    if groth16_accepts(vk_bytes, proof_bytes, body) {
        Ok(())
    } else {
        Err(VerifyError::VerificationFailed)
    }
}

} // verus!
