//! The boundary to arkworks (BN254, Groth16, compressed serialization).
//!
//! arkworks' curve points, field elements, keys and proofs are generic over
//! curve-configuration traits that Verus cannot see through, so none of them
//! crosses this boundary: each item below takes byte buffers and hands back
//! plain values. Scalar decoding is stated outright; what the curve and
//! pairing code computes is named by an uninterpreted spec function of the
//! same bytes, every one of them deterministic, a function of its arguments
//! alone.
//!
//! Points are decoded one at a time, in the layout the verifier checks, so
//! that cheap rejections (a bad G1 point, an `x` with no point on the curve)
//! come before the costly G2 subgroup checks. A G2 point is validated in the
//! two steps that arkworks' validating deserialization takes: decompression,
//! then a subgroup check.
use vstd::prelude::*;
use ark_bn254::{Bn254, Fr, G1Affine, G2Affine};
use ark_ec::AffineRepr;
use ark_ff::{PrimeField, Zero};
use ark_groth16::{Groth16, Proof, VerifyingKey};
use ark_serialize::CanonicalDeserialize;
use ark_snark::SNARK;
use crate::verifier_core::{proof_points_usable, vk_ic_len, vk_points_usable};

verus! {

/// What `G1Affine::deserialize_compressed` (BN254, validating) makes of the
/// 32 bytes `bytes`: `None` when it returns an error (bad flags,
/// non-canonical coordinate, no point with that `x`), otherwise the point's
/// `infinity` field.
pub uninterp spec fn ark_g1_decode(bytes: Seq<u8>) -> Option<bool>;

/// What `G2Affine::deserialize_compressed_unchecked` (BN254, decompression
/// without the subgroup check) makes of the 64 bytes `bytes`: `None` when it
/// returns an error, otherwise the point's `infinity` field.
pub uninterp spec fn ark_g2_decompress(bytes: Seq<u8>) -> Option<bool>;

/// Whether the point that `G2Affine::deserialize_compressed_unchecked`
/// decodes from the 64 bytes `bytes`, multiplied by the scalar-field modulus
/// `r` with `AffineRepr::mul_bigint`, is the identity (`is_zero`); `false`
/// when `bytes` does not decode. That product is ark-ec's own default
/// `SWCurveConfig::is_in_correct_subgroup_assuming_on_curve`; BN254's G2
/// replaces the default with an endomorphism test of the same membership.
pub uninterp spec fn ark_g2_in_subgroup(bytes: Seq<u8>) -> bool;

/// The BN254 scalar-field modulus `r`.
pub open spec fn fr_modulus() -> nat {
    21888242871839275222246405745257275088548364400416034343698204186575808495617nat
}

/// The number whose little-endian encoding is `b`.
pub open spec fn le_value(b: Seq<u8>) -> nat
    decreases b.len(),
{
    if b.len() == 0 {
        0
    } else {
        b[0] as nat + 256 * le_value(b.subrange(1, b.len() as int))
    }
}

/// A 32-byte scalar encoding is canonical when the little-endian number it
/// spells is below the modulus.
pub open spec fn fr_canonical(b: Seq<u8>) -> bool {
    le_value(b) < fr_modulus()
}

/// Whether `Groth16::<Bn254>::verify` returns `Ok(true)` for the key decoded
/// from `vk`, the scalars decoded from the consecutive 32-byte chunks of
/// `inputs` and the proof decoded from `proof`, key and proof being decoded
/// without point validation; `false` when any of them fails to decode.
pub uninterp spec fn ark_groth16_accepts(vk: Seq<u8>, proof: Seq<u8>, inputs: Seq<u8>) -> bool;

/// Calls `G1Affine::deserialize_compressed` on one compressed G1 point and
/// reports, for a point it accepts, the point's `infinity` field.
#[verifier::external_body]
pub(crate) fn g1_decode(bytes: &[u8]) -> (infinity: Option<bool>)
    requires
        bytes@.len() == 32,
    ensures
        infinity == ark_g1_decode(bytes@),
{
    G1Affine::deserialize_compressed(bytes).ok().map(|p| p.infinity)
}

/// Calls `G2Affine::deserialize_compressed_unchecked` on one compressed G2
/// point and reports, for a point it accepts, the point's `infinity` field.
#[verifier::external_body]
pub(crate) fn g2_decompress(bytes: &[u8]) -> (infinity: Option<bool>)
    requires
        bytes@.len() == 64,
    ensures
        infinity == ark_g2_decompress(bytes@),
{
    G2Affine::deserialize_compressed_unchecked(bytes).ok().map(|p| p.infinity)
}

/// Multiplies the G2 point decoded (without validation) from `bytes` by the
/// scalar-field modulus with `AffineRepr::mul_bigint` and reports whether the
/// product is the identity: ark-ec's default subgroup check
/// (`mul_affine(item, r).is_zero()`). BN254's override of it, the
/// endomorphism test, decides the same membership but runs about nine times
/// slower in unoptimised builds, which the exhaustive bit-flip tests use.
#[verifier::external_body]
pub(crate) fn g2_in_subgroup(bytes: &[u8]) -> (member: bool)
    requires
        bytes@.len() == 64,
    ensures
        member == ark_g2_in_subgroup(bytes@),
{
    match G2Affine::deserialize_compressed_unchecked(bytes) {
        Ok(p) => p.mul_bigint(<Fr as PrimeField>::MODULUS).is_zero(),
        Err(_) => false,
    }
}

/// Calls `Fr::deserialize_compressed` on one 32-byte scalar encoding. It
/// reads the 32 bytes as a little-endian integer with no flag bits and
/// accepts it exactly when it is below the modulus (`from_bigint`).
#[verifier::external_body]
pub(crate) fn fr_decodes(bytes: &[u8]) -> (ok: bool)
    requires
        bytes@.len() == 32,
    ensures
        ok == fr_canonical(bytes@),
{
    Fr::deserialize_compressed(bytes).is_ok()
}

/// Calls `Groth16::<Bn254>::verify` on the key, scalars and proof decoded
/// from the three buffers (key and proof by `deserialize_compressed_unchecked`,
/// scalars by `deserialize_compressed`); a decoding failure counts as
/// rejection. The key's `u64` entry count must agree with its length: arkworks
/// reserves room for that many entries before reading them. Every point of
/// the key and the proof must already have passed the checks that validating
/// deserialization makes (and none be the point at infinity), so that the
/// pairing code sees only the points it is written for.
#[verifier::external_body]
pub(crate) fn groth16_accepts(vk: &[u8], proof: &[u8], inputs: &[u8]) -> (ok: bool)
    requires
        vk@.len() >= 232,
        vk@.len() == 232 + 32 * vk_ic_len(vk@),
        vk_points_usable(vk@, vk_ic_len(vk@)),
        proof@.len() == 128,
        proof_points_usable(proof@),
        inputs@.len() % 32 == 0,
    ensures
        ok == ark_groth16_accepts(vk@, proof@, inputs@),
{
    let vk = VerifyingKey::<Bn254>::deserialize_compressed_unchecked(vk);
    let proof = Proof::<Bn254>::deserialize_compressed_unchecked(proof);
    let scalars: Result<Vec<Fr>, _> = inputs.chunks_exact(32).map(Fr::deserialize_compressed).collect();
    match (vk, proof, scalars) {
        (Ok(vk), Ok(proof), Ok(scalars)) => matches!(Groth16::<Bn254>::verify(&vk, &scalars, &proof), Ok(true)),
        _ => false,
    }
}

} // verus!
