//! The bridge between the on-chain Molecule wire format and the
//! arkworks-shaped byte buffers that [`crate::verifier_core::verify`] takes.
//!
//! The wire schema:
//!
//! ```text
//! array Uint16 [byte; 2];  array G1Compressed [byte; 32];
//! array G2Compressed [byte; 64];  array Byte32 [byte; 32];
//! vector G1Vec <G1Compressed>;  vector FrVec <Byte32>;
//! table VerifyingKeyBn254 { alpha_g1: G1Compressed, beta_g2: G2Compressed,
//!     gamma_g2: G2Compressed, delta_g2: G2Compressed, gamma_abc_g1: G1Vec }
//! union VerifyingKeyContent { VerifyingKeyBn254 }
//! table Groth16VerifyingKey { version: Uint16, content: VerifyingKeyContent }
//! struct ProofBn254 { a: G1Compressed, b: G2Compressed, c: G1Compressed }
//! table Bn254Witness { proof: ProofBn254, public_inputs: FrVec }
//! union WitnessContent { Bn254Witness }
//! table Groth16Witness { version: Uint16, content: WitnessContent }
//! ```
//!
//! Both decoders are total: malformed input gives a `DecodeError`.
use vstd::prelude::*;
use vstd::bytes::{spec_u16_from_le_bytes, spec_u64_to_le_bytes, u16_from_le_bytes, u64_to_le_bytes};
use vstd::slice::slice_subrange;
use crate::molecule_layout::{
    append_bytes, fixvec_count, is_first_variant, is_first_variant_union, is_fixvec, is_table,
    read_fixvec, read_table, table_field, table_field_slice, union_item,
};

verus! {

/// The only wire-format version.
pub const VERSION_V1: u16 = 1;

/// Why a Molecule blob was refused.
#[derive(Debug, PartialEq, Eq, Clone, Copy, Structural)]
pub enum DecodeError {
    /// Molecule structural validation failed (bad offsets, item counts,
    /// fixed-array sizes, or union tag).
    Molecule,
    /// The wire-format `version` field was not [`VERSION_V1`].
    Version,
}

/// The `version` field of a `Groth16VerifyingKey` or `Groth16Witness`.
pub open spec fn version_field(m: Seq<u8>) -> Seq<u8> {
    table_field(m, 2, 0)
}

/// The curve-specific item inside the `content` union.
pub open spec fn content_item(m: Seq<u8>) -> Seq<u8> {
    union_item(table_field(m, 2, 1))
}

/// The envelope shared by both blobs: a two-field table of a `Uint16` version
/// and a union whose only (BN254) variant is present.
pub open spec fn envelope_valid(m: Seq<u8>) -> bool {
    &&& is_table(m, 2)
    &&& version_field(m).len() == 2
    &&& is_first_variant(table_field(m, 2, 1))
}

/// The version number, little-endian.
pub open spec fn version_number(m: Seq<u8>) -> u16 {
    spec_u16_from_le_bytes(version_field(m))
}

/// Field `i` of the `VerifyingKeyBn254` table inside a verifying key blob.
pub open spec fn vk_part(m: Seq<u8>, i: int) -> Seq<u8> {
    table_field(content_item(m), 5, i)
}

/// `m` passes Molecule verification as a `Groth16VerifyingKey`.
pub open spec fn vk_molecule_valid(m: Seq<u8>) -> bool {
    &&& envelope_valid(m)
    &&& is_table(content_item(m), 5)
    &&& vk_part(m, 0).len() == 32
    &&& vk_part(m, 1).len() == 64
    &&& vk_part(m, 2).len() == 64
    &&& vk_part(m, 3).len() == 64
    &&& is_fixvec(vk_part(m, 4), 32)
}

/// The arkworks verifying-key layout of a valid blob: `alpha_g1 ‖ beta_g2 ‖
/// gamma_g2 ‖ delta_g2 ‖ u64_le ic_len ‖ ic_len × 32 B`.
pub open spec fn vk_arkworks_layout(m: Seq<u8>) -> Seq<u8> {
    let ic = vk_part(m, 4);
    vk_part(m, 0) + vk_part(m, 1) + vk_part(m, 2) + vk_part(m, 3)
        + spec_u64_to_le_bytes(fixvec_count(ic) as u64) + ic.subrange(4, ic.len() as int)
}

/// What [`decode_vk_to_arkworks`] returns for `m`.
pub open spec fn spec_decode_vk(m: Seq<u8>) -> Result<Seq<u8>, DecodeError> {
    if !vk_molecule_valid(m) {
        Err(DecodeError::Molecule)
    } else if version_number(m) != VERSION_V1 {
        Err(DecodeError::Version)
    } else {
        Ok(vk_arkworks_layout(m))
    }
}

/// Field `i` of the `Bn254Witness` table inside a witness blob.
pub open spec fn witness_part(m: Seq<u8>, i: int) -> Seq<u8> {
    table_field(content_item(m), 2, i)
}

/// `m` passes Molecule verification as a `Groth16Witness`.
pub open spec fn witness_molecule_valid(m: Seq<u8>) -> bool {
    &&& envelope_valid(m)
    &&& is_table(content_item(m), 2)
    &&& witness_part(m, 0).len() == 128
    &&& is_fixvec(witness_part(m, 1), 32)
}

/// What [`decode_witness_to_arkworks`] returns for `m`: the proof `a ‖ b ‖ c`
/// and the public inputs `u32_le count ‖ count × 32 B`, which are the
/// `ProofBn254` struct and the `FrVec` exactly as they stand in the blob.
pub open spec fn spec_decode_witness(m: Seq<u8>) -> Result<(Seq<u8>, Seq<u8>), DecodeError> {
    if !witness_molecule_valid(m) {
        Err(DecodeError::Molecule)
    } else if version_number(m) != VERSION_V1 {
        Err(DecodeError::Version)
    } else {
        Ok((witness_part(m, 0), witness_part(m, 1)))
    }
}

/// The version field and the curve item of a blob whose envelope is valid.
fn read_envelope(m: &[u8]) -> (parts: Option<(&[u8], &[u8])>)
    ensures
        parts is Some <==> envelope_valid(m@),
        parts matches Some((v, item)) ==> v@ == version_field(m@) && item@ == content_item(m@),
{
    let offsets = match read_table(m, 2) {
        Some(o) => o,
        None => return None,
    };
    let version = table_field_slice(m, &offsets, 2, 0);
    if version.len() != 2 {
        return None;
    }
    let content = table_field_slice(m, &offsets, 2, 1);
    if !is_first_variant_union(content) {
        return None;
    }
    Some((version, slice_subrange(content, 4, content.len())))
}

/// Decode a `Groth16VerifyingKey` blob and rebuild the arkworks verifying
/// key buffer `alpha_g1 (32) ‖ beta_g2 (64) ‖ gamma_g2 (64) ‖ delta_g2 (64)
/// ‖ u64_le ic_len ‖ ic_len × 32 B`.
pub fn decode_vk_to_arkworks(molecule_bytes: &[u8]) -> (res: Result<Vec<u8>, DecodeError>)
    ensures
        match res {
            Ok(b) => spec_decode_vk(molecule_bytes@) == Ok::<Seq<u8>, DecodeError>(b@),
            Err(e) => spec_decode_vk(molecule_bytes@) == Err::<Seq<u8>, DecodeError>(e),
        },
{
    let ghost m = molecule_bytes@;
    let (version, bn254) = match read_envelope(molecule_bytes) {
        Some(p) => p,
        None => return Err(DecodeError::Molecule),
    };
    let offsets = match read_table(bn254, 5) {
        Some(o) => o,
        None => return Err(DecodeError::Molecule),
    };
    let alpha_g1 = table_field_slice(bn254, &offsets, 5, 0);
    let beta_g2 = table_field_slice(bn254, &offsets, 5, 1);
    let gamma_g2 = table_field_slice(bn254, &offsets, 5, 2);
    let delta_g2 = table_field_slice(bn254, &offsets, 5, 3);
    let ic = table_field_slice(bn254, &offsets, 5, 4);
    if alpha_g1.len() != 32 || beta_g2.len() != 64 || gamma_g2.len() != 64 || delta_g2.len() != 64 {
        return Err(DecodeError::Molecule);
    }
    let ic_len = match read_fixvec(ic, 32) {
        Some(c) => c,
        None => return Err(DecodeError::Molecule),
    };
    if u16_from_le_bytes(version) != VERSION_V1 {
        return Err(DecodeError::Version);
    }
    let mut buf: Vec<u8> = Vec::new();
    append_bytes(&mut buf, alpha_g1);
    append_bytes(&mut buf, beta_g2);
    append_bytes(&mut buf, gamma_g2);
    append_bytes(&mut buf, delta_g2);
    let prefix = u64_to_le_bytes(ic_len as u64);
    append_bytes(&mut buf, prefix.as_slice());
    append_bytes(&mut buf, slice_subrange(ic, 4, ic.len()));
    Ok(buf)
}

/// Decode a `Groth16Witness` blob into the arkworks-shaped proof
/// `a (32) ‖ b (64) ‖ c (32)` and public inputs `u32_le count ‖ count × 32 B`.
pub fn decode_witness_to_arkworks(molecule_bytes: &[u8]) -> (res: Result<(Vec<u8>, Vec<u8>), DecodeError>)
    ensures
        match res {
            Ok((p, pi)) => spec_decode_witness(molecule_bytes@) == Ok::<(Seq<u8>, Seq<u8>), DecodeError>((p@, pi@)),
            Err(e) => spec_decode_witness(molecule_bytes@) == Err::<(Seq<u8>, Seq<u8>), DecodeError>(e),
        },
{
    let (version, bn254) = match read_envelope(molecule_bytes) {
        Some(p) => p,
        None => return Err(DecodeError::Molecule),
    };
    let offsets = match read_table(bn254, 2) {
        Some(o) => o,
        None => return Err(DecodeError::Molecule),
    };
    let proof = table_field_slice(bn254, &offsets, 2, 0);
    if proof.len() != 128 {
        return Err(DecodeError::Molecule);
    }
    let pi = table_field_slice(bn254, &offsets, 2, 1);
    if read_fixvec(pi, 32).is_none() {
        return Err(DecodeError::Molecule);
    }
    if u16_from_le_bytes(version) != VERSION_V1 {
        return Err(DecodeError::Version);
    }
    let mut proof_buf: Vec<u8> = Vec::new();
    append_bytes(&mut proof_buf, proof);
    let mut pi_buf: Vec<u8> = Vec::new();
    append_bytes(&mut pi_buf, pi);
    Ok((proof_buf, pi_buf))
}

} // verus!
