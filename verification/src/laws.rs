//! Properties that relate the wire decoders, the encoders and the verifier.
use vstd::prelude::*;
use vstd::bytes::{
    lemma_auto_spec_u16_to_from_le_bytes, lemma_auto_spec_u64_to_from_le_bytes,
    spec_u16_from_le_bytes, spec_u16_to_le_bytes, spec_u64_from_le_bytes, spec_u64_to_le_bytes,
};
use crate::molecule_layout::{
    fixvec_count, is_first_variant, is_table, lemma_table_offsets_step, lemma_table_unique,
    lemma_u32_chunk_determined, table_field, u32_at, union_item,
};
use crate::arkworks::{
    ark_g1_decode, ark_g2_decompress, ark_g2_in_subgroup, ark_groth16_accepts, fr_modulus,
    le_value,
};
use crate::script::spec_verify_blobs;
use vstd::bytes::spec_u32_from_le_bytes;
use crate::verifier_core::{
    g1_usable, inputs_decode, pi_count, pi_element, proof_points_usable, spec_check_lengths,
    spec_verify, vk_entry, vk_ic_len, vk_points_usable, VerifyError,
};
use crate::arkworks::fr_canonical;
use crate::wire_decode::{
    content_item, envelope_valid, spec_decode_vk, spec_decode_witness, version_field,
    version_number, vk_arkworks_layout, vk_part, witness_part, DecodeError,
};
use crate::wire_encode::{pi_layout_ok, vk_blob_size, vk_layout_ok, witness_blob_size};

verus! {

/// A union is determined by its item.
proof fn lemma_union_unique(c1: Seq<u8>, c2: Seq<u8>)
    requires
        is_first_variant(c1),
        is_first_variant(c2),
        union_item(c1) == union_item(c2),
    ensures
        c1 == c2,
{
    lemma_u32_chunk_determined(c1, 0, c2, 0);
    assert(c1 =~= c1.subrange(0, 4) + union_item(c1));
    assert(c2 =~= c2.subrange(0, 4) + union_item(c2));
}

/// A fixvec is determined by its count and its items.
proof fn lemma_fixvec_unique(v1: Seq<u8>, v2: Seq<u8>)
    requires
        v1.len() >= 4,
        v2.len() >= 4,
        fixvec_count(v1) == fixvec_count(v2),
        v1.subrange(4, v1.len() as int) == v2.subrange(4, v2.len() as int),
    ensures
        v1 == v2,
{
    lemma_u32_chunk_determined(v1, 0, v2, 0);
    assert(v1 =~= v1.subrange(0, 4) + v1.subrange(4, v1.len() as int));
    assert(v2 =~= v2.subrange(0, 4) + v2.subrange(4, v2.len() as int));
}

/// Two blobs with valid envelopes, the same version and the same curve item
/// are the same blob.
proof fn lemma_envelope_unique(m1: Seq<u8>, m2: Seq<u8>)
    requires
        envelope_valid(m1),
        envelope_valid(m2),
        version_number(m1) == version_number(m2),
        content_item(m1) == content_item(m2),
    ensures
        m1 == m2,
{
    lemma_auto_spec_u16_to_from_le_bytes();
    assert(spec_u16_to_le_bytes(spec_u16_from_le_bytes(version_field(m1))) == version_field(m1));
    assert(spec_u16_to_le_bytes(spec_u16_from_le_bytes(version_field(m2))) == version_field(m2));
    lemma_union_unique(table_field(m1, 2, 1), table_field(m2, 2, 1));
    assert forall|k: int| 0 <= k < 2 implies #[trigger] table_field(m1, 2, k) == table_field(m2, 2, k) by {
    }
    lemma_table_unique(m1, m2, 2);
}

/// The size of a valid blob, from the sizes of its parts.
proof fn lemma_envelope_size(m: Seq<u8>)
    requires
        envelope_valid(m),
    ensures
        m.len() == 18 + content_item(m).len(),
        m.len() <= u32::MAX,
{
    lemma_table_offsets_step(m, 2, 0);
    lemma_table_offsets_step(m, 2, 1);
}

/// Each verifying key has exactly one wire encoding: two blobs that decode
/// to the same key are the same bytes. Every valid blob is the encoding that
/// `vk_molecule_from_arkworks` makes of the key it decodes to: that key has
/// the arkworks layout and its blob fits Molecule's sizes.
pub proof fn lemma_vk_blob_canonical(m1: Seq<u8>, m2: Seq<u8>)
    requires
        spec_decode_vk(m1) is Ok,
        spec_decode_vk(m1) == spec_decode_vk(m2),
    ensures
        m1 == m2,
        vk_layout_ok(spec_decode_vk(m1)->Ok_0),
        m1.len() == vk_blob_size(vk_ic_len(spec_decode_vk(m1)->Ok_0)),
        m1.len() <= u32::MAX,
{
    lemma_auto_spec_u64_to_from_le_bytes();
    let l = vk_arkworks_layout(m1);
    assert(l == vk_arkworks_layout(m2));
    let b1 = content_item(m1);
    let b2 = content_item(m2);
    let ic1 = vk_part(m1, 4);
    let ic2 = vk_part(m2, 4);
    let c1 = fixvec_count(ic1);
    let c2 = fixvec_count(ic2);
    // The layout of each blob, read back piece by piece.
    assert(l.subrange(0, 32) =~= vk_part(m1, 0));
    assert(l.subrange(0, 32) =~= vk_part(m2, 0));
    assert(l.subrange(32, 96) =~= vk_part(m1, 1));
    assert(l.subrange(32, 96) =~= vk_part(m2, 1));
    assert(l.subrange(96, 160) =~= vk_part(m1, 2));
    assert(l.subrange(96, 160) =~= vk_part(m2, 2));
    assert(l.subrange(160, 224) =~= vk_part(m1, 3));
    assert(l.subrange(160, 224) =~= vk_part(m2, 3));
    assert(l.subrange(224, 232) =~= spec_u64_to_le_bytes(c1 as u64));
    assert(l.subrange(224, 232) =~= spec_u64_to_le_bytes(c2 as u64));
    assert(spec_u64_from_le_bytes(spec_u64_to_le_bytes(c1 as u64)) == c1 as u64);
    assert(spec_u64_from_le_bytes(spec_u64_to_le_bytes(c2 as u64)) == c2 as u64);
    assert(c1 == c2);
    assert(l.subrange(232, l.len() as int) =~= ic1.subrange(4, ic1.len() as int));
    assert(l.subrange(232, l.len() as int) =~= ic2.subrange(4, ic2.len() as int));
    lemma_fixvec_unique(ic1, ic2);
    assert forall|k: int| 0 <= k < 5 implies #[trigger] table_field(b1, 5, k) == table_field(b2, 5, k) by {
    }
    lemma_table_unique(b1, b2, 5);
    lemma_envelope_unique(m1, m2);
    // The sizes.
    lemma_envelope_size(m1);
    lemma_table_offsets_step(b1, 5, 0);
    lemma_table_offsets_step(b1, 5, 1);
    lemma_table_offsets_step(b1, 5, 2);
    lemma_table_offsets_step(b1, 5, 3);
    lemma_table_offsets_step(b1, 5, 4);
    assert(vk_ic_len(l) == c1);
}

/// Each witness has exactly one wire encoding; every valid blob is the
/// encoding that `witness_molecule_from_arkworks` makes of what it decodes to.
pub proof fn lemma_witness_blob_canonical(m1: Seq<u8>, m2: Seq<u8>)
    requires
        spec_decode_witness(m1) is Ok,
        spec_decode_witness(m1) == spec_decode_witness(m2),
    ensures
        m1 == m2,
        spec_decode_witness(m1)->Ok_0.0.len() == 128,
        pi_layout_ok(spec_decode_witness(m1)->Ok_0.1),
        m1.len() == witness_blob_size(pi_count(spec_decode_witness(m1)->Ok_0.1)),
        m1.len() <= u32::MAX,
{
    let b1 = content_item(m1);
    let b2 = content_item(m2);
    assert forall|k: int| 0 <= k < 2 implies #[trigger] table_field(b1, 2, k) == table_field(b2, 2, k) by {
    }
    lemma_table_unique(b1, b2, 2);
    lemma_envelope_unique(m1, m2);
    lemma_envelope_size(m1);
    lemma_table_offsets_step(b1, 2, 0);
    lemma_table_offsets_step(b1, 2, 1);
    assert(witness_part(m1, 1).subrange(0, 4) =~= spec_decode_witness(m1)->Ok_0.1.subrange(0, 4));
}

/// What the decoders hand the verifier always has the buffer layout it
/// checks: the only length checks that decoded blobs can fail are the ones
/// that compare the key with the witness (an empty `gamma_abc_g1`, or a
/// public-input count that is not one less than the number of entries).
pub proof fn lemma_decoded_buffers_pass_length_checks(vk_molecule: Seq<u8>, witness_molecule: Seq<u8>)
    requires
        spec_decode_vk(vk_molecule) is Ok,
        spec_decode_witness(witness_molecule) is Ok,
    ensures
        ({
            let vk = spec_decode_vk(vk_molecule)->Ok_0;
            let (proof, pi) = spec_decode_witness(witness_molecule)->Ok_0;
            let entries = fixvec_count(vk_part(vk_molecule, 4));
            let count = fixvec_count(witness_part(witness_molecule, 1));
            spec_check_lengths(vk, proof, pi) == if entries == 0 {
                Err::<nat, VerifyError>(VerifyError::InvalidVk)
            } else if count + 1 != entries {
                Err::<nat, VerifyError>(VerifyError::PublicInputCountMismatch)
            } else {
                Ok::<nat, VerifyError>(count)
            }
        }),
{
    lemma_vk_blob_canonical(vk_molecule, vk_molecule);
    lemma_witness_blob_canonical(witness_molecule, witness_molecule);
    lemma_auto_spec_u64_to_from_le_bytes();
    let vk = spec_decode_vk(vk_molecule)->Ok_0;
    let ic = vk_part(vk_molecule, 4);
    assert(vk.subrange(224, 232) =~= spec_u64_to_le_bytes(fixvec_count(ic) as u64));
    assert(vk_ic_len(vk) == fixvec_count(ic));
}

/// An accepted proof came with buffers of exactly the announced lengths, one
/// public input fewer than the key's `gamma_abc_g1` entries, a key and a
/// proof whose points all decode into their prime-order subgroups, none of
/// them the point at infinity, and public inputs that all decode.
pub proof fn lemma_accepted_inputs_are_well_formed(vk: Seq<u8>, proof: Seq<u8>, pi: Seq<u8>)
    requires
        spec_verify(vk, proof, pi) is Ok,
    ensures
        proof.len() == 128,
        vk.len() == 232 + 32 * vk_ic_len(vk),
        pi.len() == 4 + 32 * pi_count(pi),
        pi_count(pi) + 1 == vk_ic_len(vk),
        vk_points_usable(vk, vk_ic_len(vk)),
        proof_points_usable(proof),
        inputs_decode(pi, pi_count(pi)),
{
}

/// On the spend path the type script exits with 0 exactly when the key blob
/// and the witness blob both decode and the proof verifies; every other
/// outcome is a non-zero code.
pub proof fn lemma_script_accepts_only_verified_proofs(vk_molecule: Seq<u8>, witness_molecule: Seq<u8>)
    ensures
        spec_verify_blobs(vk_molecule, witness_molecule) == 0 <==> {
            &&& spec_decode_vk(vk_molecule) is Ok
            &&& spec_decode_witness(witness_molecule) is Ok
            &&& spec_verify(
                spec_decode_vk(vk_molecule)->Ok_0,
                spec_decode_witness(witness_molecule)->Ok_0.0,
                spec_decode_witness(witness_molecule)->Ok_0.1,
            ) is Ok
        },
{
}

/// The curve item a two-field `Groth16VerifyingKey` / `Groth16Witness`
/// table carries in its union: the bytes after the union's 4-byte item id.
pub open spec fn blob_item(m: Seq<u8>) -> Seq<u8> {
    table_field(m, 2, 1).subrange(4, table_field(m, 2, 1).len() as int)
}

/// `m` passes Molecule's verification against the schema of
/// `Groth16VerifyingKey`: a two-field table whose first field is a 2-byte
/// `Uint16`, whose second is a union holding item id 0, that item being a
/// five-field table of 32-, 64-, 64- and 64-byte arrays followed by a fixvec
/// of 32-byte items, with any number of items.
pub open spec fn vk_blob_matches_schema(m: Seq<u8>) -> bool {
    let item = blob_item(m);
    let ic = table_field(item, 5, 4);
    &&& is_table(m, 2)
    &&& table_field(m, 2, 0).len() == 2
    &&& table_field(m, 2, 1).len() >= 4
    &&& u32_at(table_field(m, 2, 1), 0) == 0
    &&& is_table(item, 5)
    &&& table_field(item, 5, 0).len() == 32
    &&& table_field(item, 5, 1).len() == 64
    &&& table_field(item, 5, 2).len() == 64
    &&& table_field(item, 5, 3).len() == 64
    &&& ic.len() >= 4
    &&& ic.len() == 4 + 32 * u32_at(ic, 0)
}

/// Decoding a verifying key blob succeeds exactly on the blobs that match
/// the schema and carry version 1, whatever the number of `gamma_abc_g1`
/// entries; it then gives `alpha_g1 ‖ beta_g2 ‖ gamma_g2 ‖ delta_g2`, the
/// entry count as a little-endian `u64`, and the entries, as they stand in
/// the blob. A blob that matches the schema with another version is refused
/// for its version, any other blob as malformed.
pub proof fn lemma_vk_decoding_accepts_every_schema_blob(m: Seq<u8>)
    ensures
        spec_decode_vk(m) is Ok <==> vk_blob_matches_schema(m) && spec_u16_from_le_bytes(
            table_field(m, 2, 0),
        ) == 1,
        spec_decode_vk(m) == Err::<Seq<u8>, DecodeError>(DecodeError::Version) <==> vk_blob_matches_schema(
            m,
        ) && spec_u16_from_le_bytes(table_field(m, 2, 0)) != 1,
        vk_blob_matches_schema(m) && spec_u16_from_le_bytes(table_field(m, 2, 0)) == 1 ==> {
            let item = blob_item(m);
            let ic = table_field(item, 5, 4);
            let k = spec_decode_vk(m)->Ok_0;
            &&& k.len() == 232 + 32 * u32_at(ic, 0)
            &&& k.subrange(0, 32) == table_field(item, 5, 0)
            &&& k.subrange(32, 96) == table_field(item, 5, 1)
            &&& k.subrange(96, 160) == table_field(item, 5, 2)
            &&& k.subrange(160, 224) == table_field(item, 5, 3)
            &&& spec_u64_from_le_bytes(k.subrange(224, 232)) == u32_at(ic, 0)
            &&& k.subrange(232, k.len() as int) == ic.subrange(4, ic.len() as int)
        },
{
    if vk_blob_matches_schema(m) && spec_u16_from_le_bytes(table_field(m, 2, 0)) == 1 {
        lemma_auto_spec_u64_to_from_le_bytes();
        let item = blob_item(m);
        let ic = table_field(item, 5, 4);
        let k = spec_decode_vk(m)->Ok_0;
        let c = spec_u64_to_le_bytes(u32_at(ic, 0) as u64);
        assert(k.subrange(0, 32) =~= table_field(item, 5, 0));
        assert(k.subrange(32, 96) =~= table_field(item, 5, 1));
        assert(k.subrange(96, 160) =~= table_field(item, 5, 2));
        assert(k.subrange(160, 224) =~= table_field(item, 5, 3));
        assert(k.subrange(224, 232) =~= c);
        assert(k.subrange(232, k.len() as int) =~= ic.subrange(4, ic.len() as int));
    }
}

/// Every arkworks compressed verifying key (a 224-byte header, a `u64`
/// entry count, that many 32-byte entries) whose blob fits Molecule's 4-byte
/// sizes is one that `vk_molecule_from_arkworks` encodes, whatever the
/// number of entries.
pub proof fn lemma_every_vk_layout_encodes(vk: Seq<u8>)
    requires
        vk.len() >= 232,
        vk.len() == 232 + 32 * spec_u64_from_le_bytes(vk.subrange(224, 232)),
        270 + 32 * spec_u64_from_le_bytes(vk.subrange(224, 232)) <= u32::MAX,
    ensures
        vk_layout_ok(vk),
        vk_blob_size(vk_ic_len(vk)) <= u32::MAX,
        vk_blob_size(vk_ic_len(vk)) == 270 + 32 * spec_u64_from_le_bytes(vk.subrange(224, 232)),
{
}

/// The `u64` entry count a verifying key buffer announces.
pub open spec fn announced_entries(vk: Seq<u8>) -> int {
    spec_u64_from_le_bytes(vk.subrange(224, 232)) as int
}

/// The `u32` count a public-input buffer announces.
pub open spec fn announced_inputs(pi: Seq<u8>) -> int {
    spec_u32_from_le_bytes(pi.subrange(0, 4)) as int
}

/// arkworks accepts the 32 bytes as a compressed G1 point other than the
/// point at infinity.
pub open spec fn g1_point_ok(b: Seq<u8>) -> bool {
    ark_g1_decode(b) == Some(false)
}

/// arkworks decompresses the 64 bytes to a G2 point other than the point at
/// infinity, and that point is in the prime-order subgroup.
pub open spec fn g2_point_ok(b: Seq<u8>) -> bool {
    ark_g2_decompress(b) == Some(false) && ark_g2_in_subgroup(b)
}

/// The three buffers have their layouts, with one public input fewer than
/// key entries.
pub open spec fn buffers_fit(vk: Seq<u8>, proof: Seq<u8>, pi: Seq<u8>) -> bool {
    &&& proof.len() == 128
    &&& vk.len() >= 232
    &&& vk.len() == 232 + 32 * announced_entries(vk)
    &&& pi.len() >= 4
    &&& pi.len() == 4 + 32 * announced_inputs(pi)
    &&& announced_inputs(pi) + 1 == announced_entries(vk)
}

/// Every point of the key is usable, every one of its entries included.
pub open spec fn key_points_ok(vk: Seq<u8>) -> bool {
    &&& g1_point_ok(vk.subrange(0, 32))
    &&& g2_point_ok(vk.subrange(32, 96))
    &&& g2_point_ok(vk.subrange(96, 160))
    &&& g2_point_ok(vk.subrange(160, 224))
    &&& forall|i: int|
        0 <= i < announced_entries(vk) ==> #[trigger] g1_point_ok(vk.subrange(232 + 32 * i, 264 + 32 * i))
}

/// Every point of the proof is usable.
pub open spec fn proof_points_ok(proof: Seq<u8>) -> bool {
    &&& g1_point_ok(proof.subrange(0, 32))
    &&& g2_point_ok(proof.subrange(32, 96))
    &&& g1_point_ok(proof.subrange(96, 128))
}

/// Every public input is a little-endian number below the scalar modulus.
pub open spec fn inputs_canonical(pi: Seq<u8>) -> bool {
    forall|i: int|
        0 <= i < announced_inputs(pi) ==> #[trigger] le_value(pi.subrange(4 + 32 * i, 36 + 32 * i))
            < fr_modulus()
}

/// The two spellings of one key entry agree.
proof fn lemma_entry_spelling(vk: Seq<u8>, i: int)
    ensures
        vk_entry(vk, i) == vk.subrange(232 + 32 * i, 264 + 32 * i),
{
}

/// Bridges the verifier's own checks and the ones stated here.
proof fn lemma_checks_agree(vk: Seq<u8>, proof: Seq<u8>, pi: Seq<u8>)
    requires
        buffers_fit(vk, proof, pi),
    ensures
        spec_check_lengths(vk, proof, pi) == Ok::<nat, VerifyError>(announced_inputs(pi) as nat),
        vk_points_usable(vk, vk_ic_len(vk)) <==> key_points_ok(vk),
        proof_points_usable(proof) <==> proof_points_ok(proof),
        inputs_decode(pi, pi_count(pi)) <==> inputs_canonical(pi),
{
    assert(vk_points_usable(vk, vk_ic_len(vk)) ==> key_points_ok(vk)) by {
        if vk_points_usable(vk, vk_ic_len(vk)) {
            assert forall|i: int| 0 <= i < announced_entries(vk) implies #[trigger] g1_point_ok(
                vk.subrange(232 + 32 * i, 264 + 32 * i),
            ) by {
                lemma_entry_spelling(vk, i);
                assert(g1_usable(vk_entry(vk, i)));
            }
        }
    }
    assert(key_points_ok(vk) ==> vk_points_usable(vk, vk_ic_len(vk))) by {
        if key_points_ok(vk) {
            assert forall|i: int| 0 <= i < vk_ic_len(vk) implies #[trigger] g1_usable(vk_entry(vk, i)) by {
                lemma_entry_spelling(vk, i);
                assert(g1_point_ok(vk.subrange(232 + 32 * i, 264 + 32 * i)));
            }
        }
    }
    assert(inputs_decode(pi, pi_count(pi)) ==> inputs_canonical(pi)) by {
        if inputs_decode(pi, pi_count(pi)) {
            assert forall|i: int| 0 <= i < announced_inputs(pi) implies #[trigger] le_value(
                pi.subrange(4 + 32 * i, 36 + 32 * i),
            ) < fr_modulus() by {
                assert(fr_canonical(pi_element(pi, i)));
                assert(pi_element(pi, i) == pi.subrange(4 + 32 * i, 36 + 32 * i));
            }
        }
    }
    assert(inputs_canonical(pi) ==> inputs_decode(pi, pi_count(pi))) by {
        if inputs_canonical(pi) {
            assert forall|i: int| 0 <= i < pi_count(pi) implies fr_canonical(#[trigger] pi_element(pi, i)) by {
                assert(pi_element(pi, i) == pi.subrange(4 + 32 * i, 36 + 32 * i));
                assert(le_value(pi.subrange(4 + 32 * i, 36 + 32 * i)) < fr_modulus());
            }
        }
    }
}

/// `verify` accepts exactly when the buffers have their layouts, every point
/// of the key and the proof is usable, every public input is canonical, and
/// arkworks' pairing check accepts the proof for all the public inputs: the
/// whole body of the public-input buffer after its count.
pub proof fn lemma_verify_accepts_exactly(vk: Seq<u8>, proof: Seq<u8>, pi: Seq<u8>)
    ensures
        spec_verify(vk, proof, pi) is Ok <==> {
            &&& buffers_fit(vk, proof, pi)
            &&& key_points_ok(vk)
            &&& proof_points_ok(proof)
            &&& inputs_canonical(pi)
            &&& ark_groth16_accepts(vk, proof, pi.subrange(4, 4 + 32 * announced_inputs(pi)))
        },
{
    if buffers_fit(vk, proof, pi) {
        lemma_checks_agree(vk, proof, pi);
    }
    if spec_verify(vk, proof, pi) is Ok {
        assert(buffers_fit(vk, proof, pi));
    }
}

/// Once the layouts, the points and the scalars pass, the outcome of
/// `verify` is that of arkworks' pairing check over every public input: the
/// `count × 32` bytes after the count, nothing less.
pub proof fn lemma_pairing_decides_well_formed_calls(vk: Seq<u8>, proof: Seq<u8>, pi: Seq<u8>)
    requires
        buffers_fit(vk, proof, pi),
        key_points_ok(vk),
        proof_points_ok(proof),
        inputs_canonical(pi),
    ensures
        spec_verify(vk, proof, pi) == if ark_groth16_accepts(
            vk,
            proof,
            pi.subrange(4, 4 + 32 * announced_inputs(pi)),
        ) {
            Ok::<(), VerifyError>(())
        } else {
            Err::<(), VerifyError>(VerifyError::VerificationFailed)
        },
{
    lemma_checks_agree(vk, proof, pi);
}

/// The order in which `verify` reports what is wrong: a proof of the wrong
/// length first; then a key without its layout or with no entries; then a
/// public-input buffer without its layout; then a count that does not match
/// the key; then an unusable point of the key; then of the proof; then a
/// non-canonical input.
pub proof fn lemma_verify_rejections(vk: Seq<u8>, proof: Seq<u8>, pi: Seq<u8>)
    ensures
        proof.len() != 128 ==> spec_verify(vk, proof, pi) == Err::<(), VerifyError>(VerifyError::InvalidProof),
        proof.len() == 128 && (vk.len() < 232 || announced_entries(vk) == 0 || vk.len() != 232 + 32
            * announced_entries(vk)) ==> spec_verify(vk, proof, pi) == Err::<(), VerifyError>(
            VerifyError::InvalidVk,
        ),
        proof.len() == 128 && vk.len() >= 232 && announced_entries(vk) != 0 && vk.len() == 232 + 32
            * announced_entries(vk) && (pi.len() < 4 || pi.len() != 4 + 32 * announced_inputs(pi))
            ==> spec_verify(vk, proof, pi) == Err::<(), VerifyError>(VerifyError::InvalidPublicInputs),
        proof.len() == 128 && vk.len() >= 232 && vk.len() == 232 + 32 * announced_entries(vk) && pi.len()
            >= 4 && pi.len() == 4 + 32 * announced_inputs(pi) && announced_entries(vk) != 0
            && announced_inputs(pi) + 1 != announced_entries(vk) ==> spec_verify(vk, proof, pi) == Err::<
            (),
            VerifyError,
        >(VerifyError::PublicInputCountMismatch),
        buffers_fit(vk, proof, pi) && !key_points_ok(vk) ==> spec_verify(vk, proof, pi) == Err::<
            (),
            VerifyError,
        >(VerifyError::InvalidVk),
        buffers_fit(vk, proof, pi) && key_points_ok(vk) && !proof_points_ok(proof) ==> spec_verify(
            vk,
            proof,
            pi,
        ) == Err::<(), VerifyError>(VerifyError::InvalidProof),
        buffers_fit(vk, proof, pi) && key_points_ok(vk) && proof_points_ok(proof) && !inputs_canonical(pi)
            ==> spec_verify(vk, proof, pi) == Err::<(), VerifyError>(VerifyError::InvalidPublicInputs),
{
    if buffers_fit(vk, proof, pi) {
        lemma_checks_agree(vk, proof, pi);
    }
}

/// `m` passes Molecule's verification against the schema of
/// `Groth16Witness`: a two-field table whose first field is a 2-byte
/// `Uint16`, whose second is a union holding item id 0, that item being a
/// two-field table of a 128-byte proof struct and a fixvec of 32-byte items,
/// with any number of items.
pub open spec fn witness_blob_matches_schema(m: Seq<u8>) -> bool {
    let item = blob_item(m);
    let inputs = table_field(item, 2, 1);
    &&& is_table(m, 2)
    &&& table_field(m, 2, 0).len() == 2
    &&& table_field(m, 2, 1).len() >= 4
    &&& u32_at(table_field(m, 2, 1), 0) == 0
    &&& is_table(item, 2)
    &&& table_field(item, 2, 0).len() == 128
    &&& inputs.len() >= 4
    &&& inputs.len() == 4 + 32 * u32_at(inputs, 0)
}

/// Decoding a witness blob succeeds exactly on the blobs that match the
/// schema and carry version 1, whatever the number of public inputs; it then
/// gives the proof struct and the public-input vector (count and items) as
/// they stand in the blob. A blob that matches the schema with another
/// version is refused for its version, any other blob as malformed.
pub proof fn lemma_witness_decoding_accepts_every_schema_blob(m: Seq<u8>)
    ensures
        spec_decode_witness(m) is Ok <==> witness_blob_matches_schema(m) && spec_u16_from_le_bytes(
            table_field(m, 2, 0),
        ) == 1,
        spec_decode_witness(m) == Err::<(Seq<u8>, Seq<u8>), DecodeError>(DecodeError::Version)
            <==> witness_blob_matches_schema(m) && spec_u16_from_le_bytes(table_field(m, 2, 0)) != 1,
        witness_blob_matches_schema(m) && spec_u16_from_le_bytes(table_field(m, 2, 0)) == 1
            ==> spec_decode_witness(m)->Ok_0 == (
            table_field(blob_item(m), 2, 0),
            table_field(blob_item(m), 2, 1),
        ),
{
}

/// Every 128-byte proof with a public-input buffer in its layout (a `u32`
/// count and that many 32-byte inputs), whose blob fits Molecule's 4-byte
/// sizes, is one that `witness_molecule_from_arkworks` encodes, whatever the
/// number of inputs.
pub proof fn lemma_every_witness_layout_encodes(proof: Seq<u8>, pi: Seq<u8>)
    requires
        proof.len() == 128,
        pi.len() >= 4,
        pi.len() == 4 + 32 * spec_u32_from_le_bytes(pi.subrange(0, 4)),
        162 + 32 * spec_u32_from_le_bytes(pi.subrange(0, 4)) <= u32::MAX,
    ensures
        pi_layout_ok(pi),
        witness_blob_size(pi_count(pi)) <= u32::MAX,
        witness_blob_size(pi_count(pi)) == 162 + 32 * spec_u32_from_le_bytes(pi.subrange(0, 4)),
{
}

/// The script's exit code for a key blob and a witness blob: a key blob that
/// does not decode gives 14 (malformed) or 18 (wrong version) whatever the
/// witness; then a witness blob that does not decode gives 17 or 18; then
/// the verification decides: 0 when it succeeds, otherwise 1 (key), 2
/// (proof), 3 (public inputs), 4 (count mismatch) or 5 (pairing check).
pub proof fn lemma_script_exit_codes(vk_molecule: Seq<u8>, witness_molecule: Seq<u8>)
    ensures
        spec_decode_vk(vk_molecule) == Err::<Seq<u8>, DecodeError>(DecodeError::Molecule)
            ==> spec_verify_blobs(vk_molecule, witness_molecule) == 14,
        spec_decode_vk(vk_molecule) == Err::<Seq<u8>, DecodeError>(DecodeError::Version)
            ==> spec_verify_blobs(vk_molecule, witness_molecule) == 18,
        spec_decode_vk(vk_molecule) is Ok && spec_decode_witness(witness_molecule) == Err::<
            (Seq<u8>, Seq<u8>),
            DecodeError,
        >(DecodeError::Molecule) ==> spec_verify_blobs(vk_molecule, witness_molecule) == 17,
        spec_decode_vk(vk_molecule) is Ok && spec_decode_witness(witness_molecule) == Err::<
            (Seq<u8>, Seq<u8>),
            DecodeError,
        >(DecodeError::Version) ==> spec_verify_blobs(vk_molecule, witness_molecule) == 18,
        spec_decode_vk(vk_molecule) is Ok && spec_decode_witness(witness_molecule) is Ok ==> {
            let vk = spec_decode_vk(vk_molecule)->Ok_0;
            let (proof, pi) = spec_decode_witness(witness_molecule)->Ok_0;
            spec_verify_blobs(vk_molecule, witness_molecule) == match spec_verify(vk, proof, pi) {
                Ok(()) => 0i8,
                Err(VerifyError::InvalidVk) => 1i8,
                Err(VerifyError::InvalidProof) => 2i8,
                Err(VerifyError::InvalidPublicInputs) => 3i8,
                Err(VerifyError::PublicInputCountMismatch) => 4i8,
                Err(VerifyError::VerificationFailed) => 5i8,
            }
        },
{
}

} // verus!
