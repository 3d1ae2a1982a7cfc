//! The host side of the wire format: arkworks-shaped buffers (as produced by
//! arkworks' compressed serialization) turned into the Molecule blobs that
//! [`crate::wire_decode`] reads back.
use vstd::prelude::*;
use vstd::bytes::{
    lemma_auto_spec_u16_to_from_le_bytes, lemma_auto_spec_u32_to_from_le_bytes,
    lemma_auto_spec_u64_to_from_le_bytes, spec_u32_to_le_bytes, spec_u64_from_le_bytes,
    u16_to_le_bytes, u32_to_le_bytes, u64_from_le_bytes,
};
use vstd::slice::slice_subrange;
use crate::molecule_layout::{
    append_bytes, build_table, fields_size, is_table, lemma_fields_size_empty,
    lemma_fields_size_take_step, table_field, u32_at,
};
use crate::verifier_core::{pi_count, vk_ic_len};
use crate::wire_decode::{
    spec_decode_vk, spec_decode_witness, version_number, DecodeError, VERSION_V1,
};

verus! {

/// The wire format's version number, as it stands in a blob.
const WIRE_VERSION: u16 = VERSION_V1;

/// `vk` has the arkworks compressed verifying-key layout: a 224-byte header,
/// a `u64` entry count and that many 32-byte entries.
pub open spec fn vk_layout_ok(vk: Seq<u8>) -> bool {
    &&& vk.len() >= 232
    &&& vk.len() == 232 + 32 * vk_ic_len(vk)
}

/// The size of the `Groth16VerifyingKey` blob of a key with `ic_len` entries.
pub open spec fn vk_blob_size(ic_len: nat) -> nat {
    270 + 32 * ic_len
}

/// `pi` has the public-input layout: a `u32` count and that many 32-byte
/// elements.
pub open spec fn pi_layout_ok(pi: Seq<u8>) -> bool {
    &&& pi.len() >= 4
    &&& pi.len() == 4 + 32 * pi_count(pi)
}

/// Put the `u32` little-endian count in front of `scalars`, consecutive
/// 32-byte scalar encodings, giving the public-input buffer the verifier
/// reads. `None` when `scalars` is not a whole number of encodings, or holds
/// more of them than a `u32` counts.
pub fn public_inputs_from_scalars(scalars: &[u8]) -> (pi: Option<Vec<u8>>)
    ensures
        pi is Some <==> scalars@.len() % 32 == 0 && scalars@.len() / 32 <= u32::MAX,
        pi matches Some(b) ==> b@ == spec_u32_to_le_bytes((scalars@.len() / 32) as u32) + scalars@,
        pi matches Some(b) ==> pi_layout_ok(b@) && pi_count(b@) == scalars@.len() / 32,
{
    let len = scalars.len();
    if len % 32 != 0 {
        return None;
    }
    let count = len / 32;
    if count > u32::MAX as usize {
        return None;
    }
    let prefix = u32_to_le_bytes(count as u32);
    let mut pi: Vec<u8> = Vec::new();
    append_bytes(&mut pi, prefix.as_slice());
    append_bytes(&mut pi, scalars);
    proof {
        lemma_auto_spec_u32_to_from_le_bytes();
        assert(pi@ =~= prefix@ + scalars@);
        assert(pi@.subrange(0, 4) =~= prefix@);
    }
    Some(pi)
}

/// The size of the `Groth16Witness` blob for `count` public inputs.
pub open spec fn witness_blob_size(count: nat) -> nat {
    162 + 32 * count
}

/// A union holding its first variant: item id 0, then the item.
fn first_variant(item: &[u8]) -> (u: Vec<u8>)
    ensures
        u@.len() == item@.len() + 4,
        u32_at(u@, 0) == 0,
        u@.subrange(4, u@.len() as int) == item@,
{
    let mut u: Vec<u8> = Vec::new();
    let id = u32_to_le_bytes(0);
    append_bytes(&mut u, id.as_slice());
    proof {
        lemma_auto_spec_u32_to_from_le_bytes();
        assert(u@.subrange(0, 4) =~= id@);
    }
    append_bytes(&mut u, item);
    proof {
        assert(u@.subrange(0, 4) =~= id@);
        assert(u@.subrange(4, u@.len() as int) =~= item@);
    }
    u
}

/// The two-field envelope `Groth16VerifyingKey` / `Groth16Witness`: the
/// version and the union holding `item`.
fn envelope(item: &[u8]) -> (blob: Option<Vec<u8>>)
    ensures
        blob is Some <==> item@.len() + 18 <= u32::MAX,
        blob matches Some(b) ==> {
            &&& b@.len() == item@.len() + 18
            &&& is_table(b@, 2)
            &&& table_field(b@, 2, 0).len() == 2
            &&& version_number(b@) == VERSION_V1
            &&& u32_at(table_field(b@, 2, 1), 0) == 0
            &&& table_field(b@, 2, 1).len() >= 4
            &&& table_field(b@, 2, 1).subrange(4, table_field(b@, 2, 1).len() as int) == item@
        },
{
    let version = u16_to_le_bytes(WIRE_VERSION);
    let content = first_variant(item);
    let fields: Vec<&[u8]> = vec![version.as_slice(), content.as_slice()];
    let ghost fs = fields@.map_values(|f: &[u8]| f@);
    proof {
        lemma_auto_spec_u16_to_from_le_bytes();
        lemma_fields_size_empty(fs);
        lemma_fields_size_take_step(fs, 0);
        lemma_fields_size_take_step(fs, 1);
        assert(fields_size(fs.take(2)) == 2 + item@.len() + 4);
    }
    let blob = build_table(&fields);
    proof {
        if blob is Some {
            let b = blob->0;
            assert(table_field(b@, 2, 0) == version@);
            assert(table_field(b@, 2, 1) == content@);
        }
    }
    blob
}

/// Turn an arkworks compressed verifying key (`alpha_g1 ‖ beta_g2 ‖ gamma_g2
/// ‖ delta_g2 ‖ u64_le ic_len ‖ ic_len × 32 B`) into its `Groth16VerifyingKey`
/// blob. `None` when `vk` does not have that layout, or when the blob would
/// not fit Molecule's 4-byte sizes.
pub fn vk_molecule_from_arkworks(vk: &[u8]) -> (blob: Option<Vec<u8>>)
    ensures
        blob is Some <==> vk_layout_ok(vk@) && vk_blob_size(vk_ic_len(vk@)) <= u32::MAX,
        blob matches Some(b) ==> spec_decode_vk(b@) == Ok::<Seq<u8>, DecodeError>(vk@),
        blob matches Some(b) ==> b@.len() == vk_blob_size(vk_ic_len(vk@)),
{
    let len = vk.len();
    if len < 232 {
        return None;
    }
    let ic_len = u64_from_le_bytes(slice_subrange(vk, 224, 232));
    if ic_len > ((u32::MAX - 270) / 32) as u64 {
        return None;
    }
    if len != 232 + 32 * (ic_len as usize) {
        return None;
    }
    let ghost v = vk@;
    // The `G1Vec` of `gamma_abc_g1` entries.
    let mut ic: Vec<u8> = Vec::new();
    let count = u32_to_le_bytes(ic_len as u32);
    append_bytes(&mut ic, count.as_slice());
    append_bytes(&mut ic, slice_subrange(vk, 232, len));
    let alpha_g1 = slice_subrange(vk, 0, 32);
    let beta_g2 = slice_subrange(vk, 32, 96);
    let gamma_g2 = slice_subrange(vk, 96, 160);
    let delta_g2 = slice_subrange(vk, 160, 224);
    let fields: Vec<&[u8]> = vec![alpha_g1, beta_g2, gamma_g2, delta_g2, ic.as_slice()];
    let ghost fs = fields@.map_values(|f: &[u8]| f@);
    proof {
        lemma_auto_spec_u32_to_from_le_bytes();
        lemma_auto_spec_u64_to_from_le_bytes();
        assert(ic@.subrange(0, 4) =~= count@);
        lemma_fields_size_empty(fs);
        lemma_fields_size_take_step(fs, 0);
        lemma_fields_size_take_step(fs, 1);
        lemma_fields_size_take_step(fs, 2);
        lemma_fields_size_take_step(fs, 3);
        lemma_fields_size_take_step(fs, 4);
        assert(fields_size(fs.take(5)) == 224 + ic@.len());
    }
    let bn254 = match build_table(&fields) {
        Some(t) => t,
        None => return None,
    };
    let blob = envelope(bn254.as_slice());
    proof {
        if blob is Some {
            let b = blob->0;
            let item = bn254@;
            assert(table_field(item, 5, 0) == alpha_g1@);
            assert(table_field(item, 5, 4) == ic@);
            assert(ic@.subrange(4, ic@.len() as int) =~= v.subrange(232, v.len() as int));
            assert(u32_at(ic@, 0) == ic_len);
            assert(v.subrange(224, 232) =~= vstd::bytes::spec_u64_to_le_bytes(spec_u64_from_le_bytes(v.subrange(224, 232))));
            let layout = crate::wire_decode::vk_arkworks_layout(b@);
            assert(layout =~= v);
        }
    }
    blob
}

/// Turn an arkworks compressed proof (`a ‖ b ‖ c`, 128 bytes) and public
/// inputs (`u32_le count ‖ count × 32 B`) into their `Groth16Witness` blob.
/// `None` when either buffer does not have its layout, or when the blob would
/// not fit Molecule's 4-byte sizes.
pub fn witness_molecule_from_arkworks(proof: &[u8], public_inputs: &[u8]) -> (blob: Option<Vec<u8>>)
    ensures
        blob is Some <==> proof@.len() == 128 && pi_layout_ok(public_inputs@)
            && witness_blob_size(pi_count(public_inputs@)) <= u32::MAX,
        blob matches Some(b) ==> spec_decode_witness(b@) == Ok::<(Seq<u8>, Seq<u8>), DecodeError>(
            (proof@, public_inputs@),
        ),
        blob matches Some(b) ==> b@.len() == witness_blob_size(pi_count(public_inputs@)),
{
    if proof.len() != 128 {
        return None;
    }
    let len = public_inputs.len();
    if len < 4 {
        return None;
    }
    let count = crate::molecule_layout::read_u32(public_inputs, 0);
    if count > (u32::MAX - 162) / 32 {
        return None;
    }
    if len != 4 + 32 * (count as usize) {
        return None;
    }
    let fields: Vec<&[u8]> = vec![proof, public_inputs];
    let ghost fs = fields@.map_values(|f: &[u8]| f@);
    proof {
        lemma_fields_size_empty(fs);
        lemma_fields_size_take_step(fs, 0);
        lemma_fields_size_take_step(fs, 1);
        assert(fields_size(fs.take(2)) == 128 + len);
    }
    let bn254 = match build_table(&fields) {
        Some(t) => t,
        None => return None,
    };
    let blob = envelope(bn254.as_slice());
    proof {
        if blob is Some {
            let b = blob->0;
            assert(table_field(bn254@, 2, 0) == proof@);
            assert(table_field(bn254@, 2, 1) == public_inputs@);
        }
    }
    blob
}

} // verus!
