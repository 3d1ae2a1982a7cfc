# groth16_ckb

A Groth16 zkSNARK verifier on BN254 for CKB-VM, built on arkworks and
verified with Verus.

* `src/verifier_core.rs`: `verify(vk, proof, public_inputs)` over the
  arkworks compressed buffers. Every length and length prefix is checked
  exactly before anything is decoded; every point of the key and the proof is
  validated and the point at infinity is refused; then the pairing check runs.
* `src/wire_decode.rs`, `src/wire_encode.rs`: the Molecule wire format
  (`Groth16VerifyingKey`, `Groth16Witness`) and the arkworks buffers, both
  ways. Decoding is total, encoding is its inverse, and each value has exactly
  one encoding.
* `src/script.rs`: the decisions of the on-chain type script, one function
  per host read, and its exit codes. The script accepts without a proof only
  when its script group has no input (the cell is being created); a spend
  exits with 0 only after the proof in the input's witness verifies.
* `src/molecule_layout.rs`: the Molecule tables, fixvecs and unions the
  schema uses.
* `src/arkworks.rs`: the calls into arkworks, each taking bytes and returning
  plain values. Scalar decoding is stated exactly (a little-endian value below
  the modulus); point decoding, the G2 subgroup check and the pairing check
  are named, not proved.
* `src/laws.rs`: properties relating decoder, encoder, verifier and script.
* `app/`: the test-vector generator, the arkworks encoders, the sample
  circuit and the on-chain entry point that performs the host reads.
