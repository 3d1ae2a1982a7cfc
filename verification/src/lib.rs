//! A Groth16 zkSNARK verifier for CKB-VM on BN254, with the Molecule wire
//! format that carries verifying keys and proofs on chain.
//!
//! * [`verifier_core`]: Groth16 verification over arkworks-shaped buffers,
//!   with exact length checks before any decoding.
//! * [`wire_decode`] / [`wire_encode`]: the Molecule wire format and the
//!   arkworks-shaped buffers, in both directions.
//! * [`script`]: the decisions of the on-chain type script.
//! * [`molecule_layout`]: the Molecule building blocks the schema uses.
//! * [`arkworks`]: the calls into arkworks.
//! * [`laws`]: properties relating the parts.
use vstd::prelude::*;

pub mod arkworks;
pub mod laws;
pub mod molecule_layout;
pub mod script;
pub mod verifier_core;
pub mod wire_decode;
pub mod wire_encode;

pub use verifier_core::{verify, VerifyError};
pub use wire_decode::{decode_vk_to_arkworks, decode_witness_to_arkworks, DecodeError, VERSION_V1};
pub use wire_encode::{public_inputs_from_scalars, vk_molecule_from_arkworks, witness_molecule_from_arkworks};

verus! {
} // verus!
