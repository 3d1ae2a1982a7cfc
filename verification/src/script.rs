//! The decisions of the on-chain type script.
//!
//! The script reads its own `args` (32 bytes, the data hash of the verifying
//! key cell it is bound to), then checks whether its script group has an
//! input. With none, the cell is being created and there is nothing to
//! verify. With one, the cell is being spent: the script reads the
//! `input_type` of that input's witness and the verifying key cell found
//! among the cell deps by that data hash. Each read is a host call made by
//! the caller; after each one, the function of this module for that step
//! decides whether the script exits (and with which code) or which read
//! comes next. The final decision decodes both Molecule blobs and verifies
//! the proof, and on the spend path it alone can end the script with 0.
use vstd::prelude::*;
use crate::verifier_core::{spec_verify, verify, VerifyError};
use crate::wire_decode::{
    decode_vk_to_arkworks, decode_witness_to_arkworks, spec_decode_vk, spec_decode_witness,
    DecodeError,
};

verus! {

/// The length of the script's `args`: a 32-byte data hash.
pub const ARGS_LEN: usize = 32;

/// The verifying key failed length validation, parsing, or held invalid points.
pub const ERROR_INVALID_VK: i8 = 1;
/// The proof failed length validation, parsing, or held a point at infinity.
pub const ERROR_INVALID_PROOF: i8 = 2;
/// The public inputs failed length validation or parsing.
pub const ERROR_INVALID_PUBLIC_INPUTS: i8 = 3;
/// The public-input count disagrees with the verifying key.
pub const ERROR_PUBLIC_INPUT_COUNT_MISMATCH: i8 = 4;
/// The pairing check rejected the proof.
pub const ERROR_VERIFICATION_FAILED: i8 = 5;
/// The script itself could not be loaded.
pub const ERROR_SCRIPT_LOAD_FAILED: i8 = 10;
/// The script's `args` are not 32 bytes long.
pub const ERROR_BAD_ARGS_LENGTH: i8 = 11;
/// No cell dep has the data hash named by `args`.
pub const ERROR_VK_CELL_NOT_FOUND: i8 = 12;
/// The verifying key cell could not be read.
pub const ERROR_VK_LOAD_FAILED: i8 = 13;
/// The verifying key blob is not a valid `Groth16VerifyingKey`.
pub const ERROR_VK_MOLECULE_DECODE: i8 = 14;
/// The group input, or its witness, could not be loaded.
pub const ERROR_WITNESS_LOAD_FAILED: i8 = 15;
/// The witness has no `input_type`.
pub const ERROR_WITNESS_MISSING_INPUT_TYPE: i8 = 16;
/// The `input_type` is not a valid `Groth16Witness`.
pub const ERROR_WITNESS_MOLECULE_DECODE: i8 = 17;
/// A blob carries a wire-format version other than 1.
pub const ERROR_VERSION_MISMATCH: i8 = 18;
/// Reserved for curves other than BN254; the wire unions have no other
/// variant yet, so no path produces it.
pub const ERROR_UNSUPPORTED_CURVE: i8 = 19;

/// How a host call failed, as far as the script tells failures apart.
#[derive(Debug, PartialEq, Eq, Clone, Copy, Structural)]
pub enum LoadError {
    /// The index is out of bound: nothing is there.
    IndexOutOfBound,
    /// Any other failure.
    Other,
}

/// The exit code for a verifying key blob that did not decode.
pub open spec fn spec_vk_decode_err(e: DecodeError) -> i8 {
    match e {
        DecodeError::Molecule => ERROR_VK_MOLECULE_DECODE,
        DecodeError::Version => ERROR_VERSION_MISMATCH,
    }
}

/// The exit code for a witness blob that did not decode.
pub open spec fn spec_witness_decode_err(e: DecodeError) -> i8 {
    match e {
        DecodeError::Molecule => ERROR_WITNESS_MOLECULE_DECODE,
        DecodeError::Version => ERROR_VERSION_MISMATCH,
    }
}

/// The exit code for a failed verification.
pub open spec fn spec_verify_err(e: VerifyError) -> i8 {
    match e {
        VerifyError::InvalidVk => ERROR_INVALID_VK,
        VerifyError::InvalidProof => ERROR_INVALID_PROOF,
        VerifyError::InvalidPublicInputs => ERROR_INVALID_PUBLIC_INPUTS,
        VerifyError::PublicInputCountMismatch => ERROR_PUBLIC_INPUT_COUNT_MISMATCH,
        VerifyError::VerificationFailed => ERROR_VERIFICATION_FAILED,
    }
}

/// The exit code for a verifying key blob and a witness blob: the key is
/// decoded first, then the witness, then the proof is verified; 0 when it
/// verifies.
pub open spec fn spec_verify_blobs(vk_molecule: Seq<u8>, witness_molecule: Seq<u8>) -> i8 {
    match spec_decode_vk(vk_molecule) {
        Err(e) => spec_vk_decode_err(e),
        Ok(vk) => match spec_decode_witness(witness_molecule) {
            Err(e) => spec_witness_decode_err(e),
            Ok((proof, pi)) => match spec_verify(vk, proof, pi) {
                Ok(()) => 0,
                Err(e) => spec_verify_err(e),
            },
        },
    }
}

/// The exit code for a verifying key blob that did not decode.
pub fn vk_decode_err(e: DecodeError) -> (code: i8)
    ensures
        code == spec_vk_decode_err(e),
{
    match e {
        DecodeError::Molecule => ERROR_VK_MOLECULE_DECODE,
        DecodeError::Version => ERROR_VERSION_MISMATCH,
    }
}

/// The exit code for a witness blob that did not decode.
pub fn witness_decode_err(e: DecodeError) -> (code: i8)
    ensures
        code == spec_witness_decode_err(e),
{
    match e {
        DecodeError::Molecule => ERROR_WITNESS_MOLECULE_DECODE,
        DecodeError::Version => ERROR_VERSION_MISMATCH,
    }
}

/// The exit code for a failed verification.
pub fn verify_err(e: VerifyError) -> (code: i8)
    ensures
        code == spec_verify_err(e),
{
    match e {
        VerifyError::InvalidVk => ERROR_INVALID_VK,
        VerifyError::InvalidProof => ERROR_INVALID_PROOF,
        VerifyError::InvalidPublicInputs => ERROR_INVALID_PUBLIC_INPUTS,
        VerifyError::PublicInputCountMismatch => ERROR_PUBLIC_INPUT_COUNT_MISMATCH,
        VerifyError::VerificationFailed => ERROR_VERIFICATION_FAILED,
    }
}

/// Decode the verifying key blob, then the witness blob, then verify; the
/// script's exit code.
pub fn verify_blobs(vk_molecule: &[u8], witness_molecule: &[u8]) -> (code: i8)
    ensures
        code == spec_verify_blobs(vk_molecule@, witness_molecule@),
{
    let vk_bytes = match decode_vk_to_arkworks(vk_molecule) {
        Ok(b) => b,
        Err(e) => return vk_decode_err(e),
    };
    let (proof_bytes, pi_bytes) = match decode_witness_to_arkworks(witness_molecule) {
        Ok(pair) => pair,
        Err(e) => return witness_decode_err(e),
    };
    match verify(vk_bytes.as_slice(), proof_bytes.as_slice(), pi_bytes.as_slice()) {
        Ok(()) => 0,
        Err(e) => verify_err(e),
    }
}

/// What the script does after reading its own `args`.
#[derive(Debug, PartialEq, Eq)]
pub enum ScriptStep {
    /// Exit with this code.
    Exit(i8),
    /// Check whether the script group has a first input.
    ProbeGroupInput { args: Vec<u8> },
}

/// What the script does after checking for a group input.
#[derive(Debug, PartialEq, Eq)]
pub enum GroupInputStep {
    /// Exit with this code.
    Exit(i8),
    /// Read the witness of the script group's first input.
    LoadWitness { args: Vec<u8> },
}

/// What the script does after reading its group input's witness.
#[derive(Debug, PartialEq, Eq)]
pub enum WitnessStep {
    /// Exit with this code.
    Exit(i8),
    /// Find the cell dep whose data hash is `args`.
    LocateVk { args: Vec<u8>, witness: Vec<u8> },
}

/// What the script does after looking for the verifying key cell.
#[derive(Debug, PartialEq, Eq)]
pub enum LocateStep {
    /// Exit with this code.
    Exit(i8),
    /// Read the data of the cell dep at `index`.
    LoadVk { index: usize, witness: Vec<u8> },
}

/// The script has read its `args` (or failed to load itself): a 32-byte
/// `args` leads on to the check for a group input, anything else ends the
/// script with a non-zero code.
pub fn on_script_loaded(args: Result<Vec<u8>, LoadError>) -> (step: ScriptStep)
    ensures
        match args {
            Err(_) => step == ScriptStep::Exit(ERROR_SCRIPT_LOAD_FAILED),
            Ok(a) => if a@.len() != ARGS_LEN {
                step == ScriptStep::Exit(ERROR_BAD_ARGS_LENGTH)
            } else {
                step matches ScriptStep::ProbeGroupInput { args: b } && b@ == a@
            },
        },
        step matches ScriptStep::Exit(c) ==> c != 0,
{
    match args {
        Err(_) => ScriptStep::Exit(ERROR_SCRIPT_LOAD_FAILED),
        Ok(a) => {
            if a.len() != ARGS_LEN {
                ScriptStep::Exit(ERROR_BAD_ARGS_LENGTH)
            } else {
                ScriptStep::ProbeGroupInput { args: a }
            }
        },
    }
}

/// The script has asked for the first input of its script group. When there
/// is none (the index is out of bound), the cell is being created, not
/// spent: there is nothing to verify and the script accepts. When there is
/// one, the cell is being spent and the proof in that input's witness is
/// read next. This is the only step that ends the script with 0 before a
/// proof has been verified.
pub fn on_group_input_probed(args: Vec<u8>, probe: Result<(), LoadError>) -> (step: GroupInputStep)
    ensures
        match probe {
            Err(LoadError::IndexOutOfBound) => step == GroupInputStep::Exit(0),
            Err(LoadError::Other) => step == GroupInputStep::Exit(ERROR_WITNESS_LOAD_FAILED),
            Ok(()) => step matches GroupInputStep::LoadWitness { args: a } && a@ == args@,
        },
{
    match probe {
        Err(LoadError::IndexOutOfBound) => GroupInputStep::Exit(0),
        Err(LoadError::Other) => GroupInputStep::Exit(ERROR_WITNESS_LOAD_FAILED),
        Ok(()) => GroupInputStep::LoadWitness { args },
    }
}

/// The script, spending its group input, has read the `input_type` of that
/// input's witness. The `input_type` bytes are the proof to check, and the
/// next read looks for the key named by `args`. A witness that cannot be
/// read (a missing witness slot among them) or that has no `input_type`
/// ends the script with a non-zero code: a spend is never accepted without
/// a proof.
pub fn on_witness_loaded(args: Vec<u8>, input_type: Result<Option<Vec<u8>>, LoadError>) -> (step: WitnessStep)
    ensures
        match input_type {
            Err(_) => step == WitnessStep::Exit(ERROR_WITNESS_LOAD_FAILED),
            Ok(None) => step == WitnessStep::Exit(ERROR_WITNESS_MISSING_INPUT_TYPE),
            Ok(Some(w)) => step matches WitnessStep::LocateVk { args: a, witness: v } && a@ == args@ && v@
                == w@,
        },
        step matches WitnessStep::Exit(c) ==> c != 0,
{
    match input_type {
        Err(_) => WitnessStep::Exit(ERROR_WITNESS_LOAD_FAILED),
        Ok(None) => WitnessStep::Exit(ERROR_WITNESS_MISSING_INPUT_TYPE),
        Ok(Some(w)) => WitnessStep::LocateVk { args, witness: w },
    }
}

/// The script has looked for the cell dep whose data hash is its `args`.
pub fn on_vk_located(witness: Vec<u8>, found: Result<usize, LoadError>) -> (step: LocateStep)
    ensures
        step matches LocateStep::Exit(c) ==> c != 0,
        match found {
            Err(LoadError::IndexOutOfBound) => step == LocateStep::Exit(ERROR_VK_CELL_NOT_FOUND),
            Err(LoadError::Other) => step == LocateStep::Exit(ERROR_VK_LOAD_FAILED),
            Ok(i) => step matches LocateStep::LoadVk { index: j, witness: v } && j == i && v@ == witness@,
        },
{
    match found {
        Err(LoadError::IndexOutOfBound) => LocateStep::Exit(ERROR_VK_CELL_NOT_FOUND),
        Err(LoadError::Other) => LocateStep::Exit(ERROR_VK_LOAD_FAILED),
        Ok(index) => LocateStep::LoadVk { index, witness },
    }
}

/// The script has read the verifying key cell: the exit code, 0 exactly when
/// both blobs decode and the proof verifies.
pub fn on_vk_loaded(witness: &[u8], vk_cell: Result<Vec<u8>, LoadError>) -> (code: i8)
    ensures
        code == 0 <==> (vk_cell matches Ok(vk) && spec_verify_blobs(vk@, witness@) == 0),
        match vk_cell {
            Err(_) => code == ERROR_VK_LOAD_FAILED,
            Ok(vk) => code == spec_verify_blobs(vk@, witness@),
        },
{
    match vk_cell {
        Err(_) => ERROR_VK_LOAD_FAILED,
        Ok(vk) => verify_blobs(vk.as_slice(), witness),
    }
}

} // verus!
