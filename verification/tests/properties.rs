//! Invariants of `verify` exercised on randomized inputs.

use ark_bn254::{Bn254, Fr};
use ark_ff::{BigInteger, PrimeField};
use ark_groth16::Groth16;
use ark_relations::r1cs::{
    ConstraintSynthesizer, ConstraintSystemRef, LinearCombination, SynthesisError,
};
use ark_serialize::CanonicalSerialize;
use ark_snark::SNARK;
use ark_std::rand::{RngCore, SeedableRng};

use groth16_ckb::{verify, VerifyError};

#[derive(Clone)]
struct SquareCircuit<F: PrimeField> {
    x: Option<F>,
    y: Option<F>,
}

impl<F: PrimeField> ConstraintSynthesizer<F> for SquareCircuit<F> {
    fn generate_constraints(self, cs: ConstraintSystemRef<F>) -> Result<(), SynthesisError> {
        let x = cs.new_witness_variable(|| self.x.ok_or(SynthesisError::AssignmentMissing))?;
        let y = cs.new_input_variable(|| self.y.ok_or(SynthesisError::AssignmentMissing))?;
        cs.enforce_constraint(
            LinearCombination::zero() + x,
            LinearCombination::zero() + x,
            LinearCombination::zero() + y,
        )?;
        Ok(())
    }
}

struct Sample {
    vk_bytes: Vec<u8>,
    proof_bytes: Vec<u8>,
    pi_bytes: Vec<u8>,
    public_inputs: Vec<Fr>,
}

fn valid_sample(x_value: u64, rng_seed: u64) -> Sample {
    let mut rng = ark_std::rand::rngs::StdRng::seed_from_u64(rng_seed);
    let x = Fr::from(x_value);
    let y = x * x;
    let circuit = SquareCircuit {
        x: Some(x),
        y: Some(y),
    };
    let (pk, vk) =
        Groth16::<Bn254>::circuit_specific_setup(circuit.clone(), &mut rng).expect("setup");
    let proof = Groth16::<Bn254>::prove(&pk, circuit, &mut rng).expect("prove");
    let public_inputs = vec![y];
    let mut vk_bytes = Vec::new();
    vk.serialize_compressed(&mut vk_bytes).expect("vk serialize");
    let mut proof_bytes = Vec::new();
    proof
        .serialize_compressed(&mut proof_bytes)
        .expect("proof serialize");
    let mut pi_bytes = Vec::new();
    (public_inputs.len() as u32)
        .serialize_compressed(&mut pi_bytes)
        .expect("pi count serialize");
    for fe in &public_inputs {
        fe.serialize_compressed(&mut pi_bytes).expect("pi serialize");
    }
    Sample {
        vk_bytes,
        proof_bytes,
        pi_bytes,
        public_inputs,
    }
}

/// Encode a single-Fr public-input buffer with its `u32 LE count` prefix.
fn encode_single_pi(fe: Fr) -> Vec<u8> {
    let mut buf = Vec::new();
    1u32.serialize_compressed(&mut buf).expect("count");
    fe.serialize_compressed(&mut buf).expect("fe");
    buf
}

/// A valid proof must not verify against any public-input value other than
/// the one it was generated for (256 randomly drawn values).
#[test]
fn proof_against_random_public_input_is_rejected() {
    let sample = valid_sample(3, 42);
    let true_y = sample.public_inputs[0];
    let mut rng = ark_std::rand::rngs::StdRng::seed_from_u64(0x5EED);
    for _ in 0..256 {
        let forged_y = rng.next_u64();
        let forged = Fr::from(forged_y);
        if forged == true_y {
            continue;
        }
        let bad_pi = encode_single_pi(forged);
        let result = verify(&sample.vk_bytes, &sample.proof_bytes, &bad_pi);
        assert!(
            result.is_err(),
            "verifier accepted proof against forged public input {forged_y}: {result:?}",
        );
    }
}

/// `verify` is pure: the same bytes give the same result.
#[test]
fn verify_is_deterministic() {
    let sample = valid_sample(7, 0xD37);
    let a = verify(&sample.vk_bytes, &sample.proof_bytes, &sample.pi_bytes);
    let b = verify(&sample.vk_bytes, &sample.proof_bytes, &sample.pi_bytes);
    assert_eq!(a, b);
    assert!(a.is_ok(), "baseline sample failed to verify: {a:?}");
}

/// A public input is accepted as a scalar exactly when its little-endian
/// value is below the scalar-field modulus: `r - 1` reaches the pairing
/// check, `r` and `2^256 - 1` are refused as malformed.
#[test]
fn public_input_canonical_boundary() {
    let sample = valid_sample(3, 42);
    let modulus = Fr::MODULUS.to_bytes_le();
    let mut below = modulus.clone();
    below[0] -= 1;
    let with_input = |bytes: &[u8]| {
        let mut pi = 1u32.to_le_bytes().to_vec();
        pi.extend_from_slice(bytes);
        verify(&sample.vk_bytes, &sample.proof_bytes, &pi)
    };
    assert_eq!(with_input(&below), Err(VerifyError::VerificationFailed));
    assert_eq!(with_input(&modulus), Err(VerifyError::InvalidPublicInputs));
    assert_eq!(with_input(&[0xffu8; 32]), Err(VerifyError::InvalidPublicInputs));
}
