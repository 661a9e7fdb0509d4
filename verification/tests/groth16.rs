//! End-to-end verification tests: proofs produced by the arkworks prover
//! are accepted, and corrupted or mismatched inputs are rejected with the
//! right failure.

use ark_bls12_381::{Bls12_381, Fr};
use ark_ec::AffineRepr;
use ark_groth16::Groth16;
use ark_relations::r1cs::{
    ConstraintSynthesizer, ConstraintSystemRef, LinearCombination, SynthesisError,
};
use ark_serialize::CanonicalSerialize;
use ark_snark::SNARK;
use ark_std::rand::rngs::StdRng;
use ark_std::rand::SeedableRng;

use groth16_verifier::api::groth16_optimized_prepare_inputs;
use groth16_verifier::api::groth16_optimized_prepare_verifying_key;
use groth16_verifier::api::groth16_optimized_verify_with_prepared_inputs;
use groth16_verifier::api::groth16_prepare_inputs;
use groth16_verifier::api::groth16_prepare_verifying_key;
use groth16_verifier::api::groth16_verify_with_prepared_inputs;
use groth16_verifier::Error;

#[derive(Clone)]
struct MulCircuit {
    a: Option<Fr>,
    b: Option<Fr>,
}

impl ConstraintSynthesizer<Fr> for MulCircuit {
    fn generate_constraints(self, cs: ConstraintSystemRef<Fr>) -> Result<(), SynthesisError> {
        let a = cs.new_witness_variable(|| self.a.ok_or(SynthesisError::AssignmentMissing))?;
        let b = cs.new_witness_variable(|| self.b.ok_or(SynthesisError::AssignmentMissing))?;
        let c = cs.new_input_variable(|| {
            let a = self.a.ok_or(SynthesisError::AssignmentMissing)?;
            let b = self.b.ok_or(SynthesisError::AssignmentMissing)?;
            Ok(a * b)
        })?;
        cs.enforce_constraint(
            LinearCombination(vec![(Fr::from(1u64), a)]),
            LinearCombination(vec![(Fr::from(1u64), b)]),
            LinearCombination(vec![(Fr::from(1u64), c)]),
        )?;
        Ok(())
    }
}

/// Builds a verifying key, one public input and a valid proof for the
/// statement 3 * 4 == 12, each in the library's canonical uncompressed
/// encoding.
fn artifacts() -> (Vec<u8>, Vec<u8>, Vec<u8>) {
    let mut rng = StdRng::seed_from_u64(42);
    let circuit = MulCircuit {
        a: Some(Fr::from(3u64)),
        b: Some(Fr::from(4u64)),
    };
    let (pk, vk) =
        Groth16::<Bls12_381>::circuit_specific_setup(circuit.clone(), &mut rng).unwrap();
    let proof = Groth16::<Bls12_381>::prove(&pk, circuit, &mut rng).unwrap();
    let c = Fr::from(12u64);
    let mut vkb = Vec::new();
    vk.serialize_uncompressed(&mut vkb).unwrap();
    let mut cb = Vec::new();
    c.serialize_uncompressed(&mut cb).unwrap();
    let mut pfb = Vec::new();
    proof.serialize_uncompressed(&mut pfb).unwrap();
    (vkb, cb, pfb)
}

#[test]
fn groth16_verification() {
    let (vkb, cb, pfb) = artifacts();
    assert!(groth16_verifier::api::groth16_verification(&vkb, &cb, &pfb).is_ok());
}

#[test]
fn groth16_verificaton_optimized() {
    let (vkb, cb, pfb) = artifacts();
    assert!(groth16_verifier::api::groth16_verification_optimized(&vkb, &cb, &pfb).is_ok());
}

#[test]
fn prepared_pipeline_accepts_valid_proof() {
    let (vkb, cb, pfb) = artifacts();
    let pvkb = groth16_prepare_verifying_key(&vkb).unwrap();
    let inputs = groth16_prepare_inputs(&pvkb, &cb).unwrap();
    assert!(groth16_verify_with_prepared_inputs(&inputs, &pvkb, &pfb).is_ok());
}

#[test]
fn prepared_pipeline_optimized_matches() {
    let (vkb, cb, pfb) = artifacts();
    let pvkb = groth16_optimized_prepare_verifying_key(&vkb).unwrap();
    let pvkb_ref = groth16_prepare_verifying_key(&vkb).unwrap();
    assert_eq!(pvkb, pvkb_ref);
    let inputs = groth16_optimized_prepare_inputs(&pvkb, &cb).unwrap();
    let inputs_ref = groth16_prepare_inputs(&pvkb, &cb).unwrap();
    assert_eq!(inputs, inputs_ref);
    assert!(groth16_optimized_verify_with_prepared_inputs(&inputs, &pvkb, &pfb).is_ok());
}

#[test]
fn prepared_pipeline_rejects_corrupted_proof() {
    let (vkb, cb, mut pfb) = artifacts();
    let pvkb = groth16_prepare_verifying_key(&vkb).unwrap();
    let inputs = groth16_prepare_inputs(&pvkb, &cb).unwrap();
    let last = pfb.len() - 1;
    pfb[last] ^= 1;
    assert!(groth16_verify_with_prepared_inputs(&inputs, &pvkb, &pfb).is_err());
}

#[test]
fn wrong_public_input_fails_verification() {
    let (vkb, _cb, pfb) = artifacts();
    let mut cb = Vec::new();
    Fr::from(13u64).serialize_uncompressed(&mut cb).unwrap();
    assert_eq!(
        groth16_verifier::api::groth16_verification(&vkb, &cb, &pfb),
        Err(Error::VerificationFailed)
    );
}

#[test]
fn proof_bit_flips_fail_verification() {
    let (vkb, cb, pfb) = artifacts();
    // One byte inside each of the A, B and C components.  The sort-flag
    // bit of an uncompressed component's leading byte is masked away by
    // the decoder, so flipping it does not change the decoded point.
    for &pos in &[0usize, 47, 95, 96, 200, 287, 288, 383] {
        for bit in 0..8u8 {
            let flags_byte = pos == 0 || pos == 96 || pos == 288;
            if flags_byte && bit == 5 {
                continue;
            }
            let mut mutated = pfb.clone();
            mutated[pos] ^= 1 << bit;
            assert!(
                groth16_verifier::api::groth16_verification(&vkb, &cb, &mutated).is_err(),
                "flipping bit {} of byte {} must not verify",
                bit,
                pos
            );
        }
    }
}

#[test]
fn truncated_encodings_are_malformed() {
    let (vkb, cb, pfb) = artifacts();
    assert_eq!(
        groth16_verifier::api::groth16_verification(&vkb[..vkb.len() - 1], &cb, &pfb),
        Err(Error::MalformedEncoding)
    );
    assert_eq!(
        groth16_verifier::api::groth16_verification(&vkb, &cb[..31], &pfb),
        Err(Error::MalformedEncoding)
    );
    assert_eq!(
        groth16_verifier::api::groth16_verification(&vkb, &cb, &pfb[..383]),
        Err(Error::MalformedEncoding)
    );
}

#[test]
fn typed_layer_verifies() {
    let (vkb, cb, pfb) = artifacts();
    let vk = groth16_verifier::codec::vk_from_bytes(&vkb, true).unwrap();
    let ss = groth16_verifier::codec::scalars_from_bytes(&cb).unwrap();
    let pf = groth16_verifier::codec::proof_from_bytes(&pfb, true).unwrap();
    let pvk = groth16_verifier::groth16::prepare_verifying_key(&vk).unwrap();
    let pi = groth16_verifier::groth16::prepare_inputs(
        &pvk,
        &ss,
        groth16_verifier::Backend::Reference,
    )
    .unwrap();
    assert!(groth16_verifier::groth16::verify_with_prepared_inputs(&pvk, &pi, &pf));
    assert_eq!(
        groth16_verifier::groth16::verify(&vk, &ss, &pf, groth16_verifier::Backend::Accelerated),
        Ok(true)
    );
}

#[test]
fn empty_public_inputs_yield_constant_term() {
    // A key whose basis holds only the constant term: preparing an empty
    // input list must return exactly that term.
    let mut g1 = Vec::new();
    ark_bls12_381::G1Affine::generator().serialize_uncompressed(&mut g1).unwrap();
    let mut g2 = Vec::new();
    ark_bls12_381::G2Affine::generator().serialize_uncompressed(&mut g2).unwrap();
    let mut vkb = Vec::new();
    vkb.extend_from_slice(&g1);
    vkb.extend_from_slice(&g2);
    vkb.extend_from_slice(&g2);
    vkb.extend_from_slice(&g2);
    vkb.extend_from_slice(&1u64.to_le_bytes());
    vkb.extend_from_slice(&g1);
    let pvkb = groth16_prepare_verifying_key(&vkb).unwrap();
    assert_eq!(groth16_prepare_inputs(&pvkb, &[]).unwrap(), g1);
    assert_eq!(groth16_optimized_prepare_inputs(&pvkb, &[]).unwrap(), g1);
}

#[test]
fn input_count_mismatch_is_config_error() {
    let (vkb, cb, pfb) = artifacts();
    let mut two_scalars = cb.clone();
    two_scalars.extend_from_slice(&cb);
    assert_eq!(
        groth16_verifier::api::groth16_verification(&vkb, &two_scalars, &pfb),
        Err(Error::ConfigMismatch)
    );
    let pvkb = groth16_prepare_verifying_key(&vkb).unwrap();
    assert_eq!(
        groth16_prepare_inputs(&pvkb, &two_scalars),
        Err(Error::ConfigMismatch)
    );
}
