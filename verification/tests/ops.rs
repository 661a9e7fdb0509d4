//! Arithmetic tests: multi-scalar multiplication against the naive
//! per-term sum, agreement of the two backends, pairing bilinearity, and
//! the identity laws.

use ark_bls12_381::{Bls12_381, Fq12, Fr, G1Affine, G1Projective, G2Affine};
use ark_ec::pairing::Pairing;
use ark_ec::{AffineRepr, CurveGroup};
use ark_ff::{Field, PrimeField};
use ark_serialize::{CanonicalDeserialize, CanonicalSerialize};

use groth16_verifier::api::msm_g1_bytes;
use groth16_verifier::api::msm_g2_bytes;
use groth16_verifier::api::mul_g1_bytes;
use groth16_verifier::api::mul_g2_bytes;
use groth16_verifier::api::pairing_bytes;
use groth16_verifier::Backend;
use groth16_verifier::Error;

fn ser_g1(p: &G1Affine) -> Vec<u8> {
    let mut out = Vec::new();
    p.serialize_uncompressed(&mut out).unwrap();
    out
}

fn ser_g2(p: &G2Affine) -> Vec<u8> {
    let mut out = Vec::new();
    p.serialize_uncompressed(&mut out).unwrap();
    out
}

fn ser_fr(s: &Fr) -> Vec<u8> {
    let mut out = Vec::new();
    s.serialize_uncompressed(&mut out).unwrap();
    out
}

/// n points (a cheap chain of generator sums) and n scalars, with their
/// concatenated encodings.
fn sample_g1(n: usize) -> (Vec<G1Affine>, Vec<Fr>, Vec<u8>, Vec<u8>) {
    let mut points = Vec::new();
    let mut scalars = Vec::new();
    let mut pb = Vec::new();
    let mut sb = Vec::new();
    let mut acc = G1Affine::generator();
    for i in 0..n {
        let s = Fr::from(3 * i as u64 + 1);
        points.push(acc);
        scalars.push(s);
        pb.extend_from_slice(&ser_g1(&acc));
        sb.extend_from_slice(&ser_fr(&s));
        acc = (acc + G1Affine::generator()).into_affine();
    }
    (points, scalars, pb, sb)
}

#[test]
fn mul_matches_naive_and_backends_agree() {
    let p = G1Affine::generator();
    let pb = ser_g1(&p);
    for v in [0u64, 1, 2, 5, 1023, 987654321] {
        let s = Fr::from(v);
        let sb = ser_fr(&s);
        let reference = mul_g1_bytes(&pb, &sb, Backend::Reference).unwrap();
        let accelerated = mul_g1_bytes(&pb, &sb, Backend::Accelerated).unwrap();
        assert_eq!(reference, accelerated);
        let expected = ser_g1(&(p * s).into_affine());
        assert_eq!(reference, expected);
    }
}

#[test]
fn mul_g2_matches_naive_and_backends_agree() {
    let p = G2Affine::generator();
    let pb = ser_g2(&p);
    for v in [1u64, 7, 65537] {
        let s = Fr::from(v);
        let sb = ser_fr(&s);
        let reference = mul_g2_bytes(&pb, &sb, Backend::Reference).unwrap();
        let accelerated = mul_g2_bytes(&pb, &sb, Backend::Accelerated).unwrap();
        assert_eq!(reference, accelerated);
        let expected = ser_g2(&(p * s).into_affine());
        assert_eq!(reference, expected);
    }
}

#[test]
fn msm_matches_naive_sum() {
    for n in [0usize, 1, 2, 3, 4, 5, 8, 10] {
        let (points, scalars, pb, sb) = sample_g1(n);
        let mut expected = G1Projective::from(G1Affine::zero());
        for i in 0..n {
            expected += points[i] * scalars[i];
        }
        let expected = ser_g1(&expected.into_affine());
        let reference = msm_g1_bytes(&pb, &sb, Backend::Reference).unwrap();
        let accelerated = msm_g1_bytes(&pb, &sb, Backend::Accelerated).unwrap();
        assert_eq!(reference, expected, "reference msm at n = {}", n);
        assert_eq!(accelerated, expected, "accelerated msm at n = {}", n);
    }
}

#[test]
fn msm_large_input_is_consistent() {
    // At n = 1000 the accelerated backend must agree with the sum of the
    // two halves.
    let n = 1000usize;
    let (_, _, pb, sb) = sample_g1(n);
    let whole = msm_g1_bytes(&pb, &sb, Backend::Accelerated).unwrap();
    let half = n / 2;
    let first = msm_g1_bytes(&pb[..96 * half], &sb[..32 * half], Backend::Accelerated).unwrap();
    let second = msm_g1_bytes(&pb[96 * half..], &sb[32 * half..], Backend::Accelerated).unwrap();
    let a = G1Affine::deserialize_uncompressed(&first[..]).unwrap();
    let b = G1Affine::deserialize_uncompressed(&second[..]).unwrap();
    let expected = ser_g1(&(a + b).into_affine());
    assert_eq!(whole, expected);
}

#[test]
fn msm_g2_matches_naive_sum() {
    let g = G2Affine::generator();
    let mut pb = Vec::new();
    let mut sb = Vec::new();
    let mut expected = G2Affine::zero().into_group();
    let mut acc = g;
    for i in 0..4usize {
        let s = Fr::from(5 * i as u64 + 2);
        pb.extend_from_slice(&ser_g2(&acc));
        sb.extend_from_slice(&ser_fr(&s));
        expected += acc * s;
        acc = (acc + g).into_affine();
    }
    let expected = ser_g2(&expected.into_affine());
    let reference = msm_g2_bytes(&pb, &sb, Backend::Reference).unwrap();
    let accelerated = msm_g2_bytes(&pb, &sb, Backend::Accelerated).unwrap();
    assert_eq!(reference, expected);
    assert_eq!(accelerated, expected);
}

#[test]
fn msm_count_mismatch_is_config_error() {
    let (_, _, pb, sb) = sample_g1(2);
    assert_eq!(
        msm_g1_bytes(&pb, &sb[..32], Backend::Reference),
        Err(Error::ConfigMismatch)
    );
    assert_eq!(
        msm_g1_bytes(&pb[..96], &sb, Backend::Accelerated),
        Err(Error::ConfigMismatch)
    );
}

#[test]
fn msm_empty_input_yields_identity() {
    let mut expected = vec![0u8; 96];
    expected[0] = 0x40;
    assert_eq!(msm_g1_bytes(&[], &[], Backend::Reference).unwrap(), expected);
    assert_eq!(msm_g1_bytes(&[], &[], Backend::Accelerated).unwrap(), expected);
    let mut expected2 = vec![0u8; 192];
    expected2[0] = 0x40;
    assert_eq!(msm_g2_bytes(&[], &[], Backend::Reference).unwrap(), expected2);
    assert_eq!(msm_g2_bytes(&[], &[], Backend::Accelerated).unwrap(), expected2);
}

#[test]
fn pairing_backends_agree_and_match_upstream() {
    let pb = ser_g1(&G1Affine::generator());
    let qb = ser_g2(&G2Affine::generator());
    let reference = pairing_bytes(&pb, &qb, Backend::Reference).unwrap();
    let accelerated = pairing_bytes(&pb, &qb, Backend::Accelerated).unwrap();
    assert_eq!(reference, accelerated);
    let expected = Bls12_381::pairing(G1Affine::generator(), G2Affine::generator());
    let mut out = Vec::new();
    expected.0.serialize_uncompressed(&mut out).unwrap();
    assert_eq!(reference, out);
}

#[test]
fn pairing_is_bilinear() {
    let g1 = G1Affine::generator();
    let g2 = G2Affine::generator();
    for (av, bv) in [(5u64, 7u64), (2, 123456), (99991, 3)] {
        let a = Fr::from(av);
        let b = Fr::from(bv);
        let pa = (g1 * a).into_affine();
        let qb = (g2 * b).into_affine();
        let lhs = pairing_bytes(&ser_g1(&pa), &ser_g2(&qb), Backend::Reference).unwrap();
        let base = pairing_bytes(&ser_g1(&g1), &ser_g2(&g2), Backend::Reference).unwrap();
        let base = Fq12::deserialize_uncompressed(&base[..]).unwrap();
        let rhs = base.pow((a * b).into_bigint());
        let mut rhs_bytes = Vec::new();
        rhs.serialize_uncompressed(&mut rhs_bytes).unwrap();
        assert_eq!(lhs, rhs_bytes);
    }
}

#[test]
fn multi_pairing_of_inverse_pair_is_identity() {
    // e(P, Q) * e(-P, Q) == 1, computed with one shared Miller loop.
    let g1 = G1Affine::generator();
    let g2 = G2Affine::generator();
    let p = groth16_verifier::codec::g1_from_bytes(&ser_g1(&g1), false, true).unwrap();
    let p_neg = groth16_verifier::codec::g1_from_bytes(&ser_g1(&(-g1)), false, true).unwrap();
    let q = groth16_verifier::codec::g2_from_bytes(&ser_g2(&g2), false, true).unwrap();
    let product = groth16_verifier::pairing::multi_pairing(&vec![p, p_neg], &vec![q, q]).unwrap();
    let mut one = vec![0u8; 576];
    one[0] = 1;
    assert_eq!(groth16_verifier::codec::gt_to_bytes(&product), one);
    assert_eq!(
        groth16_verifier::pairing::multi_pairing(&vec![p], &vec![q, q]).err(),
        Some(Error::ConfigMismatch)
    );
}

#[test]
fn pairing_with_infinity_is_identity() {
    let mut inf_g1 = vec![0u8; 96];
    inf_g1[0] = 0x40;
    let mut inf_g2 = vec![0u8; 192];
    inf_g2[0] = 0x40;
    let qb = ser_g2(&G2Affine::generator());
    let pb = ser_g1(&G1Affine::generator());
    let mut one = vec![0u8; 576];
    one[0] = 1;
    assert_eq!(pairing_bytes(&inf_g1, &qb, Backend::Reference).unwrap(), one);
    assert_eq!(pairing_bytes(&inf_g1, &qb, Backend::Accelerated).unwrap(), one);
    assert_eq!(pairing_bytes(&pb, &inf_g2, Backend::Reference).unwrap(), one);
    assert_eq!(pairing_bytes(&pb, &inf_g2, Backend::Accelerated).unwrap(), one);
}
