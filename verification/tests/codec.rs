//! Codec tests: round trips in both compression modes, canonical infinity
//! handling, and each decode failure.

use ark_bls12_381::{Fq, Fr, G1Affine, G2Affine};
use ark_ec::AffineRepr;
use ark_ff::Field;
use ark_serialize::CanonicalSerialize;

use groth16_verifier::codec::g1_from_bytes;
use groth16_verifier::codec::g1_to_bytes;
use groth16_verifier::codec::g2_from_bytes;
use groth16_verifier::codec::g2_to_bytes;
use groth16_verifier::codec::gt_from_bytes;
use groth16_verifier::codec::gt_to_bytes;
use groth16_verifier::codec::proof_from_bytes;
use groth16_verifier::codec::proof_to_bytes;
use groth16_verifier::codec::scalar_from_bytes;
use groth16_verifier::codec::scalar_to_bytes;
use groth16_verifier::codec::scalars_from_bytes;
use groth16_verifier::codec::scalars_to_bytes;
use groth16_verifier::codec::vk_from_bytes;
use groth16_verifier::codec::vk_to_bytes;
use groth16_verifier::codec::pvk_from_bytes;
use groth16_verifier::codec::pvk_to_bytes;
use groth16_verifier::api::pairing_bytes;
use groth16_verifier::Backend;
use groth16_verifier::Error;

fn g1_gen_bytes(compressed: bool) -> Vec<u8> {
    let mut out = Vec::new();
    if compressed {
        G1Affine::generator().serialize_compressed(&mut out).unwrap();
    } else {
        G1Affine::generator().serialize_uncompressed(&mut out).unwrap();
    }
    out
}

fn g2_gen_bytes(compressed: bool) -> Vec<u8> {
    let mut out = Vec::new();
    if compressed {
        G2Affine::generator().serialize_compressed(&mut out).unwrap();
    } else {
        G2Affine::generator().serialize_uncompressed(&mut out).unwrap();
    }
    out
}

#[test]
fn scalar_round_trip() {
    let mut sb = Vec::new();
    Fr::from(123456789u64).serialize_uncompressed(&mut sb).unwrap();
    let s = scalar_from_bytes(&sb).unwrap();
    assert_eq!(scalar_to_bytes(&s), sb);
}

#[test]
fn scalar_rejects_out_of_range_and_wrong_length() {
    assert_eq!(scalar_from_bytes(&[0xffu8; 32]).err(), Some(Error::MalformedEncoding));
    assert_eq!(scalar_from_bytes(&[0u8; 31]).err(), Some(Error::MalformedEncoding));
    assert_eq!(scalar_from_bytes(&[0u8; 33]).err(), Some(Error::MalformedEncoding));
}

#[test]
fn scalar_list_round_trip() {
    let mut bytes = Vec::new();
    for v in [5u64, 6, 7] {
        Fr::from(v).serialize_uncompressed(&mut bytes).unwrap();
    }
    let list = scalars_from_bytes(&bytes).unwrap();
    assert_eq!(list.len(), 3);
    assert_eq!(scalars_to_bytes(&list), bytes);
    assert_eq!(scalars_from_bytes(&bytes[..40]).err(), Some(Error::MalformedEncoding));
}

#[test]
fn g1_round_trip_both_modes() {
    let unc = g1_gen_bytes(false);
    let comp = g1_gen_bytes(true);
    let p = g1_from_bytes(&unc, false, true).unwrap();
    assert_eq!(g1_to_bytes(&p, false), unc);
    assert_eq!(g1_to_bytes(&p, true), comp);
    let p2 = g1_from_bytes(&comp, true, true).unwrap();
    assert_eq!(g1_to_bytes(&p2, false), unc);
}

#[test]
fn g2_round_trip_both_modes() {
    let unc = g2_gen_bytes(false);
    let comp = g2_gen_bytes(true);
    let p = g2_from_bytes(&unc, false, true).unwrap();
    assert_eq!(g2_to_bytes(&p, false), unc);
    assert_eq!(g2_to_bytes(&p, true), comp);
    let p2 = g2_from_bytes(&comp, true, true).unwrap();
    assert_eq!(g2_to_bytes(&p2, false), unc);
}

#[test]
fn gt_round_trip() {
    let gtb = pairing_bytes(&g1_gen_bytes(false), &g2_gen_bytes(false), Backend::Reference)
        .unwrap();
    let x = gt_from_bytes(&gtb).unwrap();
    assert_eq!(gt_to_bytes(&x), gtb);
    assert_eq!(gt_from_bytes(&gtb[..575]).err(), Some(Error::MalformedEncoding));
    assert_eq!(gt_from_bytes(&[0xffu8; 576]).err(), Some(Error::MalformedEncoding));
}

#[test]
fn infinity_point_round_trip() {
    let mut inf = vec![0u8; 96];
    inf[0] = 0x40;
    let p = g1_from_bytes(&inf, false, true).unwrap();
    assert_eq!(g1_to_bytes(&p, false), inf);
    let mut inf2 = vec![0u8; 192];
    inf2[0] = 0x40;
    let q = g2_from_bytes(&inf2, false, true).unwrap();
    assert_eq!(g2_to_bytes(&q, false), inf2);
}

#[test]
fn off_curve_point_is_invalid() {
    let mut unc = g1_gen_bytes(false);
    // Corrupt the low byte of the y coordinate: the pair leaves the curve.
    unc[48] = unc[48].wrapping_add(1);
    assert_eq!(g1_from_bytes(&unc, false, true).err(), Some(Error::InvalidPoint));
    // Without validation the same bytes decode.
    assert!(g1_from_bytes(&unc, false, false).is_ok());
}

#[test]
fn out_of_subgroup_point_is_rejected() {
    // Walk x upward until a curve point appears that lies outside the
    // prime-order subgroup (the G1 cofactor is large, so one comes fast).
    let mut x = Fq::from(2u64);
    let found = loop {
        let y2 = x * x * x + Fq::from(4u64);
        if let Some(y) = y2.sqrt() {
            let p = G1Affine::new_unchecked(x, y);
            if p.is_on_curve() && !p.is_in_correct_subgroup_assuming_on_curve() {
                break p;
            }
        }
        x += Fq::from(1u64);
    };
    let mut bytes = Vec::new();
    found.serialize_uncompressed(&mut bytes).unwrap();
    assert_eq!(g1_from_bytes(&bytes, false, true).err(), Some(Error::NotInSubgroup));
    assert!(g1_from_bytes(&bytes, false, false).is_ok());
}

#[test]
fn vk_and_proof_round_trip() {
    // A structurally well-formed key and proof built from generators.
    let g1 = g1_gen_bytes(false);
    let g2 = g2_gen_bytes(false);
    let mut vkb = Vec::new();
    vkb.extend_from_slice(&g1);
    vkb.extend_from_slice(&g2);
    vkb.extend_from_slice(&g2);
    vkb.extend_from_slice(&g2);
    vkb.extend_from_slice(&2u64.to_le_bytes());
    vkb.extend_from_slice(&g1);
    vkb.extend_from_slice(&g1);
    let vk = vk_from_bytes(&vkb, true).unwrap();
    assert_eq!(vk_to_bytes(&vk), vkb);

    let mut pfb = Vec::new();
    pfb.extend_from_slice(&g1);
    pfb.extend_from_slice(&g2);
    pfb.extend_from_slice(&g1);
    let pf = proof_from_bytes(&pfb, true).unwrap();
    assert_eq!(proof_to_bytes(&pf), pfb);

    // A declared count that does not match the length is malformed.
    let mut bad = vkb.clone();
    bad[672] = 3;
    assert_eq!(vk_from_bytes(&bad, true).err(), Some(Error::MalformedEncoding));
}

#[test]
fn pvk_round_trip() {
    let g1 = g1_gen_bytes(false);
    let g2 = g2_gen_bytes(false);
    let gtb = pairing_bytes(&g1, &g2, Backend::Reference).unwrap();
    let mut pvkb = Vec::new();
    pvkb.extend_from_slice(&gtb);
    pvkb.extend_from_slice(&g2);
    pvkb.extend_from_slice(&g2);
    pvkb.extend_from_slice(&1u64.to_le_bytes());
    pvkb.extend_from_slice(&g1);
    let pvk = pvk_from_bytes(&pvkb, true).unwrap();
    assert_eq!(pvk_to_bytes(&pvk), pvkb);
}
