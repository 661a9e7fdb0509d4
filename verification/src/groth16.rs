//! The Groth16 verifier: preparing a verifying key, preparing public
//! inputs, and checking the pairing-product verification equation
//!
//!     e(A, B) == e(alpha, beta) * e(inputs, gamma) * e(C, delta)
//!
//! computed as one shared Miller loop over (A, B), (inputs, -gamma),
//! (C, -delta), a single final exponentiation, and an exact comparison
//! against the precomputed e(alpha, beta).

use vstd::prelude::*;

use crate::bls12_381::Scalar;
use crate::bls12_381::G1Point;
use crate::bls12_381::G2Point;
use crate::bls12_381::g1_valid;
use crate::bls12_381::g1_on_curve;
use crate::bls12_381::g1_in_subgroup;
use crate::bls12_381::g2_on_curve;
use crate::bls12_381::g2_in_subgroup;
use crate::bls12_381::g1_add_of;
use crate::bls12_381::g2_neg_of;
use crate::bls12_381::gt_fe_of;
use crate::bls12_381::ml_fold;
use crate::bls12_381::msm_g1_fold;
use crate::bls12_381::pairing_of;
use crate::bls12_381::ark_g1_add;
use crate::bls12_381::ark_g2_neg;
use crate::bls12_381::ark_g1_on_curve;
use crate::bls12_381::ark_g1_in_subgroup;
use crate::bls12_381::ark_g2_on_curve;
use crate::bls12_381::ark_g2_in_subgroup;
use crate::bls12_381::ark_multi_miller_loop;
use crate::bls12_381::ark_final_exponentiation;
use crate::bls12_381::ark_gt_eq;
use crate::bls12_381::ark_gt_one;
use crate::ops::msm_g1;
use crate::pairing::pairing_reference;
use crate::Backend;
use crate::Error;
use crate::Proof;
use crate::VerifyingKey;
use crate::PreparedVerifyingKey;
use crate::PreparedInputs;
use crate::proof_valid;
use crate::vk_valid;
use crate::pvk_valid;

verus! {

/// Every point of the verifying key satisfies its curve equation.
pub open spec fn vk_on_curve(vk: VerifyingKey) -> bool {
    &&& g1_on_curve(vk.alpha_g1)
    &&& g2_on_curve(vk.beta_g2)
    &&& g2_on_curve(vk.gamma_g2)
    &&& g2_on_curve(vk.delta_g2)
    &&& forall|i: int|
        0 <= i < vk.gamma_abc_g1@.len() ==> g1_on_curve(#[trigger] vk.gamma_abc_g1@[i])
}

/// Every point of the verifying key lies in its subgroup.
pub open spec fn vk_in_subgroup(vk: VerifyingKey) -> bool {
    &&& g1_in_subgroup(vk.alpha_g1)
    &&& g2_in_subgroup(vk.beta_g2)
    &&& g2_in_subgroup(vk.gamma_g2)
    &&& g2_in_subgroup(vk.delta_g2)
    &&& forall|i: int|
        0 <= i < vk.gamma_abc_g1@.len() ==> g1_in_subgroup(#[trigger] vk.gamma_abc_g1@[i])
}

/// The prepared key derived from a verifying key: the pairing of alpha and
/// beta, the negated gamma and delta, and the same basis points.
pub open spec fn pvk_of(vk: VerifyingKey, pvk: PreparedVerifyingKey) -> bool {
    &&& pvk.alpha_beta == pairing_of(vk.alpha_g1, vk.beta_g2)
    &&& pvk.gamma_neg == g2_neg_of(vk.gamma_g2)
    &&& pvk.delta_neg == g2_neg_of(vk.delta_g2)
    &&& pvk.gamma_abc_g1@ == vk.gamma_abc_g1@
}

/// The public contribution: the constant term plus the multi-scalar
/// multiplication of the inputs against the rest of the basis.
pub open spec fn prepared_inputs_spec(abc: Seq<G1Point>, ss: Seq<Scalar>) -> G1Point {
    g1_add_of(abc[0], msm_g1_fold(abc.skip(1), ss))
}

/// The verification equation over a prepared key: the shared Miller loop
/// of (A, B), (inputs, -gamma), (C, -delta), final-exponentiated, equals
/// the precomputed pairing of alpha and beta.
pub open spec fn groth16_check(pvk: PreparedVerifyingKey, inputs: G1Point, pf: Proof) -> bool {
    gt_fe_of(ml_fold(seq![pf.a, inputs, pf.c], seq![pf.b, pvk.gamma_neg, pvk.delta_neg]))
        == pvk.alpha_beta
}

/// The whole verification outcome over an unprepared key and scalar inputs.
pub open spec fn verify_spec(vk: VerifyingKey, ss: Seq<Scalar>, pf: Proof) -> bool {
    let inputs = prepared_inputs_spec(vk.gamma_abc_g1@, ss);
    gt_fe_of(
        ml_fold(
            seq![pf.a, inputs, pf.c],
            seq![pf.b, g2_neg_of(vk.gamma_g2), g2_neg_of(vk.delta_g2)],
        ),
    ) == pairing_of(vk.alpha_g1, vk.beta_g2)
}

/// Copies the points of a vector from the given position on.
fn copy_g1s(src: &Vec<G1Point>, from: usize) -> (r: Vec<G1Point>)
    requires
        from as int <= src@.len(),
    ensures
        r@ == src@.skip(from as int),
{
    let mut out: Vec<G1Point> = Vec::new();
    let mut i: usize = from;
    while i < src.len()
        invariant
            from as int <= i as int <= src@.len(),
            out@.len() == i - from,
            forall|j: int| 0 <= j < out@.len() ==> #[trigger] out@[j] == src@[from + j],
        decreases src@.len() - i,
    {
        let p = src[i];
        out.push(p);
        i = i + 1;
    }
    proof {
        assert(out@ =~= src@.skip(from as int));
    }
    out
}

/// Prepares a verifying key for repeated verification.  Fails exactly when
/// a component fails curve or subgroup validation; on success the result
/// holds the precomputed pairing of alpha and beta, the negated gamma and
/// delta, and the basis points.
pub fn prepare_verifying_key(vk: &VerifyingKey) -> (r: Result<PreparedVerifyingKey, Error>)
    ensures
        r is Ok <==> vk_valid(*vk),
        r matches Ok(pvk) ==> pvk_of(*vk, pvk) && pvk_valid(pvk),
        r == Err::<PreparedVerifyingKey, Error>(Error::InvalidPoint) <==> !vk_on_curve(*vk),
        r == Err::<PreparedVerifyingKey, Error>(Error::NotInSubgroup) <==> (vk_on_curve(*vk)
            && !vk_in_subgroup(*vk)),
        r is Err ==> r == Err::<PreparedVerifyingKey, Error>(Error::InvalidPoint) || r == Err::<
            PreparedVerifyingKey,
            Error,
        >(Error::NotInSubgroup),
{
    let mut on_curve = ark_g1_on_curve(&vk.alpha_g1) && ark_g2_on_curve(&vk.beta_g2)
        && ark_g2_on_curve(&vk.gamma_g2) && ark_g2_on_curve(&vk.delta_g2);
    let mut in_sub = ark_g1_in_subgroup(&vk.alpha_g1) && ark_g2_in_subgroup(&vk.beta_g2)
        && ark_g2_in_subgroup(&vk.gamma_g2) && ark_g2_in_subgroup(&vk.delta_g2);
    let ghost header_curve = on_curve;
    let ghost header_sub = in_sub;
    let mut i: usize = 0;
    while i < vk.gamma_abc_g1.len()
        invariant
            0 <= i <= vk.gamma_abc_g1@.len(),
            on_curve == (header_curve && (forall|j: int|
                0 <= j < i ==> g1_on_curve(#[trigger] vk.gamma_abc_g1@[j]))),
            in_sub == (header_sub && (forall|j: int|
                0 <= j < i ==> g1_in_subgroup(#[trigger] vk.gamma_abc_g1@[j]))),
        decreases vk.gamma_abc_g1@.len() - i,
    {
        let pc = ark_g1_on_curve(&vk.gamma_abc_g1[i]);
        let ps = ark_g1_in_subgroup(&vk.gamma_abc_g1[i]);
        on_curve = on_curve && pc;
        in_sub = in_sub && ps;
        i = i + 1;
    }
    if !on_curve {
        return Err(Error::InvalidPoint);
    }
    if !in_sub {
        return Err(Error::NotInSubgroup);
    }
    let alpha_beta = pairing_reference(&vk.alpha_g1, &vk.beta_g2);
    let gamma_neg = ark_g2_neg(&vk.gamma_g2);
    let delta_neg = ark_g2_neg(&vk.delta_g2);
    let basis = copy_g1s(&vk.gamma_abc_g1, 0);
    proof {
        assert(basis@ =~= vk.gamma_abc_g1@);
    }
    Ok(PreparedVerifyingKey { alpha_beta, gamma_neg, delta_neg, gamma_abc_g1: basis })
}

/// Prepares the public inputs: the multi-scalar multiplication of the
/// input scalars against the key's basis, with the constant term folded
/// in.  Fails exactly when the input count does not fit the basis.  The
/// sum equation is stated for bases on the curve, which the accelerated
/// backend needs; empty public inputs yield exactly the constant term.
pub fn prepare_inputs(pvk: &PreparedVerifyingKey, inputs: &Vec<Scalar>, backend: Backend) -> (r:
    Result<PreparedInputs, Error>)
    ensures
        r is Ok <==> inputs@.len() + 1 == pvk.gamma_abc_g1@.len(),
        r matches Ok(pi) ==> ((forall|i: int|
            0 <= i < pvk.gamma_abc_g1@.len() ==> g1_on_curve(#[trigger] pvk.gamma_abc_g1@[i]))
            ==> pi.point == prepared_inputs_spec(pvk.gamma_abc_g1@, inputs@)),
        r matches Ok(pi) ==> (pvk_valid(*pvk) ==> g1_valid(pi.point)),
        inputs@.len() == 0 ==> (r matches Ok(pi) ==> pi.point == pvk.gamma_abc_g1@[0]),
        r is Err ==> r == Err::<PreparedInputs, Error>(Error::ConfigMismatch),
{
    if pvk.gamma_abc_g1.len() == 0 || inputs.len() != pvk.gamma_abc_g1.len() - 1 {
        return Err(Error::ConfigMismatch);
    }
    let basis = copy_g1s(&pvk.gamma_abc_g1, 1);
    let sum = match msm_g1(&basis, inputs, backend) {
        Ok(p) => p,
        Err(_) => {
            proof {
                assert(false);
            }
            return Err(Error::ConfigMismatch);
        },
    };
    let point = ark_g1_add(&pvk.gamma_abc_g1[0], &sum);
    proof {
        if pvk_valid(*pvk) {
            assert forall|j: int| 0 <= j < basis@.len() implies g1_valid(#[trigger] basis@[j]) by {
                assert(basis@[j] == pvk.gamma_abc_g1@[j + 1]);
            }
        }
        if forall|i: int|
            0 <= i < pvk.gamma_abc_g1@.len() ==> g1_on_curve(#[trigger] pvk.gamma_abc_g1@[i]) {
            assert forall|j: int| 0 <= j < basis@.len() implies g1_on_curve(
                #[trigger] basis@[j],
            ) by {
                assert(basis@[j] == pvk.gamma_abc_g1@[j + 1]);
            }
        }
    }
    Ok(PreparedInputs { point })
}

/// Checks the verification equation against a prepared key and prepared
/// inputs.  Returns true exactly when the equation holds; the comparison
/// is exact.
pub fn verify_with_prepared_inputs(
    pvk: &PreparedVerifyingKey,
    prepared: &PreparedInputs,
    proof: &Proof,
) -> (r: bool)
    requires
        pvk_valid(*pvk),
        g1_valid(prepared.point),
        proof_valid(*proof),
    ensures
        r == groth16_check(*pvk, prepared.point, *proof),
{
    let one = ark_gt_one();
    let mut ps: Vec<G1Point> = Vec::new();
    ps.push(proof.a);
    ps.push(prepared.point);
    ps.push(proof.c);
    let mut qs: Vec<G2Point> = Vec::new();
    qs.push(proof.b);
    qs.push(pvk.gamma_neg);
    qs.push(pvk.delta_neg);
    let m = ark_multi_miller_loop(&ps, &qs);
    proof {
        assert(ps@ =~= seq![proof.a, prepared.point, proof.c]);
        assert(qs@ =~= seq![proof.b, pvk.gamma_neg, pvk.delta_neg]);
    }
    match ark_final_exponentiation(&m) {
        Some(v) => ark_gt_eq(&v, &pvk.alpha_beta),
        None => {
            proof {
                assert(false);
            }
            ark_gt_eq(&one, &one)
        },
    }
}

/// Verifies a proof against an unprepared verifying key and public-input
/// scalars: the composition of preparing the key, preparing the inputs,
/// and checking the equation.  Fails exactly when the key fails validation
/// or the input count does not fit; the boolean outcome does not depend on
/// the backend.
pub fn verify(vk: &VerifyingKey, inputs: &Vec<Scalar>, proof: &Proof, backend: Backend) -> (r:
    Result<bool, Error>)
    requires
        proof_valid(*proof),
    ensures
        r is Ok <==> vk_valid(*vk) && inputs@.len() + 1 == vk.gamma_abc_g1@.len(),
        r matches Ok(b) ==> b == verify_spec(*vk, inputs@, *proof),
        r == Err::<bool, Error>(Error::InvalidPoint) <==> !vk_on_curve(*vk),
        r == Err::<bool, Error>(Error::NotInSubgroup) <==> (vk_on_curve(*vk) && !vk_in_subgroup(
            *vk,
        )),
        r == Err::<bool, Error>(Error::ConfigMismatch) <==> (vk_valid(*vk) && inputs@.len() + 1
            != vk.gamma_abc_g1@.len()),
{
    let pvk = match prepare_verifying_key(vk) {
        Ok(p) => p,
        Err(e) => {
            return Err(e);
        },
    };
    let pi = match prepare_inputs(&pvk, inputs, backend) {
        Ok(p) => p,
        Err(e) => {
            return Err(e);
        },
    };
    proof {
        assert forall|i: int| 0 <= i < pvk.gamma_abc_g1@.len() implies g1_on_curve(
            #[trigger] pvk.gamma_abc_g1@[i],
        ) by {
            assert(pvk.gamma_abc_g1@[i] == vk.gamma_abc_g1@[i]);
            assert(g1_valid(vk.gamma_abc_g1@[i]));
        }
    }
    Ok(verify_with_prepared_inputs(&pvk, &pi, proof))
}

} // verus!
