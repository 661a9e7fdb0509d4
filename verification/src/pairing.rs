//! The bilinear pairing: a Miller loop followed by a final exponentiation
//! into the target field, and the shared-final-exponentiation product form
//! that the verification equation needs.
//!
//! The reference backend runs the single-pair Miller loop; the accelerated
//! backend runs the shared multi-pair loop.  Both meet the same contract.
//! Pairing the point at infinity with anything yields the target-field
//! identity.

use vstd::prelude::*;

use crate::bls12_381::G1Point;
use crate::bls12_381::G2Point;
use crate::bls12_381::GtElem;
use crate::bls12_381::g1_valid;
use crate::bls12_381::g2_valid;
use crate::bls12_381::g1_zero_spec;
use crate::bls12_381::g2_zero_spec;
use crate::bls12_381::gt_one_spec;
use crate::bls12_381::gt_miller_of;
use crate::bls12_381::gt_mul_of;
use crate::bls12_381::gt_fe_of;
use crate::bls12_381::ml_fold;
use crate::bls12_381::pairing_of;
use crate::bls12_381::ark_miller_loop;
use crate::bls12_381::ark_multi_miller_loop;
use crate::bls12_381::ark_final_exponentiation;
use crate::bls12_381::ark_gt_one;
use crate::Backend;
use crate::Error;

verus! {

/// Backend equivalence for the pairing: the two backends' contracts pin
/// the same target-field element for the same points, so any two results
/// that meet them are equal.
pub proof fn lemma_pairing_backends_agree(
    p: G1Point,
    q: G2Point,
    r_reference: GtElem,
    r_accelerated: GtElem,
)
    requires
        r_reference == pairing_of(p, q),
        r_accelerated == pairing_of(p, q),
    ensures
        r_reference == r_accelerated,
{
}

/// The pairing of a single pair of points, through the single-pair Miller
/// loop: the reference backend.
pub fn pairing_reference(p: &G1Point, q: &G2Point) -> (r: GtElem)
    requires
        g1_valid(*p),
        g2_valid(*q),
    ensures
        r == pairing_of(*p, *q),
        (*p == g1_zero_spec() || *q == g2_zero_spec()) ==> r == gt_one_spec(),
{
    let m = ark_miller_loop(p, q);
    match ark_final_exponentiation(&m) {
        Some(v) => v,
        None => {
            proof {
                assert(false);
            }
            ark_gt_one()
        },
    }
}

/// The pairing of a single pair of points, through the shared multi-pair
/// Miller loop: the accelerated backend.  Same contract as the reference
/// backend.
pub fn pairing_accelerated(p: &G1Point, q: &G2Point) -> (r: GtElem)
    requires
        g1_valid(*p),
        g2_valid(*q),
    ensures
        r == pairing_of(*p, *q),
        (*p == g1_zero_spec() || *q == g2_zero_spec()) ==> r == gt_one_spec(),
{
    let one = ark_gt_one();
    let mut ps: Vec<G1Point> = Vec::new();
    ps.push(*p);
    let mut qs: Vec<G2Point> = Vec::new();
    qs.push(*q);
    let m = ark_multi_miller_loop(&ps, &qs);
    proof {
        assert(ps@.len() == 1 && ps@.last() == *p);
        assert(qs@.len() == 1 && qs@.last() == *q);
        assert(ps@.drop_last() =~= Seq::<G1Point>::empty());
        assert(qs@.drop_last() =~= Seq::<G2Point>::empty());
        assert(ml_fold(ps@.drop_last(), qs@.drop_last()) == gt_one_spec());
        if !(*p == g1_zero_spec() || *q == g2_zero_spec()) {
            assert(m == gt_mul_of(gt_one_spec(), gt_miller_of(*p, *q)));
            assert(gt_mul_of(one, gt_miller_of(*p, *q)) == gt_miller_of(*p, *q));
        }
    }
    match ark_final_exponentiation(&m) {
        Some(v) => v,
        None => {
            proof {
                assert(false);
            }
            one
        },
    }
}

/// The pairing of a pair of points by the chosen backend.  The contract
/// does not depend on the backend.
pub fn pairing(p: &G1Point, q: &G2Point, backend: Backend) -> (r: GtElem)
    requires
        g1_valid(*p),
        g2_valid(*q),
    ensures
        r == pairing_of(*p, *q),
        (*p == g1_zero_spec() || *q == g2_zero_spec()) ==> r == gt_one_spec(),
{
    match backend {
        Backend::Reference => pairing_reference(p, q),
        Backend::Accelerated => pairing_accelerated(p, q),
    }
}

/// The product of the pairings of a list of point pairs, computed with one
/// shared Miller loop and a single final exponentiation.  Fails exactly
/// when the counts differ.
pub fn multi_pairing(ps: &Vec<G1Point>, qs: &Vec<G2Point>) -> (r: Result<GtElem, Error>)
    requires
        forall|i: int| 0 <= i < ps@.len() ==> g1_valid(#[trigger] ps@[i]),
        forall|i: int| 0 <= i < qs@.len() ==> g2_valid(#[trigger] qs@[i]),
    ensures
        r is Ok <==> ps@.len() == qs@.len(),
        r matches Ok(x) ==> x == gt_fe_of(ml_fold(ps@, qs@)),
        r is Err ==> r == Err::<GtElem, Error>(Error::ConfigMismatch),
{
    if ps.len() != qs.len() {
        return Err(Error::ConfigMismatch);
    }
    let one = ark_gt_one();
    let m = ark_multi_miller_loop(ps, qs);
    proof {
        if ps@.len() == 0 {
            assert(m == gt_one_spec());
        }
    }
    match ark_final_exponentiation(&m) {
        Some(v) => Ok(v),
        None => {
            proof {
                assert(false);
            }
            Ok(one)
        },
    }
}

} // verus!
