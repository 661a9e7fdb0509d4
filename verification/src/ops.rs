//! Scalar multiplication and multi-scalar multiplication over G1 and G2,
//! through two interchangeable backends.
//!
//! The reference backend is implemented and verified here: double-and-add
//! over the scalar's bits, and the naive per-term sum for MSM.  The
//! accelerated backend calls the arkworks bucketed implementations.  Both
//! meet the same contract, stated over the same specification functions,
//! so their results agree on every input.

use vstd::prelude::*;

use crate::bls12_381::Scalar;
use crate::bls12_381::G1Point;
use crate::bls12_381::G2Point;
use crate::bls12_381::scalar_bits;
use crate::bls12_381::g1_valid;
use crate::bls12_381::g1_on_curve;
use crate::bls12_381::g2_valid;
use crate::bls12_381::g2_on_curve;
use crate::bls12_381::g1_mul_bits;
use crate::bls12_381::g1_mul_of;
use crate::bls12_381::g2_mul_bits;
use crate::bls12_381::g2_mul_of;
use crate::bls12_381::msm_g1_fold;
use crate::bls12_381::msm_g2_fold;
use crate::bls12_381::g1_zero_spec;
use crate::bls12_381::g2_zero_spec;
use crate::bls12_381::ark_scalar_bits;
use crate::bls12_381::ark_g1_identity;
use crate::bls12_381::ark_g1_add;
use crate::bls12_381::ark_g1_mul;
use crate::bls12_381::ark_g1_msm;
use crate::bls12_381::ark_g2_identity;
use crate::bls12_381::ark_g2_add;
use crate::bls12_381::ark_g2_mul;
use crate::bls12_381::ark_g2_msm;
use crate::Backend;
use crate::Error;

verus! {

/// Backend equivalence for scalar multiplication: the two backends'
/// contracts pin the same point for the same arguments, so any two results
/// that meet them are equal.
pub proof fn lemma_scalar_mul_backends_agree(
    p: G1Point,
    s: Scalar,
    r_reference: G1Point,
    r_accelerated: G1Point,
)
    requires
        r_reference == g1_mul_of(s, p),
        r_accelerated == g1_mul_of(s, p),
    ensures
        r_reference == r_accelerated,
{
}

/// Backend equivalence for multi-scalar multiplication: on bases on the
/// curve both backends' contracts pin the naive per-term sum, so any two
/// results that meet them are equal.
pub proof fn lemma_msm_backends_agree(
    ps: Seq<G1Point>,
    ss: Seq<Scalar>,
    r_reference: G1Point,
    r_accelerated: G1Point,
)
    requires
        r_reference == msm_g1_fold(ps, ss),
        r_accelerated == msm_g1_fold(ps, ss),
    ensures
        r_reference == r_accelerated,
{
}

/// Scalar multiplication in G1 by double-and-add over the scalar's 256
/// big-endian bits: the reference backend.
pub fn g1_scalar_mul_reference(p: &G1Point, s: &Scalar) -> (r: G1Point)
    ensures
        r == g1_mul_of(*s, *p),
        g1_valid(*p) ==> g1_valid(r),
{
    let bits = ark_scalar_bits(s);
    let mut acc = ark_g1_identity();
    let mut i: usize = 0;
    while i < bits.len()
        invariant
            bits@ == scalar_bits(*s),
            bits@.len() == 256,
            0 <= i <= 256,
            acc == g1_mul_bits(bits@.take(i as int), *p),
            g1_valid(*p) ==> g1_valid(acc),
        decreases 256 - i,
    {
        let doubled = ark_g1_add(&acc, &acc);
        let next = if bits[i] {
            ark_g1_add(&doubled, p)
        } else {
            doubled
        };
        proof {
            assert(bits@.take(i + 1).drop_last() =~= bits@.take(i as int));
            assert(bits@.take(i + 1).last() == bits@[i as int]);
        }
        acc = next;
        i = i + 1;
    }
    proof {
        assert(bits@.take(256) =~= bits@);
    }
    acc
}

/// Scalar multiplication in G1 through the arkworks implementation: the
/// accelerated backend.
pub fn g1_scalar_mul_accelerated(p: &G1Point, s: &Scalar) -> (r: G1Point)
    ensures
        r == g1_mul_of(*s, *p),
        g1_valid(*p) ==> g1_valid(r),
{
    ark_g1_mul(p, s)
}

/// Scalar multiplication in G1 by the chosen backend.  The contract does
/// not depend on the backend: both produce the same point.
pub fn g1_scalar_mul(p: &G1Point, s: &Scalar, backend: Backend) -> (r: G1Point)
    ensures
        r == g1_mul_of(*s, *p),
        g1_valid(*p) ==> g1_valid(r),
{
    match backend {
        Backend::Reference => g1_scalar_mul_reference(p, s),
        Backend::Accelerated => g1_scalar_mul_accelerated(p, s),
    }
}

/// See `g1_scalar_mul_reference`.
pub fn g2_scalar_mul_reference(p: &G2Point, s: &Scalar) -> (r: G2Point)
    ensures
        r == g2_mul_of(*s, *p),
        g2_valid(*p) ==> g2_valid(r),
{
    let bits = ark_scalar_bits(s);
    let mut acc = ark_g2_identity();
    let mut i: usize = 0;
    while i < bits.len()
        invariant
            bits@ == scalar_bits(*s),
            bits@.len() == 256,
            0 <= i <= 256,
            acc == g2_mul_bits(bits@.take(i as int), *p),
            g2_valid(*p) ==> g2_valid(acc),
        decreases 256 - i,
    {
        let doubled = ark_g2_add(&acc, &acc);
        let next = if bits[i] {
            ark_g2_add(&doubled, p)
        } else {
            doubled
        };
        proof {
            assert(bits@.take(i + 1).drop_last() =~= bits@.take(i as int));
            assert(bits@.take(i + 1).last() == bits@[i as int]);
        }
        acc = next;
        i = i + 1;
    }
    proof {
        assert(bits@.take(256) =~= bits@);
    }
    acc
}

/// See `g1_scalar_mul_accelerated`.
pub fn g2_scalar_mul_accelerated(p: &G2Point, s: &Scalar) -> (r: G2Point)
    ensures
        r == g2_mul_of(*s, *p),
        g2_valid(*p) ==> g2_valid(r),
{
    ark_g2_mul(p, s)
}

/// See `g1_scalar_mul`.
pub fn g2_scalar_mul(p: &G2Point, s: &Scalar, backend: Backend) -> (r: G2Point)
    ensures
        r == g2_mul_of(*s, *p),
        g2_valid(*p) ==> g2_valid(r),
{
    match backend {
        Backend::Reference => g2_scalar_mul_reference(p, s),
        Backend::Accelerated => g2_scalar_mul_accelerated(p, s),
    }
}

/// Multi-scalar multiplication in G1 by the naive per-term sum: the
/// reference backend.  Fails exactly when the counts differ; the empty
/// input yields the identity.
pub fn msm_g1_reference(ps: &Vec<G1Point>, ss: &Vec<Scalar>) -> (r: Result<G1Point, Error>)
    ensures
        r is Ok <==> ps@.len() == ss@.len(),
        r matches Ok(p) ==> p == msm_g1_fold(ps@, ss@),
        r matches Ok(p) ==> ((forall|i: int| 0 <= i < ps@.len() ==> g1_valid(#[trigger] ps@[i]))
            ==> g1_valid(p)),
        r is Err ==> r == Err::<G1Point, Error>(Error::ConfigMismatch),
{
    if ps.len() != ss.len() {
        return Err(Error::ConfigMismatch);
    }
    let mut acc = ark_g1_identity();
    let mut i: usize = 0;
    while i < ps.len()
        invariant
            ps@.len() == ss@.len(),
            0 <= i <= ps@.len(),
            acc == msm_g1_fold(ps@.take(i as int), ss@.take(i as int)),
            (forall|j: int| 0 <= j < i ==> g1_valid(#[trigger] ps@[j])) ==> g1_valid(acc),
        decreases ps@.len() - i,
    {
        let term = g1_scalar_mul_reference(&ps[i], &ss[i]);
        let next = ark_g1_add(&acc, &term);
        proof {
            assert(ps@.take(i + 1).drop_last() =~= ps@.take(i as int));
            assert(ss@.take(i + 1).drop_last() =~= ss@.take(i as int));
            assert(ps@.take(i + 1).last() == ps@[i as int]);
            assert(ss@.take(i + 1).last() == ss@[i as int]);
        }
        acc = next;
        i = i + 1;
    }
    proof {
        assert(ps@.take(ps@.len() as int) =~= ps@);
        assert(ss@.take(ss@.len() as int) =~= ss@);
    }
    Ok(acc)
}

/// Multi-scalar multiplication in G1 through the arkworks bucketed
/// implementation: the accelerated backend.  The bucketed algorithm rests
/// on the group laws, so its equality with the naive per-term sum is
/// stated for bases on the curve.
pub fn msm_g1_accelerated(ps: &Vec<G1Point>, ss: &Vec<Scalar>) -> (r: Result<G1Point, Error>)
    ensures
        r is Ok <==> ps@.len() == ss@.len(),
        r matches Ok(p) ==> ((forall|i: int| 0 <= i < ps@.len() ==> g1_on_curve(#[trigger] ps@[i]))
            ==> p == msm_g1_fold(ps@, ss@)),
        r matches Ok(p) ==> ((forall|i: int| 0 <= i < ps@.len() ==> g1_valid(#[trigger] ps@[i]))
            ==> g1_valid(p)),
        r is Err ==> r == Err::<G1Point, Error>(Error::ConfigMismatch),
{
    if ps.len() != ss.len() {
        return Err(Error::ConfigMismatch);
    }
    Ok(ark_g1_msm(ps, ss))
}

/// Multi-scalar multiplication in G1 by the chosen backend.  The contract
/// does not depend on the backend: on bases on the curve both produce the
/// naive per-term sum, and the empty input yields the identity point.
pub fn msm_g1(ps: &Vec<G1Point>, ss: &Vec<Scalar>, backend: Backend) -> (r: Result<G1Point, Error>)
    ensures
        r is Ok <==> ps@.len() == ss@.len(),
        r matches Ok(p) ==> ((forall|i: int| 0 <= i < ps@.len() ==> g1_on_curve(#[trigger] ps@[i]))
            ==> p == msm_g1_fold(ps@, ss@)),
        r matches Ok(p) ==> ((forall|i: int| 0 <= i < ps@.len() ==> g1_valid(#[trigger] ps@[i]))
            ==> g1_valid(p)),
        ps@.len() == 0 && ss@.len() == 0 ==> r == Ok::<G1Point, Error>(g1_zero_spec()),
        r is Err ==> r == Err::<G1Point, Error>(Error::ConfigMismatch),
{
    match backend {
        Backend::Reference => msm_g1_reference(ps, ss),
        Backend::Accelerated => msm_g1_accelerated(ps, ss),
    }
}

/// See `msm_g1_reference`.
pub fn msm_g2_reference(ps: &Vec<G2Point>, ss: &Vec<Scalar>) -> (r: Result<G2Point, Error>)
    ensures
        r is Ok <==> ps@.len() == ss@.len(),
        r matches Ok(p) ==> p == msm_g2_fold(ps@, ss@),
        r matches Ok(p) ==> ((forall|i: int| 0 <= i < ps@.len() ==> g2_valid(#[trigger] ps@[i]))
            ==> g2_valid(p)),
        r is Err ==> r == Err::<G2Point, Error>(Error::ConfigMismatch),
{
    if ps.len() != ss.len() {
        return Err(Error::ConfigMismatch);
    }
    let mut acc = ark_g2_identity();
    let mut i: usize = 0;
    while i < ps.len()
        invariant
            ps@.len() == ss@.len(),
            0 <= i <= ps@.len(),
            acc == msm_g2_fold(ps@.take(i as int), ss@.take(i as int)),
            (forall|j: int| 0 <= j < i ==> g2_valid(#[trigger] ps@[j])) ==> g2_valid(acc),
        decreases ps@.len() - i,
    {
        let term = g2_scalar_mul_reference(&ps[i], &ss[i]);
        let next = ark_g2_add(&acc, &term);
        proof {
            assert(ps@.take(i + 1).drop_last() =~= ps@.take(i as int));
            assert(ss@.take(i + 1).drop_last() =~= ss@.take(i as int));
            assert(ps@.take(i + 1).last() == ps@[i as int]);
            assert(ss@.take(i + 1).last() == ss@[i as int]);
        }
        acc = next;
        i = i + 1;
    }
    proof {
        assert(ps@.take(ps@.len() as int) =~= ps@);
        assert(ss@.take(ss@.len() as int) =~= ss@);
    }
    Ok(acc)
}

/// See `msm_g1_accelerated`.
pub fn msm_g2_accelerated(ps: &Vec<G2Point>, ss: &Vec<Scalar>) -> (r: Result<G2Point, Error>)
    ensures
        r is Ok <==> ps@.len() == ss@.len(),
        r matches Ok(p) ==> ((forall|i: int| 0 <= i < ps@.len() ==> g2_on_curve(#[trigger] ps@[i]))
            ==> p == msm_g2_fold(ps@, ss@)),
        r matches Ok(p) ==> ((forall|i: int| 0 <= i < ps@.len() ==> g2_valid(#[trigger] ps@[i]))
            ==> g2_valid(p)),
        r is Err ==> r == Err::<G2Point, Error>(Error::ConfigMismatch),
{
    if ps.len() != ss.len() {
        return Err(Error::ConfigMismatch);
    }
    Ok(ark_g2_msm(ps, ss))
}

/// See `msm_g1`.
pub fn msm_g2(ps: &Vec<G2Point>, ss: &Vec<Scalar>, backend: Backend) -> (r: Result<G2Point, Error>)
    ensures
        r is Ok <==> ps@.len() == ss@.len(),
        r matches Ok(p) ==> ((forall|i: int| 0 <= i < ps@.len() ==> g2_on_curve(#[trigger] ps@[i]))
            ==> p == msm_g2_fold(ps@, ss@)),
        r matches Ok(p) ==> ((forall|i: int| 0 <= i < ps@.len() ==> g2_valid(#[trigger] ps@[i]))
            ==> g2_valid(p)),
        ps@.len() == 0 && ss@.len() == 0 ==> r == Ok::<G2Point, Error>(g2_zero_spec()),
        r is Err ==> r == Err::<G2Point, Error>(Error::ConfigMismatch),
{
    match backend {
        Backend::Reference => msm_g2_reference(ps, ss),
        Backend::Accelerated => msm_g2_accelerated(ps, ss),
    }
}

} // verus!
