//! A Groth16 proof verifier over the BLS12-381 pairing curve.
//!
//! The library decodes byte-encoded verifying keys, public inputs and
//! proofs, prepares verifying keys and public inputs, and checks the
//! pairing-product verification equation.  Scalar multiplication and
//! multi-scalar multiplication are offered through two backends, a
//! reference one and an accelerated one, with identical contracts.

use vstd::prelude::*;

pub mod bls12_381;
pub mod codec;
pub mod ops;
pub mod api;
pub mod groth16;
pub mod pairing;

use crate::bls12_381::G1Point;
use crate::bls12_381::G2Point;
use crate::bls12_381::GtElem;
use crate::bls12_381::g1_valid;
use crate::bls12_381::g2_valid;

verus! {

/// Which implementation of the arithmetic a caller selects.  The two
/// backends meet identical contracts and differ only in latency.
#[derive(Clone, Copy, Debug, PartialEq, Eq, Structural)]
pub enum Backend {
    /// The verified in-crate implementation.
    Reference,
    /// The arkworks bucketed implementation.
    Accelerated,
}

/// The failures the library reports.
#[derive(Clone, Copy, Debug, PartialEq, Eq, Structural)]
pub enum Error {
    /// A byte string has the wrong length or holds an out-of-range value.
    MalformedEncoding,
    /// A decoded point fails the curve equation.
    InvalidPoint,
    /// A decoded point is outside the prime-order subgroup.
    NotInSubgroup,
    /// Scalar and point counts do not match, or the public-input count
    /// does not fit the verifying key.
    ConfigMismatch,
    /// The pairing equation did not hold: the proof is invalid.  This is a
    /// normal negative outcome, not a fault of the input encoding.
    VerificationFailed,
}

/// A Groth16 proof: a G1 point `a`, a G2 point `b`, a G1 point `c`.
pub struct Proof {
    pub a: G1Point,
    pub b: G2Point,
    pub c: G1Point,
}

/// A Groth16 verifying key.
pub struct VerifyingKey {
    pub alpha_g1: G1Point,
    pub beta_g2: G2Point,
    pub gamma_g2: G2Point,
    pub delta_g2: G2Point,
    /// One point per public input, plus a leading constant term.
    pub gamma_abc_g1: Vec<G1Point>,
}

/// A verifying key prepared for repeated verification: the pairing of
/// `alpha` and `beta` precomputed in the target field, and `gamma` and
/// `delta` negated, ready for the shared Miller loop.
pub struct PreparedVerifyingKey {
    pub alpha_beta: GtElem,
    pub gamma_neg: G2Point,
    pub delta_neg: G2Point,
    pub gamma_abc_g1: Vec<G1Point>,
}

/// The public contribution to the verification equation: the multi-scalar
/// multiplication of the public inputs against the key's `gamma_abc` basis.
pub struct PreparedInputs {
    pub point: G1Point,
}

/// Every component of the proof is on its curve and in its subgroup.
pub open spec fn proof_valid(p: Proof) -> bool {
    g1_valid(p.a) && g2_valid(p.b) && g1_valid(p.c)
}

/// Every component of the verifying key is on its curve and in its subgroup.
pub open spec fn vk_valid(vk: VerifyingKey) -> bool {
    &&& g1_valid(vk.alpha_g1)
    &&& g2_valid(vk.beta_g2)
    &&& g2_valid(vk.gamma_g2)
    &&& g2_valid(vk.delta_g2)
    &&& forall|i: int| 0 <= i < vk.gamma_abc_g1@.len() ==> g1_valid(#[trigger] vk.gamma_abc_g1@[i])
}

/// Every point of the prepared verifying key is on its curve and in its
/// subgroup.
pub open spec fn pvk_valid(pvk: PreparedVerifyingKey) -> bool {
    &&& g2_valid(pvk.gamma_neg)
    &&& g2_valid(pvk.delta_neg)
    &&& forall|i: int| 0 <= i < pvk.gamma_abc_g1@.len() ==> g1_valid(#[trigger] pvk.gamma_abc_g1@[i])
}

} // verus!
