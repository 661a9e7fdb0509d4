//! The byte-level entry points: each takes canonical byte encodings,
//! rejects malformed input before any arithmetic, runs the requested
//! operation, and returns a canonical encoding or an exact failure.
//!
//! These are the only contact points a dispatch layer needs.

use vstd::prelude::*;

use crate::bls12_381::Scalar;
use crate::bls12_381::G1Point;
use crate::bls12_381::le_int;
use crate::bls12_381::scalar_int;
use crate::bls12_381::scalar_modulus;
use crate::bls12_381::g1_ser;
use crate::bls12_381::g1_dec;
use crate::bls12_381::g1_dec_ok;
use crate::bls12_381::g2_ser;
use crate::bls12_381::g2_dec;
use crate::bls12_381::g2_dec_ok;
use crate::bls12_381::g1_valid;
use crate::bls12_381::g1_on_curve;
use crate::bls12_381::g1_in_subgroup;
use crate::bls12_381::g2_valid;
use crate::bls12_381::g2_on_curve;
use crate::bls12_381::g1_mul_of;
use crate::bls12_381::g2_mul_of;
use crate::bls12_381::msm_g1_fold;
use crate::bls12_381::msm_g2_fold;
use crate::bls12_381::gt_ser;
use crate::bls12_381::pairing_of;
use crate::bls12_381::ark_g1_to_bytes;
use crate::bls12_381::ark_g2_to_bytes;
use crate::bls12_381::ark_gt_to_bytes;
use crate::codec::scalar_from_bytes;
use crate::codec::scalars_from_bytes;
use crate::codec::scalars_ok;
use crate::codec::scalars_dec;
use crate::codec::scalar_dec;
use crate::codec::scalar_count;
use crate::codec::g1_from_bytes;
use crate::codec::g2_from_bytes;
use crate::codec::g1s_from_bytes;
use crate::codec::g1_list_ok;
use crate::codec::g1_list_dec;
use crate::codec::g2s_from_bytes;
use crate::codec::g2_list_ok;
use crate::codec::g2_list_dec;
use crate::codec::g1_chunk;
use crate::codec::proof_dec_spec;
use crate::codec::proof_bytes_wf;
use crate::codec::proof_bytes_on_curve;
use crate::codec::proof_bytes_in_subgroup;
use crate::codec::proof_from_bytes;
use crate::codec::vk_bytes_n;
use crate::codec::vk_bytes_wf;
use crate::codec::vk_bytes_on_curve;
use crate::codec::vk_bytes_in_subgroup;
use crate::codec::vk_from_bytes;
use crate::codec::pvk_bytes_n;
use crate::codec::pvk_bytes_wf;
use crate::codec::pvk_bytes_on_curve;
use crate::codec::pvk_bytes_in_subgroup;
use crate::codec::pvk_from_bytes;
use crate::codec::pvk_to_bytes;
use crate::bls12_381::g1_add_of;
use crate::bls12_381::g2_neg_of;
use crate::bls12_381::gt_dec;
use crate::bls12_381::gt_fe_of;
use crate::bls12_381::ml_fold;
use crate::groth16::prepare_verifying_key;
use crate::groth16::prepare_inputs;
use crate::groth16::verify_with_prepared_inputs;
use crate::groth16::verify;
use crate::groth16::verify_spec;
use crate::groth16::vk_on_curve;
use crate::groth16::vk_in_subgroup;
use crate::PreparedInputs;
use crate::ops::g1_scalar_mul;
use crate::ops::g2_scalar_mul;
use crate::ops::msm_g1;
use crate::ops::msm_g2;
use crate::pairing::pairing;
use crate::Backend;
use crate::Error;

verus! {

/// Computes the pairing of an uncompressed G1 point and an uncompressed G2
/// point, both validated, and returns the target-field element's 576-byte
/// encoding.  Succeeds exactly on well-formed, valid point encodings.
pub fn pairing_bytes(pb: &[u8], qb: &[u8], backend: Backend) -> (r: Result<Vec<u8>, Error>)
    ensures
        r is Ok <==> (pb@.len() == 96 && g1_dec_ok(pb@, false) && g1_valid(g1_dec(pb@, false))
            && qb@.len() == 192 && g2_dec_ok(qb@, false) && g2_valid(g2_dec(qb@, false))),
        r matches Ok(out) ==> out@ == gt_ser(pairing_of(g1_dec(pb@, false), g2_dec(qb@, false))),
        r is Err ==> (r == Err::<Vec<u8>, Error>(Error::MalformedEncoding) || r == Err::<
            Vec<u8>,
            Error,
        >(Error::InvalidPoint) || r == Err::<Vec<u8>, Error>(Error::NotInSubgroup)),
{
    let p = match g1_from_bytes(pb, false, true) {
        Ok(p) => p,
        Err(e) => {
            return Err(e);
        },
    };
    let q = match g2_from_bytes(qb, false, true) {
        Ok(q) => q,
        Err(e) => {
            return Err(e);
        },
    };
    let value = pairing(&p, &q, backend);
    Ok(ark_gt_to_bytes(&value))
}

/// Multiplies an uncompressed G1 point by a scalar and returns the
/// resulting point's 96-byte encoding.  The input is decoded without
/// validation: this entry serves the hot path and trusts its caller.
pub fn mul_g1_bytes(pb: &[u8], sb: &[u8], backend: Backend) -> (r: Result<Vec<u8>, Error>)
    ensures
        r is Ok <==> (pb@.len() == 96 && g1_dec_ok(pb@, false) && sb@.len() == 32 && le_int_ok_scalar(sb@)),
        r matches Ok(out) ==> out@ == g1_ser(
            g1_mul_of(scalar_dec(sb@), g1_dec(pb@, false)),
            false,
        ),
        r is Err ==> r == Err::<Vec<u8>, Error>(Error::MalformedEncoding),
{
    let p = match g1_from_bytes(pb, false, false) {
        Ok(p) => p,
        Err(_) => {
            return Err(Error::MalformedEncoding);
        },
    };
    let s = match scalar_from_bytes(sb) {
        Ok(s) => s,
        Err(_) => {
            return Err(Error::MalformedEncoding);
        },
    };
    let out = g1_scalar_mul(&p, &s, backend);
    proof {
        assert(exists|x: Scalar| scalar_int(x) == le_int(sb@)) by {
            assert(scalar_int(s) == le_int(sb@));
        }
        assert(scalar_int(scalar_dec(sb@)) == le_int(sb@));
        assert(s == scalar_dec(sb@));
    }
    Ok(ark_g1_to_bytes(&out, false))
}

/// See `mul_g1_bytes`.
pub fn mul_g2_bytes(pb: &[u8], sb: &[u8], backend: Backend) -> (r: Result<Vec<u8>, Error>)
    ensures
        r is Ok <==> (pb@.len() == 192 && g2_dec_ok(pb@, false) && sb@.len() == 32 && le_int_ok_scalar(sb@)),
        r matches Ok(out) ==> out@ == g2_ser(
            g2_mul_of(scalar_dec(sb@), g2_dec(pb@, false)),
            false,
        ),
        r is Err ==> r == Err::<Vec<u8>, Error>(Error::MalformedEncoding),
{
    let p = match g2_from_bytes(pb, false, false) {
        Ok(p) => p,
        Err(_) => {
            return Err(Error::MalformedEncoding);
        },
    };
    let s = match scalar_from_bytes(sb) {
        Ok(s) => s,
        Err(_) => {
            return Err(Error::MalformedEncoding);
        },
    };
    let out = g2_scalar_mul(&p, &s, backend);
    proof {
        assert(exists|x: Scalar| scalar_int(x) == le_int(sb@)) by {
            assert(scalar_int(s) == le_int(sb@));
        }
        assert(scalar_int(scalar_dec(sb@)) == le_int(sb@));
        assert(s == scalar_dec(sb@));
    }
    Ok(ark_g2_to_bytes(&out, false))
}

/// A 32-byte string denotes a scalar below the modulus.
pub open spec fn le_int_ok_scalar(b: Seq<u8>) -> bool {
    le_int(b) < scalar_modulus()
}

/// Computes the multi-scalar multiplication of a list of uncompressed G1
/// points against a list of scalars and returns the resulting point's
/// 96-byte encoding.  The inputs are decoded without validation; a count
/// mismatch is rejected.  On points on the curve the result is the naive
/// per-term sum, whatever the backend (off the curve this hot path trusts
/// its caller and the sum is not pinned); empty input yields the identity
/// point's encoding.
pub fn msm_g1_bytes(pb: &[u8], sb: &[u8], backend: Backend) -> (r: Result<Vec<u8>, Error>)
    ensures
        r is Ok <==> (g1_list_ok(pb@) && scalars_ok(sb@) && pb@.len() as int / 96 == scalar_count(
            sb@,
        )),
        r matches Ok(out) ==> ((forall|i: int|
            0 <= i < g1_list_dec(pb@).len() ==> g1_on_curve(#[trigger] g1_list_dec(pb@)[i])) ==> out@
            == g1_ser(msm_g1_fold(g1_list_dec(pb@), scalars_dec(sb@)), false)),
        pb@.len() == 0 && scalars_ok(sb@) && scalar_count(sb@) == 0 ==> (r matches Ok(out) ==> out@
            == g1_ser(crate::bls12_381::g1_zero_spec(), false)),
        r is Err ==> (r == Err::<Vec<u8>, Error>(Error::MalformedEncoding) || r == Err::<
            Vec<u8>,
            Error,
        >(Error::ConfigMismatch)),
        r == Err::<Vec<u8>, Error>(Error::MalformedEncoding) <==> !(g1_list_ok(pb@) && scalars_ok(
            sb@,
        )),
        r == Err::<Vec<u8>, Error>(Error::ConfigMismatch) <==> (g1_list_ok(pb@) && scalars_ok(sb@)
            && pb@.len() as int / 96 != scalar_count(sb@)),
{
    let ps = match g1s_from_bytes(pb) {
        Ok(v) => v,
        Err(_) => {
            return Err(Error::MalformedEncoding);
        },
    };
    let ss = match scalars_from_bytes(sb) {
        Ok(v) => v,
        Err(_) => {
            return Err(Error::MalformedEncoding);
        },
    };
    let out = match msm_g1(&ps, &ss, backend) {
        Ok(p) => p,
        Err(_) => {
            return Err(Error::ConfigMismatch);
        },
    };
    proof {
        assert(ps@ =~= g1_list_dec(pb@));
        assert(ss@ =~= scalars_dec(sb@));
        if forall|i: int|
            0 <= i < g1_list_dec(pb@).len() ==> g1_on_curve(#[trigger] g1_list_dec(pb@)[i]) {
            assert forall|i: int| 0 <= i < ps@.len() implies g1_on_curve(#[trigger] ps@[i]) by {
                assert(ps@[i] == g1_list_dec(pb@)[i]);
            }
        }
    }
    Ok(ark_g1_to_bytes(&out, false))
}

/// See `msm_g1_bytes`.
pub fn msm_g2_bytes(pb: &[u8], sb: &[u8], backend: Backend) -> (r: Result<Vec<u8>, Error>)
    ensures
        r is Ok <==> (g2_list_ok(pb@) && scalars_ok(sb@) && pb@.len() as int / 192 == scalar_count(
            sb@,
        )),
        r matches Ok(out) ==> ((forall|i: int|
            0 <= i < g2_list_dec(pb@).len() ==> g2_on_curve(#[trigger] g2_list_dec(pb@)[i])) ==> out@
            == g2_ser(msm_g2_fold(g2_list_dec(pb@), scalars_dec(sb@)), false)),
        pb@.len() == 0 && scalars_ok(sb@) && scalar_count(sb@) == 0 ==> (r matches Ok(out) ==> out@
            == g2_ser(crate::bls12_381::g2_zero_spec(), false)),
        r is Err ==> (r == Err::<Vec<u8>, Error>(Error::MalformedEncoding) || r == Err::<
            Vec<u8>,
            Error,
        >(Error::ConfigMismatch)),
        r == Err::<Vec<u8>, Error>(Error::MalformedEncoding) <==> !(g2_list_ok(pb@) && scalars_ok(
            sb@,
        )),
        r == Err::<Vec<u8>, Error>(Error::ConfigMismatch) <==> (g2_list_ok(pb@) && scalars_ok(sb@)
            && pb@.len() as int / 192 != scalar_count(sb@)),
{
    let ps = match g2s_from_bytes(pb) {
        Ok(v) => v,
        Err(_) => {
            return Err(Error::MalformedEncoding);
        },
    };
    let ss = match scalars_from_bytes(sb) {
        Ok(v) => v,
        Err(_) => {
            return Err(Error::MalformedEncoding);
        },
    };
    let out = match msm_g2(&ps, &ss, backend) {
        Ok(p) => p,
        Err(_) => {
            return Err(Error::ConfigMismatch);
        },
    };
    proof {
        assert(ps@ =~= g2_list_dec(pb@));
        assert(ss@ =~= scalars_dec(sb@));
        if forall|i: int|
            0 <= i < g2_list_dec(pb@).len() ==> g2_on_curve(#[trigger] g2_list_dec(pb@)[i]) {
            assert forall|i: int| 0 <= i < ps@.len() implies g2_on_curve(#[trigger] ps@[i]) by {
                assert(ps@[i] == g2_list_dec(pb@)[i]);
            }
        }
    }
    Ok(ark_g2_to_bytes(&out, false))
}

// ---------------------------------------------------------------------------
// Groth16 verification over encoded arguments.
// ---------------------------------------------------------------------------

/// The basis points an encoded verifying key holds.
pub open spec fn vk_bytes_abc(b: Seq<u8>) -> Seq<G1Point> {
    Seq::new(
        vk_bytes_n(b) as nat,
        |i: int| g1_dec(g1_chunk(b.subrange(680, b.len() as int), i), false),
    )
}

/// The basis points an encoded prepared verifying key holds.
pub open spec fn pvk_bytes_abc(b: Seq<u8>) -> Seq<G1Point> {
    Seq::new(
        pvk_bytes_n(b) as nat,
        |i: int| g1_dec(g1_chunk(b.subrange(968, b.len() as int), i), false),
    )
}

/// The decoded verifying key, the decoded scalars and the decoded proof
/// satisfy the verification equation.
pub open spec fn bytes_verify_outcome(vkb: Seq<u8>, cb: Seq<u8>, pfb: Seq<u8>) -> bool {
    let pf = proof_dec_spec(pfb);
    let abc = vk_bytes_abc(vkb);
    let inputs = g1_add_of(abc[0], msm_g1_fold(abc.skip(1), scalars_dec(cb)));
    gt_fe_of(
        ml_fold(
            seq![pf.a, inputs, pf.c],
            seq![
                pf.b,
                g2_neg_of(g2_dec(vkb.subrange(288, 480), false)),
                g2_neg_of(g2_dec(vkb.subrange(480, 672), false)),
            ],
        ),
    ) == pairing_of(g1_dec(vkb.subrange(0, 96), false), g2_dec(vkb.subrange(96, 288), false))
}

/// All encodings of a verification call decode.
pub open spec fn verification_wf(vkb: Seq<u8>, cb: Seq<u8>, pfb: Seq<u8>) -> bool {
    vk_bytes_wf(vkb) && scalars_ok(cb) && proof_bytes_wf(pfb)
}

/// Every decoded point of a verification call passes validation.
pub open spec fn verification_points_valid(vkb: Seq<u8>, pfb: Seq<u8>) -> bool {
    &&& proof_bytes_on_curve(pfb)
    &&& proof_bytes_in_subgroup(pfb)
    &&& vk_bytes_on_curve(vkb)
    &&& vk_bytes_in_subgroup(vkb)
}

/// The public-input count fits the verifying key's basis.
pub open spec fn verification_count_ok(vkb: Seq<u8>, cb: Seq<u8>) -> bool {
    scalar_count(cb) + 1 == vk_bytes_n(vkb)
}

fn verification_impl(vkb: &[u8], cb: &[u8], pfb: &[u8], backend: Backend) -> (r: Result<(), Error>)
    ensures
        r == Ok::<(), Error>(()) <==> (verification_wf(vkb@, cb@, pfb@)
            && verification_points_valid(vkb@, pfb@) && verification_count_ok(vkb@, cb@)
            && bytes_verify_outcome(vkb@, cb@, pfb@)),
        r == Err::<(), Error>(Error::VerificationFailed) <==> (verification_wf(vkb@, cb@, pfb@)
            && verification_points_valid(vkb@, pfb@) && verification_count_ok(vkb@, cb@)
            && !bytes_verify_outcome(vkb@, cb@, pfb@)),
        r == Err::<(), Error>(Error::MalformedEncoding) <==> !verification_wf(vkb@, cb@, pfb@),
        r == Err::<(), Error>(Error::ConfigMismatch) <==> (verification_wf(vkb@, cb@, pfb@)
            && verification_points_valid(vkb@, pfb@) && !verification_count_ok(vkb@, cb@)),
        r == Err::<(), Error>(Error::InvalidPoint) <==> (verification_wf(vkb@, cb@, pfb@) && (
        !proof_bytes_on_curve(pfb@) || (proof_bytes_on_curve(pfb@) && proof_bytes_in_subgroup(pfb@)
            && !vk_bytes_on_curve(vkb@)))),
        r == Err::<(), Error>(Error::NotInSubgroup) <==> (verification_wf(vkb@, cb@, pfb@) && ((
        proof_bytes_on_curve(pfb@) && !proof_bytes_in_subgroup(pfb@)) || (proof_bytes_on_curve(pfb@)
            && proof_bytes_in_subgroup(pfb@) && vk_bytes_on_curve(vkb@) && !vk_bytes_in_subgroup(
            vkb@,
        )))),
{
    let vk = match vk_from_bytes(vkb, false) {
        Ok(v) => v,
        Err(_) => {
            return Err(Error::MalformedEncoding);
        },
    };
    let ss = match scalars_from_bytes(cb) {
        Ok(v) => v,
        Err(_) => {
            return Err(Error::MalformedEncoding);
        },
    };
    let pf = match proof_from_bytes(pfb, true) {
        Ok(p) => p,
        Err(e) => {
            return Err(e);
        },
    };
    proof {
        assert(vk.gamma_abc_g1@ =~= vk_bytes_abc(vkb@));
        assert forall|j: int| 0 <= j < vk_bytes_n(vkb@) implies (g1_on_curve(
            g1_dec(#[trigger] g1_chunk(vkb@.subrange(680, vkb@.len() as int), j), false),
        ) == g1_on_curve(vk.gamma_abc_g1@[j]) && g1_in_subgroup(
            g1_dec(g1_chunk(vkb@.subrange(680, vkb@.len() as int), j), false),
        ) == g1_in_subgroup(vk.gamma_abc_g1@[j])) by {
            assert(vk.gamma_abc_g1@[j] == g1_dec(
                g1_chunk(vkb@.subrange(680, vkb@.len() as int), j),
                false,
            ));
        }
        assert(vk_on_curve(vk) == vk_bytes_on_curve(vkb@));
        assert(vk_in_subgroup(vk) == vk_bytes_in_subgroup(vkb@));
        assert(crate::vk_valid(vk) == (vk_on_curve(vk) && vk_in_subgroup(vk)));
    }
    let outcome = match verify(&vk, &ss, &pf, backend) {
        Ok(b) => b,
        Err(e) => {
            return Err(e);
        },
    };
    proof {
        assert(verify_spec(vk, ss@, pf) == bytes_verify_outcome(vkb@, cb@, pfb@));
    }
    if outcome {
        Ok(())
    } else {
        Err(Error::VerificationFailed)
    }
}

/// Verifies an encoded Groth16 proof against an encoded verifying key and
/// encoded public-input scalars, through the reference backend.  Succeeds
/// exactly when every encoding decodes, every point validates, the input
/// count fits the key, and the verification equation holds; a well-formed
/// call whose equation does not hold fails with `VerificationFailed` and
/// nothing else does.
pub fn groth16_verification(vk: &[u8], c: &[u8], proof: &[u8]) -> (r: Result<(), Error>)
    ensures
        r == Ok::<(), Error>(()) <==> (verification_wf(vk@, c@, proof@)
            && verification_points_valid(vk@, proof@) && verification_count_ok(vk@, c@)
            && bytes_verify_outcome(vk@, c@, proof@)),
        r == Err::<(), Error>(Error::VerificationFailed) <==> (verification_wf(vk@, c@, proof@)
            && verification_points_valid(vk@, proof@) && verification_count_ok(vk@, c@)
            && !bytes_verify_outcome(vk@, c@, proof@)),
        r == Err::<(), Error>(Error::MalformedEncoding) <==> !verification_wf(vk@, c@, proof@),
        r == Err::<(), Error>(Error::ConfigMismatch) <==> (verification_wf(vk@, c@, proof@)
            && verification_points_valid(vk@, proof@) && !verification_count_ok(vk@, c@)),
        r == Err::<(), Error>(Error::InvalidPoint) <==> (verification_wf(vk@, c@, proof@) && (
        !proof_bytes_on_curve(proof@) || (proof_bytes_on_curve(proof@) && proof_bytes_in_subgroup(
            proof@,
        ) && !vk_bytes_on_curve(vk@)))),
        r == Err::<(), Error>(Error::NotInSubgroup) <==> (verification_wf(vk@, c@, proof@) && ((
        proof_bytes_on_curve(proof@) && !proof_bytes_in_subgroup(proof@)) || (proof_bytes_on_curve(
            proof@,
        ) && proof_bytes_in_subgroup(proof@) && vk_bytes_on_curve(vk@) && !vk_bytes_in_subgroup(
            vk@,
        )))),
{
    verification_impl(vk, c, proof, Backend::Reference)
}

/// See `groth16_verification`: the same contract, through the accelerated
/// backend.  The outcome does not depend on the backend.
pub fn groth16_verification_optimized(vk: &[u8], c: &[u8], proof: &[u8]) -> (r: Result<(), Error>)
    ensures
        r == Ok::<(), Error>(()) <==> (verification_wf(vk@, c@, proof@)
            && verification_points_valid(vk@, proof@) && verification_count_ok(vk@, c@)
            && bytes_verify_outcome(vk@, c@, proof@)),
        r == Err::<(), Error>(Error::VerificationFailed) <==> (verification_wf(vk@, c@, proof@)
            && verification_points_valid(vk@, proof@) && verification_count_ok(vk@, c@)
            && !bytes_verify_outcome(vk@, c@, proof@)),
        r == Err::<(), Error>(Error::MalformedEncoding) <==> !verification_wf(vk@, c@, proof@),
        r == Err::<(), Error>(Error::ConfigMismatch) <==> (verification_wf(vk@, c@, proof@)
            && verification_points_valid(vk@, proof@) && !verification_count_ok(vk@, c@)),
        r == Err::<(), Error>(Error::InvalidPoint) <==> (verification_wf(vk@, c@, proof@) && (
        !proof_bytes_on_curve(proof@) || (proof_bytes_on_curve(proof@) && proof_bytes_in_subgroup(
            proof@,
        ) && !vk_bytes_on_curve(vk@)))),
        r == Err::<(), Error>(Error::NotInSubgroup) <==> (verification_wf(vk@, c@, proof@) && ((
        proof_bytes_on_curve(proof@) && !proof_bytes_in_subgroup(proof@)) || (proof_bytes_on_curve(
            proof@,
        ) && proof_bytes_in_subgroup(proof@) && vk_bytes_on_curve(vk@) && !vk_bytes_in_subgroup(
            vk@,
        )))),
{
    verification_impl(vk, c, proof, Backend::Accelerated)
}

/// The encoding of the prepared key that preparing an encoded verifying
/// key yields: the pairing of alpha and beta, the negated gamma and delta,
/// and the same basis points.
pub open spec fn pvk_bytes_of(out: Seq<u8>, vkb: Seq<u8>) -> bool {
    let n = vk_bytes_n(vkb);
    &&& out.len() == 968 + 96 * n
    &&& out.subrange(0, 576) == gt_ser(
        pairing_of(g1_dec(vkb.subrange(0, 96), false), g2_dec(vkb.subrange(96, 288), false)),
    )
    &&& out.subrange(576, 768) == g2_ser(g2_neg_of(g2_dec(vkb.subrange(288, 480), false)), false)
    &&& out.subrange(768, 960) == g2_ser(g2_neg_of(g2_dec(vkb.subrange(480, 672), false)), false)
    &&& le_int(out.subrange(960, 968)) == n
    &&& forall|i: int|
        0 <= i < n ==> #[trigger] g1_chunk(out.subrange(968, out.len() as int), i) == g1_ser(
            vk_bytes_abc(vkb)[i],
            false,
        )
}

fn prepare_verifying_key_impl(vkb: &[u8]) -> (r: Result<Vec<u8>, Error>)
    ensures
        r is Ok <==> (vk_bytes_wf(vkb@) && vk_bytes_on_curve(vkb@) && vk_bytes_in_subgroup(vkb@)),
        r matches Ok(out) ==> pvk_bytes_of(out@, vkb@),
        r == Err::<Vec<u8>, Error>(Error::MalformedEncoding) <==> !vk_bytes_wf(vkb@),
        r == Err::<Vec<u8>, Error>(Error::InvalidPoint) <==> (vk_bytes_wf(vkb@)
            && !vk_bytes_on_curve(vkb@)),
        r == Err::<Vec<u8>, Error>(Error::NotInSubgroup) <==> (vk_bytes_wf(vkb@)
            && vk_bytes_on_curve(vkb@) && !vk_bytes_in_subgroup(vkb@)),
{
    let vk = match vk_from_bytes(vkb, false) {
        Ok(v) => v,
        Err(_) => {
            return Err(Error::MalformedEncoding);
        },
    };
    proof {
        assert(vk.gamma_abc_g1@ =~= vk_bytes_abc(vkb@));
        assert forall|j: int| 0 <= j < vk_bytes_n(vkb@) implies (g1_on_curve(
            g1_dec(#[trigger] g1_chunk(vkb@.subrange(680, vkb@.len() as int), j), false),
        ) == g1_on_curve(vk.gamma_abc_g1@[j]) && g1_in_subgroup(
            g1_dec(g1_chunk(vkb@.subrange(680, vkb@.len() as int), j), false),
        ) == g1_in_subgroup(vk.gamma_abc_g1@[j])) by {
            assert(vk.gamma_abc_g1@[j] == g1_dec(
                g1_chunk(vkb@.subrange(680, vkb@.len() as int), j),
                false,
            ));
        }
        assert(vk_on_curve(vk) == vk_bytes_on_curve(vkb@));
        assert(vk_in_subgroup(vk) == vk_bytes_in_subgroup(vkb@));
    }
    let pvk = match prepare_verifying_key(&vk) {
        Ok(p) => p,
        Err(e) => {
            return Err(e);
        },
    };
    let out = pvk_to_bytes(&pvk);
    proof {
        assert forall|i: int| 0 <= i < vk_bytes_n(vkb@) implies #[trigger] g1_chunk(
            out@.subrange(968, out@.len() as int),
            i,
        ) == g1_ser(vk_bytes_abc(vkb@)[i], false) by {
            assert(pvk.gamma_abc_g1@[i] == vk_bytes_abc(vkb@)[i]);
        }
    }
    Ok(out)
}

/// Prepares an encoded verifying key: precomputes the pairing of alpha and
/// beta and the negated gamma and delta, and returns the prepared key's
/// canonical encoding.  Fails exactly when the encoding is malformed or a
/// point fails curve or subgroup validation.
pub fn groth16_prepare_verifying_key(vk: &[u8]) -> (r: Result<Vec<u8>, Error>)
    ensures
        r is Ok <==> (vk_bytes_wf(vk@) && vk_bytes_on_curve(vk@) && vk_bytes_in_subgroup(vk@)),
        r matches Ok(out) ==> pvk_bytes_of(out@, vk@),
        r == Err::<Vec<u8>, Error>(Error::MalformedEncoding) <==> !vk_bytes_wf(vk@),
        r == Err::<Vec<u8>, Error>(Error::InvalidPoint) <==> (vk_bytes_wf(vk@)
            && !vk_bytes_on_curve(vk@)),
        r == Err::<Vec<u8>, Error>(Error::NotInSubgroup) <==> (vk_bytes_wf(vk@)
            && vk_bytes_on_curve(vk@) && !vk_bytes_in_subgroup(vk@)),
{
    prepare_verifying_key_impl(vk)
}

/// See `groth16_prepare_verifying_key`: the preparation itself is not
/// backend-dependent, so the optimized entry has the same contract and
/// the same result.
pub fn groth16_optimized_prepare_verifying_key(vk: &[u8]) -> (r: Result<Vec<u8>, Error>)
    ensures
        r is Ok <==> (vk_bytes_wf(vk@) && vk_bytes_on_curve(vk@) && vk_bytes_in_subgroup(vk@)),
        r matches Ok(out) ==> pvk_bytes_of(out@, vk@),
        r == Err::<Vec<u8>, Error>(Error::MalformedEncoding) <==> !vk_bytes_wf(vk@),
        r == Err::<Vec<u8>, Error>(Error::InvalidPoint) <==> (vk_bytes_wf(vk@)
            && !vk_bytes_on_curve(vk@)),
        r == Err::<Vec<u8>, Error>(Error::NotInSubgroup) <==> (vk_bytes_wf(vk@)
            && vk_bytes_on_curve(vk@) && !vk_bytes_in_subgroup(vk@)),
{
    prepare_verifying_key_impl(vk)
}

/// The point that preparing the inputs against an encoded prepared key
/// yields: the constant term plus the multi-scalar multiplication of the
/// scalars against the rest of the basis.
pub open spec fn bytes_prepared_inputs(pvkb: Seq<u8>, cb: Seq<u8>) -> G1Point {
    g1_add_of(pvk_bytes_abc(pvkb)[0], msm_g1_fold(pvk_bytes_abc(pvkb).skip(1), scalars_dec(cb)))
}

fn prepare_inputs_impl(pvkb: &[u8], cb: &[u8], backend: Backend) -> (r: Result<Vec<u8>, Error>)
    ensures
        r is Ok <==> (pvk_bytes_wf(pvkb@) && pvk_bytes_on_curve(pvkb@) && pvk_bytes_in_subgroup(
            pvkb@,
        ) && scalars_ok(cb@) && scalar_count(cb@) + 1 == pvk_bytes_n(pvkb@)),
        r matches Ok(out) ==> out@ == g1_ser(bytes_prepared_inputs(pvkb@, cb@), false),
        scalar_count(cb@) == 0 ==> (r matches Ok(out) ==> out@ == g1_ser(
            pvk_bytes_abc(pvkb@)[0],
            false,
        )),
        r == Err::<Vec<u8>, Error>(Error::InvalidPoint) <==> (pvk_bytes_wf(pvkb@)
            && !pvk_bytes_on_curve(pvkb@)),
        r == Err::<Vec<u8>, Error>(Error::NotInSubgroup) <==> (pvk_bytes_wf(pvkb@)
            && pvk_bytes_on_curve(pvkb@) && !pvk_bytes_in_subgroup(pvkb@)),
        r == Err::<Vec<u8>, Error>(Error::MalformedEncoding) <==> (!pvk_bytes_wf(pvkb@) || (
        pvk_bytes_wf(pvkb@) && pvk_bytes_on_curve(pvkb@) && pvk_bytes_in_subgroup(pvkb@)
            && !scalars_ok(cb@))),
        r == Err::<Vec<u8>, Error>(Error::ConfigMismatch) <==> (pvk_bytes_wf(pvkb@)
            && pvk_bytes_on_curve(pvkb@) && pvk_bytes_in_subgroup(pvkb@) && scalars_ok(cb@)
            && scalar_count(cb@) + 1 != pvk_bytes_n(pvkb@)),
{
    let pvk = match pvk_from_bytes(pvkb, true) {
        Ok(p) => p,
        Err(e) => {
            return Err(e);
        },
    };
    let ss = match scalars_from_bytes(cb) {
        Ok(v) => v,
        Err(_) => {
            return Err(Error::MalformedEncoding);
        },
    };
    proof {
        assert(pvk.gamma_abc_g1@ =~= pvk_bytes_abc(pvkb@));
    }
    let pi = match prepare_inputs(&pvk, &ss, backend) {
        Ok(p) => p,
        Err(_) => {
            return Err(Error::ConfigMismatch);
        },
    };
    Ok(ark_g1_to_bytes(&pi.point, false))
}

/// Prepares encoded public inputs against an encoded prepared verifying
/// key, through the reference backend, and returns the resulting G1
/// point's 96-byte encoding.  Fails exactly when an encoding is malformed,
/// a key point fails validation, or the input count does not fit the key.
pub fn groth16_prepare_inputs(pvk: &[u8], c: &[u8]) -> (r: Result<Vec<u8>, Error>)
    ensures
        r is Ok <==> (pvk_bytes_wf(pvk@) && pvk_bytes_on_curve(pvk@) && pvk_bytes_in_subgroup(pvk@)
            && scalars_ok(c@) && scalar_count(c@) + 1 == pvk_bytes_n(pvk@)),
        r matches Ok(out) ==> out@ == g1_ser(bytes_prepared_inputs(pvk@, c@), false),
        scalar_count(c@) == 0 ==> (r matches Ok(out) ==> out@ == g1_ser(
            pvk_bytes_abc(pvk@)[0],
            false,
        )),
        r == Err::<Vec<u8>, Error>(Error::MalformedEncoding) <==> (!pvk_bytes_wf(pvk@) || (
        pvk_bytes_wf(pvk@) && pvk_bytes_on_curve(pvk@) && pvk_bytes_in_subgroup(pvk@)
            && !scalars_ok(c@))),
        r == Err::<Vec<u8>, Error>(Error::InvalidPoint) <==> (pvk_bytes_wf(pvk@)
            && !pvk_bytes_on_curve(pvk@)),
        r == Err::<Vec<u8>, Error>(Error::NotInSubgroup) <==> (pvk_bytes_wf(pvk@)
            && pvk_bytes_on_curve(pvk@) && !pvk_bytes_in_subgroup(pvk@)),
        r == Err::<Vec<u8>, Error>(Error::ConfigMismatch) <==> (pvk_bytes_wf(pvk@)
            && pvk_bytes_on_curve(pvk@) && pvk_bytes_in_subgroup(pvk@) && scalars_ok(c@)
            && scalar_count(c@) + 1 != pvk_bytes_n(pvk@)),
{
    prepare_inputs_impl(pvk, c, Backend::Reference)
}

/// See `groth16_prepare_inputs`: the same contract, through the
/// accelerated backend.  The resulting encoding does not depend on the
/// backend.
pub fn groth16_optimized_prepare_inputs(pvk: &[u8], c: &[u8]) -> (r: Result<Vec<u8>, Error>)
    ensures
        r is Ok <==> (pvk_bytes_wf(pvk@) && pvk_bytes_on_curve(pvk@) && pvk_bytes_in_subgroup(pvk@)
            && scalars_ok(c@) && scalar_count(c@) + 1 == pvk_bytes_n(pvk@)),
        r matches Ok(out) ==> out@ == g1_ser(bytes_prepared_inputs(pvk@, c@), false),
        scalar_count(c@) == 0 ==> (r matches Ok(out) ==> out@ == g1_ser(
            pvk_bytes_abc(pvk@)[0],
            false,
        )),
        r == Err::<Vec<u8>, Error>(Error::MalformedEncoding) <==> (!pvk_bytes_wf(pvk@) || (
        pvk_bytes_wf(pvk@) && pvk_bytes_on_curve(pvk@) && pvk_bytes_in_subgroup(pvk@)
            && !scalars_ok(c@))),
        r == Err::<Vec<u8>, Error>(Error::InvalidPoint) <==> (pvk_bytes_wf(pvk@)
            && !pvk_bytes_on_curve(pvk@)),
        r == Err::<Vec<u8>, Error>(Error::NotInSubgroup) <==> (pvk_bytes_wf(pvk@)
            && pvk_bytes_on_curve(pvk@) && !pvk_bytes_in_subgroup(pvk@)),
        r == Err::<Vec<u8>, Error>(Error::ConfigMismatch) <==> (pvk_bytes_wf(pvk@)
            && pvk_bytes_on_curve(pvk@) && pvk_bytes_in_subgroup(pvk@) && scalars_ok(c@)
            && scalar_count(c@) + 1 != pvk_bytes_n(pvk@)),
{
    prepare_inputs_impl(pvk, c, Backend::Accelerated)
}

/// The decoded prepared inputs, prepared key and proof satisfy the
/// verification equation: the shared Miller loop of (A, B),
/// (inputs, -gamma), (C, -delta), final-exponentiated, equals the key's
/// precomputed pairing of alpha and beta.
pub open spec fn bytes_prepared_outcome(ib: Seq<u8>, pvkb: Seq<u8>, pfb: Seq<u8>) -> bool {
    let pf = proof_dec_spec(pfb);
    gt_fe_of(
        ml_fold(
            seq![pf.a, g1_dec(ib, false), pf.c],
            seq![
                pf.b,
                g2_dec(pvkb.subrange(576, 768), false),
                g2_dec(pvkb.subrange(768, 960), false),
            ],
        ),
    ) == gt_dec(pvkb.subrange(0, 576))
}

/// All encodings of a prepared-inputs verification call decode and every
/// decoded point passes validation.
pub open spec fn prepared_call_ok(ib: Seq<u8>, pvkb: Seq<u8>, pfb: Seq<u8>) -> bool {
    &&& ib.len() == 96 && g1_dec_ok(ib, false) && g1_valid(g1_dec(ib, false))
    &&& pvk_bytes_wf(pvkb) && pvk_bytes_on_curve(pvkb) && pvk_bytes_in_subgroup(pvkb)
    &&& proof_bytes_wf(pfb) && proof_bytes_on_curve(pfb) && proof_bytes_in_subgroup(pfb)
}

fn verify_with_prepared_inputs_impl(ib: &[u8], pvkb: &[u8], pfb: &[u8]) -> (r: Result<(), Error>)
    ensures
        r == Ok::<(), Error>(()) <==> (prepared_call_ok(ib@, pvkb@, pfb@)
            && bytes_prepared_outcome(ib@, pvkb@, pfb@)),
        r == Err::<(), Error>(Error::VerificationFailed) <==> (prepared_call_ok(ib@, pvkb@, pfb@)
            && !bytes_prepared_outcome(ib@, pvkb@, pfb@)),
        r is Err ==> !(r == Err::<(), Error>(Error::ConfigMismatch)),
{
    let point = match g1_from_bytes(ib, false, true) {
        Ok(p) => p,
        Err(e) => {
            return Err(e);
        },
    };
    let pvk = match pvk_from_bytes(pvkb, true) {
        Ok(p) => p,
        Err(e) => {
            return Err(e);
        },
    };
    let pf = match proof_from_bytes(pfb, true) {
        Ok(p) => p,
        Err(e) => {
            return Err(e);
        },
    };
    let prepared = PreparedInputs { point };
    let outcome = verify_with_prepared_inputs(&pvk, &prepared, &pf);
    if outcome {
        Ok(())
    } else {
        Err(Error::VerificationFailed)
    }
}

/// Checks the verification equation against an encoded prepared-inputs
/// point, an encoded prepared verifying key and an encoded proof.
/// Succeeds exactly when every encoding decodes, every point validates,
/// and the equation holds; a well-formed call whose equation does not hold
/// fails with `VerificationFailed` and nothing else does.
pub fn groth16_verify_with_prepared_inputs(inputs: &[u8], pvk: &[u8], proof: &[u8]) -> (r: Result<
    (),
    Error,
>)
    ensures
        r == Ok::<(), Error>(()) <==> (prepared_call_ok(inputs@, pvk@, proof@)
            && bytes_prepared_outcome(inputs@, pvk@, proof@)),
        r == Err::<(), Error>(Error::VerificationFailed) <==> (prepared_call_ok(
            inputs@,
            pvk@,
            proof@,
        ) && !bytes_prepared_outcome(inputs@, pvk@, proof@)),
        r is Err ==> !(r == Err::<(), Error>(Error::ConfigMismatch)),
{
    verify_with_prepared_inputs_impl(inputs, pvk, proof)
}

/// See `groth16_verify_with_prepared_inputs`: the equation check is not
/// backend-dependent, so the optimized entry has the same contract and
/// the same outcome.
pub fn groth16_optimized_verify_with_prepared_inputs(inputs: &[u8], pvk: &[u8], proof: &[u8]) -> (r:
    Result<(), Error>)
    ensures
        r == Ok::<(), Error>(()) <==> (prepared_call_ok(inputs@, pvk@, proof@)
            && bytes_prepared_outcome(inputs@, pvk@, proof@)),
        r == Err::<(), Error>(Error::VerificationFailed) <==> (prepared_call_ok(
            inputs@,
            pvk@,
            proof@,
        ) && !bytes_prepared_outcome(inputs@, pvk@, proof@)),
        r is Err ==> !(r == Err::<(), Error>(Error::ConfigMismatch)),
{
    verify_with_prepared_inputs_impl(inputs, pvk, proof)
}

} // verus!
