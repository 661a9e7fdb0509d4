//! Trusted boundary around the arkworks BLS12-381 arithmetic.
//!
//! The four value types below carry arkworks field and curve elements
//! opaquely.  Every operation on them that the library's logic needs is
//! exposed through a wrapper whose contract states, over uninterpreted
//! spec-level names, what the arkworks source shows the call returns.
//! Affine points and field elements have one canonical representation
//! apiece, so spec-level equality of these values is value equality.

use vstd::prelude::*;

use ark_ec::pairing::Pairing;
use ark_ec::AffineRepr;
use ark_ec::CurveGroup;
use ark_ec::VariableBaseMSM;
use ark_ff::BigInteger;
use ark_ff::One;
use ark_ff::PrimeField;
use ark_serialize::CanonicalDeserialize;
use ark_serialize::CanonicalSerialize;
use ark_serialize::Compress;
use ark_serialize::Validate;

verus! {

// ---------------------------------------------------------------------------
// Opaque value types.
//
// Verus refuses a declaration of the arkworks types themselves: `Fr` is an
// alias of `Fp<_, 4>`, whose const parameter `external_type_specification`
// does not support, and `Affine<P>` carries an outside trait bound that
// cannot be declared here.  Each type is therefore held in a private field
// of an opaque struct of this crate.
// ---------------------------------------------------------------------------

/// An element of the scalar field (the prime field of order `scalar_modulus()`).
#[verifier::external_body]
pub struct Scalar {
    inner: ark_bls12_381::Fr,
}

/// A point of the curve group G1 in affine form, or its point at infinity.
#[verifier::external_body]
pub struct G1Point {
    inner: ark_bls12_381::G1Affine,
}

/// A point of the curve group G2 in affine form, or its point at infinity.
#[verifier::external_body]
pub struct G2Point {
    inner: ark_bls12_381::G2Affine,
}

/// An element of the degree-12 extension field that hosts the pairing target group.
#[verifier::external_body]
pub struct GtElem {
    inner: ark_bls12_381::Fq12,
}

impl Clone for Scalar {
    /// Relies on `Fr` being `Copy`: the clone is the same value.
    #[verifier::external_body]
    fn clone(&self) -> (r: Self)
        ensures
            r == *self,
    {
        Scalar { inner: self.inner }
    }
}

impl Copy for Scalar {

}

impl Clone for G1Point {
    /// Relies on `G1Affine` being `Copy`: the clone is the same value.
    #[verifier::external_body]
    fn clone(&self) -> (r: Self)
        ensures
            r == *self,
    {
        G1Point { inner: self.inner }
    }
}

impl Copy for G1Point {

}

impl Clone for G2Point {
    /// Relies on `G2Affine` being `Copy`: the clone is the same value.
    #[verifier::external_body]
    fn clone(&self) -> (r: Self)
        ensures
            r == *self,
    {
        G2Point { inner: self.inner }
    }
}

impl Copy for G2Point {

}

impl Clone for GtElem {
    /// Relies on `Fq12` being `Copy`: the clone is the same value.
    #[verifier::external_body]
    fn clone(&self) -> (r: Self)
        ensures
            r == *self,
    {
        GtElem { inner: self.inner }
    }
}

impl Copy for GtElem {

}

// ---------------------------------------------------------------------------
// Pure spec helpers.
// ---------------------------------------------------------------------------

/// The integer a byte string denotes in little-endian order.
pub open spec fn le_int(b: Seq<u8>) -> int
    decreases b.len(),
{
    if b.len() == 0 {
        0
    } else {
        b[0] + 256 * le_int(b.subrange(1, b.len() as int))
    }
}

/// The order of the scalar field of BLS12-381.
pub open spec fn scalar_modulus() -> int {
    52435875175126190479447740508185965837690552500527637822603658699938581184513int
}

/// The order of the base field of BLS12-381.
pub open spec fn base_modulus() -> int {
    4002409555221667393417789825735904156556882819939007885332058136124031650490837864442687629129015664037894272559787int
}

// ---------------------------------------------------------------------------
// Names for what the arkworks calls return.
// ---------------------------------------------------------------------------

/// The canonical integer value of a scalar (what `PrimeField::into_bigint` returns).
pub uninterp spec fn scalar_int(s: Scalar) -> int;

/// The 256 bits of a scalar's canonical value, most significant first
/// (what `BigInteger::to_bits_be` returns on the scalar's bigint).
pub uninterp spec fn scalar_bits(s: Scalar) -> Seq<bool>;

/// The canonical encoding of a G1 point (what `CanonicalSerialize::serialize_with_mode` writes).
pub uninterp spec fn g1_ser(p: G1Point, compressed: bool) -> Seq<u8>;

/// The point that decoding a byte string yields when it succeeds
/// (what `CanonicalDeserialize::deserialize_with_mode` returns, validation off).
pub uninterp spec fn g1_dec(b: Seq<u8>, compressed: bool) -> G1Point;

/// Whether decoding a byte string of the right length succeeds.
pub uninterp spec fn g1_dec_ok(b: Seq<u8>, compressed: bool) -> bool;

/// Whether a point satisfies the curve equation (what `Affine::is_on_curve` returns;
/// true of the point at infinity).
pub uninterp spec fn g1_on_curve(p: G1Point) -> bool;

/// Whether a point lies in the prime-order subgroup, assuming it is on the curve
/// (what `Affine::is_in_correct_subgroup_assuming_on_curve` returns).
pub uninterp spec fn g1_in_subgroup(p: G1Point) -> bool;

/// The group sum of two points, normalized to affine form
/// (what `Add::add` followed by `CurveGroup::into_affine` returns).
pub uninterp spec fn g1_add_of(a: G1Point, b: G1Point) -> G1Point;

/// See `g1_ser`.
pub uninterp spec fn g2_ser(p: G2Point, compressed: bool) -> Seq<u8>;

/// See `g1_dec`.
pub uninterp spec fn g2_dec(b: Seq<u8>, compressed: bool) -> G2Point;

/// See `g1_dec_ok`.
pub uninterp spec fn g2_dec_ok(b: Seq<u8>, compressed: bool) -> bool;

/// See `g1_on_curve`.
pub uninterp spec fn g2_on_curve(p: G2Point) -> bool;

/// See `g1_in_subgroup`.
pub uninterp spec fn g2_in_subgroup(p: G2Point) -> bool;

/// The additive inverse of a point (what `Neg::neg` returns).
pub uninterp spec fn g2_neg_of(p: G2Point) -> G2Point;

/// See `g1_add_of`.
pub uninterp spec fn g2_add_of(a: G2Point, b: G2Point) -> G2Point;

/// The canonical encoding of a target-field element, 576 bytes
/// (what `CanonicalSerialize::serialize_with_mode` writes).
pub uninterp spec fn gt_ser(x: GtElem) -> Seq<u8>;

/// The element that decoding 576 bytes yields when it succeeds.
pub uninterp spec fn gt_dec(b: Seq<u8>) -> GtElem;

/// The product of two target-field elements (what `Mul::mul` returns).
pub uninterp spec fn gt_mul_of(a: GtElem, b: GtElem) -> GtElem;

/// The final exponentiation of a target-field element
/// (what `Pairing::final_exponentiation` returns when it succeeds).
pub uninterp spec fn gt_fe_of(f: GtElem) -> GtElem;

/// The Miller loop value of a pair of points (what `Pairing::miller_loop` returns).
/// When either point is the point at infinity this value is the field's one.
pub uninterp spec fn gt_miller_of(p: G1Point, q: G2Point) -> GtElem;

// ---------------------------------------------------------------------------
// Derived spec values and predicates.
// ---------------------------------------------------------------------------

/// The canonical uncompressed encoding of the G1 point at infinity:
/// the infinity flag bit in the leading byte, zeros elsewhere.
pub open spec fn g1_inf_bytes() -> Seq<u8> {
    Seq::new(96, |i: int| if i == 0 { 0x40u8 } else { 0u8 })
}

/// The canonical uncompressed encoding of the G2 point at infinity.
pub open spec fn g2_inf_bytes() -> Seq<u8> {
    Seq::new(192, |i: int| if i == 0 { 0x40u8 } else { 0u8 })
}

/// The canonical encoding of the target field's one.
pub open spec fn gt_one_bytes() -> Seq<u8> {
    Seq::new(576, |i: int| if i == 0 { 1u8 } else { 0u8 })
}

/// The canonical encoding of the target field's zero.
pub open spec fn gt_zero_bytes() -> Seq<u8> {
    Seq::new(576, |i: int| 0u8)
}

/// The G1 point at infinity, the identity of the group.
pub open spec fn g1_zero_spec() -> G1Point {
    g1_dec(g1_inf_bytes(), false)
}

/// The G2 point at infinity, the identity of the group.
pub open spec fn g2_zero_spec() -> G2Point {
    g2_dec(g2_inf_bytes(), false)
}

/// The target field's one, the identity of the pairing target group.
pub open spec fn gt_one_spec() -> GtElem {
    gt_dec(gt_one_bytes())
}

/// The target field's zero.
pub open spec fn gt_zero_spec() -> GtElem {
    gt_dec(gt_zero_bytes())
}

/// A point that is on the curve and in the prime-order subgroup.
/// The point at infinity is valid.
pub open spec fn g1_valid(p: G1Point) -> bool {
    g1_on_curve(p) && g1_in_subgroup(p)
}

/// See `g1_valid`.
pub open spec fn g2_valid(p: G2Point) -> bool {
    g2_on_curve(p) && g2_in_subgroup(p)
}

/// Whether decoding 576 bytes as a target-field element succeeds: each of the
/// twelve 48-byte coefficients must denote an integer below the base modulus.
pub open spec fn gt_dec_ok(b: Seq<u8>) -> bool {
    forall|i: int| 0 <= i < 12 ==> le_int(#[trigger] b.subrange(48 * i, 48 * i + 48)) < base_modulus()
}

/// Double-and-add over a big-endian bit string: the fold that scalar
/// multiplication performs, starting from the identity.
pub open spec fn g1_mul_bits(bits: Seq<bool>, p: G1Point) -> G1Point
    decreases bits.len(),
{
    if bits.len() == 0 {
        g1_zero_spec()
    } else {
        let acc = g1_mul_bits(bits.drop_last(), p);
        let doubled = g1_add_of(acc, acc);
        if bits.last() {
            g1_add_of(doubled, p)
        } else {
            doubled
        }
    }
}

/// Scalar multiplication in G1: double-and-add over the scalar's 256 bits.
pub open spec fn g1_mul_of(s: Scalar, p: G1Point) -> G1Point {
    g1_mul_bits(scalar_bits(s), p)
}

/// See `g1_mul_bits`.
pub open spec fn g2_mul_bits(bits: Seq<bool>, p: G2Point) -> G2Point
    decreases bits.len(),
{
    if bits.len() == 0 {
        g2_zero_spec()
    } else {
        let acc = g2_mul_bits(bits.drop_last(), p);
        let doubled = g2_add_of(acc, acc);
        if bits.last() {
            g2_add_of(doubled, p)
        } else {
            doubled
        }
    }
}

/// Scalar multiplication in G2.
pub open spec fn g2_mul_of(s: Scalar, p: G2Point) -> G2Point {
    g2_mul_bits(scalar_bits(s), p)
}

/// The multi-scalar multiplication sum over G1: the per-term sum
/// `scalar_0 * point_0 + ... + scalar_{n-1} * point_{n-1}`,
/// the identity for empty input.
pub open spec fn msm_g1_fold(ps: Seq<G1Point>, ss: Seq<Scalar>) -> G1Point
    decreases ps.len(),
{
    if ps.len() == 0 || ss.len() == 0 {
        g1_zero_spec()
    } else {
        g1_add_of(
            msm_g1_fold(ps.drop_last(), ss.drop_last()),
            g1_mul_of(ss.last(), ps.last()),
        )
    }
}

/// See `msm_g1_fold`.
pub open spec fn msm_g2_fold(ps: Seq<G2Point>, ss: Seq<Scalar>) -> G2Point
    decreases ps.len(),
{
    if ps.len() == 0 || ss.len() == 0 {
        g2_zero_spec()
    } else {
        g2_add_of(
            msm_g2_fold(ps.drop_last(), ss.drop_last()),
            g2_mul_of(ss.last(), ps.last()),
        )
    }
}

/// The product of the Miller loop values of a list of point pairs, with
/// pairs holding a point at infinity skipped, as the shared Miller loop
/// computes it.
pub open spec fn ml_fold(ps: Seq<G1Point>, qs: Seq<G2Point>) -> GtElem
    decreases ps.len(),
{
    if ps.len() == 0 || qs.len() == 0 {
        gt_one_spec()
    } else {
        let rest = ml_fold(ps.drop_last(), qs.drop_last());
        if ps.last() == g1_zero_spec() || qs.last() == g2_zero_spec() {
            rest
        } else {
            gt_mul_of(rest, gt_miller_of(ps.last(), qs.last()))
        }
    }
}

/// The pairing of a pair of points: the final exponentiation of the
/// Miller loop value, the target identity where either point is at infinity.
pub open spec fn pairing_of(p: G1Point, q: G2Point) -> GtElem {
    if p == g1_zero_spec() || q == g2_zero_spec() {
        gt_fe_of(gt_one_spec())
    } else {
        gt_fe_of(gt_miller_of(p, q))
    }
}

// ---------------------------------------------------------------------------
// Trusted wrappers around the arkworks calls.
// ---------------------------------------------------------------------------

/// Relies on `CanonicalSerialize::serialize_compressed` for `Fr`: 32 bytes,
/// the canonical value in little-endian order, reduced below the modulus.
#[verifier::external_body]
pub(crate) fn ark_scalar_to_bytes(s: &Scalar) -> (r: Vec<u8>)
    ensures
        r@.len() == 32,
        le_int(r@) == scalar_int(*s),
        le_int(r@) < scalar_modulus(),
{
    let mut out = Vec::new();
    s.inner.serialize_compressed(&mut out).expect("writing to a vector cannot fail");
    out
}

/// Relies on `CanonicalDeserialize::deserialize_compressed` for `Fr`: reads a
/// 32-byte little-endian integer and accepts it exactly when it is below the
/// scalar modulus.  The scalar field has one representative per value, so a
/// byte string determines at most one scalar.
#[verifier::external_body]
pub(crate) fn ark_scalar_from_bytes(b: &[u8]) -> (r: Option<Scalar>)
    requires
        b@.len() == 32,
    ensures
        r is Some <==> le_int(b@) < scalar_modulus(),
        r matches Some(s) ==> scalar_int(s) == le_int(b@),
        forall|s: Scalar| scalar_int(s) == le_int(b@) ==> r == Some(s),
{
    ark_bls12_381::Fr::deserialize_compressed(b).ok().map(|inner| Scalar { inner })
}

/// Relies on `PrimeField::into_bigint` and `BigInteger::to_bits_be`: the 256
/// bits of the scalar's canonical value, most significant first, with leading
/// zeros kept.
#[verifier::external_body]
pub(crate) fn ark_scalar_bits(s: &Scalar) -> (r: Vec<bool>)
    ensures
        r@ == scalar_bits(*s),
        r@.len() == 256,
{
    s.inner.into_bigint().to_bits_be()
}

/// Relies on `CanonicalSerialize::serialize_with_mode` for `G1Affine`:
/// 48 bytes compressed, 96 uncompressed; one byte string per point and mode.
#[verifier::external_body]
pub(crate) fn ark_g1_to_bytes(p: &G1Point, compressed: bool) -> (r: Vec<u8>)
    ensures
        r@ == g1_ser(*p, compressed),
        r@.len() == (if compressed { 48int } else { 96int }),
{
    let mode = if compressed { Compress::Yes } else { Compress::No };
    let mut out = Vec::new();
    p.inner.serialize_with_mode(&mut out, mode).expect("writing to a vector cannot fail");
    out
}

/// Relies on `CanonicalDeserialize::deserialize_with_mode` for `G1Affine`
/// with validation off: decoding is a function of the bytes.  Decoding a
/// point's canonical encoding returns that point; for compressed encodings
/// that holds of points on the curve, since a compressed encoding carries
/// only the x coordinate and the sign of y, and decoding recomputes y from
/// the curve equation.
#[verifier::external_body]
pub(crate) fn ark_g1_from_bytes(b: &[u8], compressed: bool) -> (r: Option<G1Point>)
    requires
        b@.len() == (if compressed { 48int } else { 96int }),
    ensures
        r is Some <==> g1_dec_ok(b@, compressed),
        r matches Some(p) ==> p == g1_dec(b@, compressed),
        forall|p: G1Point|
            #![trigger g1_ser(p, compressed)]
            (b@ == g1_ser(p, compressed) && (compressed ==> g1_on_curve(p))) ==> r == Some(p),
{
    let mode = if compressed { Compress::Yes } else { Compress::No };
    ark_bls12_381::G1Affine::deserialize_with_mode(b, mode, Validate::No)
        .ok()
        .map(|inner| G1Point { inner })
}

/// Relies on `Affine::is_on_curve`, which holds of the point at infinity.
#[verifier::external_body]
pub(crate) fn ark_g1_on_curve(p: &G1Point) -> (r: bool)
    ensures
        r == g1_on_curve(*p),
{
    p.inner.is_on_curve()
}

/// Relies on `Affine::is_in_correct_subgroup_assuming_on_curve`.
#[verifier::external_body]
pub(crate) fn ark_g1_in_subgroup(p: &G1Point) -> (r: bool)
    ensures
        r == g1_in_subgroup(*p),
{
    p.inner.is_in_correct_subgroup_assuming_on_curve()
}

/// Relies on `AffineRepr::zero`: the point at infinity, which is on the curve
/// and in the prime-order subgroup, and is the value the canonical infinity
/// encoding decodes to.
#[verifier::external_body]
pub(crate) fn ark_g1_identity() -> (r: G1Point)
    ensures
        r == g1_zero_spec(),
        g1_on_curve(r),
        g1_in_subgroup(r),
{
    G1Point { inner: ark_bls12_381::G1Affine::zero() }
}

/// Relies on `Add::add` for `G1Affine` and `CurveGroup::into_affine`: the
/// group sum, normalized; the point at infinity is the identity of the
/// addition, by a branch that copies the other operand's coordinates; the
/// subgroup is closed under addition.
#[verifier::external_body]
pub(crate) fn ark_g1_add(a: &G1Point, b: &G1Point) -> (r: G1Point)
    ensures
        r == g1_add_of(*a, *b),
        *a == g1_zero_spec() ==> r == *b,
        *b == g1_zero_spec() ==> r == *a,
        g1_valid(*a) && g1_valid(*b) ==> g1_valid(r),
{
    G1Point { inner: (a.inner + b.inner).into_affine() }
}

/// Relies on `AffineRepr::mul_bigint` and `CurveGroup::into_affine`: scalar
/// multiplication equals double-and-add over the scalar's 256 big-endian
/// bits (doubling the identity and adding to it are identities, so the
/// leading zero bits change nothing); the subgroup is closed under it.
#[verifier::external_body]
pub(crate) fn ark_g1_mul(p: &G1Point, s: &Scalar) -> (r: G1Point)
    ensures
        r == g1_mul_of(*s, *p),
        g1_valid(*p) ==> g1_valid(r),
{
    G1Point { inner: p.inner.mul_bigint(s.inner.into_bigint()).into_affine() }
}

/// Relies on `VariableBaseMSM::msm_unchecked` for `G1Projective`: the
/// documented inner product `sum_i scalars[i] * bases[i]`, the identity for
/// empty input.  The bucketed algorithm equals the per-term sum by the
/// group laws, which hold of points on the curve, so the equation is
/// stated for such bases only; the subgroup is closed under the sum.
#[verifier::external_body]
pub(crate) fn ark_g1_msm(ps: &Vec<G1Point>, ss: &Vec<Scalar>) -> (r: G1Point)
    requires
        ps@.len() == ss@.len(),
    ensures
        (forall|i: int| 0 <= i < ps@.len() ==> g1_on_curve(#[trigger] ps@[i])) ==> r
            == msm_g1_fold(ps@, ss@),
        (forall|i: int| 0 <= i < ps@.len() ==> g1_valid(#[trigger] ps@[i])) ==> g1_valid(r),
{
    let bases: Vec<ark_bls12_381::G1Affine> = ps.iter().map(|p| p.inner).collect();
    let scalars: Vec<ark_bls12_381::Fr> = ss.iter().map(|s| s.inner).collect();
    let sum = ark_bls12_381::G1Projective::msm_unchecked(&bases, &scalars);
    G1Point { inner: sum.into_affine() }
}

/// Relies on `CanonicalSerialize::serialize_with_mode` for `G2Affine`:
/// 96 bytes compressed, 192 uncompressed.
#[verifier::external_body]
pub(crate) fn ark_g2_to_bytes(p: &G2Point, compressed: bool) -> (r: Vec<u8>)
    ensures
        r@ == g2_ser(*p, compressed),
        r@.len() == (if compressed { 96int } else { 192int }),
{
    let mode = if compressed { Compress::Yes } else { Compress::No };
    let mut out = Vec::new();
    p.inner.serialize_with_mode(&mut out, mode).expect("writing to a vector cannot fail");
    out
}

/// Relies on `CanonicalDeserialize::deserialize_with_mode` for `G2Affine`
/// with validation off; see `ark_g1_from_bytes` for why the compressed
/// round trip holds of points on the curve only.
#[verifier::external_body]
pub(crate) fn ark_g2_from_bytes(b: &[u8], compressed: bool) -> (r: Option<G2Point>)
    requires
        b@.len() == (if compressed { 96int } else { 192int }),
    ensures
        r is Some <==> g2_dec_ok(b@, compressed),
        r matches Some(p) ==> p == g2_dec(b@, compressed),
        forall|p: G2Point|
            #![trigger g2_ser(p, compressed)]
            (b@ == g2_ser(p, compressed) && (compressed ==> g2_on_curve(p))) ==> r == Some(p),
{
    let mode = if compressed { Compress::Yes } else { Compress::No };
    ark_bls12_381::G2Affine::deserialize_with_mode(b, mode, Validate::No)
        .ok()
        .map(|inner| G2Point { inner })
}

/// Relies on `Affine::is_on_curve`.
#[verifier::external_body]
pub(crate) fn ark_g2_on_curve(p: &G2Point) -> (r: bool)
    ensures
        r == g2_on_curve(*p),
{
    p.inner.is_on_curve()
}

/// Relies on `Affine::is_in_correct_subgroup_assuming_on_curve`.
#[verifier::external_body]
pub(crate) fn ark_g2_in_subgroup(p: &G2Point) -> (r: bool)
    ensures
        r == g2_in_subgroup(*p),
{
    p.inner.is_in_correct_subgroup_assuming_on_curve()
}

/// Relies on `AffineRepr::zero`; see `ark_g1_identity`.
#[verifier::external_body]
pub(crate) fn ark_g2_identity() -> (r: G2Point)
    ensures
        r == g2_zero_spec(),
        g2_on_curve(r),
        g2_in_subgroup(r),
{
    G2Point { inner: ark_bls12_381::G2Affine::zero() }
}

/// Relies on `Neg::neg` for `G2Affine`.
#[verifier::external_body]
pub(crate) fn ark_g2_neg(p: &G2Point) -> (r: G2Point)
    ensures
        r == g2_neg_of(*p),
        g2_valid(*p) ==> g2_valid(r),
{
    G2Point { inner: -p.inner }
}

/// Relies on `Add::add` for `G2Affine` and `CurveGroup::into_affine`;
/// see `ark_g1_add` for the identity laws.
#[verifier::external_body]
pub(crate) fn ark_g2_add(a: &G2Point, b: &G2Point) -> (r: G2Point)
    ensures
        r == g2_add_of(*a, *b),
        *a == g2_zero_spec() ==> r == *b,
        *b == g2_zero_spec() ==> r == *a,
        g2_valid(*a) && g2_valid(*b) ==> g2_valid(r),
{
    G2Point { inner: (a.inner + b.inner).into_affine() }
}

/// Relies on `AffineRepr::mul_bigint` and `CurveGroup::into_affine`;
/// see `ark_g1_mul`.
#[verifier::external_body]
pub(crate) fn ark_g2_mul(p: &G2Point, s: &Scalar) -> (r: G2Point)
    ensures
        r == g2_mul_of(*s, *p),
        g2_valid(*p) ==> g2_valid(r),
{
    G2Point { inner: p.inner.mul_bigint(s.inner.into_bigint()).into_affine() }
}

/// Relies on `VariableBaseMSM::msm_unchecked` for `G2Projective`;
/// see `ark_g1_msm` for why the sum is stated for on-curve bases only.
#[verifier::external_body]
pub(crate) fn ark_g2_msm(ps: &Vec<G2Point>, ss: &Vec<Scalar>) -> (r: G2Point)
    requires
        ps@.len() == ss@.len(),
    ensures
        (forall|i: int| 0 <= i < ps@.len() ==> g2_on_curve(#[trigger] ps@[i])) ==> r
            == msm_g2_fold(ps@, ss@),
        (forall|i: int| 0 <= i < ps@.len() ==> g2_valid(#[trigger] ps@[i])) ==> g2_valid(r),
{
    let bases: Vec<ark_bls12_381::G2Affine> = ps.iter().map(|p| p.inner).collect();
    let scalars: Vec<ark_bls12_381::Fr> = ss.iter().map(|s| s.inner).collect();
    let sum = ark_bls12_381::G2Projective::msm_unchecked(&bases, &scalars);
    G2Point { inner: sum.into_affine() }
}

/// Relies on `CanonicalSerialize::serialize_uncompressed` for `Fq12`:
/// twelve 48-byte little-endian coefficients, 576 bytes in all, one byte
/// string per element.
#[verifier::external_body]
pub(crate) fn ark_gt_to_bytes(x: &GtElem) -> (r: Vec<u8>)
    ensures
        r@ == gt_ser(*x),
        r@.len() == 576,
{
    let mut out = Vec::new();
    x.inner.serialize_uncompressed(&mut out).expect("writing to a vector cannot fail");
    out
}

/// Relies on `CanonicalDeserialize::deserialize_uncompressed` for `Fq12`:
/// succeeds exactly when each 48-byte coefficient is below the base modulus,
/// and decoding an element's canonical encoding returns that element.
#[verifier::external_body]
pub(crate) fn ark_gt_from_bytes(b: &[u8]) -> (r: Option<GtElem>)
    requires
        b@.len() == 576,
    ensures
        r is Some <==> gt_dec_ok(b@),
        r matches Some(x) ==> x == gt_dec(b@),
        forall|x: GtElem| b@ == gt_ser(x) ==> r == Some(x),
{
    ark_bls12_381::Fq12::deserialize_uncompressed(b).ok().map(|inner| GtElem { inner })
}

/// Relies on `PartialEq::eq` for `Fq12`: field elements have one
/// representation per value, so the comparison decides value equality.
#[verifier::external_body]
pub(crate) fn ark_gt_eq(a: &GtElem, b: &GtElem) -> (r: bool)
    ensures
        r == (*a == *b),
{
    a.inner == b.inner
}

/// Relies on `One::one` for `Fq12`: the multiplicative identity, a nonzero
/// value whose canonical encoding is a one followed by zeros.
#[verifier::external_body]
pub(crate) fn ark_gt_one() -> (r: GtElem)
    ensures
        r == gt_one_spec(),
        r != gt_zero_spec(),
        forall|x: GtElem| #[trigger] gt_mul_of(r, x) == x && gt_mul_of(x, r) == x,
{
    GtElem { inner: ark_bls12_381::Fq12::one() }
}

/// Relies on `Pairing::miller_loop` for `Bls12_381`: a function of the two
/// points; the loop skips a pair holding a point at infinity, leaving the
/// field's one; on points of the pairing subgroups the value is invertible.
#[verifier::external_body]
pub(crate) fn ark_miller_loop(p: &G1Point, q: &G2Point) -> (r: GtElem)
    ensures
        r == gt_miller_of(*p, *q),
        (*p == g1_zero_spec() || *q == g2_zero_spec()) ==> r == gt_one_spec(),
        (g1_valid(*p) && g2_valid(*q)) ==> r != gt_zero_spec(),
{
    GtElem { inner: ark_bls12_381::Bls12_381::miller_loop(p.inner, q.inner).0 }
}

/// Relies on `Pairing::multi_miller_loop` for `Bls12_381`: the product of
/// the per-pair Miller loop values, computed with shared squarings, with
/// pairs holding a point at infinity skipped; on points of the pairing
/// subgroups the value is invertible.  The underlying iteration panics on
/// lists of unequal length.
#[verifier::external_body]
pub(crate) fn ark_multi_miller_loop(ps: &Vec<G1Point>, qs: &Vec<G2Point>) -> (r: GtElem)
    requires
        ps@.len() == qs@.len(),
    ensures
        r == ml_fold(ps@, qs@),
        (forall|i: int|
            0 <= i < ps@.len() ==> g1_valid(#[trigger] ps@[i]) && g2_valid(qs@[i])) ==> r
            != gt_zero_spec(),
{
    let a: Vec<ark_bls12_381::G1Affine> = ps.iter().map(|p| p.inner).collect();
    let b: Vec<ark_bls12_381::G2Affine> = qs.iter().map(|q| q.inner).collect();
    GtElem { inner: ark_bls12_381::Bls12_381::multi_miller_loop(a, b).0 }
}

/// Relies on `Pairing::final_exponentiation` for `Bls12_381`: returns a
/// value exactly when the input is invertible, that is, nonzero; the
/// field's one is fixed by it.
#[verifier::external_body]
pub(crate) fn ark_final_exponentiation(f: &GtElem) -> (r: Option<GtElem>)
    ensures
        r is Some <==> *f != gt_zero_spec(),
        r matches Some(x) ==> x == gt_fe_of(*f),
        *f == gt_one_spec() ==> r == Some(*f),
{
    ark_bls12_381::Bls12_381::final_exponentiation(ark_ec::pairing::MillerLoopOutput(f.inner))
        .map(|o| GtElem { inner: o.0 })
}

} // verus!
