//! Canonical fixed-width encoding and decoding of scalars, curve points
//! and target-field elements, with optional curve and subgroup checking,
//! and of the aggregate structures built from them.
//!
//! Encoding is deterministic: one value maps to one byte string per
//! compression mode, and decoding a value's encoding returns the value.

use vstd::prelude::*;

use crate::bls12_381::Scalar;
use crate::bls12_381::G1Point;
use crate::bls12_381::G2Point;
use crate::bls12_381::GtElem;
use crate::bls12_381::le_int;
use crate::bls12_381::scalar_modulus;
use crate::bls12_381::scalar_int;
use crate::bls12_381::g1_ser;
use crate::bls12_381::g1_dec;
use crate::bls12_381::g1_dec_ok;
use crate::bls12_381::g1_on_curve;
use crate::bls12_381::g1_in_subgroup;
use crate::bls12_381::g1_valid;
use crate::bls12_381::g2_ser;
use crate::bls12_381::g2_dec;
use crate::bls12_381::g2_dec_ok;
use crate::bls12_381::g2_on_curve;
use crate::bls12_381::g2_in_subgroup;
use crate::bls12_381::g2_valid;
use crate::bls12_381::gt_ser;
use crate::bls12_381::gt_dec;
use crate::bls12_381::gt_dec_ok;
use crate::bls12_381::ark_scalar_to_bytes;
use crate::bls12_381::ark_scalar_from_bytes;
use crate::bls12_381::ark_g1_to_bytes;
use crate::bls12_381::ark_g1_from_bytes;
use crate::bls12_381::ark_g1_on_curve;
use crate::bls12_381::ark_g1_in_subgroup;
use crate::bls12_381::ark_g2_to_bytes;
use crate::bls12_381::ark_g2_from_bytes;
use crate::bls12_381::ark_g2_on_curve;
use crate::bls12_381::ark_g2_in_subgroup;
use crate::bls12_381::ark_gt_to_bytes;
use crate::bls12_381::ark_gt_from_bytes;
use crate::Error;

verus! {

/// 256 raised to the given power: the weight of the byte at that position
/// of a little-endian byte string.
pub open spec fn pow256(n: nat) -> int
    decreases n,
{
    if n == 0 {
        1
    } else {
        256 * pow256((n - 1) as nat)
    }
}

/// A little-endian byte string denotes a value between 0 and 256 to the
/// power of its length.
pub proof fn lemma_le_int_bound(b: Seq<u8>)
    ensures
        0 <= le_int(b) < pow256(b.len()),
    decreases b.len(),
{
    if b.len() == 0 {
    } else {
        let rest = b.subrange(1, b.len() as int);
        lemma_le_int_bound(rest);
        assert(256 * le_int(rest) <= 256 * (pow256(rest.len()) - 1)) by (nonlinear_arith)
            requires
                le_int(rest) <= pow256(rest.len()) - 1,
        ;
    }
}

/// Appending a byte adds its value at the weight of the old length.
pub proof fn lemma_le_int_push(b: Seq<u8>, x: u8)
    ensures
        le_int(b.push(x)) == le_int(b) + pow256(b.len()) * x,
    decreases b.len(),
{
    if b.len() == 0 {
        assert(b.push(x) =~= seq![x]);
        assert(le_int(seq![x].subrange(1, 1)) == 0);
    } else {
        let rest = b.subrange(1, b.len() as int);
        assert(b.push(x).subrange(1, b.len() as int + 1) =~= rest.push(x));
        lemma_le_int_push(rest, x);
        assert(256 * (le_int(rest) + pow256(rest.len()) * x) == 256 * le_int(rest) + 256
            * pow256(rest.len()) * x) by (nonlinear_arith);
    }
}

/// Reads the unsigned integer an 8-byte little-endian string denotes.
pub fn read_u64_le(b: &[u8]) -> (n: u64)
    requires
        b@.len() == 8,
    ensures
        n as int == le_int(b@),
{
    let mut acc: u64 = 0;
    let mut i: usize = 8;
    proof {
        assert(b@.subrange(8, 8) =~= Seq::<u8>::empty());
    }
    while i > 0
        invariant
            0 <= i <= 8,
            b@.len() == 8,
            acc as int == le_int(b@.subrange(i as int, 8)),
        decreases i,
    {
        proof {
            lemma_le_int_bound(b@.subrange(i as int, 8));
            reveal_with_fuel(pow256, 10);
            assert(b@.subrange(i - 1, 8).subrange(1, 9 - i as int) =~= b@.subrange(i as int, 8));
        }
        acc = acc * 256 + (b[i - 1] as u64);
        i = i - 1;
    }
    proof {
        assert(b@.subrange(0, 8) =~= b@);
    }
    acc
}

/// Writes an unsigned integer as an 8-byte little-endian string.
pub fn write_u64_le(n: u64) -> (r: Vec<u8>)
    ensures
        r@.len() == 8,
        le_int(r@) == n as int,
{
    let mut out: Vec<u8> = Vec::new();
    let mut v: u64 = n;
    let mut i: usize = 0;
    proof {
        reveal_with_fuel(pow256, 10);
        assert(pow256(8) == 0x1_0000_0000_0000_0000int);
        assert(pow256(0) == 1);
        assert(le_int(out@) == 0);
    }
    while i < 8
        invariant
            0 <= i <= 8,
            out@.len() == i,
            le_int(out@) + pow256(i as nat) * (v as int) == n as int,
            (v as int) < pow256((8 - i) as nat),
        decreases 8 - i,
    {
        let byte: u8 = (v % 256) as u8;
        proof {
            lemma_le_int_push(out@, byte);
            assert(pow256((i + 1) as nat) == 256 * pow256(i as nat));
            assert(le_int(out@) + pow256(i as nat) * (byte as int) + pow256((i + 1) as nat) * (
            (v as int) / 256) == le_int(out@) + pow256(i as nat) * (v as int)) by (nonlinear_arith)
                requires
                    byte as int == (v as int) % 256,
                    pow256((i + 1) as nat) == 256 * pow256(i as nat),
            ;
            assert(((v as int) / 256) < pow256((8 - (i + 1)) as nat)) by (nonlinear_arith)
                requires
                    (v as int) < pow256((8 - i) as nat),
                    pow256((8 - i) as nat) == 256 * pow256((8 - (i + 1)) as nat),
                    v >= 0,
            ;
        }
        out.push(byte);
        v = v / 256;
        i = i + 1;
    }
    proof {
        reveal_with_fuel(pow256, 2);
    }
    out
}

// ---------------------------------------------------------------------------
// Scalars.
// ---------------------------------------------------------------------------

/// Encodes a scalar as its canonical 32-byte little-endian value.
pub fn scalar_to_bytes(s: &Scalar) -> (r: Vec<u8>)
    ensures
        r@.len() == 32,
        le_int(r@) == scalar_int(*s),
{
    ark_scalar_to_bytes(s)
}

/// Decodes a 32-byte little-endian value as a scalar.  Succeeds exactly on
/// strings of the right length denoting a value below the scalar modulus;
/// decoding a scalar's encoding returns that scalar.
pub fn scalar_from_bytes(b: &[u8]) -> (r: Result<Scalar, Error>)
    ensures
        r is Ok <==> b@.len() == 32 && le_int(b@) < scalar_modulus(),
        r matches Ok(s) ==> scalar_int(s) == le_int(b@),
        forall|s: Scalar| b@.len() == 32 && scalar_int(s) == le_int(b@) ==> r == Ok::<
            Scalar,
            Error,
        >(s),
        r is Err ==> r == Err::<Scalar, Error>(Error::MalformedEncoding),
{
    if b.len() != 32 {
        return Err(Error::MalformedEncoding);
    }
    match ark_scalar_from_bytes(b) {
        Some(s) => Ok(s),
        None => Err(Error::MalformedEncoding),
    }
}

/// The number of scalars a byte string holds: one per 32 bytes.
pub open spec fn scalar_count(b: Seq<u8>) -> int {
    b.len() as int / 32
}

/// The 32-byte slice at a scalar position of a byte string.
pub open spec fn scalar_chunk(b: Seq<u8>, i: int) -> Seq<u8> {
    b.subrange(32 * i, 32 * i + 32)
}

/// Whether a byte string is a well-formed list of scalars: a whole number
/// of 32-byte values, each below the scalar modulus.
pub open spec fn scalars_ok(b: Seq<u8>) -> bool {
    &&& b.len() % 32 == 0
    &&& forall|i: int| 0 <= i < scalar_count(b) ==> le_int(#[trigger] scalar_chunk(b, i))
        < scalar_modulus()
}

/// The scalar a 32-byte string denotes: the one whose canonical value the
/// string holds.  The scalar field has one representative per value.
pub open spec fn scalar_dec(b: Seq<u8>) -> Scalar {
    choose|s: Scalar| scalar_int(s) == le_int(b)
}

/// The scalars a byte string holds, one per 32-byte chunk.
pub open spec fn scalars_dec(b: Seq<u8>) -> Seq<Scalar> {
    Seq::new((b.len() as int / 32) as nat, |i: int| scalar_dec(scalar_chunk(b, i)))
}

/// Decodes a concatenation of 32-byte scalars.  Succeeds exactly on
/// well-formed lists; the result holds one scalar per chunk, in order.
pub fn scalars_from_bytes(b: &[u8]) -> (r: Result<Vec<Scalar>, Error>)
    ensures
        r is Ok <==> scalars_ok(b@),
        r matches Ok(v) ==> v@.len() == scalar_count(b@) && (forall|i: int|
            0 <= i < v@.len() ==> scalar_int(#[trigger] v@[i]) == le_int(scalar_chunk(b@, i))),
        r matches Ok(v) ==> v@ == scalars_dec(b@),
        r is Err ==> r == Err::<Vec<Scalar>, Error>(Error::MalformedEncoding),
{
    if b.len() % 32 != 0 {
        return Err(Error::MalformedEncoding);
    }
    let blen: usize = b.len();
    let n = blen / 32;
    proof {
        assert(b@.len() == 32 * (n as int)) by (nonlinear_arith)
            requires
                b@.len() % 32 == 0,
                n as int == b@.len() as int / 32,
        ;
    }
    let mut out: Vec<Scalar> = Vec::new();
    let mut i: usize = 0;
    while i < n
        invariant
            b@.len() == 32 * (n as int),
            b@.len() <= usize::MAX as int,
            0 <= i <= n,
            out@.len() == i,
            forall|j: int| 0 <= j < i ==> le_int(#[trigger] scalar_chunk(b@, j)) < scalar_modulus(),
            forall|j: int|
                0 <= j < i ==> scalar_int(#[trigger] out@[j]) == le_int(scalar_chunk(b@, j)),
            forall|j: int| 0 <= j < i ==> #[trigger] out@[j] == scalar_dec(scalar_chunk(b@, j)),
        decreases n - i,
    {
        proof {
            assert(32 * i + 32 <= b@.len());
        }
        let chunk = vstd::slice::slice_subrange(b, 32 * i, 32 * i + 32);
        proof {
            assert(chunk@ =~= scalar_chunk(b@, i as int));
        }
        match ark_scalar_from_bytes(chunk) {
            Some(s) => {
                proof {
                    assert(exists|x: Scalar| scalar_int(x) == le_int(chunk@)) by {
                        assert(scalar_int(s) == le_int(chunk@));
                    }
                    assert(scalar_int(scalar_dec(chunk@)) == le_int(chunk@));
                    assert(s == scalar_dec(scalar_chunk(b@, i as int)));
                }
                out.push(s)
            },
            None => {
                proof {
                    assert(scalar_count(b@) == n);
                    assert(le_int(scalar_chunk(b@, i as int)) >= scalar_modulus());
                }
                return Err(Error::MalformedEncoding);
            },
        }
        i = i + 1;
    }
    proof {
        assert(scalar_count(b@) == n);
        assert(out@ =~= scalars_dec(b@));
    }
    Ok(out)
}

/// Encodes a list of scalars as the concatenation of their 32-byte values.
pub fn scalars_to_bytes(ss: &Vec<Scalar>) -> (r: Vec<u8>)
    ensures
        r@.len() == 32 * ss@.len(),
        scalars_ok(r@),
        forall|i: int|
            0 <= i < ss@.len() ==> le_int(#[trigger] scalar_chunk(r@, i)) == scalar_int(ss@[i]),
{
    let mut out: Vec<u8> = Vec::new();
    let mut i: usize = 0;
    while i < ss.len()
        invariant
            0 <= i <= ss@.len(),
            out@.len() == 32 * i,
            forall|j: int|
                0 <= j < i ==> le_int(#[trigger] scalar_chunk(out@, j)) == scalar_int(ss@[j]),
            forall|j: int| 0 <= j < i ==> le_int(#[trigger] scalar_chunk(out@, j)) < scalar_modulus(),
        decreases ss@.len() - i,
    {
        let ghost prev = out@;
        let mut chunk = ark_scalar_to_bytes(&ss[i]);
        let ghost cb = chunk@;
        out.append(&mut chunk);
        proof {
            assert(out@ == prev + cb);
        }
        proof {
            assert forall|j: int| 0 <= j < i + 1 implies le_int(#[trigger] scalar_chunk(out@, j))
                == scalar_int(ss@[j]) && le_int(scalar_chunk(out@, j)) < scalar_modulus() by {
                if j < i {
                    assert(scalar_chunk(out@, j) =~= scalar_chunk(prev, j));
                } else {
                    assert(scalar_chunk(out@, j) =~= cb);
                }
            }
        }
        i = i + 1;
    }
    out
}

// ---------------------------------------------------------------------------
// Curve points.
// ---------------------------------------------------------------------------

/// The length of a G1 point's encoding in the given mode.
pub open spec fn g1_enc_len(compressed: bool) -> int {
    if compressed {
        48
    } else {
        96
    }
}

/// The length of a G2 point's encoding in the given mode.
pub open spec fn g2_enc_len(compressed: bool) -> int {
    if compressed {
        96
    } else {
        192
    }
}

/// Encodes a G1 point canonically: 48 bytes compressed, 96 uncompressed.
pub fn g1_to_bytes(p: &G1Point, compressed: bool) -> (r: Vec<u8>)
    ensures
        r@ == g1_ser(*p, compressed),
        r@.len() == g1_enc_len(compressed),
{
    ark_g1_to_bytes(p, compressed)
}

/// Decodes a G1 point.  With `validate` set the point must also satisfy the
/// curve equation and lie in the prime-order subgroup.  Decoding a point's
/// encoding returns that point; each failure names its cause.
pub fn g1_from_bytes(b: &[u8], compressed: bool, validate: bool) -> (r: Result<G1Point, Error>)
    ensures
        r is Ok <==> b@.len() == g1_enc_len(compressed) && g1_dec_ok(b@, compressed) && (validate
            ==> g1_valid(g1_dec(b@, compressed))),
        r matches Ok(p) ==> p == g1_dec(b@, compressed),
        forall|p: G1Point|
            #![trigger g1_ser(p, compressed)]
            (b@ == g1_ser(p, compressed) && b@.len() == g1_enc_len(compressed) && (compressed
                ==> g1_on_curve(p)) && (validate ==> g1_valid(p))) ==> r == Ok::<G1Point, Error>(p),
        r == Err::<G1Point, Error>(Error::MalformedEncoding) <==> (b@.len() != g1_enc_len(
            compressed,
        ) || !g1_dec_ok(b@, compressed)),
        r == Err::<G1Point, Error>(Error::InvalidPoint) <==> (b@.len() == g1_enc_len(compressed)
            && g1_dec_ok(b@, compressed) && validate && !g1_on_curve(g1_dec(b@, compressed))),
        r == Err::<G1Point, Error>(Error::NotInSubgroup) <==> (b@.len() == g1_enc_len(compressed)
            && g1_dec_ok(b@, compressed) && validate && g1_on_curve(g1_dec(b@, compressed))
            && !g1_in_subgroup(g1_dec(b@, compressed))),
{
    let expected: usize = if compressed {
        48
    } else {
        96
    };
    if b.len() != expected {
        return Err(Error::MalformedEncoding);
    }
    match ark_g1_from_bytes(b, compressed) {
        None => Err(Error::MalformedEncoding),
        Some(p) => {
            if validate {
                if !ark_g1_on_curve(&p) {
                    return Err(Error::InvalidPoint);
                }
                if !ark_g1_in_subgroup(&p) {
                    return Err(Error::NotInSubgroup);
                }
            }
            Ok(p)
        },
    }
}

/// Encodes a G2 point canonically: 96 bytes compressed, 192 uncompressed.
pub fn g2_to_bytes(p: &G2Point, compressed: bool) -> (r: Vec<u8>)
    ensures
        r@ == g2_ser(*p, compressed),
        r@.len() == g2_enc_len(compressed),
{
    ark_g2_to_bytes(p, compressed)
}

/// Decodes a G2 point; see `g1_from_bytes`.
pub fn g2_from_bytes(b: &[u8], compressed: bool, validate: bool) -> (r: Result<G2Point, Error>)
    ensures
        r is Ok <==> b@.len() == g2_enc_len(compressed) && g2_dec_ok(b@, compressed) && (validate
            ==> g2_valid(g2_dec(b@, compressed))),
        r matches Ok(p) ==> p == g2_dec(b@, compressed),
        forall|p: G2Point|
            #![trigger g2_ser(p, compressed)]
            (b@ == g2_ser(p, compressed) && b@.len() == g2_enc_len(compressed) && (compressed
                ==> g2_on_curve(p)) && (validate ==> g2_valid(p))) ==> r == Ok::<G2Point, Error>(p),
        r == Err::<G2Point, Error>(Error::MalformedEncoding) <==> (b@.len() != g2_enc_len(
            compressed,
        ) || !g2_dec_ok(b@, compressed)),
        r == Err::<G2Point, Error>(Error::InvalidPoint) <==> (b@.len() == g2_enc_len(compressed)
            && g2_dec_ok(b@, compressed) && validate && !g2_on_curve(g2_dec(b@, compressed))),
        r == Err::<G2Point, Error>(Error::NotInSubgroup) <==> (b@.len() == g2_enc_len(compressed)
            && g2_dec_ok(b@, compressed) && validate && g2_on_curve(g2_dec(b@, compressed))
            && !g2_in_subgroup(g2_dec(b@, compressed))),
{
    let expected: usize = if compressed {
        96
    } else {
        192
    };
    if b.len() != expected {
        return Err(Error::MalformedEncoding);
    }
    match ark_g2_from_bytes(b, compressed) {
        None => Err(Error::MalformedEncoding),
        Some(p) => {
            if validate {
                if !ark_g2_on_curve(&p) {
                    return Err(Error::InvalidPoint);
                }
                if !ark_g2_in_subgroup(&p) {
                    return Err(Error::NotInSubgroup);
                }
            }
            Ok(p)
        },
    }
}

// ---------------------------------------------------------------------------
// Target-field elements.
// ---------------------------------------------------------------------------

/// Encodes a target-field element canonically: 576 bytes.
pub fn gt_to_bytes(x: &GtElem) -> (r: Vec<u8>)
    ensures
        r@ == gt_ser(*x),
        r@.len() == 576,
{
    ark_gt_to_bytes(x)
}

/// Decodes a target-field element.  Succeeds exactly on 576-byte strings
/// whose twelve coefficients are in range; decoding an element's encoding
/// returns that element.
pub fn gt_from_bytes(b: &[u8]) -> (r: Result<GtElem, Error>)
    ensures
        r is Ok <==> b@.len() == 576 && gt_dec_ok(b@),
        r matches Ok(x) ==> x == gt_dec(b@),
        forall|x: GtElem| (b@ == gt_ser(x) && b@.len() == 576) ==> r == Ok::<GtElem, Error>(x),
        r is Err ==> r == Err::<GtElem, Error>(Error::MalformedEncoding),
{
    if b.len() != 576 {
        return Err(Error::MalformedEncoding);
    }
    match ark_gt_from_bytes(b) {
        None => Err(Error::MalformedEncoding),
        Some(x) => Ok(x),
    }
}

// ---------------------------------------------------------------------------
// Lists of G1 points (uncompressed), as aggregate encodings hold them.
// ---------------------------------------------------------------------------

/// The 96-byte slice at a point position of a byte string.
pub open spec fn g1_chunk(b: Seq<u8>, i: int) -> Seq<u8> {
    b.subrange(96 * i, 96 * i + 96)
}

/// Whether a byte string is a whole number of decodable 96-byte points.
pub open spec fn g1_list_ok(b: Seq<u8>) -> bool {
    &&& b.len() % 96 == 0
    &&& forall|i: int|
        0 <= i < b.len() as int / 96 ==> g1_dec_ok(#[trigger] g1_chunk(b, i), false)
}

/// The points a byte string holds, one per 96-byte chunk.
pub open spec fn g1_list_dec(b: Seq<u8>) -> Seq<G1Point> {
    Seq::new((b.len() as int / 96) as nat, |i: int| g1_dec(g1_chunk(b, i), false))
}

/// Decodes a concatenation of 96-byte uncompressed G1 points, without
/// validation.  Succeeds exactly on well-formed lists.
pub fn g1s_from_bytes(b: &[u8]) -> (r: Result<Vec<G1Point>, Error>)
    ensures
        r is Ok <==> g1_list_ok(b@),
        r matches Ok(v) ==> v@.len() == b@.len() as int / 96 && (forall|i: int|
            0 <= i < v@.len() ==> #[trigger] v@[i] == g1_dec(g1_chunk(b@, i), false)),
        r matches Ok(v) ==> v@ == g1_list_dec(b@),
        r matches Ok(v) ==> (forall|i: int, p: G1Point|
            #![trigger v@[i], g1_ser(p, false)]
            0 <= i < v@.len() && g1_chunk(b@, i) == g1_ser(p, false) ==> v@[i] == p),
        r is Err ==> r == Err::<Vec<G1Point>, Error>(Error::MalformedEncoding),
        r is Err ==> b@.len() % 96 != 0 || (exists|i: int|
            #![trigger g1_chunk(b@, i)]
            0 <= i < b@.len() as int / 96 && (forall|p: G1Point|
                g1_chunk(b@, i) != g1_ser(p, false))),
{
    if b.len() % 96 != 0 {
        return Err(Error::MalformedEncoding);
    }
    let blen: usize = b.len();
    let n = blen / 96;
    proof {
        assert(b@.len() == 96 * (n as int)) by (nonlinear_arith)
            requires
                b@.len() % 96 == 0,
                n as int == b@.len() as int / 96,
        ;
    }
    let mut out: Vec<G1Point> = Vec::new();
    let mut i: usize = 0;
    while i < n
        invariant
            b@.len() == 96 * (n as int),
            b@.len() <= usize::MAX as int,
            0 <= i <= n,
            out@.len() == i,
            forall|j: int| 0 <= j < i ==> g1_dec_ok(#[trigger] g1_chunk(b@, j), false),
            forall|j: int| 0 <= j < i ==> #[trigger] out@[j] == g1_dec(g1_chunk(b@, j), false),
            forall|j: int, p: G1Point|
                #![trigger out@[j], g1_ser(p, false)]
                0 <= j < i && g1_chunk(b@, j) == g1_ser(p, false) ==> out@[j] == p,
        decreases n - i,
    {
        proof {
            assert(96 * i + 96 <= b@.len());
        }
        let chunk = vstd::slice::slice_subrange(b, 96 * i, 96 * i + 96);
        proof {
            assert(chunk@ =~= g1_chunk(b@, i as int));
        }
        match ark_g1_from_bytes(chunk, false) {
            Some(p) => { out.push(p) },
            None => {
                proof {
                    assert(b@.len() as int / 96 == n);
                    assert(!g1_dec_ok(g1_chunk(b@, i as int), false));
                    assert(forall|p: G1Point| g1_chunk(b@, i as int) != g1_ser(p, false));
                }
                return Err(Error::MalformedEncoding);
            },
        }
        i = i + 1;
    }
    proof {
        assert(b@.len() as int / 96 == n);
        assert(out@ =~= g1_list_dec(b@));
    }
    Ok(out)
}

/// The 192-byte slice at a point position of a byte string.
pub open spec fn g2_chunk(b: Seq<u8>, i: int) -> Seq<u8> {
    b.subrange(192 * i, 192 * i + 192)
}

/// Whether a byte string is a whole number of decodable 192-byte points.
pub open spec fn g2_list_ok(b: Seq<u8>) -> bool {
    &&& b.len() % 192 == 0
    &&& forall|i: int|
        0 <= i < b.len() as int / 192 ==> g2_dec_ok(#[trigger] g2_chunk(b, i), false)
}

/// The points a byte string holds, one per 192-byte chunk.
pub open spec fn g2_list_dec(b: Seq<u8>) -> Seq<G2Point> {
    Seq::new((b.len() as int / 192) as nat, |i: int| g2_dec(g2_chunk(b, i), false))
}

/// Decodes a concatenation of 192-byte uncompressed G2 points, without
/// validation.  Succeeds exactly on well-formed lists.
pub fn g2s_from_bytes(b: &[u8]) -> (r: Result<Vec<G2Point>, Error>)
    ensures
        r is Ok <==> g2_list_ok(b@),
        r matches Ok(v) ==> v@.len() == b@.len() as int / 192 && (forall|i: int|
            0 <= i < v@.len() ==> #[trigger] v@[i] == g2_dec(g2_chunk(b@, i), false)),
        r matches Ok(v) ==> v@ == g2_list_dec(b@),
        r is Err ==> r == Err::<Vec<G2Point>, Error>(Error::MalformedEncoding),
{
    if b.len() % 192 != 0 {
        return Err(Error::MalformedEncoding);
    }
    let blen: usize = b.len();
    let n = blen / 192;
    proof {
        assert(b@.len() == 192 * (n as int)) by (nonlinear_arith)
            requires
                b@.len() % 192 == 0,
                n as int == b@.len() as int / 192,
        ;
    }
    let mut out: Vec<G2Point> = Vec::new();
    let mut i: usize = 0;
    while i < n
        invariant
            b@.len() == 192 * (n as int),
            b@.len() <= usize::MAX as int,
            0 <= i <= n,
            out@.len() == i,
            forall|j: int| 0 <= j < i ==> g2_dec_ok(#[trigger] g2_chunk(b@, j), false),
            forall|j: int| 0 <= j < i ==> #[trigger] out@[j] == g2_dec(g2_chunk(b@, j), false),
        decreases n - i,
    {
        proof {
            assert(192 * i + 192 <= b@.len());
        }
        let chunk = vstd::slice::slice_subrange(b, 192 * i, 192 * i + 192);
        proof {
            assert(chunk@ =~= g2_chunk(b@, i as int));
        }
        match ark_g2_from_bytes(chunk, false) {
            Some(p) => { out.push(p) },
            None => {
                proof {
                    assert(b@.len() as int / 192 == n);
                    assert(!g2_dec_ok(g2_chunk(b@, i as int), false));
                }
                return Err(Error::MalformedEncoding);
            },
        }
        i = i + 1;
    }
    proof {
        assert(b@.len() as int / 192 == n);
        assert(out@ =~= g2_list_dec(b@));
    }
    Ok(out)
}

/// Encodes a list of G1 points as the concatenation of their 96-byte
/// uncompressed encodings.
pub fn g1s_to_bytes(ps: &Vec<G1Point>) -> (r: Vec<u8>)
    ensures
        r@.len() == 96 * ps@.len(),
        forall|i: int|
            0 <= i < ps@.len() ==> #[trigger] g1_chunk(r@, i) == g1_ser(ps@[i], false),
{
    let mut out: Vec<u8> = Vec::new();
    let mut i: usize = 0;
    while i < ps.len()
        invariant
            0 <= i <= ps@.len(),
            out@.len() == 96 * i,
            forall|j: int| 0 <= j < i ==> #[trigger] g1_chunk(out@, j) == g1_ser(ps@[j], false),
        decreases ps@.len() - i,
    {
        let ghost prev = out@;
        let mut chunk = ark_g1_to_bytes(&ps[i], false);
        let ghost cb = chunk@;
        out.append(&mut chunk);
        proof {
            assert(out@ == prev + cb);
            assert forall|j: int| 0 <= j < i + 1 implies #[trigger] g1_chunk(out@, j) == g1_ser(
                ps@[j],
                false,
            ) by {
                if j < i {
                    assert(g1_chunk(out@, j) =~= g1_chunk(prev, j));
                } else {
                    assert(g1_chunk(out@, j) =~= cb);
                }
            }
        }
        i = i + 1;
    }
    out
}

// ---------------------------------------------------------------------------
// Proofs.
// ---------------------------------------------------------------------------

/// A byte string is the canonical 384-byte encoding of the given proof:
/// the uncompressed `a`, `b` and `c` components in order.
pub open spec fn proof_ser_ok(b: Seq<u8>, p: crate::Proof) -> bool {
    &&& b.len() == 384
    &&& b.subrange(0, 96) == g1_ser(p.a, false)
    &&& b.subrange(96, 288) == g2_ser(p.b, false)
    &&& b.subrange(288, 384) == g1_ser(p.c, false)
}

/// A 384-byte string whose three components decode.
pub open spec fn proof_bytes_wf(b: Seq<u8>) -> bool {
    &&& b.len() == 384
    &&& g1_dec_ok(b.subrange(0, 96), false)
    &&& g2_dec_ok(b.subrange(96, 288), false)
    &&& g1_dec_ok(b.subrange(288, 384), false)
}

/// The proof a well-formed 384-byte string decodes to.
pub open spec fn proof_dec_spec(b: Seq<u8>) -> crate::Proof {
    (crate::Proof {
        a: g1_dec(b.subrange(0, 96), false),
        b: g2_dec(b.subrange(96, 288), false),
        c: g1_dec(b.subrange(288, 384), false),
    })
}

/// All three components of the decoded proof satisfy their curve equations.
pub open spec fn proof_bytes_on_curve(b: Seq<u8>) -> bool {
    &&& g1_on_curve(g1_dec(b.subrange(0, 96), false))
    &&& g2_on_curve(g2_dec(b.subrange(96, 288), false))
    &&& g1_on_curve(g1_dec(b.subrange(288, 384), false))
}

/// All three components of the decoded proof lie in their subgroups.
pub open spec fn proof_bytes_in_subgroup(b: Seq<u8>) -> bool {
    &&& g1_in_subgroup(g1_dec(b.subrange(0, 96), false))
    &&& g2_in_subgroup(g2_dec(b.subrange(96, 288), false))
    &&& g1_in_subgroup(g1_dec(b.subrange(288, 384), false))
}

/// Encodes a proof canonically: 384 bytes.
pub fn proof_to_bytes(p: &crate::Proof) -> (r: Vec<u8>)
    ensures
        proof_ser_ok(r@, *p),
{
    let mut out = ark_g1_to_bytes(&p.a, false);
    let ghost s0 = out@;
    let mut bb = ark_g2_to_bytes(&p.b, false);
    let ghost s1 = bb@;
    out.append(&mut bb);
    let ghost s01 = out@;
    let mut cc = ark_g1_to_bytes(&p.c, false);
    let ghost s2 = cc@;
    out.append(&mut cc);
    proof {
        assert(out@ == s01 + s2);
        assert(s01 == s0 + s1);
        assert(out@.subrange(0, 96) =~= s0);
        assert(out@.subrange(96, 288) =~= s1);
        assert(out@.subrange(288, 384) =~= s2);
    }
    out
}

/// Decodes a proof from its 384-byte encoding.  With `validate` set, all
/// three components must be on their curves and in their subgroups.
/// Decoding a proof's encoding returns that proof; each failure names its
/// cause.
pub fn proof_from_bytes(b: &[u8], validate: bool) -> (r: Result<crate::Proof, Error>)
    ensures
        r is Ok <==> proof_bytes_wf(b@) && (validate ==> crate::proof_valid(proof_dec_spec(b@))),
        r matches Ok(p) ==> p == proof_dec_spec(b@),
        forall|p: crate::Proof|
            proof_ser_ok(b@, p) && (validate ==> crate::proof_valid(p)) ==> r == Ok::<
                crate::Proof,
                Error,
            >(p),
        r == Err::<crate::Proof, Error>(Error::MalformedEncoding) <==> !proof_bytes_wf(b@),
        r == Err::<crate::Proof, Error>(Error::InvalidPoint) <==> (proof_bytes_wf(b@) && validate
            && !proof_bytes_on_curve(b@)),
        r == Err::<crate::Proof, Error>(Error::NotInSubgroup) <==> (proof_bytes_wf(b@) && validate
            && proof_bytes_on_curve(b@) && !proof_bytes_in_subgroup(b@)),
{
    if b.len() != 384 {
        return Err(Error::MalformedEncoding);
    }
    let sa = vstd::slice::slice_subrange(b, 0, 96);
    let sb = vstd::slice::slice_subrange(b, 96, 288);
    let sc = vstd::slice::slice_subrange(b, 288, 384);
    let a = match ark_g1_from_bytes(sa, false) {
        Some(p) => p,
        None => {
            return Err(Error::MalformedEncoding);
        },
    };
    let bb = match ark_g2_from_bytes(sb, false) {
        Some(p) => p,
        None => {
            return Err(Error::MalformedEncoding);
        },
    };
    let c = match ark_g1_from_bytes(sc, false) {
        Some(p) => p,
        None => {
            return Err(Error::MalformedEncoding);
        },
    };
    if validate {
        let on_curve = ark_g1_on_curve(&a) && ark_g2_on_curve(&bb) && ark_g1_on_curve(&c);
        if !on_curve {
            return Err(Error::InvalidPoint);
        }
        let in_sub = ark_g1_in_subgroup(&a) && ark_g2_in_subgroup(&bb) && ark_g1_in_subgroup(&c);
        if !in_sub {
            return Err(Error::NotInSubgroup);
        }
    }
    Ok(crate::Proof { a, b: bb, c })
}

// ---------------------------------------------------------------------------
// Verifying keys.
// ---------------------------------------------------------------------------

/// The point count an encoded verifying key declares.
pub open spec fn vk_bytes_n(b: Seq<u8>) -> int {
    le_int(b.subrange(672, 680))
}

/// A byte string is the canonical encoding of the given verifying key:
/// the four header points uncompressed, the `gamma_abc` count as eight
/// little-endian bytes, then the `gamma_abc` points uncompressed.
pub open spec fn vk_ser_ok(b: Seq<u8>, vk: crate::VerifyingKey) -> bool {
    let n = vk.gamma_abc_g1@.len() as int;
    &&& b.len() == 680 + 96 * n
    &&& b.subrange(0, 96) == g1_ser(vk.alpha_g1, false)
    &&& b.subrange(96, 288) == g2_ser(vk.beta_g2, false)
    &&& b.subrange(288, 480) == g2_ser(vk.gamma_g2, false)
    &&& b.subrange(480, 672) == g2_ser(vk.delta_g2, false)
    &&& le_int(b.subrange(672, 680)) == n
    &&& forall|i: int|
        0 <= i < n ==> #[trigger] g1_chunk(b.subrange(680, b.len() as int), i) == g1_ser(
            vk.gamma_abc_g1@[i],
            false,
        )
}

/// A well-formed encoded verifying key: consistent length and every
/// component decodable.
pub open spec fn vk_bytes_wf(b: Seq<u8>) -> bool {
    &&& b.len() >= 680
    &&& b.len() == 680 + 96 * vk_bytes_n(b)
    &&& g1_dec_ok(b.subrange(0, 96), false)
    &&& g2_dec_ok(b.subrange(96, 288), false)
    &&& g2_dec_ok(b.subrange(288, 480), false)
    &&& g2_dec_ok(b.subrange(480, 672), false)
    &&& g1_list_ok(b.subrange(680, b.len() as int))
}

/// How the fields of a decoded verifying key relate to its encoding.
pub open spec fn vk_dec_fields(b: Seq<u8>, vk: crate::VerifyingKey) -> bool {
    &&& vk.alpha_g1 == g1_dec(b.subrange(0, 96), false)
    &&& vk.beta_g2 == g2_dec(b.subrange(96, 288), false)
    &&& vk.gamma_g2 == g2_dec(b.subrange(288, 480), false)
    &&& vk.delta_g2 == g2_dec(b.subrange(480, 672), false)
    &&& vk.gamma_abc_g1@.len() == vk_bytes_n(b)
    &&& forall|i: int|
        0 <= i < vk.gamma_abc_g1@.len() ==> #[trigger] vk.gamma_abc_g1@[i] == g1_dec(
            g1_chunk(b.subrange(680, b.len() as int), i),
            false,
        )
}

/// Every point an encoded verifying key holds satisfies its curve equation.
pub open spec fn vk_bytes_on_curve(b: Seq<u8>) -> bool {
    &&& g1_on_curve(g1_dec(b.subrange(0, 96), false))
    &&& g2_on_curve(g2_dec(b.subrange(96, 288), false))
    &&& g2_on_curve(g2_dec(b.subrange(288, 480), false))
    &&& g2_on_curve(g2_dec(b.subrange(480, 672), false))
    &&& forall|i: int|
        0 <= i < vk_bytes_n(b) ==> g1_on_curve(
            g1_dec(#[trigger] g1_chunk(b.subrange(680, b.len() as int), i), false),
        )
}

/// Every point an encoded verifying key holds lies in its subgroup.
pub open spec fn vk_bytes_in_subgroup(b: Seq<u8>) -> bool {
    &&& g1_in_subgroup(g1_dec(b.subrange(0, 96), false))
    &&& g2_in_subgroup(g2_dec(b.subrange(96, 288), false))
    &&& g2_in_subgroup(g2_dec(b.subrange(288, 480), false))
    &&& g2_in_subgroup(g2_dec(b.subrange(480, 672), false))
    &&& forall|i: int|
        0 <= i < vk_bytes_n(b) ==> g1_in_subgroup(
            g1_dec(#[trigger] g1_chunk(b.subrange(680, b.len() as int), i), false),
        )
}

/// Two verifying keys hold the same points.
pub open spec fn vk_eq(a: crate::VerifyingKey, b: crate::VerifyingKey) -> bool {
    &&& a.alpha_g1 == b.alpha_g1
    &&& a.beta_g2 == b.beta_g2
    &&& a.gamma_g2 == b.gamma_g2
    &&& a.delta_g2 == b.delta_g2
    &&& a.gamma_abc_g1@ == b.gamma_abc_g1@
}

/// Encodes a verifying key canonically.
pub fn vk_to_bytes(vk: &crate::VerifyingKey) -> (r: Vec<u8>)
    ensures
        vk_ser_ok(r@, *vk),
{
    let mut out = ark_g1_to_bytes(&vk.alpha_g1, false);
    let ghost s0 = out@;
    let mut piece = ark_g2_to_bytes(&vk.beta_g2, false);
    let ghost s1 = piece@;
    out.append(&mut piece);
    let mut piece = ark_g2_to_bytes(&vk.gamma_g2, false);
    let ghost s2 = piece@;
    out.append(&mut piece);
    let mut piece = ark_g2_to_bytes(&vk.delta_g2, false);
    let ghost s3 = piece@;
    out.append(&mut piece);
    let mut piece = write_u64_le(vk.gamma_abc_g1.len() as u64);
    let ghost s4 = piece@;
    out.append(&mut piece);
    let mut piece = g1s_to_bytes(&vk.gamma_abc_g1);
    let ghost s5 = piece@;
    out.append(&mut piece);
    proof {
        let n = vk.gamma_abc_g1@.len() as int;
        assert(out@ == s0 + s1 + s2 + s3 + s4 + s5);
        assert(out@.subrange(0, 96) =~= s0);
        assert(out@.subrange(96, 288) =~= s1);
        assert(out@.subrange(288, 480) =~= s2);
        assert(out@.subrange(480, 672) =~= s3);
        assert(out@.subrange(672, 680) =~= s4);
        assert(out@.subrange(680, out@.len() as int) =~= s5);
        assert forall|i: int| 0 <= i < n implies #[trigger] g1_chunk(
            out@.subrange(680, out@.len() as int),
            i,
        ) == g1_ser(vk.gamma_abc_g1@[i], false) by {
            assert(g1_chunk(out@.subrange(680, out@.len() as int), i) =~= g1_chunk(s5, i));
        }
    }
    out
}

/// Decodes a verifying key.  With `validate` set, every point must be on
/// its curve and in its subgroup.  Decoding a key's encoding returns a key
/// with the same points; each failure names its cause.
pub fn vk_from_bytes(b: &[u8], validate: bool) -> (r: Result<crate::VerifyingKey, Error>)
    ensures
        r is Ok <==> vk_bytes_wf(b@) && (validate ==> vk_bytes_on_curve(b@)
            && vk_bytes_in_subgroup(b@)),
        r matches Ok(vk) ==> vk_dec_fields(b@, vk) && (validate ==> crate::vk_valid(vk)),
        forall|vk: crate::VerifyingKey|
            #![trigger vk_ser_ok(b@, vk)]
            vk_ser_ok(b@, vk) && (validate ==> crate::vk_valid(vk)) ==> (r is Ok && vk_eq(
                r.unwrap(),
                vk,
            )),
        r == Err::<crate::VerifyingKey, Error>(Error::MalformedEncoding) <==> !vk_bytes_wf(b@),
        r == Err::<crate::VerifyingKey, Error>(Error::InvalidPoint) <==> (vk_bytes_wf(b@)
            && validate && !vk_bytes_on_curve(b@)),
        r == Err::<crate::VerifyingKey, Error>(Error::NotInSubgroup) <==> (vk_bytes_wf(b@)
            && validate && vk_bytes_on_curve(b@) && !vk_bytes_in_subgroup(b@)),
{
    if b.len() < 680 {
        return Err(Error::MalformedEncoding);
    }
    let header_a = vstd::slice::slice_subrange(b, 0, 96);
    let header_b = vstd::slice::slice_subrange(b, 96, 288);
    let header_g = vstd::slice::slice_subrange(b, 288, 480);
    let header_d = vstd::slice::slice_subrange(b, 480, 672);
    let header_n = vstd::slice::slice_subrange(b, 672, 680);
    let alpha = match ark_g1_from_bytes(header_a, false) {
        Some(p) => p,
        None => {
            return Err(Error::MalformedEncoding);
        },
    };
    let beta = match ark_g2_from_bytes(header_b, false) {
        Some(p) => p,
        None => {
            return Err(Error::MalformedEncoding);
        },
    };
    let gamma = match ark_g2_from_bytes(header_g, false) {
        Some(p) => p,
        None => {
            return Err(Error::MalformedEncoding);
        },
    };
    let delta = match ark_g2_from_bytes(header_d, false) {
        Some(p) => p,
        None => {
            return Err(Error::MalformedEncoding);
        },
    };
    let n64 = read_u64_le(header_n);
    let blen: usize = b.len();
    if (blen as u128) != 680u128 + 96u128 * (n64 as u128) {
        return Err(Error::MalformedEncoding);
    }
    let tail = vstd::slice::slice_subrange(b, 680, blen);
    let ghost tail_s = b@.subrange(680, b@.len() as int);
    proof {
        assert((b@.len() - 680) % 96 == 0 && (b@.len() - 680) as int / 96 == n64 as int)
            by (nonlinear_arith)
            requires
                b@.len() == 680 + 96 * (n64 as int),
        ;
    }
    let points = match g1s_from_bytes(tail) {
        Ok(v) => v,
        Err(_) => {
            return Err(Error::MalformedEncoding);
        },
    };
    proof {
        assert(vk_bytes_wf(b@));
        assert(points@.len() == vk_bytes_n(b@));
        assert forall|vkx: crate::VerifyingKey| vk_ser_ok(b@, vkx) implies (vkx.alpha_g1 == alpha
            && vkx.beta_g2 == beta && vkx.gamma_g2 == gamma && vkx.delta_g2 == delta
            && vkx.gamma_abc_g1@ == points@) by {
            assert(vkx.gamma_abc_g1@.len() as int == n64 as int);
            assert(b@.subrange(0, 96) == g1_ser(vkx.alpha_g1, false));
            assert(b@.subrange(96, 288) == g2_ser(vkx.beta_g2, false));
            assert(b@.subrange(288, 480) == g2_ser(vkx.gamma_g2, false));
            assert(b@.subrange(480, 672) == g2_ser(vkx.delta_g2, false));
            assert forall|i: int| 0 <= i < points@.len() implies points@[i]
                == vkx.gamma_abc_g1@[i] by {
                assert(g1_chunk(tail_s, i) == g1_ser(vkx.gamma_abc_g1@[i], false));
            }
            assert(points@ =~= vkx.gamma_abc_g1@);
        }
    }
    if validate {
        let mut on_curve = ark_g1_on_curve(&alpha) && ark_g2_on_curve(&beta) && ark_g2_on_curve(
            &gamma,
        ) && ark_g2_on_curve(&delta);
        let mut in_sub = ark_g1_in_subgroup(&alpha) && ark_g2_in_subgroup(&beta)
            && ark_g2_in_subgroup(&gamma) && ark_g2_in_subgroup(&delta);
        let ghost header_curve = on_curve;
        let ghost header_sub = in_sub;
        let mut i: usize = 0;
        while i < points.len()
            invariant
                0 <= i <= points@.len(),
                on_curve == (header_curve && (forall|j: int|
                    0 <= j < i ==> g1_on_curve(#[trigger] points@[j]))),
                in_sub == (header_sub && (forall|j: int|
                    0 <= j < i ==> g1_in_subgroup(#[trigger] points@[j]))),
            decreases points@.len() - i,
        {
            let pc = ark_g1_on_curve(&points[i]);
            let ps = ark_g1_in_subgroup(&points[i]);
            on_curve = on_curve && pc;
            in_sub = in_sub && ps;
            i = i + 1;
        }
        proof {
            assert forall|j: int| 0 <= j < points@.len() implies (g1_on_curve(
                g1_dec(#[trigger] g1_chunk(tail_s, j), false),
            ) == g1_on_curve(points@[j]) && g1_in_subgroup(g1_dec(g1_chunk(tail_s, j), false))
                == g1_in_subgroup(points@[j])) by {
                assert(points@[j] == g1_dec(g1_chunk(tail_s, j), false));
            }
            assert(on_curve == vk_bytes_on_curve(b@));
            assert(in_sub == vk_bytes_in_subgroup(b@));
        }
        if !on_curve {
            return Err(Error::InvalidPoint);
        }
        if !in_sub {
            return Err(Error::NotInSubgroup);
        }
    }
    Ok(crate::VerifyingKey { alpha_g1: alpha, beta_g2: beta, gamma_g2: gamma, delta_g2: delta, gamma_abc_g1: points })
}

// ---------------------------------------------------------------------------
// Prepared verifying keys.
// ---------------------------------------------------------------------------

/// The point count an encoded prepared verifying key declares.
pub open spec fn pvk_bytes_n(b: Seq<u8>) -> int {
    le_int(b.subrange(960, 968))
}

/// A byte string is the canonical encoding of the given prepared verifying
/// key: the pairing of alpha and beta, the negated gamma and delta, the
/// `gamma_abc` count, then the `gamma_abc` points.
pub open spec fn pvk_ser_ok(b: Seq<u8>, pvk: crate::PreparedVerifyingKey) -> bool {
    let n = pvk.gamma_abc_g1@.len() as int;
    &&& b.len() == 968 + 96 * n
    &&& b.subrange(0, 576) == gt_ser(pvk.alpha_beta)
    &&& b.subrange(576, 768) == g2_ser(pvk.gamma_neg, false)
    &&& b.subrange(768, 960) == g2_ser(pvk.delta_neg, false)
    &&& le_int(b.subrange(960, 968)) == n
    &&& forall|i: int|
        0 <= i < n ==> #[trigger] g1_chunk(b.subrange(968, b.len() as int), i) == g1_ser(
            pvk.gamma_abc_g1@[i],
            false,
        )
}

/// A well-formed encoded prepared verifying key.
pub open spec fn pvk_bytes_wf(b: Seq<u8>) -> bool {
    &&& b.len() >= 968
    &&& b.len() == 968 + 96 * pvk_bytes_n(b)
    &&& gt_dec_ok(b.subrange(0, 576))
    &&& g2_dec_ok(b.subrange(576, 768), false)
    &&& g2_dec_ok(b.subrange(768, 960), false)
    &&& g1_list_ok(b.subrange(968, b.len() as int))
}

/// How the fields of a decoded prepared verifying key relate to its encoding.
pub open spec fn pvk_dec_fields(b: Seq<u8>, pvk: crate::PreparedVerifyingKey) -> bool {
    &&& pvk.alpha_beta == gt_dec(b.subrange(0, 576))
    &&& pvk.gamma_neg == g2_dec(b.subrange(576, 768), false)
    &&& pvk.delta_neg == g2_dec(b.subrange(768, 960), false)
    &&& pvk.gamma_abc_g1@.len() == pvk_bytes_n(b)
    &&& forall|i: int|
        0 <= i < pvk.gamma_abc_g1@.len() ==> #[trigger] pvk.gamma_abc_g1@[i] == g1_dec(
            g1_chunk(b.subrange(968, b.len() as int), i),
            false,
        )
}

/// Every point an encoded prepared verifying key holds satisfies its curve
/// equation.
pub open spec fn pvk_bytes_on_curve(b: Seq<u8>) -> bool {
    &&& g2_on_curve(g2_dec(b.subrange(576, 768), false))
    &&& g2_on_curve(g2_dec(b.subrange(768, 960), false))
    &&& forall|i: int|
        0 <= i < pvk_bytes_n(b) ==> g1_on_curve(
            g1_dec(#[trigger] g1_chunk(b.subrange(968, b.len() as int), i), false),
        )
}

/// Every point an encoded prepared verifying key holds lies in its subgroup.
pub open spec fn pvk_bytes_in_subgroup(b: Seq<u8>) -> bool {
    &&& g2_in_subgroup(g2_dec(b.subrange(576, 768), false))
    &&& g2_in_subgroup(g2_dec(b.subrange(768, 960), false))
    &&& forall|i: int|
        0 <= i < pvk_bytes_n(b) ==> g1_in_subgroup(
            g1_dec(#[trigger] g1_chunk(b.subrange(968, b.len() as int), i), false),
        )
}

/// Two prepared verifying keys hold the same values.
pub open spec fn pvk_eq(a: crate::PreparedVerifyingKey, b: crate::PreparedVerifyingKey) -> bool {
    &&& a.alpha_beta == b.alpha_beta
    &&& a.gamma_neg == b.gamma_neg
    &&& a.delta_neg == b.delta_neg
    &&& a.gamma_abc_g1@ == b.gamma_abc_g1@
}

/// Encodes a prepared verifying key canonically.
pub fn pvk_to_bytes(pvk: &crate::PreparedVerifyingKey) -> (r: Vec<u8>)
    ensures
        pvk_ser_ok(r@, *pvk),
{
    let mut out = ark_gt_to_bytes(&pvk.alpha_beta);
    let ghost s0 = out@;
    let mut piece = ark_g2_to_bytes(&pvk.gamma_neg, false);
    let ghost s1 = piece@;
    out.append(&mut piece);
    let mut piece = ark_g2_to_bytes(&pvk.delta_neg, false);
    let ghost s2 = piece@;
    out.append(&mut piece);
    let mut piece = write_u64_le(pvk.gamma_abc_g1.len() as u64);
    let ghost s3 = piece@;
    out.append(&mut piece);
    let mut piece = g1s_to_bytes(&pvk.gamma_abc_g1);
    let ghost s4 = piece@;
    out.append(&mut piece);
    proof {
        let n = pvk.gamma_abc_g1@.len() as int;
        assert(out@ == s0 + s1 + s2 + s3 + s4);
        assert(out@.subrange(0, 576) =~= s0);
        assert(out@.subrange(576, 768) =~= s1);
        assert(out@.subrange(768, 960) =~= s2);
        assert(out@.subrange(960, 968) =~= s3);
        assert(out@.subrange(968, out@.len() as int) =~= s4);
        assert forall|i: int| 0 <= i < n implies #[trigger] g1_chunk(
            out@.subrange(968, out@.len() as int),
            i,
        ) == g1_ser(pvk.gamma_abc_g1@[i], false) by {
            assert(g1_chunk(out@.subrange(968, out@.len() as int), i) =~= g1_chunk(s4, i));
        }
    }
    out
}

/// Decodes a prepared verifying key.  With `validate` set, every point must
/// be on its curve and in its subgroup.  Decoding a key's encoding returns
/// a key with the same values; each failure names its cause.
pub fn pvk_from_bytes(b: &[u8], validate: bool) -> (r: Result<crate::PreparedVerifyingKey, Error>)
    ensures
        r is Ok <==> pvk_bytes_wf(b@) && (validate ==> pvk_bytes_on_curve(b@)
            && pvk_bytes_in_subgroup(b@)),
        r matches Ok(pvk) ==> pvk_dec_fields(b@, pvk) && (validate ==> crate::pvk_valid(pvk)),
        forall|pvk: crate::PreparedVerifyingKey|
            #![trigger pvk_ser_ok(b@, pvk)]
            pvk_ser_ok(b@, pvk) && (validate ==> crate::pvk_valid(pvk)) ==> (r is Ok && pvk_eq(
                r.unwrap(),
                pvk,
            )),
        r == Err::<crate::PreparedVerifyingKey, Error>(Error::MalformedEncoding) <==>
            !pvk_bytes_wf(b@),
        r == Err::<crate::PreparedVerifyingKey, Error>(Error::InvalidPoint) <==> (pvk_bytes_wf(b@)
            && validate && !pvk_bytes_on_curve(b@)),
        r == Err::<crate::PreparedVerifyingKey, Error>(Error::NotInSubgroup) <==> (pvk_bytes_wf(b@)
            && validate && pvk_bytes_on_curve(b@) && !pvk_bytes_in_subgroup(b@)),
{
    if b.len() < 968 {
        return Err(Error::MalformedEncoding);
    }
    let header_ab = vstd::slice::slice_subrange(b, 0, 576);
    let header_g = vstd::slice::slice_subrange(b, 576, 768);
    let header_d = vstd::slice::slice_subrange(b, 768, 960);
    let header_n = vstd::slice::slice_subrange(b, 960, 968);
    let alpha_beta = match ark_gt_from_bytes(header_ab) {
        Some(x) => x,
        None => {
            return Err(Error::MalformedEncoding);
        },
    };
    let gamma_neg = match ark_g2_from_bytes(header_g, false) {
        Some(p) => p,
        None => {
            return Err(Error::MalformedEncoding);
        },
    };
    let delta_neg = match ark_g2_from_bytes(header_d, false) {
        Some(p) => p,
        None => {
            return Err(Error::MalformedEncoding);
        },
    };
    let n64 = read_u64_le(header_n);
    let blen: usize = b.len();
    if (blen as u128) != 968u128 + 96u128 * (n64 as u128) {
        return Err(Error::MalformedEncoding);
    }
    let tail = vstd::slice::slice_subrange(b, 968, blen);
    let ghost tail_s = b@.subrange(968, b@.len() as int);
    proof {
        assert((b@.len() - 968) % 96 == 0 && (b@.len() - 968) as int / 96 == n64 as int)
            by (nonlinear_arith)
            requires
                b@.len() == 968 + 96 * (n64 as int),
        ;
    }
    let points = match g1s_from_bytes(tail) {
        Ok(v) => v,
        Err(_) => {
            return Err(Error::MalformedEncoding);
        },
    };
    proof {
        assert(pvk_bytes_wf(b@));
        assert(points@.len() == pvk_bytes_n(b@));
        assert forall|pvkx: crate::PreparedVerifyingKey| pvk_ser_ok(b@, pvkx) implies (
        pvkx.alpha_beta == alpha_beta && pvkx.gamma_neg == gamma_neg && pvkx.delta_neg == delta_neg
            && pvkx.gamma_abc_g1@ == points@) by {
            assert(pvkx.gamma_abc_g1@.len() as int == n64 as int);
            assert(b@.subrange(0, 576) == gt_ser(pvkx.alpha_beta));
            assert(b@.subrange(576, 768) == g2_ser(pvkx.gamma_neg, false));
            assert(b@.subrange(768, 960) == g2_ser(pvkx.delta_neg, false));
            assert forall|i: int| 0 <= i < points@.len() implies points@[i]
                == pvkx.gamma_abc_g1@[i] by {
                assert(g1_chunk(tail_s, i) == g1_ser(pvkx.gamma_abc_g1@[i], false));
            }
            assert(points@ =~= pvkx.gamma_abc_g1@);
        }
    }
    if validate {
        let mut on_curve = ark_g2_on_curve(&gamma_neg) && ark_g2_on_curve(&delta_neg);
        let mut in_sub = ark_g2_in_subgroup(&gamma_neg) && ark_g2_in_subgroup(&delta_neg);
        let ghost header_curve = on_curve;
        let ghost header_sub = in_sub;
        let mut i: usize = 0;
        while i < points.len()
            invariant
                0 <= i <= points@.len(),
                on_curve == (header_curve && (forall|j: int|
                    0 <= j < i ==> g1_on_curve(#[trigger] points@[j]))),
                in_sub == (header_sub && (forall|j: int|
                    0 <= j < i ==> g1_in_subgroup(#[trigger] points@[j]))),
            decreases points@.len() - i,
        {
            let pc = ark_g1_on_curve(&points[i]);
            let ps = ark_g1_in_subgroup(&points[i]);
            on_curve = on_curve && pc;
            in_sub = in_sub && ps;
            i = i + 1;
        }
        proof {
            assert forall|j: int| 0 <= j < points@.len() implies (g1_on_curve(
                g1_dec(#[trigger] g1_chunk(tail_s, j), false),
            ) == g1_on_curve(points@[j]) && g1_in_subgroup(g1_dec(g1_chunk(tail_s, j), false))
                == g1_in_subgroup(points@[j])) by {
                assert(points@[j] == g1_dec(g1_chunk(tail_s, j), false));
            }
            assert(on_curve == pvk_bytes_on_curve(b@));
            assert(in_sub == pvk_bytes_in_subgroup(b@));
        }
        if !on_curve {
            return Err(Error::InvalidPoint);
        }
        if !in_sub {
            return Err(Error::NotInSubgroup);
        }
    }
    Ok(crate::PreparedVerifyingKey { alpha_beta, gamma_neg, delta_neg, gamma_abc_g1: points })
}

} // verus!
