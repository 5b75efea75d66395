//! The prime-order group of the protocol: the points and scalars of ed25519
//! as the curve library provides them.
//!
//! Nothing in this module is proved. Points and scalars are opaque values of
//! the curve library. Contracts speak of a point through its canonical
//! 32-byte encoding, by which the library also compares points, and each
//! function below states what the library's operation does to encodings.
//! What is stated rests on the library's own promise that every point it
//! hands out is an element of the group.

use curv_kzen::elliptic::curves::ed25519::{Ed25519Point, Ed25519Scalar, FE, GE};
use curv_kzen::elliptic::curves::traits::{ECPoint, ECScalar};
use vstd::prelude::*;

verus! {

#[verifier::external_type_specification]
#[verifier::external_body]
pub struct ExEd25519Point(Ed25519Point);

#[verifier::external_type_specification]
#[verifier::external_body]
pub struct ExEd25519Scalar(Ed25519Scalar);

/// Number of bytes in the encoding of a point.
pub const ENCODING_LEN: usize = 32;

/// The canonical encoding of a point: the bytes that
/// `ECPoint::get_element` followed by `GeP3::to_bytes` returns for it. Two
/// points are the same group element exactly when their encodings are equal.
pub uninterp spec fn point_bytes(p: GE) -> Seq<u8>;

/// The encoding of the point that `ECPoint::scalar_mul` returns for the point
/// encoded by `p` and the scalar `s`: the point multiplied by the integer
/// that the scalar holds.
pub uninterp spec fn scalar_mul_bytes(p: Seq<u8>, s: FE) -> Seq<u8>;

/// The encoding of the point that `ECPoint::add_point` returns for the points
/// encoded by `p` and `q`.
pub uninterp spec fn add_bytes(p: Seq<u8>, q: Seq<u8>) -> Seq<u8>;

/// The encoding of the point that `ECPoint::sub_point` returns for the points
/// encoded by `p` and `q`.
pub uninterp spec fn sub_bytes(p: Seq<u8>, q: Seq<u8>) -> Seq<u8>;

/// The encoding of the generator: the ed25519 base point, whose second
/// coordinate is 4/5 and whose first coordinate is even.
pub open spec fn generator_bytes() -> Seq<u8> {
    Seq::new(ENCODING_LEN as nat, |i: int| if i == 0 { 0x58u8 } else { 0x66u8 })
}

/// `key` is `base` raised to `s`, and a run of Diffie-Hellman agrees on it:
/// raising `key` to any scalar gives what raising `base` to that scalar and
/// then to `s` gives.
pub open spec fn is_power(key: Seq<u8>, base: Seq<u8>, s: FE) -> bool {
    &&& key == scalar_mul_bytes(base, s)
    &&& forall|t: FE| #[trigger]
        scalar_mul_bytes(key, t) == scalar_mul_bytes(scalar_mul_bytes(base, t), s)
}

/// Calls `ECPoint::generator` for ed25519.
///
/// Trusted: the result is the ed25519 base point, which the library obtains
/// as one times the base point, and `generator_bytes()` is its encoding.
#[verifier::external_body]
pub(crate) fn generator() -> (g: GE)
    ensures
        point_bytes(g) == generator_bytes(),
{
    GE::generator()
}

/// Calls `ECScalar::new_random` for ed25519, which draws from the operating
/// system's random source and panics where there is none.
///
/// Nothing is claimed of the result: two calls may differ.
#[verifier::external_body]
pub(crate) fn random_scalar() -> FE {
    FE::new_random()
}

/// Calls `ECPoint::scalar_mul` through the library's `*` of a point and a
/// scalar.
///
/// Trusted: the library multiplies the point by the integer that the scalar
/// holds and encodes the product anew. So the encoding of the result depends
/// only on the encoding of the point and on the scalar; and multiplying by
/// two scalars in turn gives the same element in either order, the point
/// multiplied by the product of the two integers.
#[verifier::external_body]
pub(crate) fn scalar_mul(p: &GE, s: &FE) -> (r: GE)
    ensures
        point_bytes(r) == scalar_mul_bytes(point_bytes(*p), *s),
        forall|t: FE| #[trigger]
            scalar_mul_bytes(point_bytes(r), t) == scalar_mul_bytes(
                scalar_mul_bytes(point_bytes(*p), t),
                *s,
            ),
{
    *p * *s
}

/// Calls `ECPoint::add_point` through the library's `+` of two points.
///
/// Trusted: the library adds the two elements in the group and encodes the
/// sum anew. So the encoding of the result depends only on the encodings of
/// the two operands; and `ECPoint::sub_point`, which subtracts in the group,
/// gives `q` back when it takes `p` away from the sum.
#[verifier::external_body]
pub(crate) fn point_add(p: &GE, q: &GE) -> (r: GE)
    ensures
        point_bytes(r) == add_bytes(point_bytes(*p), point_bytes(*q)),
        sub_bytes(point_bytes(r), point_bytes(*p)) == point_bytes(*q),
{
    *p + *q
}

/// Calls `ECPoint::sub_point`.
///
/// Trusted: the library subtracts `q` from `p` in the group and encodes the
/// difference anew, so the encoding of the result depends only on the
/// encodings of the two operands.
#[verifier::external_body]
pub(crate) fn point_sub(p: &GE, q: &GE) -> (r: GE)
    ensures
        point_bytes(r) == sub_bytes(point_bytes(*p), point_bytes(*q)),
{
    p.sub_point(&q.get_element())
}

/// Calls `ECPoint::get_element` and `GeP3::to_bytes`.
///
/// Trusted: the result is the canonical encoding of the point, 32 bytes long.
#[verifier::external_body]
pub(crate) fn encode_point(p: &GE) -> (bytes: Vec<u8>)
    ensures
        bytes@ == point_bytes(*p),
        bytes@.len() == ENCODING_LEN,
{
    p.get_element().to_bytes().to_vec()
}

} // verus!
