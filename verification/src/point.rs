//! The Pallas group.
//!
//! A point is held as its canonical encoding of 32 bytes. The group
//! operations are those of `pasta_curves`; what they return is named here,
//! and what this library knows of the names is gathered in [`is_point`].

use group::GroupEncoding;
use group::ff::PrimeField;
use pasta_curves::arithmetic::CurveExt;
use pasta_curves::pallas;
use vstd::prelude::*;
use vstd::string::StringSliceAdditionalSpecFns;
use vstd::std_specs::cmp::PartialEqSpecImpl;

use crate::scalar::le_value;
use crate::scalar::modulus;
use crate::scalar::Scalar;

verus! {

/// Whether `GroupEncoding::from_bytes` of `pasta_curves::pallas::Point`
/// accepts `encoding`.
pub uninterp spec fn point_decodes(encoding: Seq<u8>) -> bool;

/// The encoding of the point that `pasta_curves` computes as the point
/// encoded by `encoding` times the scalar `k`.
pub uninterp spec fn point_multiple(encoding: Seq<u8>, k: nat) -> Seq<u8>;

/// The encoding of the point that `pasta_curves` computes as the sum of the
/// points encoded by `p` and by `q`.
pub uninterp spec fn point_sum(p: Seq<u8>, q: Seq<u8>) -> Seq<u8>;

/// The encoding of the point that `CurveExt::hash_to_curve` of
/// `pasta_curves::pallas::Point` derives from a domain and a message.
pub uninterp spec fn hashed_point(domain: Seq<char>, message: Seq<u8>) -> Seq<u8>;

/// What holds of the encoding `p` of every element of the group: it has 32
/// bytes and decodes, its multiples decode, and, the group having as many
/// elements as the scalar field, taking multiples of it turns sums and
/// products of scalars into sums and multiples of points.
pub open spec fn is_point(p: Seq<u8>) -> bool {
    &&& p.len() == 32
    &&& point_decodes(p)
    &&& forall|k: nat| k < modulus() ==> point_decodes(#[trigger] point_multiple(p, k))
    &&& forall|a: nat, b: nat|
        a < modulus() && b < modulus() ==> #[trigger] point_sum(
            point_multiple(p, a),
            point_multiple(p, b),
        ) == point_multiple(p, (a + b) % modulus())
    &&& forall|a: nat, b: nat|
        a < modulus() && b < modulus() ==> #[trigger] point_multiple(point_multiple(p, a), b)
            == point_multiple(p, (a * b) % modulus())
}

/// An element of the Pallas group.
#[derive(Clone, Copy, Debug)]
pub struct Point {
    pub(crate) bytes: [u8; 32],
}

impl PartialEq for Point {
    fn eq(&self, other: &Self) -> (same: bool) {
        self.equals(other)
    }
}

impl PartialEqSpecImpl for Point {
    open spec fn obeys_eq_spec() -> bool {
        true
    }

    open spec fn eq_spec(&self, other: &Self) -> bool {
        *self == *other
    }
}

impl Eq for Point {

}

impl View for Point {
    type V = Seq<u8>;

    /// The canonical encoding of the point.
    open(crate) spec fn view(&self) -> Seq<u8> {
        self.bytes@
    }
}

impl Point {
    /// A point holds the encoding of an element of the group.
    #[verifier::type_invariant]
    pub open spec fn wf(self) -> bool {
        is_point(self@)
    }

    /// What decoding `bytes` gives: the point with that encoding where the
    /// bytes are the canonical encoding of an element of the group, and
    /// nothing where they are not.
    pub open spec fn decodes_to(bytes: Seq<u8>, decoded: Option<Point>) -> bool {
        match decoded {
            Some(point) => point_decodes(bytes) && point.wf() && point@ == bytes,
            None => !point_decodes(bytes),
        }
    }

    /// Decodes a point. The bytes are accepted exactly when they are the
    /// canonical encoding of an element of the group.
    pub fn from_bytes(bytes: &[u8; 32]) -> (point: Option<Point>)
        ensures
            Self::decodes_to(bytes@, point),
    {
        if encoding_decodes(bytes) {
            Some(Point { bytes: *bytes })
        } else {
            None
        }
    }

    /// The canonical encoding of the point.
    pub fn to_bytes(&self) -> (bytes: [u8; 32])
        ensures
            bytes@ == self@,
    {
        self.bytes
    }

    /// The point that `domain` and `message` are hashed to. The domain has
    /// to take fewer than 228 bytes.
    pub fn hash_to_curve(domain: &str, message: &[u8]) -> (point: Point)
        requires
            domain.spec_bytes().len() < 228,
        ensures
            point@ == hashed_point(domain@, message@),
            point.wf(),
    {
        Point { bytes: hash_to_encoding(domain, message) }
    }

    /// The sum of two points.
    pub fn add(&self, rhs: &Point) -> (sum: Point)
        ensures
            sum@ == point_sum(self@, rhs@),
            sum.wf(),
    {
        proof {
            use_type_invariant(self);
            use_type_invariant(rhs);
        }
        Point { bytes: add_encoded(&self.bytes, &rhs.bytes) }
    }

    /// The point times a scalar.
    pub fn mul(&self, scalar: &Scalar) -> (product: Point)
        ensures
            product@ == point_multiple(self@, scalar@),
            product.wf(),
    {
        proof {
            use_type_invariant(self);
            use_type_invariant(scalar);
        }
        Point { bytes: multiply_encoded(&self.bytes, &scalar.repr) }
    }

    /// Whether two points are the same element of the group.
    pub fn equals(&self, other: &Point) -> (same: bool)
        ensures
            same == (self@ == other@),
            same == (*self == *other),
    {
        let same = crate::bytes::equal_32(&self.bytes, &other.bytes);
        proof {
            assert(same ==> self.bytes =~= other.bytes);
        }
        same
    }
}

/// Asks `GroupEncoding::from_bytes` of `pasta_curves::pallas::Point` whether
/// it accepts `bytes`. What it accepts is the encoding of an element of the
/// group, of which the group laws of [`is_point`] hold.
#[verifier::external_body]
fn encoding_decodes(bytes: &[u8; 32]) -> (decodes: bool)
    ensures
        decodes == point_decodes(bytes@),
        decodes ==> is_point(bytes@),
{
    bool::from(pallas::Point::from_bytes(bytes).is_some())
}

/// Adds two points with `Add` of `pasta_curves::pallas::Point`. Arguments and
/// result are encodings; the result is that of an element of the group.
#[verifier::external_body]
fn add_encoded(p: &[u8; 32], q: &[u8; 32]) -> (sum: [u8; 32])
    requires
        point_decodes(p@),
        point_decodes(q@),
    ensures
        sum@ == point_sum(p@, q@),
        is_point(sum@),
{
    let p = pallas::Point::from_bytes(p).unwrap();
    let q = pallas::Point::from_bytes(q).unwrap();
    (p + q).to_bytes()
}

/// Multiplies a point by a scalar with `Mul` of
/// `pasta_curves::pallas::Point`. The point and the result are encodings, the
/// scalar is its canonical encoding; the result is that of an element of the
/// group.
#[verifier::external_body]
fn multiply_encoded(p: &[u8; 32], k: &[u8; 32]) -> (product: [u8; 32])
    requires
        point_decodes(p@),
        le_value(k@) < modulus(),
    ensures
        product@ == point_multiple(p@, le_value(k@)),
        is_point(product@),
{
    let p = pallas::Point::from_bytes(p).unwrap();
    let k = pallas::Scalar::from_repr(*k).unwrap();
    (p * k).to_bytes()
}

/// Hashes to the group with `CurveExt::hash_to_curve` of
/// `pasta_curves::pallas::Point`, which refuses a domain of 228 bytes or
/// more. The result is the encoding of an element of the group.
#[verifier::external_body]
fn hash_to_encoding(domain: &str, message: &[u8]) -> (bytes: [u8; 32])
    requires
        domain.spec_bytes().len() < 228,
    ensures
        bytes@ == hashed_point(domain@, message@),
        is_point(bytes@),
{
    pallas::Point::hash_to_curve(domain)(message).to_bytes()
}

} // verus!
