//! The scalar field of the Pallas group.
//!
//! A scalar is held as its canonical encoding, 32 bytes that spell a number
//! below the modulus with the least significant byte first. The arithmetic is
//! that of `pasta_curves`.

use group::ff::PrimeField;
use pasta_curves::arithmetic::FieldExt;
use pasta_curves::pallas;
use vstd::prelude::*;
use vstd::std_specs::cmp::PartialEqSpecImpl;

use crate::private::SealedScalar;

verus! {

/// The number of elements of the scalar field, which is the order of the
/// Pallas group.
pub open spec fn modulus() -> nat {
    0x40000000000000000000000000000000224698fc0994a8dd8c46eb2100000001nat
}

/// The number that `bytes` spell in base 256, least significant byte first.
pub open spec fn le_value(bytes: Seq<u8>) -> nat
    decreases bytes.len(),
{
    if bytes.len() == 0 {
        0
    } else {
        bytes[0] as nat + 256 * le_value(bytes.drop_first())
    }
}

/// The number that `limbs` spell in base 2^64, least significant limb first.
pub open spec fn limbs_value(limbs: Seq<u64>) -> nat
    decreases limbs.len(),
{
    if limbs.len() == 0 {
        0
    } else {
        limbs[0] as nat + 0x1_0000_0000_0000_0000 * limbs_value(limbs.drop_first())
    }
}

/// Byte strings of one length that spell the same number are the same.
pub proof fn lemma_le_value_injective(a: Seq<u8>, b: Seq<u8>)
    requires
        a.len() == b.len(),
        le_value(a) == le_value(b),
    ensures
        a == b,
    decreases a.len(),
{
    if a.len() > 0 {
        lemma_le_value_injective(a.drop_first(), b.drop_first());
        assert(a[0] == b[0]);
        assert(a =~= seq![a[0]] + a.drop_first());
        assert(b =~= seq![b[0]] + b.drop_first());
    } else {
        assert(a =~= b);
    }
}

/// An element of the scalar field.
#[derive(Clone, Copy, Debug)]
pub struct Scalar {
    pub(crate) repr: [u8; 32],
}

impl PartialEq for Scalar {
    fn eq(&self, other: &Self) -> (same: bool) {
        self.equals(other)
    }
}

impl PartialEqSpecImpl for Scalar {
    open spec fn obeys_eq_spec() -> bool {
        true
    }

    open spec fn eq_spec(&self, other: &Self) -> bool {
        *self == *other
    }
}

impl Eq for Scalar {

}

impl View for Scalar {
    type V = nat;

    /// The number below the modulus that the scalar stands for.
    open(crate) spec fn view(&self) -> nat {
        le_value(self.repr@)
    }
}

impl Scalar {
    /// A scalar stands for a number below the modulus.
    #[verifier::type_invariant]
    pub open spec fn wf(self) -> bool {
        self@ < modulus()
    }

    /// The canonical encoding of the scalar.
    pub open(crate) spec fn encoding(self) -> Seq<u8> {
        self.repr@
    }

    /// The scalar zero.
    pub fn zero() -> (scalar: Scalar)
        ensures
            scalar@ == 0,
    {
        let repr = [0u8; 32];
        proof {
            lemma_le_value_zeros(repr@);
        }
        Scalar { repr }
    }

    /// Decodes a scalar. The bytes are accepted exactly when the number they
    /// spell is below the modulus.
    pub fn from_repr(repr: [u8; 32]) -> (scalar: Option<Scalar>)
        ensures
            scalar is Some <==> le_value(repr@) < modulus(),
            scalar matches Some(s) ==> s.encoding() == repr@ && s@ == le_value(repr@),
    {
        if repr_is_canonical(&repr) {
            Some(Scalar { repr })
        } else {
            None
        }
    }

    /// The scalar of the 512-bit number that `bytes` spell, least significant
    /// byte first.
    pub fn from_bytes_wide(bytes: &[u8; 64]) -> (scalar: Scalar)
        ensures
            scalar@ == le_value(bytes@) % modulus(),
    {
        Scalar { repr: reduce_wide(bytes) }
    }

    /// The scalar of the 256-bit number that `val` spells, least significant
    /// limb first.
    pub fn from_raw(val: [u64; 4]) -> (scalar: Scalar)
        ensures
            scalar@ == limbs_value(val@) % modulus(),
    {
        Scalar { repr: reduce_limbs(val) }
    }

    /// The canonical encoding of the scalar.
    pub fn to_repr(&self) -> (repr: [u8; 32])
        ensures
            repr@ == self.encoding(),
            le_value(repr@) == self@,
    {
        self.repr
    }

    /// The sum of two scalars.
    pub fn add(&self, rhs: &Scalar) -> (sum: Scalar)
        ensures
            sum@ == (self@ + rhs@) % modulus(),
    {
        proof {
            use_type_invariant(self);
            use_type_invariant(rhs);
        }
        Scalar { repr: add_reprs(&self.repr, &rhs.repr) }
    }

    /// The product of two scalars.
    pub fn mul(&self, rhs: &Scalar) -> (product: Scalar)
        ensures
            product@ == (self@ * rhs@) % modulus(),
    {
        proof {
            use_type_invariant(self);
            use_type_invariant(rhs);
        }
        Scalar { repr: mul_reprs(&self.repr, &rhs.repr) }
    }

    /// Whether two scalars are the same element of the field.
    pub fn equals(&self, other: &Scalar) -> (same: bool)
        ensures
            same == (self@ == other@),
            same == (*self == *other),
    {
        let same = crate::bytes::equal_32(&self.repr, &other.repr);
        proof {
            if self@ == other@ {
                lemma_le_value_injective(self.repr@, other.repr@);
            }
            assert(same ==> self.repr =~= other.repr);
        }
        same
    }
}

impl SealedScalar for Scalar {
    open spec fn number(&self) -> nat {
        self@
    }

    open spec fn order() -> nat {
        modulus()
    }

    fn from_bytes_wide(bytes: &[u8; 64]) -> (scalar: Scalar) {
        Scalar::from_bytes_wide(bytes)
    }

    fn from_raw(val: [u64; 4]) -> (scalar: Scalar) {
        Scalar::from_raw(val)
    }
}

proof fn lemma_le_value_zeros(bytes: Seq<u8>)
    requires
        forall|i: int| 0 <= i < bytes.len() ==> bytes[i] == 0,
    ensures
        le_value(bytes) == 0,
    decreases bytes.len(),
{
    if bytes.len() > 0 {
        lemma_le_value_zeros(bytes.drop_first());
    }
}

/// Asks `PrimeField::from_repr` of `pasta_curves::pallas::Scalar` whether it
/// accepts `repr`. It does exactly when the number that the bytes spell is
/// below the modulus.
#[verifier::external_body]
fn repr_is_canonical(repr: &[u8; 32]) -> (canonical: bool)
    ensures
        canonical == (le_value(repr@) < modulus()),
{
    bool::from(pallas::Scalar::from_repr(*repr).is_some())
}

/// Adds two scalars with `Add` of `pasta_curves::pallas::Scalar`, which adds
/// modulo the modulus. Arguments and result are canonical encodings.
#[verifier::external_body]
fn add_reprs(a: &[u8; 32], b: &[u8; 32]) -> (sum: [u8; 32])
    requires
        le_value(a@) < modulus(),
        le_value(b@) < modulus(),
    ensures
        le_value(sum@) == (le_value(a@) + le_value(b@)) % modulus(),
{
    let a = pallas::Scalar::from_repr(*a).unwrap();
    let b = pallas::Scalar::from_repr(*b).unwrap();
    (a + b).to_repr()
}

/// Multiplies two scalars with `Mul` of `pasta_curves::pallas::Scalar`, which
/// multiplies modulo the modulus. Arguments and result are canonical
/// encodings.
#[verifier::external_body]
fn mul_reprs(a: &[u8; 32], b: &[u8; 32]) -> (product: [u8; 32])
    requires
        le_value(a@) < modulus(),
        le_value(b@) < modulus(),
    ensures
        le_value(product@) == (le_value(a@) * le_value(b@)) % modulus(),
{
    let a = pallas::Scalar::from_repr(*a).unwrap();
    let b = pallas::Scalar::from_repr(*b).unwrap();
    (a * b).to_repr()
}

/// Reduces a 512-bit number with `FieldExt::from_bytes_wide` of
/// `pasta_curves::pallas::Scalar`: the result is the canonical encoding of the
/// number that the 64 bytes spell, taken modulo the modulus.
#[verifier::external_body]
fn reduce_wide(bytes: &[u8; 64]) -> (repr: [u8; 32])
    ensures
        le_value(repr@) == le_value(bytes@) % modulus(),
{
    <pallas::Scalar as FieldExt>::from_bytes_wide(bytes).to_repr()
}

/// Reduces a 256-bit number with `pasta_curves::pallas::Scalar::from_raw`: the
/// result is the canonical encoding of the number that the four limbs spell,
/// taken modulo the modulus.
#[verifier::external_body]
fn reduce_limbs(limbs: [u64; 4]) -> (repr: [u8; 32])
    ensures
        le_value(repr@) == limbs_value(limbs@) % modulus(),
{
    pallas::Scalar::from_raw(limbs).to_repr()
}

} // verus!
