//! What a signature role rests on. The traits here are public so that the
//! role traits can name them, and the module is not, so that no role can be
//! added from outside.

use vstd::prelude::*;

use crate::point::Point;
use crate::scalar::le_value;
use crate::scalar::limbs_value;

verus! {

/// How a scalar field takes in numbers that may exceed its modulus.
pub trait SealedScalar: Sized {
    /// The number that a scalar stands for.
    spec fn number(&self) -> nat;

    /// The modulus of the field.
    spec fn order() -> nat;

    /// The scalar of the 512-bit number that `bytes` spell, least significant
    /// byte first.
    fn from_bytes_wide(bytes: &[u8; 64]) -> (scalar: Self)
        ensures
            scalar.number() == le_value(bytes@) % Self::order(),
    ;

    /// The scalar of the 256-bit number that `val` spells, least significant
    /// limb first.
    fn from_raw(val: [u64; 4]) -> (scalar: Self)
        ensures
            scalar.number() == limbs_value(val@) % Self::order(),
    ;
}

/// The parameters of a signature role: the personalization of its challenge
/// hash and the generator of the group that its keys are multiples of.
pub trait Sealed: Sized {
    /// The personalization of the challenge hash.
    spec fn personalization() -> Seq<u8>;

    /// The encoding of the generator.
    spec fn basepoint_encoding() -> Seq<u8>;

    /// The personalization of the challenge hash.
    fn h_star_personalization() -> (tag: [u8; 16])
        ensures
            tag@ == Self::personalization(),
    ;

    /// The generator.
    fn basepoint() -> (generator: Point)
        ensures
            generator@ == Self::basepoint_encoding(),
            generator.wf(),
    ;
}

} // verus!
