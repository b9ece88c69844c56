//! The challenge hash: BLAKE2b-512 under a role's personalization, reduced
//! into the scalar field.

use vstd::prelude::*;

use crate::scalar::le_value;
use crate::scalar::modulus;
use crate::scalar::Scalar;
use crate::SigType;

verus! {

/// The 64 bytes that `blake2b_simd` computes as the BLAKE2b hash of `input`
/// with a hash length of 64 and the given personalization.
pub uninterp spec fn blake2b_512(personalization: Seq<u8>, input: Seq<u8>) -> Seq<u8>;

/// The scalar that a role hashes `input` to: the 512 bits of the hash, read
/// least significant byte first and reduced by the modulus.
pub open spec fn h_star_of<T: SigType>(input: Seq<u8>) -> nat {
    le_value(blake2b_512(T::personalization(), input)) % modulus()
}

/// Hashes the three parts, one after the other, to a scalar of role `T`.
pub fn h_star<T: SigType>(first: &[u8], second: &[u8], third: &[u8]) -> (scalar: Scalar)
    ensures
        scalar@ == h_star_of::<T>(first@ + second@ + third@),
{
    let tag = T::h_star_personalization();
    let digest = blake2b_parts(&tag, first, second, third);
    Scalar::from_bytes_wide(&digest)
}

/// Hashes with `blake2b_simd`: `Params` with a hash length of 64 and the
/// personalization make a `State`, which takes the three parts in with
/// `update` and gives the hash with `finalize`. Taking input in parts hashes
/// the parts joined.
#[verifier::external_body]
fn blake2b_parts(personalization: &[u8; 16], first: &[u8], second: &[u8], third: &[u8]) -> (digest:
    [u8; 64])
    ensures
        digest@ == blake2b_512(personalization@, first@ + second@ + third@),
{
    let mut state = blake2b_simd::Params::new().hash_length(64).personal(personalization).to_state();
    state.update(first);
    state.update(second);
    state.update(third);
    *state.finalize().as_array()
}

} // verus!
