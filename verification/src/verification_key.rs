//! Verification keys, as unchecked bytes and as points of the group.

use core::marker::PhantomData;
use vstd::prelude::*;
use vstd::std_specs::cmp::PartialEqSpecImpl;
use vstd::std_specs::convert::FromSpecImpl;
use vstd::std_specs::convert::TryFromSpecImpl;

use crate::error::Error;
use crate::hash::h_star;
use crate::hash::h_star_of;
use crate::point::is_point;
use crate::point::point_decodes;
use crate::point::point_multiple;
use crate::point::point_sum;
use crate::point::Point;
use crate::scalar::le_value;
use crate::scalar::modulus;
use crate::scalar::Scalar;
use crate::signature::Signature;
use crate::Randomizer;
use crate::SigType;

verus! {

/// The challenge of role `T` for a commitment, a verification key and a
/// message: the three hashed one after the other.
pub open spec fn challenge_of<T: SigType>(
    commitment: Seq<u8>,
    key: Seq<u8>,
    message: Seq<u8>,
) -> nat {
    h_star_of::<T>(commitment + key + message)
}

/// Whether a signature holds under the key encoded by `key` for the given
/// challenge: commitment and response decode, and the generator times the
/// response is the commitment plus the key times the challenge.
pub open spec fn equation_holds<T: SigType>(
    key: Seq<u8>,
    commitment: Seq<u8>,
    response: Seq<u8>,
    challenge: nat,
) -> bool {
    &&& point_decodes(commitment)
    &&& le_value(response) < modulus()
    &&& point_multiple(T::basepoint_encoding(), le_value(response)) == point_sum(
        commitment,
        point_multiple(key, challenge),
    )
}

/// The 32 bytes of a verification key of role `T`, as they were received.
/// Nothing is known of them until they are turned into a
/// [`VerificationKey`].
#[derive(Debug)]
pub struct VerificationKeyBytes<T: SigType> {
    pub(crate) bytes: [u8; 32],
    pub(crate) _marker: PhantomData<T>,
}

impl<T: SigType> Clone for VerificationKeyBytes<T> {
    fn clone(&self) -> (copy: Self)
        ensures
            copy == *self,
    {
        VerificationKeyBytes { bytes: self.bytes, _marker: PhantomData }
    }
}

impl<T: SigType> Copy for VerificationKeyBytes<T> {

}

impl<T: SigType> PartialEq for VerificationKeyBytes<T> {
    fn eq(&self, other: &Self) -> (same: bool) {
        self.equals(other)
    }
}

impl<T: SigType> PartialEqSpecImpl for VerificationKeyBytes<T> {
    open spec fn obeys_eq_spec() -> bool {
        true
    }

    open spec fn eq_spec(&self, other: &Self) -> bool {
        *self == *other
    }
}

impl<T: SigType> Eq for VerificationKeyBytes<T> {

}

impl<T: SigType> From<[u8; 32]> for VerificationKeyBytes<T> {
    fn from(bytes: [u8; 32]) -> (key: VerificationKeyBytes<T>)
        ensures
            key@ == bytes@,
    {
        VerificationKeyBytes { bytes, _marker: PhantomData }
    }
}

impl<T: SigType> FromSpecImpl<[u8; 32]> for VerificationKeyBytes<T> {
    open spec fn obeys_from_spec() -> bool {
        true
    }

    open(crate) spec fn from_spec(bytes: [u8; 32]) -> VerificationKeyBytes<T> {
        VerificationKeyBytes { bytes, _marker: PhantomData }
    }
}

impl<T: SigType> From<VerificationKeyBytes<T>> for [u8; 32] {
    fn from(key: VerificationKeyBytes<T>) -> (bytes: [u8; 32])
        ensures
            bytes@ == key@,
    {
        key.bytes
    }
}

impl<T: SigType> FromSpecImpl<VerificationKeyBytes<T>> for [u8; 32] {
    open spec fn obeys_from_spec() -> bool {
        true
    }

    open(crate) spec fn from_spec(key: VerificationKeyBytes<T>) -> [u8; 32] {
        key.bytes
    }
}

impl<T: SigType> View for VerificationKeyBytes<T> {
    type V = Seq<u8>;

    /// The bytes.
    open(crate) spec fn view(&self) -> Seq<u8> {
        self.bytes@
    }
}

impl<T: SigType> VerificationKeyBytes<T> {
    /// Takes 32 bytes as they are.
    pub fn from_bytes(bytes: [u8; 32]) -> (key: VerificationKeyBytes<T>)
        ensures
            key@ == bytes@,
    {
        VerificationKeyBytes { bytes, _marker: PhantomData }
    }

    /// The 32 bytes.
    pub fn to_bytes(&self) -> (bytes: [u8; 32])
        ensures
            bytes@ == self@,
    {
        self.bytes
    }

    /// Whether two keys hold the same bytes.
    pub fn equals(&self, other: &VerificationKeyBytes<T>) -> (same: bool)
        ensures
            same == (self@ == other@),
            same == (*self == *other),
    {
        let same = crate::bytes::equal_32(&self.bytes, &other.bytes);
        proof {
            assert(same ==> self.bytes =~= other.bytes);
        }
        same
    }
}

/// A verification key of role `T`: a point of the group.
#[derive(Debug)]
pub struct VerificationKey<T: SigType> {
    pub(crate) point: Point,
    pub(crate) _marker: PhantomData<T>,
}

impl<T: SigType> Clone for VerificationKey<T> {
    fn clone(&self) -> (copy: Self)
        ensures
            copy == *self,
    {
        VerificationKey { point: self.point, _marker: PhantomData }
    }
}

impl<T: SigType> Copy for VerificationKey<T> {

}

impl<T: SigType> PartialEq for VerificationKey<T> {
    fn eq(&self, other: &Self) -> (same: bool) {
        self.equals(other)
    }
}

impl<T: SigType> PartialEqSpecImpl for VerificationKey<T> {
    open spec fn obeys_eq_spec() -> bool {
        true
    }

    open spec fn eq_spec(&self, other: &Self) -> bool {
        *self == *other
    }
}

impl<T: SigType> Eq for VerificationKey<T> {

}

impl<T: SigType> From<VerificationKey<T>> for VerificationKeyBytes<T> {
    fn from(key: VerificationKey<T>) -> (bytes: VerificationKeyBytes<T>)
        ensures
            bytes@ == key@,
    {
        let bytes = VerificationKeyBytes { bytes: key.point.to_bytes(), _marker: PhantomData };
        proof {
            assert(bytes.bytes =~= key.point.bytes);
        }
        bytes
    }
}

impl<T: SigType> FromSpecImpl<VerificationKey<T>> for VerificationKeyBytes<T> {
    open spec fn obeys_from_spec() -> bool {
        true
    }

    open(crate) spec fn from_spec(key: VerificationKey<T>) -> VerificationKeyBytes<T> {
        VerificationKeyBytes { bytes: key.point.bytes, _marker: PhantomData }
    }
}

impl<T: SigType> From<VerificationKey<T>> for [u8; 32] {
    fn from(key: VerificationKey<T>) -> (bytes: [u8; 32])
        ensures
            bytes@ == key@,
    {
        let bytes = key.point.to_bytes();
        proof {
            assert(bytes =~= key.point.bytes);
        }
        bytes
    }
}

impl<T: SigType> FromSpecImpl<VerificationKey<T>> for [u8; 32] {
    open spec fn obeys_from_spec() -> bool {
        true
    }

    open(crate) spec fn from_spec(key: VerificationKey<T>) -> [u8; 32] {
        key.point.bytes
    }
}

impl<T: SigType> TryFrom<VerificationKeyBytes<T>> for VerificationKey<T> {
    type Error = Error;

    fn try_from(bytes: VerificationKeyBytes<T>) -> (decoded: Result<VerificationKey<T>, Error>)
        ensures
            Self::decodes_to(bytes@, decoded),
    {
        VerificationKey::from_bytes(bytes.bytes)
    }
}

impl<T: SigType> TryFromSpecImpl<VerificationKeyBytes<T>> for VerificationKey<T> {
    open spec fn obeys_try_from_spec() -> bool {
        true
    }

    open spec fn try_from_spec(bytes: VerificationKeyBytes<T>) -> Result<VerificationKey<T>, Error> {
        VerificationKey::decoded(bytes@)
    }
}

impl<T: SigType> TryFrom<[u8; 32]> for VerificationKey<T> {
    type Error = Error;

    fn try_from(bytes: [u8; 32]) -> (decoded: Result<VerificationKey<T>, Error>)
        ensures
            Self::decodes_to(bytes@, decoded),
    {
        VerificationKey::from_bytes(bytes)
    }
}

impl<T: SigType> TryFromSpecImpl<[u8; 32]> for VerificationKey<T> {
    open spec fn obeys_try_from_spec() -> bool {
        true
    }

    open spec fn try_from_spec(bytes: [u8; 32]) -> Result<VerificationKey<T>, Error> {
        VerificationKey::decoded(bytes@)
    }
}

impl<T: SigType> View for VerificationKey<T> {
    type V = Seq<u8>;

    /// The canonical encoding of the key.
    open(crate) spec fn view(&self) -> Seq<u8> {
        self.point@
    }
}

impl<T: SigType> VerificationKey<T> {
    /// A verification key holds the encoding of an element of the group.
    pub open spec fn wf(self) -> bool {
        is_point(self@)
    }

    /// What decoding `bytes` gives: the key with that encoding where the
    /// bytes are the canonical encoding of a point, and
    /// [`Error::MalformedVerificationKey`] where they are not.
    pub open spec fn decodes_to(bytes: Seq<u8>, decoded: Result<VerificationKey<T>, Error>) -> bool {
        match decoded {
            Ok(key) => point_decodes(bytes) && key.wf() && key@ == bytes,
            Err(error) => !point_decodes(bytes) && error == Error::MalformedVerificationKey,
        }
    }

    /// The result of decoding `bytes`.
    pub open spec fn decoded(bytes: Seq<u8>) -> Result<VerificationKey<T>, Error> {
        choose|decoded: Result<VerificationKey<T>, Error>| Self::decodes_to(bytes, decoded)
    }

    /// Decoding has one result.
    pub proof fn lemma_decoded(bytes: Seq<u8>, decoded: Result<VerificationKey<T>, Error>)
        requires
            Self::decodes_to(bytes, decoded),
        ensures
            decoded == Self::decoded(bytes),
    {
        let other = Self::decoded(bytes);
        assert(Self::decodes_to(bytes, other));
        if decoded is Ok {
            assert(decoded->Ok_0.point.bytes =~= other->Ok_0.point.bytes);
        }
    }

    /// Whether the key accepts `signature` for the given challenge.
    pub open spec fn accepts_prehashed(self, signature: Signature<T>, challenge: nat) -> bool {
        equation_holds::<T>(self@, signature.commitment(), signature.response(), challenge)
    }

    /// Whether the key accepts `signature` on `message`.
    pub open spec fn accepts(self, message: Seq<u8>, signature: Signature<T>) -> bool {
        self.accepts_prehashed(
            signature,
            challenge_of::<T>(signature.commitment(), self@, message),
        )
    }

    /// The encoding of the key re-randomized: the key plus the generator
    /// times the randomizer.
    pub open spec fn randomized(self, randomizer: nat) -> Seq<u8> {
        point_sum(self@, point_multiple(T::basepoint_encoding(), randomizer))
    }

    /// Validates 32 bytes as a key.
    pub fn from_bytes(bytes: [u8; 32]) -> (decoded: Result<VerificationKey<T>, Error>)
        ensures
            Self::decodes_to(bytes@, decoded),
            decoded == Self::decoded(bytes@),
    {
        match Point::from_bytes(&bytes) {
            Some(point) => {
                let key = VerificationKey { point, _marker: PhantomData };
                proof {
                    Self::lemma_decoded(bytes@, Ok(key));
                }
                Ok(key)
            },
            None => {
                proof {
                    Self::lemma_decoded(bytes@, Err(Error::MalformedVerificationKey));
                }
                Err(Error::MalformedVerificationKey)
            },
        }
    }

    /// The canonical encoding of the key.
    pub fn to_bytes(&self) -> (bytes: [u8; 32])
        ensures
            bytes@ == self@,
    {
        self.point.to_bytes()
    }

    /// The key of the secret scalar `secret`: the generator times the scalar.
    pub fn from_scalar(secret: &Scalar) -> (key: VerificationKey<T>)
        ensures
            key@ == point_multiple(T::basepoint_encoding(), secret@),
            key.wf(),
            is_point(T::basepoint_encoding()),
    {
        let point = T::basepoint().mul(secret);
        VerificationKey { point, _marker: PhantomData }
    }

    /// Re-randomizes the key by adding the generator times `randomizer`.
    pub fn randomize(&self, randomizer: &Randomizer) -> (key: VerificationKey<T>)
        ensures
            key@ == self.randomized(randomizer@),
            key.wf(),
    {
        let point = self.point.add(&T::basepoint().mul(randomizer));
        VerificationKey { point, _marker: PhantomData }
    }

    /// Verifies `signature` on `message`.
    pub fn verify(&self, message: &[u8], signature: &Signature<T>) -> (verdict: Result<(), Error>)
        ensures
            verdict is Ok <==> self.accepts(message@, *signature),
            verdict is Err ==> verdict == Err::<(), Error>(Error::InvalidSignature),
    {
        let key_bytes = self.point.to_bytes();
        let challenge = h_star::<T>(
            signature.r_bytes.as_slice(),
            key_bytes.as_slice(),
            message,
        );
        self.verify_prehashed(signature, &challenge)
    }

    /// Verifies `signature` for a challenge that was hashed before: the
    /// generator times the response has to be the commitment plus the key
    /// times the challenge.
    pub fn verify_prehashed(&self, signature: &Signature<T>, challenge: &Scalar) -> (verdict: Result<
        (),
        Error,
    >)
        ensures
            verdict is Ok <==> self.accepts_prehashed(*signature, challenge@),
            verdict is Err ==> verdict == Err::<(), Error>(Error::InvalidSignature),
    {
        let commitment = match Point::from_bytes(&signature.r_bytes) {
            Some(point) => point,
            None => {
                return Err(Error::InvalidSignature);
            },
        };
        let response = match Scalar::from_repr(signature.s_bytes) {
            Some(scalar) => scalar,
            None => {
                return Err(Error::InvalidSignature);
            },
        };
        let left = T::basepoint().mul(&response);
        let right = commitment.add(&self.point.mul(challenge));
        if left.equals(&right) {
            Ok(())
        } else {
            Err(Error::InvalidSignature)
        }
    }

    /// Whether two keys are the same point.
    pub fn equals(&self, other: &VerificationKey<T>) -> (same: bool)
        ensures
            same == (self@ == other@),
            same == (*self == *other),
    {
        self.point.equals(&other.point)
    }

    /// Validating the bytes of a key gives the key back.
    pub proof fn lemma_round_trip(self, decoded: Result<VerificationKey<T>, Error>)
        requires
            self.wf(),
            Self::decodes_to(self@, decoded),
        ensures
            decoded == Ok::<VerificationKey<T>, Error>(self),
    {
        let key = decoded->Ok_0;
        assert(key.point.bytes =~= self.point.bytes);
    }
}

} // verus!
