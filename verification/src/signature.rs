//! Signatures and their encoding.

use core::marker::PhantomData;
use vstd::prelude::*;
use vstd::std_specs::cmp::PartialEqSpecImpl;
use vstd::std_specs::convert::FromSpecImpl;

use crate::SigType;

verus! {

/// A signature of role `T`: the encoding of a commitment point followed by
/// the encoding of a response scalar. Neither part is checked before the
/// signature is verified.
#[derive(Debug)]
pub struct Signature<T: SigType> {
    pub(crate) r_bytes: [u8; 32],
    pub(crate) s_bytes: [u8; 32],
    pub(crate) _marker: PhantomData<T>,
}

impl<T: SigType> Clone for Signature<T> {
    fn clone(&self) -> (copy: Self)
        ensures
            copy == *self,
    {
        Signature { r_bytes: self.r_bytes, s_bytes: self.s_bytes, _marker: PhantomData }
    }
}

impl<T: SigType> Copy for Signature<T> {

}

impl<T: SigType> PartialEq for Signature<T> {
    fn eq(&self, other: &Self) -> (same: bool) {
        self.equals(other)
    }
}

impl<T: SigType> PartialEqSpecImpl for Signature<T> {
    open spec fn obeys_eq_spec() -> bool {
        true
    }

    open spec fn eq_spec(&self, other: &Self) -> bool {
        *self == *other
    }
}

impl<T: SigType> Eq for Signature<T> {

}

impl<T: SigType> From<[u8; 64]> for Signature<T> {
    fn from(bytes: [u8; 64]) -> (signature: Signature<T>)
        ensures
            signature.encoding() == bytes@,
    {
        let signature = Signature::from_bytes(bytes);
        proof {
            Self::lemma_same_encoding(Self::decoded(bytes@), signature);
        }
        signature
    }
}

impl<T: SigType> FromSpecImpl<[u8; 64]> for Signature<T> {
    open spec fn obeys_from_spec() -> bool {
        true
    }

    open spec fn from_spec(bytes: [u8; 64]) -> Signature<T> {
        Signature::decoded(bytes@)
    }
}

impl<T: SigType> From<Signature<T>> for [u8; 64] {
    fn from(signature: Signature<T>) -> (bytes: [u8; 64])
        ensures
            bytes@ == signature.encoding(),
    {
        let bytes = signature.to_bytes();
        proof {
            assert(bytes =~= signature.encoded());
        }
        bytes
    }
}

impl<T: SigType> FromSpecImpl<Signature<T>> for [u8; 64] {
    open spec fn obeys_from_spec() -> bool {
        true
    }

    open spec fn from_spec(signature: Signature<T>) -> [u8; 64] {
        signature.encoded()
    }
}

impl<T: SigType> Signature<T> {
    /// The encoding of the commitment.
    pub open(crate) spec fn commitment(self) -> Seq<u8> {
        self.r_bytes@
    }

    /// The encoding of the response.
    pub open(crate) spec fn response(self) -> Seq<u8> {
        self.s_bytes@
    }

    /// The 64 bytes of the signature: commitment, then response.
    pub open spec fn encoding(self) -> Seq<u8> {
        self.commitment() + self.response()
    }

    /// The signature that 64 bytes split into.
    pub open spec fn decoded(bytes: Seq<u8>) -> Signature<T> {
        choose|signature: Signature<T>| signature.encoding() == bytes
    }

    /// The encoding as an array.
    pub open spec fn encoded(self) -> [u8; 64] {
        choose|bytes: [u8; 64]| bytes@ == self.encoding()
    }

    /// Splits 64 bytes into commitment and response.
    pub fn from_bytes(bytes: [u8; 64]) -> (signature: Signature<T>)
        ensures
            signature.commitment() == bytes@.subrange(0, 32),
            signature.response() == bytes@.subrange(32, 64),
            signature.encoding() == bytes@,
    {
        let mut r_bytes = [0u8; 32];
        let mut s_bytes = [0u8; 32];
        let mut i: usize = 0;
        while i < 32
            invariant
                i <= 32,
                forall|j: int| 0 <= j < i ==> r_bytes@[j] == bytes@[j],
                forall|j: int| 0 <= j < i ==> s_bytes@[j] == bytes@[32 + j],
            decreases 32 - i,
        {
            r_bytes[i] = bytes[i];
            s_bytes[i] = bytes[32 + i];
            i += 1;
        }
        proof {
            assert(r_bytes@ =~= bytes@.subrange(0, 32));
            assert(s_bytes@ =~= bytes@.subrange(32, 64));
            assert(r_bytes@ + s_bytes@ =~= bytes@);
        }
        Signature { r_bytes, s_bytes, _marker: PhantomData }
    }

    /// Joins commitment and response into 64 bytes.
    pub fn to_bytes(&self) -> (bytes: [u8; 64])
        ensures
            bytes@ == self.encoding(),
    {
        let mut bytes = [0u8; 64];
        let mut i: usize = 0;
        while i < 32
            invariant
                i <= 32,
                forall|j: int| 0 <= j < i ==> bytes@[j] == self.r_bytes@[j],
                forall|j: int| 0 <= j < i ==> bytes@[32 + j] == self.s_bytes@[j],
            decreases 32 - i,
        {
            bytes[i] = self.r_bytes[i];
            bytes[32 + i] = self.s_bytes[i];
            i += 1;
        }
        proof {
            assert(bytes@ =~= self.r_bytes@ + self.s_bytes@);
        }
        bytes
    }

    /// Whether two signatures hold the same bytes.
    pub fn equals(&self, other: &Signature<T>) -> (same: bool)
        ensures
            same == (self.encoding() == other.encoding()),
            same == (*self == *other),
    {
        let same = crate::bytes::equal_32(&self.r_bytes, &other.r_bytes) && crate::bytes::equal_32(
            &self.s_bytes,
            &other.s_bytes,
        );
        proof {
            Self::lemma_same_encoding(*self, *other);
        }
        same
    }

    /// Signatures with the same 64 bytes are the same signature.
    pub proof fn lemma_same_encoding(a: Signature<T>, b: Signature<T>)
        ensures
            a.encoding() == b.encoding() <==> a == b,
    {
        if a.encoding() == b.encoding() {
            assert(a.r_bytes@ =~= a.encoding().subrange(0, 32));
            assert(b.r_bytes@ =~= b.encoding().subrange(0, 32));
            assert(a.s_bytes@ =~= a.encoding().subrange(32, 64));
            assert(b.s_bytes@ =~= b.encoding().subrange(32, 64));
            assert(a.r_bytes =~= b.r_bytes);
            assert(a.s_bytes =~= b.s_bytes);
        }
    }
}

} // verus!
