//! Signing keys: generation, encoding, signing and re-randomization.

use vstd::arithmetic::div_mod::lemma_add_mod_noop_right;
use vstd::prelude::*;
use vstd::std_specs::convert::FromSpecImpl;
use vstd::std_specs::convert::TryFromSpecImpl;

use crate::error::Error;
use crate::hash::h_star;
use crate::hash::h_star_of;
use crate::point::is_point;
use crate::point::point_multiple;
use crate::point::point_sum;
use crate::scalar::le_value;
use crate::scalar::lemma_le_value_injective;
use crate::scalar::modulus;
use crate::scalar::Scalar;
use crate::signature::Signature;
use crate::verification_key::challenge_of;
use crate::verification_key::VerificationKey;
use crate::Randomizer;
use crate::SigType;

verus! {

/// The nonce of role `T` for the random bytes of one signature, a
/// verification key and a message: the three hashed one after the other.
pub open spec fn nonce_of<T: SigType>(random: Seq<u8>, key: Seq<u8>, message: Seq<u8>) -> nat {
    h_star_of::<T>(random + key + message)
}

/// The commitment of a signature: the generator times the nonce.
pub open spec fn commitment_of<T: SigType>(nonce: nat) -> Seq<u8> {
    point_multiple(T::basepoint_encoding(), nonce)
}

/// The response of a signature: the nonce plus the challenge times the
/// secret scalar.
pub open spec fn response_of(secret: nat, nonce: nat, challenge: nat) -> nat {
    (nonce + challenge * secret) % modulus()
}

/// A signing key of role `T`: a secret scalar, with the verification key that
/// belongs to it.
#[derive(Debug)]
pub struct SigningKey<T: SigType> {
    pub(crate) sk: Scalar,
    pub(crate) pk: VerificationKey<T>,
}

impl<T: SigType> Clone for SigningKey<T> {
    fn clone(&self) -> (copy: Self)
        ensures
            copy == *self,
    {
        proof {
            use_type_invariant(self);
        }
        SigningKey { sk: self.sk, pk: self.pk }
    }
}

impl<T: SigType> Copy for SigningKey<T> {

}

impl<T: SigType> TryFrom<[u8; 32]> for SigningKey<T> {
    type Error = Error;

    fn try_from(bytes: [u8; 32]) -> (decoded: Result<SigningKey<T>, Error>)
        ensures
            Self::decodes_to(bytes@, decoded),
    {
        SigningKey::from_bytes(bytes)
    }
}

impl<T: SigType> TryFromSpecImpl<[u8; 32]> for SigningKey<T> {
    open spec fn obeys_try_from_spec() -> bool {
        true
    }

    open spec fn try_from_spec(bytes: [u8; 32]) -> Result<SigningKey<T>, Error> {
        SigningKey::decoded(bytes@)
    }
}

impl<T: SigType> From<SigningKey<T>> for [u8; 32] {
    fn from(key: SigningKey<T>) -> (bytes: [u8; 32])
        ensures
            bytes@ == key.encoding(),
            le_value(bytes@) == key@,
    {
        let bytes = key.sk.to_repr();
        proof {
            assert(bytes =~= key.sk.repr);
        }
        bytes
    }
}

impl<T: SigType> FromSpecImpl<SigningKey<T>> for [u8; 32] {
    open spec fn obeys_from_spec() -> bool {
        true
    }

    open(crate) spec fn from_spec(key: SigningKey<T>) -> [u8; 32] {
        key.sk.repr
    }
}

impl<'a, T: SigType> From<&'a SigningKey<T>> for VerificationKey<T> {
    fn from(key: &'a SigningKey<T>) -> (verification_key: VerificationKey<T>)
        ensures
            verification_key@ == point_multiple(T::basepoint_encoding(), key@),
            verification_key.wf(),
    {
        key.verification_key()
    }
}

impl<'a, T: SigType> FromSpecImpl<&'a SigningKey<T>> for VerificationKey<T> {
    open spec fn obeys_from_spec() -> bool {
        true
    }

    open spec fn from_spec(key: &'a SigningKey<T>) -> VerificationKey<T> {
        key.verification_key_of()
    }
}

impl<T: SigType> View for SigningKey<T> {
    type V = nat;

    /// The secret scalar.
    open(crate) spec fn view(&self) -> nat {
        self.sk@
    }
}

impl<T: SigType> SigningKey<T> {
    /// The secret scalar is below the modulus, and the verification key is
    /// the generator times the secret scalar.
    #[verifier::type_invariant]
    pub open spec fn wf(self) -> bool {
        &&& self@ < modulus()
        &&& is_point(T::basepoint_encoding())
        &&& self.verification_key_of().wf()
        &&& self.verification_key_of()@ == point_multiple(T::basepoint_encoding(), self@)
    }

    /// The verification key that belongs to the key.
    pub open(crate) spec fn verification_key_of(self) -> VerificationKey<T> {
        self.pk
    }

    /// The canonical encoding of the secret scalar.
    pub open(crate) spec fn encoding(self) -> Seq<u8> {
        self.sk.encoding()
    }

    /// What decoding `bytes` gives: the key with that encoding where the
    /// bytes spell a number below the modulus, and
    /// [`Error::MalformedSigningKey`] where they do not.
    pub open spec fn decodes_to(bytes: Seq<u8>, decoded: Result<SigningKey<T>, Error>) -> bool {
        match decoded {
            Ok(key) => {
                &&& le_value(bytes) < modulus()
                &&& key.wf()
                &&& key.encoding() == bytes
                &&& key@ == le_value(bytes)
            },
            Err(error) => le_value(bytes) >= modulus() && error == Error::MalformedSigningKey,
        }
    }

    /// The result of decoding `bytes`.
    pub open spec fn decoded(bytes: Seq<u8>) -> Result<SigningKey<T>, Error> {
        choose|decoded: Result<SigningKey<T>, Error>| Self::decodes_to(bytes, decoded)
    }

    /// Decoding has one result.
    pub proof fn lemma_decoded(bytes: Seq<u8>, decoded: Result<SigningKey<T>, Error>)
        requires
            Self::decodes_to(bytes, decoded),
        ensures
            decoded == Self::decoded(bytes),
    {
        let other = Self::decoded(bytes);
        assert(Self::decodes_to(bytes, other));
        if decoded is Ok {
            decoded->Ok_0.lemma_same_secret(other->Ok_0);
        }
    }

    /// Whether `signature` is what the key signs `message` with, given the
    /// random bytes of the signature.
    pub open spec fn signs(self, random: Seq<u8>, message: Seq<u8>, signature: Signature<T>) -> bool {
        let key = self.verification_key_of()@;
        let nonce = nonce_of::<T>(random, key, message);
        let challenge = challenge_of::<T>(commitment_of::<T>(nonce), key, message);
        &&& signature.commitment() == commitment_of::<T>(nonce)
        &&& le_value(signature.response()) == response_of(self@, nonce, challenge)
    }

    /// Makes a key from 64 random bytes, which are reduced to its secret
    /// scalar.
    pub fn generate(random: &[u8; 64]) -> (key: SigningKey<T>)
        ensures
            key@ == le_value(random@) % modulus(),
            key.wf(),
    {
        let sk = Scalar::from_bytes_wide(random);
        let pk = VerificationKey::from_scalar(&sk);
        SigningKey { sk, pk }
    }

    /// Decodes a key from the encoding of its secret scalar.
    pub fn from_bytes(bytes: [u8; 32]) -> (decoded: Result<SigningKey<T>, Error>)
        ensures
            Self::decodes_to(bytes@, decoded),
            decoded == Self::decoded(bytes@),
    {
        let decoded = match Scalar::from_repr(bytes) {
            Some(sk) => {
                let pk = VerificationKey::from_scalar(&sk);
                Ok(SigningKey { sk, pk })
            },
            None => Err(Error::MalformedSigningKey),
        };
        proof {
            Self::lemma_decoded(bytes@, decoded);
        }
        decoded
    }

    /// The canonical encoding of the secret scalar.
    pub fn to_bytes(&self) -> (bytes: [u8; 32])
        ensures
            bytes@ == self.encoding(),
            le_value(bytes@) == self@,
    {
        self.sk.to_repr()
    }

    /// The verification key that belongs to the key.
    pub fn verification_key(&self) -> (key: VerificationKey<T>)
        ensures
            key == self.verification_key_of(),
            key@ == point_multiple(T::basepoint_encoding(), self@),
            key.wf(),
    {
        proof {
            use_type_invariant(self);
        }
        self.pk
    }

    /// The response to `challenge` under `nonce`: the nonce plus the
    /// challenge times the secret scalar.
    pub fn respond(&self, nonce: &Scalar, challenge: &Scalar) -> (response: Scalar)
        ensures
            response@ == response_of(self@, nonce@, challenge@),
    {
        let product = challenge.mul(&self.sk);
        let response = nonce.add(&product);
        proof {
            lemma_add_mod_noop_right(
                nonce@ as int,
                (challenge@ * self@) as int,
                modulus() as int,
            );
        }
        response
    }

    /// Signs `message`. The 80 bytes of `random` have to be fresh and
    /// uniformly random for every signature, since two signatures under one
    /// nonce give the secret scalar away.
    pub fn sign(&self, random: &[u8; 80], message: &[u8]) -> (signature: Signature<T>)
        ensures
            self.signs(random@, message@, signature),
            self.verification_key_of().accepts(message@, signature),
    {
        let key_bytes = self.pk.to_bytes();
        let nonce = h_star::<T>(random.as_slice(), key_bytes.as_slice(), message);
        let commitment = T::basepoint().mul(&nonce).to_bytes();
        let challenge = h_star::<T>(commitment.as_slice(), key_bytes.as_slice(), message);
        let response = self.respond(&nonce, &challenge);
        let signature = Signature {
            r_bytes: commitment,
            s_bytes: response.to_repr(),
            _marker: core::marker::PhantomData,
        };
        proof {
            use_type_invariant(self);
            self.lemma_signed_is_accepted(random@, message@, signature);
        }
        signature
    }

    /// Re-randomizes the key by adding `randomizer` to its secret scalar.
    pub fn randomize(&self, randomizer: &Randomizer) -> (key: SigningKey<T>)
        ensures
            key@ == (self@ + randomizer@) % modulus(),
            key.wf(),
    {
        let sk = self.sk.add(randomizer);
        let pk = VerificationKey::from_scalar(&sk);
        SigningKey { sk, pk }
    }

    /// Decoding the encoding of a key gives the key back.
    pub proof fn lemma_round_trip(self, decoded: Result<SigningKey<T>, Error>)
        requires
            self.wf(),
            Self::decodes_to(self.encoding(), decoded),
        ensures
            decoded == Ok::<SigningKey<T>, Error>(self),
    {
        let key = decoded->Ok_0;
        assert(key.sk.repr =~= self.sk.repr);
        assert(key.pk.point.bytes =~= self.pk.point.bytes);
    }

    /// Two keys with the same secret scalar are the same key.
    pub proof fn lemma_same_secret(self, other: SigningKey<T>)
        requires
            self.wf(),
            other.wf(),
            self@ == other@,
        ensures
            self == other,
    {
        lemma_le_value_injective(self.sk.repr@, other.sk.repr@);
        assert(self.sk.repr =~= other.sk.repr);
        assert(self.pk.point.bytes =~= other.pk.point.bytes);
    }

    /// What a key signs, its verification key accepts: for every message and
    /// whatever the random bytes of the signature were.
    pub proof fn lemma_signed_is_accepted(
        self,
        random: Seq<u8>,
        message: Seq<u8>,
        signature: Signature<T>,
    )
        requires
            self.wf(),
            self.signs(random, message, signature),
        ensures
            self.verification_key_of().accepts(message, signature),
    {
        self.lemma_signed_by_another(self, random, message, signature);
    }

    /// Re-randomizing commutes with taking the verification key: the
    /// verification key of the re-randomized signing key is the re-randomized
    /// verification key.
    pub proof fn lemma_randomize_commutes(self, randomizer: nat, randomized: SigningKey<T>)
        requires
            self.wf(),
            randomized.wf(),
            randomizer < modulus(),
            randomized@ == (self@ + randomizer) % modulus(),
        ensures
            randomized.verification_key_of()@ == self.verification_key_of().randomized(randomizer),
    {
    }

    /// When a key accepts what another key of the role has signed: exactly
    /// when the generator times the response is the generator times the
    /// response that the accepting key's own secret scalar gives under the
    /// same nonce and under the challenge hashed with the accepting key. So
    /// the key that was not re-randomized rejects what the re-randomized key
    /// signs unless the two responses meet.
    pub proof fn lemma_signed_by_another(
        self,
        signer: SigningKey<T>,
        random: Seq<u8>,
        message: Seq<u8>,
        signature: Signature<T>,
    )
        requires
            self.wf(),
            signer.wf(),
            signer.signs(random, message, signature),
        ensures
            self.verification_key_of().accepts(message, signature) <==> point_multiple(
                T::basepoint_encoding(),
                le_value(signature.response()),
            ) == point_multiple(
                T::basepoint_encoding(),
                response_of(
                    self@,
                    nonce_of::<T>(random, signer.verification_key_of()@, message),
                    challenge_of::<T>(
                        signature.commitment(),
                        self.verification_key_of()@,
                        message,
                    ),
                ),
            ),
    {
        let q = modulus();
        let g = T::basepoint_encoding();
        let key = self.verification_key_of()@;
        let nonce = nonce_of::<T>(random, signer.verification_key_of()@, message);
        let challenge = challenge_of::<T>(signature.commitment(), key, message);
        let product = (self@ * challenge) % q;
        assert(self@ * challenge == challenge * self@) by (nonlinear_arith);
        assert(point_multiple(key, challenge) == point_multiple(g, product));
        assert(point_sum(point_multiple(g, nonce), point_multiple(g, product)) == point_multiple(
            g,
            (nonce + product) % q,
        ));
        lemma_add_mod_noop_right(nonce as int, (challenge * self@) as int, q as int);
    }

    /// What a re-randomized key signs, the verification key re-randomized by
    /// the same randomizer accepts.
    pub proof fn lemma_randomized_signed_is_accepted(
        self,
        randomizer: nat,
        randomized: SigningKey<T>,
        randomized_key: VerificationKey<T>,
        random: Seq<u8>,
        message: Seq<u8>,
        signature: Signature<T>,
    )
        requires
            self.wf(),
            randomized.wf(),
            randomizer < modulus(),
            randomized@ == (self@ + randomizer) % modulus(),
            randomized_key@ == self.verification_key_of().randomized(randomizer),
            randomized.signs(random, message, signature),
        ensures
            randomized_key.accepts(message, signature),
    {
        self.lemma_randomize_commutes(randomizer, randomized);
        randomized.lemma_signed_is_accepted(random, message, signature);
    }
}

} // verus!
