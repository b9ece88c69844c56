//! The ways in which decoding a key or checking a signature can fail.

use vstd::prelude::*;

verus! {

/// An error related to keys and signatures.
#[derive(Debug, Copy, Clone, PartialEq, Eq, Structural)]
pub enum Error {
    /// The encoding of a signing key was malformed.
    MalformedSigningKey,
    /// The encoding of a verification key was malformed.
    MalformedVerificationKey,
    /// Signature verification failed.
    InvalidSignature,
}

impl Error {
    /// The text that describes each error.
    pub open spec fn message_text(self) -> Seq<char> {
        match self {
            Error::MalformedSigningKey => "Malformed signing key encoding."@,
            Error::MalformedVerificationKey => "Malformed verification key encoding."@,
            Error::InvalidSignature => "Invalid signature."@,
        }
    }

    /// A human-readable description of the error.
    pub fn message(&self) -> (text: &'static str)
        ensures
            text@ == self.message_text(),
    {
        match self {
            Error::MalformedSigningKey => "Malformed signing key encoding.",
            Error::MalformedVerificationKey => "Malformed verification key encoding.",
            Error::InvalidSignature => "Invalid signature.",
        }
    }
}

} // verus!
