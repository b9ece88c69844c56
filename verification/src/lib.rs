//! Schnorr-style signatures over the Pallas group, with re-randomizable keys.
//!
//! A signature belongs to one of two roles, spend authorization or binding.
//! The roles share the signing and verification algorithm and differ in the
//! generator of the group and in the personalization of the challenge hash.

use vstd::prelude::*;

pub mod bytes;
pub mod error;
pub mod hash;
pub mod orchard;
pub mod point;
mod private;
pub mod scalar;
pub mod signature;
pub mod signing_key;
pub mod verification_key;

pub use error::Error;
pub use point::Point;
pub use scalar::Scalar;
pub use signature::Signature;
pub use signing_key::SigningKey;
pub use verification_key::VerificationKey;
pub use verification_key::VerificationKeyBytes;

verus! {

/// An element of the scalar field by which a key is re-randomized.
pub type Randomizer = Scalar;

/// A signature role. A role fixes the generator of the group and the
/// personalization of the challenge hash; the set of roles is closed.
pub trait SigType: private::Sealed {

}

/// A role of binding signatures.
pub trait Binding: SigType {

}

/// A role of spend authorization signatures.
pub trait SpendAuth: SigType {

}

} // verus!
