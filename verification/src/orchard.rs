//! Signature roles of the Orchard protocol.

use vstd::prelude::*;
use vstd::string::StringSliceAdditionalSpecFns;
use vstd::utf8::is_ascii_chars_encode_utf8;

use crate::point::hashed_point;
use crate::point::point_decodes;
use crate::point::Point;
use crate::private::Sealed;
use crate::SigType;

verus! {

/// The encoding of the generator of spend authorization signatures.
pub const ORCHARD_SPENDAUTHSIG_BASEPOINT_BYTES: [u8; 32] = [
    99, 201, 117, 184, 132, 114, 26, 141, 12, 161, 112, 123, 227, 12, 127, 12, 95, 68, 95, 62, 124,
    24, 141, 59, 6, 214, 241, 40, 179, 35, 85, 183,
];

/// The encoding of the generator of binding signatures.
pub const ORCHARD_BINDINGSIG_BASEPOINT_BYTES: [u8; 32] = [
    145, 90, 60, 136, 104, 198, 195, 14, 47, 128, 144, 238, 69, 215, 110, 64, 72, 32, 141, 234, 91,
    35, 102, 79, 187, 9, 164, 15, 85, 68, 244, 7,
];

/// The personalization of the challenge hash of spend authorization
/// signatures, `Zcash_RedPallasH`.
pub const ORCHARD_SPENDAUTHSIG_PERSONALIZATION: [u8; 16] = [
    90, 99, 97, 115, 104, 95, 82, 101, 100, 80, 97, 108, 108, 97, 115, 72,
];

/// The personalization of the challenge hash of binding signatures,
/// `Zcash_RedPallasB`.
pub const ORCHARD_BINDINGSIG_PERSONALIZATION: [u8; 16] = [
    90, 99, 97, 115, 104, 95, 82, 101, 100, 80, 97, 108, 108, 97, 115, 66,
];

/// The generator that `pinned` encodes. Where the pinned bytes do not decode,
/// it is the point that the generator is defined as, the hash of `message`
/// under `domain`.
pub open spec fn pinned_or_derived(pinned: Seq<u8>, domain: Seq<char>, message: Seq<u8>) -> Seq<
    u8,
> {
    if point_decodes(pinned) {
        pinned
    } else {
        hashed_point(domain, message)
    }
}

/// Decodes the pinned encoding of a generator, and derives the generator
/// where that fails.
pub fn generator(pinned: &[u8; 32], domain: &str, message: &[u8]) -> (point: Point)
    requires
        domain.spec_bytes().len() < 228,
    ensures
        point@ == pinned_or_derived(pinned@, domain@, message@),
        point.wf(),
{
    match Point::from_bytes(pinned) {
        Some(point) => point,
        None => Point::hash_to_curve(domain, message),
    }
}

/// What a role type holds, so that no value of a role is ever made.
#[derive(Copy, Clone, PartialEq, Eq, Debug)]
pub struct Unmade {
    never: (),
}

/// The role of spend authorization signatures. The type stands for the role
/// only: it has no variant that can be made outside this module, and none is
/// made in it.
#[derive(Copy, Clone, PartialEq, Eq, Debug)]
pub enum SpendAuth {
    #[allow(dead_code)]
    Role(Unmade),
}

impl SigType for SpendAuth {}

impl crate::SpendAuth for SpendAuth {}

/// The role of binding signatures. The type stands for the role only: it has
/// no variant that can be made outside this module, and none is made in it.
#[derive(Copy, Clone, PartialEq, Eq, Debug)]
pub enum Binding {
    #[allow(dead_code)]
    Role(Unmade),
}

impl SigType for Binding {}

impl crate::Binding for Binding {}

impl Sealed for SpendAuth {
    open spec fn personalization() -> Seq<u8> {
        ORCHARD_SPENDAUTHSIG_PERSONALIZATION@
    }

    open spec fn basepoint_encoding() -> Seq<u8> {
        pinned_or_derived(ORCHARD_SPENDAUTHSIG_BASEPOINT_BYTES@, "z.cash:Orchard"@, seq![71u8])
    }

    fn h_star_personalization() -> (tag: [u8; 16]) {
        ORCHARD_SPENDAUTHSIG_PERSONALIZATION
    }

    fn basepoint() -> (generator: Point) {
        let message: [u8; 1] = [71];
        proof {
            reveal_strlit("z.cash:Orchard");
            is_ascii_chars_encode_utf8("z.cash:Orchard"@);
            assert(message@ =~= seq![71u8]);
        }
        self::generator(&ORCHARD_SPENDAUTHSIG_BASEPOINT_BYTES, "z.cash:Orchard", message.as_slice())
    }
}

impl Sealed for Binding {
    open spec fn personalization() -> Seq<u8> {
        ORCHARD_BINDINGSIG_PERSONALIZATION@
    }

    open spec fn basepoint_encoding() -> Seq<u8> {
        pinned_or_derived(ORCHARD_BINDINGSIG_BASEPOINT_BYTES@, "z.cash:Orchard-cv"@, seq![114u8])
    }

    fn h_star_personalization() -> (tag: [u8; 16]) {
        ORCHARD_BINDINGSIG_PERSONALIZATION
    }

    fn basepoint() -> (generator: Point) {
        let message: [u8; 1] = [114];
        proof {
            reveal_strlit("z.cash:Orchard-cv");
            is_ascii_chars_encode_utf8("z.cash:Orchard-cv"@);
            assert(message@ =~= seq![114u8]);
        }
        self::generator(&ORCHARD_BINDINGSIG_BASEPOINT_BYTES, "z.cash:Orchard-cv", message.as_slice())
    }
}

/// The two roles hash under different personalizations.
pub proof fn lemma_personalizations_differ()
    ensures
        SpendAuth::personalization() != Binding::personalization(),
{
    assert(ORCHARD_SPENDAUTHSIG_PERSONALIZATION@[15] == 72);
    assert(ORCHARD_BINDINGSIG_PERSONALIZATION@[15] == 66);
}

/// Where the pinned encodings decode, each role's generator is the point
/// that its pinned encoding holds, and the two roles have different
/// generators.
pub proof fn lemma_generators_are_pinned()
    ensures
        point_decodes(ORCHARD_SPENDAUTHSIG_BASEPOINT_BYTES@) ==> SpendAuth::basepoint_encoding()
            == ORCHARD_SPENDAUTHSIG_BASEPOINT_BYTES@,
        point_decodes(ORCHARD_BINDINGSIG_BASEPOINT_BYTES@) ==> Binding::basepoint_encoding()
            == ORCHARD_BINDINGSIG_BASEPOINT_BYTES@,
        point_decodes(ORCHARD_SPENDAUTHSIG_BASEPOINT_BYTES@) && point_decodes(
            ORCHARD_BINDINGSIG_BASEPOINT_BYTES@,
        ) ==> SpendAuth::basepoint_encoding() != Binding::basepoint_encoding(),
{
    assert(ORCHARD_SPENDAUTHSIG_BASEPOINT_BYTES@[0] == 99);
    assert(ORCHARD_BINDINGSIG_BASEPOINT_BYTES@[0] == 145);
}

/// Where the pinned encoding decodes, bytes decode to the generator of
/// spend authorization signatures exactly when they are the pinned
/// encoding.
pub proof fn lemma_spendauth_generator_decodes_from(bytes: Seq<u8>, decoded: Option<Point>)
    requires
        Point::decodes_to(bytes, decoded),
    ensures
        point_decodes(ORCHARD_SPENDAUTHSIG_BASEPOINT_BYTES@) ==> ((decoded matches Some(point)
            && point@ == SpendAuth::basepoint_encoding()) <==> bytes
            == ORCHARD_SPENDAUTHSIG_BASEPOINT_BYTES@),
{
}

/// Where the pinned encoding decodes, bytes decode to the generator of
/// binding signatures exactly when they are the pinned encoding.
pub proof fn lemma_binding_generator_decodes_from(bytes: Seq<u8>, decoded: Option<Point>)
    requires
        Point::decodes_to(bytes, decoded),
    ensures
        point_decodes(ORCHARD_BINDINGSIG_BASEPOINT_BYTES@) ==> ((decoded matches Some(point)
            && point@ == Binding::basepoint_encoding()) <==> bytes
            == ORCHARD_BINDINGSIG_BASEPOINT_BYTES@),
{
}

} // verus!
