use group::GroupEncoding;
use pasta_curves::arithmetic::CurveExt;
use pasta_curves::pallas;
use reddsa::orchard;
use reddsa::orchard::ORCHARD_BINDINGSIG_BASEPOINT_BYTES;
use reddsa::orchard::ORCHARD_SPENDAUTHSIG_BASEPOINT_BYTES;
use reddsa::Point;
use reddsa::SigningKey;

fn one() -> [u8; 32] {
    let mut bytes = [0u8; 32];
    bytes[0] = 1;
    bytes
}

#[test]
fn orchard_spendauth_basepoint() {
    assert_eq!(
        pallas::Point::hash_to_curve("z.cash:Orchard")(b"G").to_bytes(),
        ORCHARD_SPENDAUTHSIG_BASEPOINT_BYTES
    );
}

#[test]
fn orchard_binding_basepoint() {
    assert_eq!(
        pallas::Point::hash_to_curve("z.cash:Orchard-cv")(b"r").to_bytes(),
        ORCHARD_BINDINGSIG_BASEPOINT_BYTES
    );
}

#[test]
fn spendauth_keys_are_multiples_of_the_pinned_generator() {
    let key = SigningKey::<orchard::SpendAuth>::from_bytes(one()).unwrap();
    assert_eq!(key.verification_key().to_bytes(), ORCHARD_SPENDAUTHSIG_BASEPOINT_BYTES);
}

#[test]
fn binding_keys_are_multiples_of_the_pinned_generator() {
    let key = SigningKey::<orchard::Binding>::from_bytes(one()).unwrap();
    assert_eq!(key.verification_key().to_bytes(), ORCHARD_BINDINGSIG_BASEPOINT_BYTES);
}

#[test]
fn each_role_has_its_own_personalization() {
    assert_eq!(&orchard::ORCHARD_SPENDAUTHSIG_PERSONALIZATION, b"Zcash_RedPallasH");
    assert_eq!(&orchard::ORCHARD_BINDINGSIG_PERSONALIZATION, b"Zcash_RedPallasB");
    assert_ne!(
        orchard::ORCHARD_SPENDAUTHSIG_PERSONALIZATION,
        orchard::ORCHARD_BINDINGSIG_PERSONALIZATION
    );
}

#[test]
fn the_roles_have_different_generators() {
    assert_ne!(ORCHARD_SPENDAUTHSIG_BASEPOINT_BYTES, ORCHARD_BINDINGSIG_BASEPOINT_BYTES);
    let spend = SigningKey::<orchard::SpendAuth>::from_bytes(one()).unwrap();
    let binding = SigningKey::<orchard::Binding>::from_bytes(one()).unwrap();
    assert_ne!(spend.verification_key().to_bytes(), binding.verification_key().to_bytes());
}

#[test]
fn only_the_pinned_bytes_decode_to_the_generator() {
    let generator = Point::from_bytes(&ORCHARD_SPENDAUTHSIG_BASEPOINT_BYTES).unwrap();
    // The same abscissa with the other sign is the opposite point.
    let mut flipped = ORCHARD_SPENDAUTHSIG_BASEPOINT_BYTES;
    flipped[31] ^= 0x80;
    let opposite = Point::from_bytes(&flipped).unwrap();
    assert_ne!(opposite, generator);
    assert_eq!(opposite.to_bytes(), flipped);
    // The abscissa with the modulus of the base field added is refused.
    let unreduced = [
        100, 201, 117, 184, 113, 163, 71, 38, 40, 154, 189, 132, 223, 165, 197, 46, 95, 68, 95,
        62, 124, 24, 141, 59, 6, 214, 241, 40, 179, 35, 85, 247,
    ];
    assert!(Point::from_bytes(&unreduced).is_none());
}

#[test]
fn pinned_bytes_decode_to_the_generator() {
    let spend = orchard::generator(&ORCHARD_SPENDAUTHSIG_BASEPOINT_BYTES, "z.cash:Orchard", b"G");
    assert_eq!(spend.to_bytes(), ORCHARD_SPENDAUTHSIG_BASEPOINT_BYTES);
    let binding =
        orchard::generator(&ORCHARD_BINDINGSIG_BASEPOINT_BYTES, "z.cash:Orchard-cv", b"r");
    assert_eq!(binding.to_bytes(), ORCHARD_BINDINGSIG_BASEPOINT_BYTES);
}

#[test]
fn generator_is_derived_where_the_pin_does_not_decode() {
    // x = 2 is the abscissa of no point of the curve.
    let mut broken = [0u8; 32];
    broken[0] = 2;
    assert!(Point::from_bytes(&broken).is_none());
    let spend = orchard::generator(&broken, "z.cash:Orchard", b"G");
    assert_eq!(spend.to_bytes(), ORCHARD_SPENDAUTHSIG_BASEPOINT_BYTES);
    let binding = orchard::generator(&broken, "z.cash:Orchard-cv", b"r");
    assert_eq!(binding.to_bytes(), ORCHARD_BINDINGSIG_BASEPOINT_BYTES);
}

#[test]
fn hash_to_curve_is_that_of_pallas() {
    let ours = Point::hash_to_curve("z.cash:test", b"Trans rights now!");
    let theirs = pallas::Point::hash_to_curve("z.cash:test")(b"Trans rights now!");
    assert_eq!(ours.to_bytes(), theirs.to_bytes());
    assert_ne!(ours.to_bytes(), Point::hash_to_curve("z.cash:test", b"other").to_bytes());
}
