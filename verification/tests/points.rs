use group::ff::PrimeField;
use group::Group;
use group::GroupEncoding;
use pasta_curves::pallas;
use reddsa::orchard::ORCHARD_SPENDAUTHSIG_BASEPOINT_BYTES;
use reddsa::Point;
use reddsa::Scalar;

const TWICE_SPENDAUTH: [u8; 32] = [
    5, 171, 73, 228, 127, 181, 97, 125, 109, 150, 221, 94, 215, 59, 156, 65, 87, 106, 200, 21, 202,
    71, 247, 127, 106, 87, 201, 186, 88, 0, 234, 136,
];

fn small(n: u8) -> Scalar {
    let mut bytes = [0u8; 32];
    bytes[0] = n;
    Scalar::from_repr(bytes).unwrap()
}

fn generator() -> Point {
    Point::from_bytes(&ORCHARD_SPENDAUTHSIG_BASEPOINT_BYTES).unwrap()
}

fn identity() -> Point {
    Point::from_bytes(&pallas::Point::identity().to_bytes()).unwrap()
}

#[test]
fn identity_is_encoded_as_zeros() {
    assert_eq!(identity().to_bytes(), [0u8; 32]);
}

#[test]
fn from_bytes_accepts_canonical_encodings() {
    assert_eq!(generator().to_bytes(), ORCHARD_SPENDAUTHSIG_BASEPOINT_BYTES);
    assert_eq!(Point::from_bytes(&[0u8; 32]).unwrap(), identity());
}

#[test]
fn from_bytes_rejects_what_is_no_encoding() {
    // No point has the abscissa 2.
    let mut off_curve = [0u8; 32];
    off_curve[0] = 2;
    assert!(Point::from_bytes(&off_curve).is_none());
    // An abscissa that is not below the modulus of the base field.
    assert!(Point::from_bytes(&[0xff; 32]).is_none());
    // The identity with the sign bit set.
    let mut signed_zero = [0u8; 32];
    signed_zero[31] = 0x80;
    assert!(Point::from_bytes(&signed_zero).is_none());
}

#[test]
fn add_is_the_sum_of_the_group() {
    let g = generator();
    assert_eq!(g.add(&g).to_bytes(), TWICE_SPENDAUTH);
    assert_eq!(g.add(&identity()), g);
    let theirs = pallas::Point::from_bytes(&ORCHARD_SPENDAUTHSIG_BASEPOINT_BYTES).unwrap();
    assert_eq!(g.add(&g).add(&g).to_bytes(), (theirs + theirs + theirs).to_bytes());
}

#[test]
fn mul_is_the_multiple_of_the_group() {
    let g = generator();
    assert_eq!(g.mul(&small(2)).to_bytes(), TWICE_SPENDAUTH);
    assert_eq!(g.mul(&small(1)), g);
    assert_eq!(g.mul(&Scalar::zero()), identity());
    let theirs = pallas::Point::from_bytes(&ORCHARD_SPENDAUTHSIG_BASEPOINT_BYTES).unwrap();
    let k = pallas::Scalar::from_repr(small(77).to_repr()).unwrap();
    assert_eq!(g.mul(&small(77)).to_bytes(), (theirs * k).to_bytes());
}

#[test]
fn multiples_add_up() {
    let g = generator();
    let left = g.mul(&small(20)).add(&g.mul(&small(22)));
    assert_eq!(left, g.mul(&small(42)));
    assert_eq!(g.mul(&small(6)).mul(&small(7)), g.mul(&small(42)));
}

#[test]
fn equals_tells_points_apart() {
    let g = generator();
    assert!(g.equals(&g));
    assert!(!g.equals(&identity()));
    assert!(g != g.add(&g));
}
