use reddsa::Scalar;

const MODULUS: [u8; 32] = [
    1, 0, 0, 0, 33, 235, 70, 140, 221, 168, 148, 9, 252, 152, 70, 34, 0, 0, 0, 0, 0, 0, 0, 0, 0, 0,
    0, 0, 0, 0, 0, 64,
];

const MODULUS_LESS_ONE: [u8; 32] = [
    0, 0, 0, 0, 33, 235, 70, 140, 221, 168, 148, 9, 252, 152, 70, 34, 0, 0, 0, 0, 0, 0, 0, 0, 0, 0,
    0, 0, 0, 0, 0, 64,
];

fn small(n: u8) -> [u8; 32] {
    let mut bytes = [0u8; 32];
    bytes[0] = n;
    bytes
}

#[test]
fn from_repr_accepts_numbers_below_the_modulus() {
    assert_eq!(Scalar::from_repr(small(0)).unwrap().to_repr(), small(0));
    assert_eq!(Scalar::from_repr(small(7)).unwrap().to_repr(), small(7));
    assert_eq!(Scalar::from_repr(MODULUS_LESS_ONE).unwrap().to_repr(), MODULUS_LESS_ONE);
}

#[test]
fn from_repr_rejects_the_modulus_and_above() {
    assert!(Scalar::from_repr(MODULUS).is_none());
    assert!(Scalar::from_repr([0xff; 32]).is_none());
    let mut above = MODULUS;
    above[0] = 2;
    assert!(Scalar::from_repr(above).is_none());
}

#[test]
fn zero_is_zero() {
    assert_eq!(Scalar::zero().to_repr(), [0u8; 32]);
    let seven = Scalar::from_repr(small(7)).unwrap();
    assert_eq!(seven.add(&Scalar::zero()), seven);
    assert_eq!(seven.mul(&Scalar::zero()), Scalar::zero());
}

#[test]
fn add_is_addition_modulo_the_modulus() {
    let two = Scalar::from_repr(small(2)).unwrap();
    let three = Scalar::from_repr(small(3)).unwrap();
    assert_eq!(two.add(&three).to_repr(), small(5));
    let top = Scalar::from_repr(MODULUS_LESS_ONE).unwrap();
    let five = Scalar::from_repr(small(5)).unwrap();
    assert_eq!(top.add(&five).to_repr(), small(4));
}

#[test]
fn mul_is_multiplication_modulo_the_modulus() {
    let two = Scalar::from_repr(small(2)).unwrap();
    let three = Scalar::from_repr(small(3)).unwrap();
    assert_eq!(two.mul(&three).to_repr(), small(6));
    let top = Scalar::from_repr(MODULUS_LESS_ONE).unwrap();
    let five = Scalar::from_repr(small(5)).unwrap();
    // (q - 1) * 5 = q - 5 modulo q
    let expected = [
        252, 255, 255, 255, 32, 235, 70, 140, 221, 168, 148, 9, 252, 152, 70, 34, 0, 0, 0, 0, 0, 0,
        0, 0, 0, 0, 0, 0, 0, 0, 0, 64,
    ];
    assert_eq!(top.mul(&five).to_repr(), expected);
}

#[test]
fn from_bytes_wide_reduces_512_bits() {
    let expected = [
        14, 0, 0, 0, 255, 120, 150, 252, 227, 22, 26, 137, 61, 67, 187, 103, 144, 245, 204, 4, 16,
        35, 174, 127, 169, 218, 207, 124, 175, 65, 109, 9,
    ];
    assert_eq!(Scalar::from_bytes_wide(&[0xff; 64]).to_repr(), expected);
    let mut wide = [0u8; 64];
    wide[0] = 9;
    assert_eq!(Scalar::from_bytes_wide(&wide).to_repr(), small(9));
    let mut pattern = [0u8; 64];
    for i in 0..64 {
        pattern[i] = ((3 * i + 1) % 256) as u8;
    }
    let expected = [
        200, 19, 107, 194, 176, 168, 91, 1, 233, 224, 133, 32, 194, 219, 177, 195, 74, 235, 71, 36,
        125, 74, 213, 91, 220, 79, 89, 142, 24, 92, 1, 34,
    ];
    assert_eq!(Scalar::from_bytes_wide(&pattern).to_repr(), expected);
}

#[test]
fn from_raw_reduces_256_bits() {
    assert_eq!(Scalar::from_raw([5, 0, 0, 0]).to_repr(), small(5));
    let mut shifted = [0u8; 32];
    shifted[8] = 1;
    assert_eq!(Scalar::from_raw([0, 1, 0, 0]).to_repr(), shifted);
    let expected = [
        252, 255, 255, 255, 156, 62, 43, 91, 103, 5, 66, 227, 11, 53, 44, 153, 255, 255, 255, 255,
        255, 255, 255, 255, 255, 255, 255, 255, 255, 255, 255, 63,
    ];
    assert_eq!(Scalar::from_raw([u64::MAX; 4]).to_repr(), expected);
}

#[test]
fn equals_tells_scalars_apart() {
    let two = Scalar::from_repr(small(2)).unwrap();
    let three = Scalar::from_repr(small(3)).unwrap();
    assert!(two.equals(&two));
    assert!(!two.equals(&three));
    assert!(two == two.clone());
    assert!(two != three);
}
