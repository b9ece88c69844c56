use reddsa::hash::h_star;
use reddsa::orchard;
use reddsa::Scalar;

#[test]
fn h_star_of_three_parts() {
    let expected = [
        213, 107, 57, 18, 98, 181, 99, 87, 184, 35, 167, 209, 4, 83, 85, 5, 112, 18, 200, 192, 125,
        230, 201, 247, 160, 39, 229, 197, 213, 94, 83, 31,
    ];
    assert_eq!(h_star::<orchard::SpendAuth>(b"a", b"b", b"c").to_repr(), expected);
    let expected = [
        54, 28, 213, 141, 123, 213, 178, 134, 39, 47, 107, 221, 124, 25, 237, 30, 243, 130, 102,
        214, 149, 139, 248, 99, 35, 130, 96, 180, 15, 0, 196, 47,
    ];
    assert_eq!(h_star::<orchard::Binding>(b"a", b"b", b"c").to_repr(), expected);
}

#[test]
fn the_roles_hash_the_same_input_apart() {
    assert_ne!(
        h_star::<orchard::SpendAuth>(b"a", b"b", b"c"),
        h_star::<orchard::Binding>(b"a", b"b", b"c")
    );
    assert_ne!(
        h_star::<orchard::SpendAuth>(b"", b"", b""),
        h_star::<orchard::Binding>(b"", b"", b"")
    );
}

#[test]
fn h_star_of_nothing() {
    let expected = [
        14, 20, 132, 17, 22, 12, 128, 243, 163, 153, 99, 150, 244, 102, 161, 31, 132, 32, 252, 191,
        27, 129, 252, 253, 9, 237, 219, 94, 218, 164, 95, 9,
    ];
    assert_eq!(h_star::<orchard::SpendAuth>(b"", b"", b"").to_repr(), expected);
}

#[test]
fn h_star_hashes_the_parts_joined() {
    let joined = h_star::<orchard::SpendAuth>(b"abc", b"", b"");
    assert_eq!(h_star::<orchard::SpendAuth>(b"a", b"b", b"c"), joined);
    assert_eq!(h_star::<orchard::SpendAuth>(b"", b"ab", b"c"), joined);
    assert_ne!(h_star::<orchard::SpendAuth>(b"a", b"c", b"b"), joined);
}

#[test]
fn h_star_is_blake2b_with_the_personalization() {
    let digest = blake2b_simd::Params::new()
        .hash_length(64)
        .personal(b"Zcash_RedPallasH")
        .hash(b"some input");
    let expected = Scalar::from_bytes_wide(digest.as_array());
    assert_eq!(h_star::<orchard::SpendAuth>(b"some", b" ", b"input"), expected);
    let unpersonalized = blake2b_simd::Params::new().hash_length(64).hash(b"some input");
    assert_ne!(Scalar::from_bytes_wide(unpersonalized.as_array()), expected);
    let digest = blake2b_simd::Params::new()
        .hash_length(64)
        .personal(b"Zcash_RedPallasB")
        .hash(b"some input");
    let expected = Scalar::from_bytes_wide(digest.as_array());
    assert_eq!(h_star::<orchard::Binding>(b"some", b" ", b"input"), expected);
}
