use dojo_sync::felt::Felt;
use dojo_sync::fixed::{
    decode_felt, decode_fixed, rand_felt_fixed_point, seed_from_draw, Fixed, FIXED_ONE,
    FRACTION_BITS, SEED_BOUND,
};

fn to_f32(fixed: Fixed) -> f32 {
    fixed.whole as f32 + fixed.fraction as f32 / 18_446_744_073_709_551_616.0_f32
}

#[test]
fn fixed_one_is_two_to_the_sixty_four() {
    assert_eq!(FIXED_ONE, 1u128 << FRACTION_BITS);
    assert_eq!(SEED_BOUND, 200);
}

#[test]
fn decode_zero_is_zero() {
    let fixed = decode_fixed(0);
    assert_eq!(fixed, Fixed { whole: 0, fraction: 0 });
    assert_eq!(to_f32(fixed), 0.0);
}

#[test]
fn decode_two_hundred() {
    let fixed = decode_fixed(200 * (1u128 << 64));
    assert_eq!(fixed, Fixed { whole: 200, fraction: 0 });
    assert_eq!(to_f32(fixed), 200.0);
}

#[test]
fn decode_keeps_the_fraction() {
    let fixed = decode_fixed(3u128 << 63);
    assert_eq!(fixed, Fixed { whole: 1, fraction: 1 << 63 });
    assert_eq!(to_f32(fixed), 1.5);
}

#[test]
fn decode_the_largest_number() {
    let fixed = decode_fixed(u128::MAX);
    assert_eq!(fixed, Fixed { whole: u64::MAX, fraction: u64::MAX });
}

#[test]
fn encode_undoes_decode() {
    for raw in [0u128, 1, (1 << 64) - 1, 1 << 64, 200 << 64, (7 << 64) + 5, u128::MAX] {
        assert_eq!(decode_fixed(raw).encode(), raw);
    }
}

#[test]
fn decode_felt_takes_what_fits_in_128_bits() {
    assert_eq!(
        decode_felt(&Felt::from_u128(200 << 64)),
        Some(Fixed { whole: 200, fraction: 0 })
    );
    let mut bytes = [0u8; 32];
    bytes[15] = 1;
    assert_eq!(decode_felt(&Felt::from_bytes_be(bytes)), None);
}

#[test]
fn seed_is_the_draw_reduced_and_shifted() {
    assert_eq!(seed_from_draw(0), Felt::zero());
    assert_eq!(seed_from_draw(12_345), Felt::from_u128(145 << 64));
    assert_eq!(seed_from_draw(199), Felt::from_u128(199 << 64));
    assert_eq!(seed_from_draw(200), Felt::zero());
    assert_eq!(seed_from_draw(u128::MAX), Felt::from_u128((u128::MAX % 200) << 64));
}

#[test]
fn random_seeds_are_whole_and_below_the_bound() {
    for _ in 0..500 {
        let fixed = decode_felt(&rand_felt_fixed_point()).unwrap();
        assert_eq!(fixed.fraction, 0);
        assert!(fixed.whole < 200);
    }
}

#[test]
fn random_seeds_are_not_all_the_same() {
    let first = rand_felt_fixed_point();
    assert!((0..500).any(|_| rand_felt_fixed_point() != first));
}
