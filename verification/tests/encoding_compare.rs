use half::f16;
use incremental_ma::compare::is_float_zero;
use incremental_ma::pack::{pack_half_2x16, unpack_high, unpack_low};

/// Packs two single-precision values the way the rendering caller does:
/// each converted to binary16 by the half crate, then combined.
fn pack_floats(x: f32, y: f32) -> u32 {
    pack_half_2x16(f16::from_f32(x).to_bits(), f16::from_f32(y).to_bits())
}

#[test]
fn scenario_pack_unit_values() {
    assert_eq!(f16::from_f32(1.0).to_bits(), 0x3C00);
    assert_eq!(f16::from_f32(-1.0).to_bits(), 0xBC00);
    let word = pack_floats(1.0, -1.0);
    assert_eq!(word, 0xBC00_3C00);
    assert_eq!(word & 0xFFFF, 0x3C00);
    assert_eq!(word >> 16, 0xBC00);
}

#[test]
fn pack_round_trip_within_half_precision() {
    let values: [f32; 8] = [1.0, -1.0, 0.5, -2.25, 65504.0, 6.103_515_6e-5, 0.0, 333.0];
    for &x in values.iter() {
        for &y in values.iter() {
            let word = pack_floats(x, y);
            assert_eq!(f16::from_bits(unpack_low(word)).to_f32(), x);
            assert_eq!(f16::from_bits(unpack_high(word)).to_f32(), y);
        }
    }
}

#[test]
fn pack_saturates_beyond_half_range() {
    let word = pack_floats(1.0e9, -1.0e9);
    assert_eq!(f16::from_bits(unpack_low(word)).to_f32(), f32::INFINITY);
    assert_eq!(f16::from_bits(unpack_high(word)).to_f32(), f32::NEG_INFINITY);
}

fn nearly_zero(x: f32, threshold: f32) -> bool {
    is_float_zero(x.to_bits(), threshold.to_bits())
}

fn nearly_equal(x: f32, y: f32, threshold: f32) -> bool {
    nearly_zero(x - y, threshold)
}

#[test]
fn scenario_tolerance_near_zero() {
    assert!(nearly_zero(0.0005, 0.001));
    assert!(!nearly_zero(0.002, 0.001));
}

#[test]
fn equal_values_are_nearly_equal() {
    let values: [f32; 4] = [1.0, -3.5, 12345.678, 0.0];
    let thresholds: [f32; 3] = [0.25, 1.0e-3, 1.0e-30];
    for &a in values.iter() {
        for &t in thresholds.iter() {
            assert!(nearly_equal(a, a, t), "a = {}, t = {}", a, t);
        }
    }
}

#[test]
fn twice_the_tolerance_apart_is_not_nearly_equal() {
    assert!(!nearly_equal(1.0, 1.0 + 2.0 * 0.25, 0.25));
    assert!(!nearly_equal(-4.0, -4.0 + 2.0 * 0.5, 0.5));
    assert!(!nearly_equal(0.0, 0.0625, 0.03125));
}

#[test]
fn negative_values_compare_by_magnitude() {
    assert!(nearly_zero(-0.0005, 0.001));
    assert!(!nearly_zero(-0.002, 0.001));
    assert!(nearly_equal(-1.0, -1.0001, 0.01));
}

#[test]
fn nan_and_non_positive_thresholds_are_never_near() {
    assert!(!nearly_zero(f32::NAN, 1.0));
    assert!(!nearly_zero(0.1, f32::NAN));
    assert!(!nearly_zero(0.0, 0.0));
    assert!(!nearly_zero(0.0, -1.0));
    assert!(!nearly_zero(0.0, -0.0));
}

#[test]
fn infinities_compare_as_values() {
    assert!(!nearly_zero(f32::INFINITY, f32::INFINITY));
    assert!(nearly_zero(1.0e30, f32::INFINITY));
    assert!(!nearly_zero(f32::INFINITY - f32::INFINITY, 0.001));
}
