use agb_fixnum::Num;
use dino_runner::fixnum::wrap_to_i32;
use dino_runner::fixnum::Number;
use dino_runner::fixnum::Vector2D;

const SAMPLES: [i32; 15] = [
    0, 1, -1, 255, 256, 257, -255, -256, -257, 870, 20992, 61440, -8192, -8193, 1_000_000,
];

#[test]
fn new_scales_by_256() {
    assert_eq!(Number::new(0).to_raw(), 0);
    assert_eq!(Number::new(5).to_raw(), 1280);
    assert_eq!(Number::new(-3).to_raw(), -768);
    assert_eq!(Number::new(240).to_raw(), 61440);
    assert_eq!(Number::new(8_388_607).to_raw(), 2_147_483_392);
    assert_eq!(Number::new(-8_388_608).to_raw(), i32::MIN);
}

#[test]
fn new_drops_the_bits_beyond_24() {
    assert_eq!(Number::new(8_388_608).to_raw(), i32::MIN);
    assert_eq!(Number::new(0x0100_0005).to_raw(), 1280);
    assert_eq!(Number::new(i32::MIN).to_raw(), 0);
}

#[test]
fn from_raw_and_to_raw_are_inverse() {
    for raw in SAMPLES {
        assert_eq!(Number::from_raw(raw).to_raw(), raw);
        assert_eq!(Number::from_raw(raw).raw, raw);
    }
}

#[test]
fn add_and_sub_are_exact_in_range() {
    let a = Number::from_raw(870);
    let b = Number::from_raw(38);
    assert_eq!(a.add(b).to_raw(), 908);
    assert_eq!(a.sub(b).to_raw(), 832);
    assert_eq!(b.sub(a).to_raw(), -832);
}

#[test]
fn add_and_sub_wrap_around() {
    let max = Number::from_raw(i32::MAX);
    let min = Number::from_raw(i32::MIN);
    let one = Number::from_raw(1);
    assert_eq!(max.add(one).to_raw(), i32::MIN);
    assert_eq!(min.sub(one).to_raw(), i32::MAX);
    assert_eq!(max.add(max).to_raw(), -2);
    assert_eq!(min.add(min).to_raw(), 0);
    assert_eq!(max.sub(min).to_raw(), -1);
}

#[test]
fn neg_wraps_only_the_most_negative() {
    assert_eq!(Number::from_raw(90).neg().to_raw(), -90);
    assert_eq!(Number::from_raw(-90).neg().to_raw(), 90);
    assert_eq!(Number::from_raw(0).neg().to_raw(), 0);
    assert_eq!(Number::from_raw(i32::MIN).neg().to_raw(), i32::MIN);
}

#[test]
fn mul_int_scales_the_raw_value() {
    assert_eq!(Number::from_raw(-90).mul_int(16).to_raw(), -1440);
    assert_eq!(Number::from_raw(870).mul_int(0).to_raw(), 0);
    assert_eq!(Number::from_raw(870).mul_int(-2).to_raw(), -1740);
    assert_eq!(Number::from_raw(0x4000_0000).mul_int(2).to_raw(), i32::MIN);
    assert_eq!(Number::from_raw(0x4000_0001).mul_int(4).to_raw(), 4);
}

#[test]
fn div_int_rounds_toward_zero() {
    assert_eq!(Number::from_raw(23040).div_int(256).to_raw(), 90);
    assert_eq!(Number::from_raw(7).div_int(2).to_raw(), 3);
    assert_eq!(Number::from_raw(-7).div_int(2).to_raw(), -3);
    assert_eq!(Number::from_raw(7).div_int(-2).to_raw(), -3);
    assert_eq!(Number::from_raw(-7).div_int(-2).to_raw(), 3);
    assert_eq!(Number::from_raw(0).div_int(5).to_raw(), 0);
    assert_eq!(Number::from_raw(i32::MIN).div_int(-1).to_raw(), i32::MIN);
    assert_eq!(Number::from_raw(i32::MIN).div_int(1).to_raw(), i32::MIN);
}

#[test]
fn floor_rounds_toward_negative_infinity() {
    assert_eq!(Number::from_raw(0).floor(), 0);
    assert_eq!(Number::from_raw(255).floor(), 0);
    assert_eq!(Number::from_raw(256).floor(), 1);
    assert_eq!(Number::from_raw(-1).floor(), -1);
    assert_eq!(Number::from_raw(-256).floor(), -1);
    assert_eq!(Number::from_raw(-257).floor(), -2);
    assert_eq!(Number::from_raw(-8192).floor(), -32);
    assert_eq!(Number::from_raw(-8193).floor(), -33);
    assert_eq!(Number::from_raw(i32::MAX).floor(), 8_388_607);
    assert_eq!(Number::from_raw(i32::MIN).floor(), -8_388_608);
}

#[test]
fn comparisons_follow_the_raw_value() {
    let small = Number::from_raw(-5);
    let big = Number::from_raw(7);
    assert!(small.lt(big));
    assert!(small.le(big));
    assert!(!big.lt(small));
    assert!(!big.le(small));
    assert!(big.le(big));
    assert!(!big.lt(big));
    assert_eq!(small, Number::from_raw(-5));
    assert_ne!(small, big);
}

#[test]
fn agrees_with_agb_fixnum_on_construction_and_floor() {
    for raw in SAMPLES {
        let theirs: Num<i32, 8> = Num::from_raw(raw);
        assert_eq!(Number::from_raw(raw).floor(), theirs.floor());
    }
    let integers =
        [0, 1, -1, 16, 82, 240, -32, 4000, -4000, 8_388_608, 0x0100_0005, i32::MAX, i32::MIN];
    for value in integers {
        let theirs: Num<i32, 8> = Num::new(value);
        assert_eq!(Number::new(value).to_raw(), theirs.to_raw());
    }
}

#[test]
fn agrees_with_agb_fixnum_on_arithmetic() {
    for a in SAMPLES {
        for b in SAMPLES {
            let x: Num<i32, 8> = Num::from_raw(a);
            let y: Num<i32, 8> = Num::from_raw(b);
            let ours_a = Number::from_raw(a);
            let ours_b = Number::from_raw(b);
            assert_eq!(ours_a.add(ours_b).to_raw(), (x + y).to_raw());
            assert_eq!(ours_a.sub(ours_b).to_raw(), (x - y).to_raw());
            assert_eq!(ours_a.lt(ours_b), x < y);
            assert_eq!(ours_a.le(ours_b), x <= y);
        }
        let x: Num<i32, 8> = Num::from_raw(a);
        assert_eq!(Number::from_raw(a).neg().to_raw(), (-x).to_raw());
        for k in [1, -1, 2, 16, -16, 100] {
            assert_eq!(Number::from_raw(a).mul_int(k).to_raw(), (x * k).to_raw());
            assert_eq!(Number::from_raw(a).div_int(k).to_raw(), (x / k).to_raw());
        }
    }
}

#[test]
fn wrap_to_i32_keeps_values_in_range() {
    assert_eq!(wrap_to_i32(0), 0);
    assert_eq!(wrap_to_i32(-1), -1);
    assert_eq!(wrap_to_i32(2_147_483_647), i32::MAX);
    assert_eq!(wrap_to_i32(-2_147_483_648), i32::MIN);
}

#[test]
fn wrap_to_i32_reduces_modulo_two_to_the_32() {
    assert_eq!(wrap_to_i32(2_147_483_648), i32::MIN);
    assert_eq!(wrap_to_i32(-2_147_483_649), i32::MAX);
    assert_eq!(wrap_to_i32(4_294_967_296), 0);
    assert_eq!(wrap_to_i32(4_294_967_301), 5);
    assert_eq!(wrap_to_i32(-4_294_967_301), -5);
    assert_eq!(wrap_to_i32(i128::MAX), -1);
    assert_eq!(wrap_to_i32(i128::MIN), 0);
    for v in [-70_000_000_000i128, -5, 0, 9, 3_000_000_000, 123_456_789_012_345] {
        assert_eq!(wrap_to_i32(v), v as i32);
    }
}

#[test]
fn vector_floor_rounds_each_coordinate() {
    let v = Vector2D::new(Number::from_raw(4096), Number::from_raw(-1));
    assert_eq!(v.floor(), Vector2D::new(16, -1));
    let w = Vector2D::from_ints(240, 48);
    assert_eq!(w.x.to_raw(), 61440);
    assert_eq!(w.y.to_raw(), 12288);
    assert_eq!(w.floor(), Vector2D { x: 240, y: 48 });
    assert_eq!(w.clone(), w);
}
