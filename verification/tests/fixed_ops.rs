//! Exact behaviour of the fixed-point scalar operations.

use tinyraster::fixed::{isqrt_u128, Fx, FX_ONE};

fn fx(raw: i64) -> Fx {
    Fx { raw }
}

#[test]
fn add_exact() {
    // 1.5 + 2.25 == 3.75
    assert_eq!(fx(98304).plus(fx(147456)).raw, 245760);
    assert_eq!(fx(-98304).plus(fx(98304)).raw, 0);
}

#[test]
fn add_saturates() {
    assert_eq!(fx(i64::MAX).plus(fx(1)).raw, i64::MAX);
    assert_eq!(fx(i64::MIN).plus(fx(-1)).raw, i64::MIN);
}

#[test]
fn sub_exact() {
    // 1.0 - 2.5 == -1.5
    assert_eq!(fx(65536).minus(fx(163840)).raw, -98304);
}

#[test]
fn sub_saturates() {
    assert_eq!(fx(i64::MIN).minus(fx(1)).raw, i64::MIN);
}

#[test]
fn neg_exact_and_saturating() {
    assert_eq!(fx(98304).neg().raw, -98304);
    assert_eq!(fx(i64::MIN).neg().raw, i64::MAX);
}

#[test]
fn mul_exact() {
    // 1.5 * 2.5 == 3.75
    assert_eq!(fx(98304).times(fx(163840)).raw, 245760);
    // signs
    assert_eq!(fx(-98304).times(fx(163840)).raw, -245760);
    assert_eq!(fx(-98304).times(fx(-163840)).raw, 245760);
}

#[test]
fn mul_truncates_toward_zero() {
    // the smallest positive values multiply down to zero
    assert_eq!(fx(1).times(fx(1)).raw, 0);
    assert_eq!(fx(-1).times(fx(1)).raw, 0);
    // 0.5 * 0.000030517578125 (raw 2) truncates to raw 1
    assert_eq!(fx(32768).times(fx(2)).raw, 1);
    assert_eq!(fx(-32768).times(fx(2)).raw, -1);
}

#[test]
fn mul_saturates() {
    assert_eq!(fx(i64::MAX).times(fx(i64::MAX)).raw, i64::MAX);
    assert_eq!(fx(i64::MAX).times(fx(i64::MIN)).raw, i64::MIN);
}

#[test]
fn div_exact() {
    // 3.0 / 2.0 == 1.5
    assert_eq!(fx(196608).divide(fx(131072)).raw, 98304);
    assert_eq!(fx(-196608).divide(fx(131072)).raw, -98304);
    // 1.0 / 3.0 truncates
    assert_eq!(fx(65536).divide(fx(196608)).raw, 21845);
}

#[test]
fn div_by_zero_saturates_by_sign() {
    assert_eq!(fx(5).divide(fx(0)).raw, i64::MAX);
    assert_eq!(fx(-5).divide(fx(0)).raw, i64::MIN);
    assert_eq!(fx(0).divide(fx(0)).raw, 0);
}

#[test]
fn trunc_toward_zero() {
    // 1.75 -> 1, -1.75 -> -1
    assert_eq!(fx(114688).trunc(), 1);
    assert_eq!(fx(-114688).trunc(), -1);
    assert_eq!(fx(65535).trunc(), 0);
    assert_eq!(fx(-65536).trunc(), -1);
}

#[test]
fn from_int_scales() {
    assert_eq!(Fx::from_int(5).raw, 327680);
    assert_eq!(Fx::from_int(-3).raw, -196608);
    assert_eq!(Fx::from_int(0).raw, 0);
    assert_eq!(Fx::one().raw, FX_ONE);
    assert_eq!(Fx::zero().raw, 0);
}

#[test]
fn abs_value() {
    assert_eq!(fx(-7).abs().raw, 7);
    assert_eq!(fx(7).abs().raw, 7);
    assert_eq!(fx(i64::MIN).abs().raw, i64::MAX);
}

#[test]
fn isqrt_exact_squares() {
    assert_eq!(isqrt_u128(0), 0);
    assert_eq!(isqrt_u128(1), 1);
    assert_eq!(isqrt_u128(16), 4);
    assert_eq!(isqrt_u128(1u128 << 64), 1u64 << 32);
}

#[test]
fn isqrt_rounds_down() {
    assert_eq!(isqrt_u128(15), 3);
    assert_eq!(isqrt_u128(17), 4);
    assert_eq!(isqrt_u128(u128::MAX), u64::MAX);
}
