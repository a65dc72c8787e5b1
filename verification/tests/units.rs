use magnifier_ball::units::{to_pixel, PixelScale, SCALE_ONE};

fn scale(fraction: u64) -> PixelScale {
    PixelScale { fraction }
}

#[test]
fn a_point_is_a_pixel_at_scale_one() {
    assert_eq!(to_pixel(320_000_000_000, scale(SCALE_ONE)), 320);
    assert_eq!(to_pixel(-7_000_000_000, scale(SCALE_ONE)), -7);
    assert_eq!(to_pixel(0, scale(SCALE_ONE)), 0);
}

#[test]
fn halves_go_away_from_zero() {
    let one = scale(SCALE_ONE);
    assert_eq!(to_pixel(500_000_000, one), 1);
    assert_eq!(to_pixel(499_999_999, one), 0);
    assert_eq!(to_pixel(-500_000_000, one), -1);
    assert_eq!(to_pixel(-499_999_999, one), 0);
    assert_eq!(to_pixel(2_500_000_000, one), 3);
    assert_eq!(to_pixel(-2_500_000_000, one), -3);
}

#[test]
fn a_scale_stretches_lengths() {
    // 1.25 pixels per point
    assert_eq!(to_pixel(180_000_000_000, scale(5_368_709_120)), 225);
    // 1.5 pixels per point: 10.5 pixels
    assert_eq!(to_pixel(7_000_000_000, scale(6_442_450_944)), 11);
}

#[test]
fn pixels_stay_in_range() {
    assert_eq!(to_pixel(i64::MAX, scale(SCALE_ONE)), i32::MAX);
    assert_eq!(to_pixel(i64::MIN, scale(SCALE_ONE)), i32::MIN);
    assert_eq!(to_pixel(2_147_483_647_000_000_000, scale(SCALE_ONE)), i32::MAX);
    assert_eq!(to_pixel(-2_147_483_648_000_000_000, scale(SCALE_ONE)), i32::MIN);
    assert_eq!(to_pixel(-2_147_483_647_000_000_000, scale(SCALE_ONE)), -i32::MAX);
}

#[test]
fn every_scale_is_a_scale() {
    assert_eq!(to_pixel(i64::MAX, scale(0)), 0);
    // 100 pixels per point
    assert_eq!(to_pixel(180_000_000_000, scale(100 * SCALE_ONE)), 18_000);
    assert_eq!(to_pixel(-180_004_999_999, scale(100 * SCALE_ONE)), -18_000);
    assert_eq!(to_pixel(-180_005_000_000, scale(100 * SCALE_ONE)), -18_001);
    // nearly 2^32 pixels per point: 4294.967 pixels in a thousand nanopoints
    assert_eq!(to_pixel(1, scale(u64::MAX)), 4);
    assert_eq!(to_pixel(1_000, scale(u64::MAX)), 4_295);
    assert_eq!(to_pixel(-1_000, scale(u64::MAX)), -4_295);
    assert_eq!(to_pixel(i64::MAX, scale(u64::MAX)), i32::MAX);
    assert_eq!(to_pixel(i64::MIN, scale(u64::MAX)), i32::MIN);
}

#[test]
fn longer_lengths_are_not_earlier_pixels() {
    let odd = scale(6_004_938_007);
    let mut last = i32::MIN;
    for step in -300..300i64 {
        let pixel = to_pixel(step * 123_457_891, odd);
        assert!(pixel >= last);
        last = pixel;
    }
}
