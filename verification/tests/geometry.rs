use magnifier_ball::geometry::{
    ball_region, capture_area, circle_bounds, CaptureArea, CircleBounds,
};
use magnifier_ball::motion::{Ball, Position, Velocity};
use magnifier_ball::pointer::{button_down, hits_ball};
use magnifier_ball::units::{PixelScale, SCALE_ONE};

fn ball(x: i64, y: i64) -> Ball {
    Ball { pos: Position { x, y }, vel: Velocity { x: 230, y: 175 } }
}

fn scale(fraction: u64) -> PixelScale {
    PixelScale { fraction }
}

#[test]
fn a_circle_has_a_box() {
    assert_eq!(
        circle_bounds(10, -20, 5),
        CircleBounds { left: 5, top: -25, right: 15, bottom: -15 }
    );
    assert_eq!(
        circle_bounds(i32::MIN, i32::MAX, i32::MAX),
        CircleBounds { left: -4_294_967_295, top: 0, right: -1, bottom: 4_294_967_294 }
    );
}

#[test]
fn the_region_surrounds_the_ball() {
    assert_eq!(
        ball_region(&ball(320_000_000_000, 240_000_000_000), scale(SCALE_ONE)),
        CircleBounds { left: 140, top: 60, right: 500, bottom: 420 }
    );
    // 1.5 pixels per point
    assert_eq!(
        ball_region(&ball(320_400_000_000, 240_000_000_000), scale(6_442_450_944)),
        CircleBounds { left: 211, top: 90, right: 751, bottom: 630 }
    );
}

#[test]
fn the_capture_lies_under_the_ball() {
    assert_eq!(
        capture_area(&ball(320_000_000_000, 240_000_000_000), scale(SCALE_ONE)),
        CaptureArea { x: 140, y: 60, size: 360 }
    );
    assert_eq!(
        capture_area(&ball(100_000_000_000, 240_000_000_000), scale(SCALE_ONE)),
        CaptureArea { x: -80, y: 60, size: 360 }
    );
    // At the smallest scale nothing is left to capture.
    assert_eq!(capture_area(&ball(320_000_000_000, 240_000_000_000), scale(1)).size, 0);
}

#[test]
fn capture_and_region_agree_up_to_a_pixel() {
    for fraction in [4_294_967_296u64, 4_352_000_257, 5_368_709_120, 6_004_938_007, 8_589_934_592] {
        for step in 0..200i64 {
            let b = ball(180_000_000_000 + step * 1_234_567_891, 180_000_000_000 + step * 765_431_987);
            let bounds = ball_region(&b, scale(fraction));
            let area = capture_area(&b, scale(fraction));
            assert!((area.x as i64 - bounds.left).abs() <= 1);
            assert!((area.y as i64 - bounds.top).abs() <= 1);
            assert!((area.size as i64 - (bounds.right - bounds.left)).abs() <= 1);
            assert!(bounds.left >= 0 && bounds.top >= 0);
        }
    }
}

#[test]
fn the_edge_belongs_to_the_ball() {
    let b = ball(320_000_000_000, 240_000_000_000);
    let one = scale(SCALE_ONE);
    assert!(hits_ball(&b, one, 320, 240));
    assert!(hits_ball(&b, one, 500, 240));
    assert!(!hits_ball(&b, one, 501, 240));
    assert!(hits_ball(&b, one, 320, 60));
    assert!(!hits_ball(&b, one, 320, 59));
    // 108-144-180 is a right triangle.
    assert!(hits_ball(&b, one, 428, 384));
    assert!(!hits_ball(&b, one, 429, 384));
    assert!(!hits_ball(&b, one, 140, 60));
}

#[test]
fn hits_follow_the_scale() {
    let b = ball(320_000_000_000, 240_000_000_000);
    let double = scale(8_589_934_592);
    assert!(hits_ball(&b, double, 1000, 480));
    assert!(!hits_ball(&b, double, 1001, 480));
    assert!(!hits_ball(&b, double, i32::MIN, i32::MIN));
    assert!(!hits_ball(&b, double, i32::MAX, i32::MAX));
}

#[test]
fn large_scales_are_followed() {
    let b = ball(320_000_000_000, 240_000_000_000);
    let hundred = scale(100 * SCALE_ONE);
    assert_eq!(
        ball_region(&b, hundred),
        CircleBounds { left: 14_000, top: 6_000, right: 50_000, bottom: 42_000 }
    );
    assert_eq!(capture_area(&b, hundred), CaptureArea { x: 14_000, y: 6_000, size: 36_000 });
    assert!(hits_ball(&b, hundred, 50_000, 24_000));
    assert!(!hits_ball(&b, hundred, 50_001, 24_000));
    assert!(hits_ball(&b, hundred, 42_800, 38_400));
    assert!(!hits_ball(&b, hundred, 42_801, 38_400));
}

#[test]
fn hits_are_exact_at_any_scale() {
    // A million pixels per point, where 108-144-180 is still a right triangle.
    let (b, million) = (ball(0, 0), scale(1_000_000 * SCALE_ONE));
    for (x, y) in [(108, 144), (-108, 144), (108, -144), (-144, -108), (0, 180), (-180, 0)] {
        assert!(hits_ball(&b, million, x * 1_000_000, y * 1_000_000));
    }
    assert!(!hits_ball(&b, million, 108_000_001, 144_000_000));
    assert!(!hits_ball(&b, million, -108_000_001, 144_000_000));
    assert!(!hits_ball(&b, million, 108_000_000, -144_000_001));
    assert!(!hits_ball(&b, million, 0, 180_000_001));
    // At the finest scale a ball about the origin covers every pixel.
    assert!(hits_ball(&b, scale(u64::MAX), i32::MAX, i32::MIN));
    assert!(!hits_ball(&ball(i64::MAX, i64::MIN), scale(u64::MAX), 0, 0));
}

#[test]
fn hits_lie_within_the_shown_circle() {
    let b = ball(320_499_999_999, 240_512_345_678);
    for fraction in [1_234_567_890u64, 4_294_967_296, 6_004_938_007] {
        let bounds = ball_region(&b, scale(fraction));
        let radius = (bounds.right - bounds.left) / 2;
        let (cx, cy) = (bounds.left + radius, bounds.top + radius);
        let mut hits = 0;
        for x in bounds.left - 3..=bounds.right + 3 {
            for y in bounds.top - 3..=bounds.bottom + 3 {
                if hits_ball(&b, scale(fraction), x as i32, y as i32) {
                    let (dx, dy) = (x - cx, y - cy);
                    assert!(4 * (dx * dx + dy * dy) <= (2 * radius + 3) * (2 * radius + 3));
                    assert!(bounds.left - 1 <= x && x <= bounds.right + 1);
                    assert!(bounds.top - 1 <= y && y <= bounds.bottom + 1);
                    hits += 1;
                }
            }
        }
        assert!(hits > 3 * radius * radius);
    }
}

#[test]
fn nothing_is_hit_at_scale_zero() {
    assert!(!hits_ball(&ball(0, 0), scale(0), 0, 0));
    assert!(!hits_ball(&ball(320_000_000_000, 240_000_000_000), scale(0), 320, 240));
}

#[test]
fn the_highest_bit_says_that_a_button_is_held() {
    assert!(button_down(i16::MIN));
    assert!(button_down(-1));
    assert!(button_down(-0x7fff));
    assert!(!button_down(0));
    assert!(!button_down(1));
    assert!(!button_down(i16::MAX));
}
