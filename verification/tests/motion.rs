use magnifier_ball::motion::{
    frame_time, Ball, Position, Screen, Velocity, BALL_RADIUS, BALL_RADIUS_POINTS,
};
use magnifier_ball::units::NANOS;

const POINT: i64 = NANOS;

fn ball(x: i64, y: i64, vx: i64, vy: i64) -> Ball {
    Ball { pos: Position { x, y }, vel: Velocity { x: vx, y: vy } }
}

fn full_hd() -> Screen {
    Screen::new(1920 * POINT, 1080 * POINT)
}

#[test]
fn radius_is_given_in_both_units() {
    assert_eq!(BALL_RADIUS, BALL_RADIUS_POINTS as i64 * NANOS);
}

#[test]
fn the_ball_moves_straight_on() {
    let mut b = ball(320 * POINT, 240 * POINT, 230, 175);
    b.advance(16_000_000, full_hd());
    assert_eq!(b, ball(323_680_000_000, 242_800_000_000, 230, 175));
}

#[test]
fn motion_is_exact_to_the_nanosecond() {
    let mut b = ball(320 * POINT, 240 * POINT, 230, 175);
    b.advance(16_666_667, full_hd());
    assert_eq!(b, ball(323_833_333_410, 242_916_666_725, 230, 175));
}

#[test]
fn the_left_wall_sends_the_ball_right() {
    let mut b = ball(181 * POINT, 500 * POINT, -230, 0);
    b.advance(10_000_000, full_hd());
    assert_eq!(b, ball(180 * POINT, 500 * POINT, 230, 0));
}

#[test]
fn the_right_wall_sends_the_ball_left() {
    let mut b = ball(1739 * POINT, 500 * POINT, 230, 0);
    b.advance(10_000_000, full_hd());
    assert_eq!(b, ball(1740 * POINT, 500 * POINT, -230, 0));
}

#[test]
fn top_and_bottom_send_the_ball_back() {
    let mut up = ball(500 * POINT, 180 * POINT, 0, -175);
    up.advance(1, full_hd());
    assert_eq!(up, ball(500 * POINT, 180 * POINT, 0, 175));
    let mut down = ball(500 * POINT, 900 * POINT, 0, 175);
    down.advance(1, full_hd());
    assert_eq!(down, ball(500 * POINT, 900 * POINT, 0, -175));
}

#[test]
fn touching_a_wall_is_not_crossing_it() {
    let mut b = ball(180 * POINT, 900 * POINT, -230, 175);
    b.advance(0, full_hd());
    assert_eq!(b, ball(180 * POINT, 900 * POINT, -230, 175));
}

#[test]
fn a_narrow_screen_pins_the_ball() {
    let narrow = Screen::new(300 * POINT, 1080 * POINT);
    let mut b = ball(320 * POINT, 240 * POINT, 230, 175);
    b.advance(1_000_000, narrow);
    assert_eq!(b.pos.x, 120 * POINT);
    assert_eq!(b.vel.x, -230);
    b.advance(1_000_000, narrow);
    assert_eq!(b.pos.x, 120 * POINT);
    assert_eq!(b.vel.x, -230);
}

#[test]
fn frames_have_a_limited_span() {
    assert_eq!(frame_time(1_000, 16_667_667), 16_666_667);
    assert_eq!(frame_time(0, 50_000_000), 50_000_000);
    assert_eq!(frame_time(0, 50_000_001), 50_000_000);
    assert_eq!(frame_time(0, u64::MAX), 50_000_000);
    assert_eq!(frame_time(5, 5), 0);
    assert_eq!(frame_time(9, 5), 0);
}

#[test]
fn the_ball_stays_on_the_screen_and_keeps_its_speed() {
    let screen = full_hd();
    let mut b = ball(320 * POINT, 240 * POINT, 230, 175);
    for frame in 0..5_000u64 {
        b.advance(frame * 7_919_003 % 50_000_001, screen);
        assert!(180 * POINT <= b.pos.x && b.pos.x <= 1740 * POINT);
        assert!(180 * POINT <= b.pos.y && b.pos.y <= 900 * POINT);
        assert_eq!(b.vel.x.abs(), 230);
        assert_eq!(b.vel.y.abs(), 175);
    }
}

#[test]
fn spans_between_walls_add_up() {
    let mut once = ball(320 * POINT, 240 * POINT, 230, 175);
    let mut twice = once;
    once.advance(40_000_000, full_hd());
    twice.advance(13_000_001, full_hd());
    twice.advance(26_999_999, full_hd());
    assert_eq!(once, twice);
}

#[test]
fn screens_reach_as_far_as_positions() {
    let least = i64::MIN + 2 * BALL_RADIUS;
    assert_eq!(Screen::new(0, 0), Screen { width: 0, height: 0 });
    assert_eq!(Screen::new(-5, 7), Screen { width: -5, height: 7 });
    assert_eq!(Screen::new(i64::MAX, least), Screen { width: i64::MAX, height: least });
    assert_eq!(Screen::new(least - 1, i64::MIN), Screen { width: least, height: least });
    assert_eq!(Screen::new(i64::MIN, least + 1), Screen { width: least, height: least + 1 });
}

#[test]
fn a_screen_without_an_extent_pins_the_ball_before_its_edge() {
    let mut b = ball(320 * POINT, 240 * POINT, 230, 175);
    b.advance(1_000_000, Screen::new(0, -10 * POINT));
    assert_eq!(b, ball(-180 * POINT, -190 * POINT, -230, -175));
}

#[test]
fn the_fastest_ball_is_caught_by_the_walls() {
    let screen = Screen::new(i64::MAX, i64::MAX);
    let mut b = ball(i64::MAX, i64::MIN + BALL_RADIUS, i64::MAX, -i64::MAX);
    b.advance(u64::MAX, screen);
    assert_eq!(b, ball(i64::MAX - BALL_RADIUS, BALL_RADIUS, -i64::MAX, i64::MAX));
}
