//! The ball in physical pixels: the part of the window that is shown and the
//! part of the desktop that is captured.

use vstd::prelude::*;

use crate::motion::{Ball, Position, BALL_RADIUS};
use crate::units::{pixel_of, rounded, rounding_is_monotone, rounding_is_nearest};
use crate::units::{is_nearest_pixel, pixel_unit, the_nearest_pixel_is_taken};
use crate::units::{to_pixel, PixelScale};

verus! {

/// The bounding box of a circle in pixels. Its sides may lie beyond the range of
/// the pixels that the circle is made from.
#[derive(Clone, Copy, PartialEq, Eq, Structural, Debug)]
pub struct CircleBounds {
    pub left: i64,
    pub top: i64,
    pub right: i64,
    pub bottom: i64,
}

/// A square of the desktop in pixels.
#[derive(Clone, Copy, PartialEq, Eq, Structural, Debug)]
pub struct CaptureArea {
    pub x: i32,
    pub y: i32,
    pub size: i32,
}

/// The box around a circle of `radius` pixels about (`cx`, `cy`).
pub fn circle_bounds(cx: i32, cy: i32, radius: i32) -> (bounds: CircleBounds)
    ensures
        bounds.left == cx - radius,
        bounds.top == cy - radius,
        bounds.right == cx + radius,
        bounds.bottom == cy + radius,
{
    let (x, y, r): (i64, i64, i64) = (cx as i64, cy as i64, radius as i64);
    CircleBounds { left: x - r, top: y - r, right: x + r, bottom: y + r }
}

/// The box around the ball: the pixel closest to its centre, and the radius in
/// whole pixels to each side.
pub open spec fn region_of(pos: Position, scale: PixelScale) -> CircleBounds {
    let radius = pixel_of(BALL_RADIUS as int, scale);
    let cx = pixel_of(pos.x as int, scale);
    let cy = pixel_of(pos.y as int, scale);
    CircleBounds {
        left: (cx - radius) as i64,
        top: (cy - radius) as i64,
        right: (cx + radius) as i64,
        bottom: (cy + radius) as i64,
    }
}

/// The square of the desktop under the ball: the pixels closest to its top left
/// corner and to its diameter.
pub open spec fn area_under(pos: Position, scale: PixelScale) -> CaptureArea {
    CaptureArea {
        x: pixel_of(pos.x - BALL_RADIUS, scale) as i32,
        y: pixel_of(pos.y - BALL_RADIUS, scale) as i32,
        size: pixel_of(2 * BALL_RADIUS, scale) as i32,
    }
}

/// The part of the window that shows the ball.
pub fn ball_region(ball: &Ball, scale: PixelScale) -> (bounds: CircleBounds)
    ensures
        bounds == region_of(ball.pos, scale),
{
    let r: i32 = to_pixel(BALL_RADIUS, scale);
    let cx: i32 = to_pixel(ball.pos.x, scale);
    let cy: i32 = to_pixel(ball.pos.y, scale);
    circle_bounds(cx, cy, r)
}

/// The part of the desktop that the lens shows.
pub fn capture_area(ball: &Ball, scale: PixelScale) -> (area: CaptureArea)
    requires
        ball.wf(),
    ensures
        area == area_under(ball.pos, scale),
{
    CaptureArea {
        x: to_pixel(ball.pos.x - BALL_RADIUS, scale),
        y: to_pixel(ball.pos.y - BALL_RADIUS, scale),
        size: to_pixel(2 * BALL_RADIUS, scale),
    }
}

/// The length covers a number of pixels that is in range.
pub open spec fn in_pixel_range(length: int, scale: PixelScale) -> bool {
    i32::MIN <= rounded(length * scale.fraction, pixel_unit()) <= i32::MAX
}

/// The shown part of the window is a circle about the centre of the ball, as
/// wide as it is high.
pub proof fn region_is_a_circle(pos: Position, scale: PixelScale)
    ensures
        ({
            let bounds = region_of(pos, scale);
            let radius = pixel_of(BALL_RADIUS as int, scale);
            &&& bounds.right - bounds.left == 2 * radius
            &&& bounds.bottom - bounds.top == 2 * radius
            &&& bounds.left + radius == pixel_of(pos.x as int, scale)
            &&& bounds.top + radius == pixel_of(pos.y as int, scale)
        }),
{
}

/// A corner or an edge that is the difference of two lengths is off by one pixel
/// at most from the difference of their pixels.
proof fn pixels_nearly_add_up(whole: int, part: int, scale: PixelScale)
    requires
        in_pixel_range(whole, scale),
        in_pixel_range(part, scale),
        in_pixel_range(whole - part, scale),
    ensures
        -1 <= pixel_of(whole - part, scale) - (pixel_of(whole, scale) - pixel_of(part, scale)) <= 1,
{
    let unit = pixel_unit();
    let f = scale.fraction as int;
    rounding_is_nearest(whole * f, unit);
    rounding_is_nearest(part * f, unit);
    rounding_is_nearest((whole - part) * f, unit);
    assert((whole - part) * f == whole * f - part * f) by (nonlinear_arith);
}

/// The captured square lies under the shown circle: while all of it is in range,
/// its corner and its size agree with the circle's box up to the rounding of one
/// pixel.
pub proof fn capture_lies_under_the_region(pos: Position, scale: PixelScale)
    requires
        in_pixel_range(pos.x as int, scale),
        in_pixel_range(pos.y as int, scale),
        in_pixel_range(pos.x - BALL_RADIUS, scale),
        in_pixel_range(pos.y - BALL_RADIUS, scale),
        in_pixel_range(2 * BALL_RADIUS, scale),
    ensures
        ({
            let bounds = region_of(pos, scale);
            let area = area_under(pos, scale);
            &&& -1 <= area.x - bounds.left <= 1
            &&& -1 <= area.y - bounds.top <= 1
            &&& -1 <= area.size - (bounds.right - bounds.left) <= 1
        }),
{
    let diameter = 2 * BALL_RADIUS;
    let f = scale.fraction as int;
    region_is_a_circle(pos, scale);
    assert(0 <= BALL_RADIUS * f <= diameter * f) by (nonlinear_arith)
        requires
            0 <= BALL_RADIUS <= diameter,
            f >= 0,
    ;
    rounding_is_monotone(0, BALL_RADIUS * f, pixel_unit());
    rounding_is_monotone(BALL_RADIUS * f, diameter * f, pixel_unit());
    pixels_nearly_add_up(pos.x as int, BALL_RADIUS as int, scale);
    pixels_nearly_add_up(pos.y as int, BALL_RADIUS as int, scale);
    pixels_nearly_add_up(diameter, BALL_RADIUS as int, scale);
}

/// While the ball lies on the screen, no part of its circle lies beyond the
/// left or the top edge.
pub proof fn region_starts_on_the_screen(pos: Position, scale: PixelScale)
    requires
        pos.x >= BALL_RADIUS,
        pos.y >= BALL_RADIUS,
    ensures
        region_of(pos, scale).left >= 0,
        region_of(pos, scale).top >= 0,
{
    let unit = pixel_unit();
    let f = scale.fraction as int;
    region_is_a_circle(pos, scale);
    assert(BALL_RADIUS * f <= pos.x * f && BALL_RADIUS * f <= pos.y * f) by (nonlinear_arith)
        requires
            BALL_RADIUS <= pos.x,
            BALL_RADIUS <= pos.y,
            f >= 0,
    ;
    rounding_is_monotone(BALL_RADIUS * f, pos.x * f, unit);
    rounding_is_monotone(BALL_RADIUS * f, pos.y * f, unit);
}

/// The box belongs to a circle about the pixel nearest to the position, and its
/// radius is the pixel nearest to the ball's.
pub open spec fn surrounds_the_ball(
    bounds: CircleBounds,
    pos: Position,
    scale: PixelScale,
) -> bool {
    let radius = (bounds.right - bounds.left) / 2;
    &&& is_nearest_pixel(radius, BALL_RADIUS as int, scale)
    &&& is_nearest_pixel(bounds.left + radius, pos.x as int, scale)
    &&& is_nearest_pixel(bounds.top + radius, pos.y as int, scale)
    &&& bounds.right == bounds.left + 2 * radius
    &&& bounds.bottom == bounds.top + 2 * radius
}

/// A square with this corner and size lies under the ball: its corner is the
/// pixel nearest to the position less the radius along each axis, and its size
/// the pixel nearest to the diameter, all of them at the given scale.
pub open spec fn lies_under_the_ball(
    x: int,
    y: int,
    size: int,
    pos: Position,
    scale: PixelScale,
) -> bool {
    &&& is_nearest_pixel(x, pos.x - BALL_RADIUS, scale)
    &&& is_nearest_pixel(y, pos.y - BALL_RADIUS, scale)
    &&& is_nearest_pixel(size, 2 * BALL_RADIUS, scale)
}

/// The shown region surrounds the ball, wherever it is and at every scale.
pub proof fn the_region_surrounds_the_ball(pos: Position, scale: PixelScale)
    ensures
        surrounds_the_ball(region_of(pos, scale), pos, scale),
{
    the_nearest_pixel_is_taken(BALL_RADIUS as int, scale);
    the_nearest_pixel_is_taken(pos.x as int, scale);
    the_nearest_pixel_is_taken(pos.y as int, scale);
}

/// The captured square lies under the ball, wherever it is and at every scale.
pub proof fn the_capture_lies_under_the_ball(pos: Position, scale: PixelScale)
    ensures
        ({
            let area = area_under(pos, scale);
            lies_under_the_ball(area.x as int, area.y as int, area.size as int, pos, scale)
        }),
{
    the_nearest_pixel_is_taken(pos.x - BALL_RADIUS, scale);
    the_nearest_pixel_is_taken(pos.y - BALL_RADIUS, scale);
    the_nearest_pixel_is_taken(2 * BALL_RADIUS, scale);
}

} // verus!
