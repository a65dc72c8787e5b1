//! The mouse: whether its button is held and whether it points at the ball.

use vstd::prelude::*;

use crate::geometry::{in_pixel_range, region_is_a_circle, region_of};
use crate::motion::{magnitude, Ball, Position, BALL_RADIUS};
use crate::units::{pixel_of, pixel_unit, rounded, rounding_is_nearest, saturated};
use crate::units::{PixelScale, NANOS, SCALE_ONE};

verus! {

/// Whether the state word of a key says that the key is held: its highest bit,
/// which is the sign, is set.
pub fn button_down(state: i16) -> (down: bool)
    ensures
        down == (state < 0),
{
    assert(((state as u16) & 0x8000 != 0) == (state < 0)) by (bit_vector);
    (state as u16) & 0x8000 != 0
}

/// The pixel (`x`, `y`) lies on the ball: its distance from the centre is at
/// most the radius. Pixels and points are both counted in nanopoints at the
/// finest scale, so nothing is divided. At a scale of zero, where all points
/// fall together, no pixel lies on the ball.
pub open spec fn on_ball(pos: Position, scale: PixelScale, x: int, y: int) -> bool {
    let dx = x * pixel_unit() - pos.x * scale.fraction;
    let dy = y * pixel_unit() - pos.y * scale.fraction;
    let radius = BALL_RADIUS * scale.fraction;
    scale.fraction > 0 && dx * dx + dy * dy <= radius * radius
}

/// The number of which `high` and `low` are the upper and the lower 128 bits.
pub open spec fn joined(high: int, low: int) -> int {
    high * 0x1_0000_0000_0000_0000_0000_0000_0000_0000 + low
}

/// The square of a number of 104 bits, as its upper and its lower 128 bits.
fn wide_square(value: u128) -> (parts: (u128, u128))
    requires
        value < 0x100_0000_0000_0000_0000_0000_0000,
    ensures
        joined(parts.0 as int, parts.1 as int) == value * value,
        parts.0 < 0x1_0000_0000_0000_0000_0000_0000,
{
    let base: u128 = 0x1_0000_0000_0000_0000;
    let (high, low): (u128, u128) = (value / base, value % base);
    assert(high * high <= 0xff_ffff_ffff * 0xff_ffff_ffff && high * low <= 0xff_ffff_ffff
        * 0xffff_ffff_ffff_ffff && low * low <= 0xffff_ffff_ffff_ffff * 0xffff_ffff_ffff_ffff)
        by (nonlinear_arith)
        requires
            0 <= high <= 0xff_ffff_ffff,
            0 <= low <= 0xffff_ffff_ffff_ffff,
    ;
    assert(value * value == base * base * (high * high) + base * (2 * (high * low)) + low * low)
        by (nonlinear_arith)
        requires
            value == base * high + low,
    ;
    let last: u128 = low * low;
    let middle: u128 = 2 * (high * low) + last / base;
    (high * high + middle / base, (middle % base) * base + last % base)
}

/// How far a pixel lies from a length, in nanopoints at the finest scale.
fn distance(pixel: i32, length: i64, scale: PixelScale) -> (apart: u128)
    ensures
        apart == magnitude(pixel * pixel_unit() - length * scale.fraction),
{
    let unit: u128 = 1_000_000_000 * 4_294_967_296;
    let fraction: u128 = scale.fraction as u128;
    let size: u128 = if pixel < 0 {
        (-(pixel as i64)) as u128
    } else {
        pixel as u128
    };
    let reach: u128 = if length < 0 {
        (-(length as i128)) as u128
    } else {
        length as u128
    };
    assert(0 <= reach * fraction <= 0x8000_0000_0000_0000 * 0xffff_ffff_ffff_ffff)
        by (nonlinear_arith)
        requires
            0 <= reach <= 0x8000_0000_0000_0000,
            0 <= fraction <= 0xffff_ffff_ffff_ffff,
    ;
    let (a, b): (u128, u128) = (size * unit, reach * fraction);
    proof {
        assert((-(reach as int)) * (fraction as int) == -(reach * fraction)) by (nonlinear_arith);
        let exact = length as int * scale.fraction as int;
        if length < 0 {
            assert(exact == -(b as int));
        } else {
            assert(exact == b);
        }
    }
    if (pixel < 0) != (length < 0) {
        a + b
    } else if a < b {
        b - a
    } else {
        a - b
    }
}

/// A number outside the interval from `-bound` to `bound` has a larger square.
proof fn outside_means_larger_square(value: int, other: int, bound: int)
    requires
        bound >= 0,
        value < -bound || value > bound,
    ensures
        value * value + other * other > bound * bound,
{
    assert(value * value > bound * bound) by (nonlinear_arith)
        requires
            bound >= 0,
            value < -bound || value > bound,
    ;
    assert(other * other >= 0) by (nonlinear_arith);
}

/// A number and its magnitude have the same square.
proof fn sign_does_not_matter(value: int)
    ensures
        magnitude(value) * magnitude(value) == value * value,
{
    assert((-value) * (-value) == value * value) by (nonlinear_arith);
}

/// Whether the pixel (`x`, `y`) lies on the ball.
pub fn hits_ball(ball: &Ball, scale: PixelScale, x: i32, y: i32) -> (hit: bool)
    ensures
        hit == on_ball(ball.pos, scale, x as int, y as int),
{
    if scale.fraction == 0 {
        return false;
    }
    let dx: u128 = distance(x, ball.pos.x, scale);
    let dy: u128 = distance(y, ball.pos.y, scale);
    let reach: u128 = BALL_RADIUS as u128;
    let fraction: u128 = scale.fraction as u128;
    assert(0 <= reach * fraction <= 180_000_000_000 * 0xffff_ffff_ffff_ffff) by (nonlinear_arith)
        requires
            reach == 180_000_000_000,
            0 <= fraction <= 0xffff_ffff_ffff_ffff,
    ;
    let radius: u128 = reach * fraction;
    proof {
        sign_does_not_matter(x * pixel_unit() - ball.pos.x * scale.fraction);
        sign_does_not_matter(y * pixel_unit() - ball.pos.y * scale.fraction);
    }
    if dx > radius {
        proof {
            outside_means_larger_square(dx as int, dy as int, radius as int);
        }
        return false;
    }
    if dy > radius {
        proof {
            outside_means_larger_square(dy as int, dx as int, radius as int);
        }
        return false;
    }
    let (x_high, x_low): (u128, u128) = wide_square(dx);
    let (y_high, y_low): (u128, u128) = wide_square(dy);
    let (high, low): (u128, u128) = wide_square(radius);
    let room: u128 = u128::MAX - y_low;
    let (sum_high, sum_low): (u128, u128) = if x_low > room {
        (x_high + y_high + 1, x_low - room - 1)
    } else {
        (x_high + y_high, x_low + y_low)
    };
    sum_high < high || (sum_high == high && sum_low <= low)
}

/// A move by half a unit at most along each axis takes a point within `radius`
/// of the origin no farther than `radius` and one unit.
proof fn a_nudge_adds_less_than_a_unit(
    dx: int,
    dy: int,
    ex: int,
    ey: int,
    radius: int,
    unit: int,
)
    requires
        dx * dx + dy * dy <= radius * radius,
        0 <= radius,
        0 < unit,
        -unit <= 2 * ex <= unit,
        -unit <= 2 * ey <= unit,
    ensures
        (dx + ex) * (dx + ex) + (dy + ey) * (dy + ey) <= (radius + unit) * (radius + unit),
{
    let (ax, ay) = (magnitude(dx), magnitude(dy));
    sign_does_not_matter(dx);
    sign_does_not_matter(dy);
    assert((ax + ay) * (ax + ay) + (ax - ay) * (ax - ay) == 2 * (ax * ax + ay * ay))
        by (nonlinear_arith);
    assert((ax - ay) * (ax - ay) >= 0) by (nonlinear_arith);
    assert(ax + ay <= 2 * radius) by (nonlinear_arith)
        requires
            (ax + ay) * (ax + ay) <= 2 * (radius * radius),
            0 <= radius,
    ;
    assert(2 * (dx * ex) <= ax * unit && 2 * (dy * ey) <= ay * unit) by (nonlinear_arith)
        requires
            -unit <= 2 * ex <= unit,
            -unit <= 2 * ey <= unit,
            ax == dx || ax == -dx,
            ay == dy || ay == -dy,
            0 <= ax,
            0 <= ay,
    ;
    assert(ax * unit + ay * unit <= 2 * (radius * unit)) by (nonlinear_arith)
        requires
            ax + ay <= 2 * radius,
            0 < unit,
    ;
    assert(4 * (ex * ex) <= unit * unit && 4 * (ey * ey) <= unit * unit) by (nonlinear_arith)
        requires
            -unit <= 2 * ex <= unit,
            -unit <= 2 * ey <= unit,
    ;
    assert((dx + ex) * (dx + ex) == dx * dx + 2 * (dx * ex) + ex * ex) by (nonlinear_arith);
    assert((dy + ey) * (dy + ey) == dy * dy + 2 * (dy * ey) + ey * ey) by (nonlinear_arith);
    assert((radius + unit) * (radius + unit) == radius * radius + 2 * (radius * unit) + unit * unit)
        by (nonlinear_arith);
    assert(unit * unit >= 0) by (nonlinear_arith);
}

/// A pixel is no farther from a pixel that was brought into range than from the
/// one that it was before.
proof fn saturation_comes_closer(pixel: int, centre: int)
    requires
        i32::MIN <= pixel <= i32::MAX,
    ensures
        (pixel - saturated(centre)) * (pixel - saturated(centre)) <= (pixel - centre) * (pixel
            - centre),
{
    let (near, far) = (pixel - saturated(centre), pixel - centre);
    assert(near * near <= far * far) by (nonlinear_arith)
        requires
            0 <= near <= far || far <= near <= 0,
    ;
}

/// A distance of a radius and one unit is at most a pixel and a half more than
/// the radius in whole pixels.
proof fn squares_in_pixels(px: int, py: int, pixels: int, radius: int, unit: int)
    requires
        0 < unit,
        0 <= radius,
        2 * radius <= 2 * (pixels * unit) + unit,
        (px * unit) * (px * unit) + (py * unit) * (py * unit) <= (radius + unit) * (radius + unit),
    ensures
        4 * (px * px + py * py) <= (2 * pixels + 3) * (2 * pixels + 3),
{
    let sum = px * px + py * py;
    let reach = 2 * pixels + 3;
    assert((px * unit) * (px * unit) + (py * unit) * (py * unit) == sum * (unit * unit))
        by (nonlinear_arith)
        requires
            sum == px * px + py * py,
    ;
    assert(reach * unit == 2 * (pixels * unit) + 3 * unit) by (nonlinear_arith)
        requires
            reach == 2 * pixels + 3,
    ;
    let (a, b) = (2 * (radius + unit), reach * unit);
    assert(a * a <= b * b) by (nonlinear_arith)
        requires
            0 <= a <= b,
    ;
    assert(a * a == 4 * ((radius + unit) * (radius + unit))) by (nonlinear_arith)
        requires
            a == 2 * (radius + unit),
    ;
    assert(b * b == (reach * reach) * (unit * unit)) by (nonlinear_arith)
        requires
            b == reach * unit,
    ;
    assert(0 < unit * unit) by (nonlinear_arith)
        requires
            0 < unit,
    ;
    let area = unit * unit;
    assert(4 * sum <= reach * reach) by (nonlinear_arith)
        requires
            4 * (sum * area) <= (reach * reach) * area,
            0 < area,
    ;
}

/// Every pixel on the ball lies within the shown circle up to the rounding of a
/// pixel and a half, and within its box up to that of one pixel. The radius has
/// to be in range, as a circle of pixels.
pub proof fn hits_lie_in_the_region(pos: Position, scale: PixelScale, x: i32, y: i32)
    requires
        on_ball(pos, scale, x as int, y as int),
        in_pixel_range(BALL_RADIUS as int, scale),
    ensures
        ({
            let bounds = region_of(pos, scale);
            &&& bounds.left - 1 <= x <= bounds.right + 1
            &&& bounds.top - 1 <= y <= bounds.bottom + 1
        }),
        ({
            let radius = pixel_of(BALL_RADIUS as int, scale);
            let dx = x - pixel_of(pos.x as int, scale);
            let dy = y - pixel_of(pos.y as int, scale);
            4 * (dx * dx + dy * dy) <= (2 * radius + 3) * (2 * radius + 3)
        }),
{
    let unit = pixel_unit();
    let f = scale.fraction as int;
    let dx = x * unit - pos.x * f;
    let dy = y * unit - pos.y * f;
    let radius = BALL_RADIUS * f;
    if dx < -radius || dx > radius {
        outside_means_larger_square(dx, dy, radius);
    }
    if dy < -radius || dy > radius {
        outside_means_larger_square(dy, dx, radius);
    }
    region_is_a_circle(pos, scale);
    rounding_is_nearest(radius, unit);
    rounding_is_nearest(pos.x * f, unit);
    rounding_is_nearest(pos.y * f, unit);

    let (cx, cy) = (rounded(pos.x * f, unit), rounded(pos.y * f, unit));
    let (px, py) = (x - cx, y - cy);
    let r = rounded(radius, unit);
    a_nudge_adds_less_than_a_unit(
        dx,
        dy,
        pos.x * f - cx * unit,
        pos.y * f - cy * unit,
        radius,
        unit,
    );
    assert(px * unit == x * unit - cx * unit && py * unit == y * unit - cy * unit);
    saturation_comes_closer(x as int, cx);
    saturation_comes_closer(y as int, cy);
    squares_in_pixels(px, py, r, radius, unit);
}

/// A pixel is hit exactly where its distance from the centre of the ball is at
/// most the radius, both measured in physical pixels and multiplied out, and at a
/// scale of zero nowhere.
pub proof fn a_hit_is_within_the_radius(pos: Position, scale: PixelScale, x: int, y: int)
    ensures
        ({
            let unit = 4_294_967_296_000_000_000int;
            let dx = x * unit - pos.x * scale.fraction;
            let dy = y * unit - pos.y * scale.fraction;
            let radius = BALL_RADIUS * scale.fraction;
            &&& scale.fraction == 0 ==> !on_ball(pos, scale, x, y)
            &&& scale.fraction > 0 ==> (on_ball(pos, scale, x, y) <==> dx * dx + dy * dy <= radius
                * radius)
        }),
{
}

/// At a whole number of pixels per point and with the ball at a whole number of
/// points, the pixels that are hit are those of a circle of 180 points.
pub proof fn hits_fill_a_circle_of_points(
    across: int,
    down: int,
    pixels_per_point: int,
    x: int,
    y: int,
)
    requires
        0 < pixels_per_point * SCALE_ONE <= u64::MAX,
        i64::MIN <= across * NANOS <= i64::MAX,
        i64::MIN <= down * NANOS <= i64::MAX,
    ensures
        ({
            let pos = Position { x: (across * NANOS) as i64, y: (down * NANOS) as i64 };
            let scale = PixelScale { fraction: (pixels_per_point * SCALE_ONE) as u64 };
            let dx = x - across * pixels_per_point;
            let dy = y - down * pixels_per_point;
            on_ball(pos, scale, x, y) <==> dx * dx + dy * dy <= (180 * pixels_per_point) * (180
                * pixels_per_point)
        }),
{
    let unit = 4_294_967_296_000_000_000int;
    let k = pixels_per_point;
    let pos = Position { x: (across * NANOS) as i64, y: (down * NANOS) as i64 };
    let scale = PixelScale { fraction: (k * SCALE_ONE) as u64 };
    let (dx, dy, r) = (x - across * k, y - down * k, 180 * k);
    assert((across * 1_000_000_000) * (k * 4_294_967_296) == (across * k)
        * 4_294_967_296_000_000_000) by (nonlinear_arith);
    assert((down * 1_000_000_000) * (k * 4_294_967_296) == (down * k) * 4_294_967_296_000_000_000)
        by (nonlinear_arith);
    assert(BALL_RADIUS * scale.fraction == r * unit);
    assert((dx * unit) * (dx * unit) + (dy * unit) * (dy * unit) == (dx * dx + dy * dy) * (unit
        * unit) && (r * unit) * (r * unit) == (r * r) * (unit * unit)) by (nonlinear_arith);
    let (sum, square, area) = (dx * dx + dy * dy, r * r, unit * unit);
    assert(0 < area) by (nonlinear_arith)
        requires
            area == unit * unit,
            unit > 0,
    ;
    assert(sum * area <= square * area <==> sum <= square) by (nonlinear_arith)
        requires
            0 < area,
    ;
}

/// Every pixel that lies within the shown circle, two pixels or more inside its
/// edge, is on the ball: a click there is never missed. The centre has to be in
/// range.
pub proof fn the_shown_circle_is_hit(pos: Position, scale: PixelScale, x: i32, y: i32)
    requires
        in_pixel_range(pos.x as int, scale),
        in_pixel_range(pos.y as int, scale),
        ({
            let bounds = region_of(pos, scale);
            let radius = (bounds.right - bounds.left) / 2;
            let dx = x - (bounds.left + radius);
            let dy = y - (bounds.top + radius);
            radius >= 2 && dx * dx + dy * dy <= (radius - 2) * (radius - 2)
        }),
    ensures
        on_ball(pos, scale, x as int, y as int),
{
    let unit = pixel_unit();
    let f = scale.fraction as int;
    let radius = BALL_RADIUS * f;
    let r = pixel_of(BALL_RADIUS as int, scale);
    let (cx, cy) = (rounded(pos.x * f, unit), rounded(pos.y * f, unit));
    let (px, py) = (x - cx, y - cy);
    region_is_a_circle(pos, scale);
    rounding_is_nearest(radius, unit);
    rounding_is_nearest(pos.x * f, unit);
    rounding_is_nearest(pos.y * f, unit);
    let reach = (r - 2) * unit;
    assert((px * unit) * (px * unit) + (py * unit) * (py * unit) == (px * px + py * py) * (unit
        * unit)) by (nonlinear_arith);
    assert(reach * reach == ((r - 2) * (r - 2)) * (unit * unit)) by (nonlinear_arith)
        requires
            reach == (r - 2) * unit,
    ;
    let (sum, square) = (px * px + py * py, (r - 2) * (r - 2));
    assert(sum * (unit * unit) <= square * (unit * unit)) by (nonlinear_arith)
        requires
            sum <= square,
    ;
    a_nudge_adds_less_than_a_unit(
        px * unit,
        py * unit,
        cx * unit - pos.x * f,
        cy * unit - pos.y * f,
        reach,
        unit,
    );
    let near = reach + unit;
    assert(near * near <= radius * radius) by (nonlinear_arith)
        requires
            0 <= near <= radius,
    ;
    assert(f > 0) by (nonlinear_arith)
        requires
            f >= 0,
            BALL_RADIUS * f > 0,
    ;
}

/// Where the ball is does not matter: ball and cursor moved together by whole
/// pixels meet as they did before.
pub proof fn hits_move_with_the_ball(
    pos: Position,
    moved: Position,
    scale: PixelScale,
    x: int,
    y: int,
    right: int,
    down: int,
)
    requires
        moved.x * scale.fraction - pos.x * scale.fraction == right * 4_294_967_296_000_000_000,
        moved.y * scale.fraction - pos.y * scale.fraction == down * 4_294_967_296_000_000_000,
    ensures
        on_ball(moved, scale, x + right, y + down) == on_ball(pos, scale, x, y),
{
    assert((x + right) * pixel_unit() - moved.x * scale.fraction == x * pixel_unit() - pos.x
        * scale.fraction);
    assert((y + down) * pixel_unit() - moved.y * scale.fraction == y * pixel_unit() - pos.y
        * scale.fraction);
}

/// All directions are alike: ball and cursor mirrored at an edge of the screen,
/// or with their axes swapped, meet as they did before.
pub proof fn hits_are_alike_in_all_directions(pos: Position, scale: PixelScale, x: int, y: int)
    requires
        pos.x != i64::MIN,
    ensures
        on_ball(Position { x: (-pos.x) as i64, y: pos.y }, scale, -x, y) == on_ball(
            pos,
            scale,
            x,
            y,
        ),
        on_ball(Position { x: pos.y, y: pos.x }, scale, y, x) == on_ball(pos, scale, x, y),
{
    let mirrored = Position { x: (-pos.x) as i64, y: pos.y };
    let f = scale.fraction as int;
    let dx = x * pixel_unit() - pos.x * f;
    assert((-pos.x) * f == -(pos.x * f)) by (nonlinear_arith);
    assert((-x) * pixel_unit() - mirrored.x * f == -dx);
    assert((-dx) * (-dx) == dx * dx) by (nonlinear_arith);
}

/// Whoever hits the ball also hits it from nearer by.
pub proof fn nearer_pixels_are_hit_too(
    pos: Position,
    scale: PixelScale,
    x: int,
    y: int,
    nearer_x: int,
    nearer_y: int,
)
    requires
        on_ball(pos, scale, x, y),
        ({
            let unit = 4_294_967_296_000_000_000int;
            let (cx, cy) = (pos.x * scale.fraction, pos.y * scale.fraction);
            (nearer_x * unit - cx) * (nearer_x * unit - cx) + (nearer_y * unit - cy) * (nearer_y
                * unit - cy) <= (x * unit - cx) * (x * unit - cx) + (y * unit - cy) * (y * unit
                - cy)
        }),
    ensures
        on_ball(pos, scale, nearer_x, nearer_y),
{
}

} // verus!
