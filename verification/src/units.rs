//! Lengths and scales as integers.
//!
//! A logical length is counted in nanopoints and a time in nanoseconds, so
//! a speed in points per second is also one in nanopoints per nanosecond and
//! motion is exact. The number of physical pixels in one logical point is
//! counted in steps of 2^-32.

use vstd::prelude::*;

verus! {

/// Nanopoints in one logical point.
pub const NANOS: i64 = 1_000_000_000;

/// The scale at which one point covers one physical pixel.
pub const SCALE_ONE: u64 = 4_294_967_296;

/// Physical pixels per logical point, in steps of 2^-32.
#[derive(Clone, Copy, PartialEq, Eq, Structural, Debug)]
pub struct PixelScale {
    pub fraction: u64,
}

/// `numerator / denominator` rounded to the nearest integer, halves away from
/// zero.
#[verifier::inline]
pub open spec fn rounded(numerator: int, denominator: int) -> int {
    if numerator >= 0 {
        (2 * numerator + denominator) / (2 * denominator)
    } else {
        -((2 * -numerator + denominator) / (2 * denominator))
    }
}

/// One physical pixel in nanopoints at the finest scale: `NANOS` times
/// `SCALE_ONE`.
#[verifier::inline]
pub open spec fn pixel_unit() -> int {
    4_294_967_296_000_000_000
}

/// `value` moved to the closest end of the `i32` range where it lies outside.
pub open spec fn saturated(value: int) -> int {
    if value > i32::MAX {
        i32::MAX as int
    } else if value < i32::MIN {
        i32::MIN as int
    } else {
        value
    }
}

/// The whole physical pixel closest to a logical length.
pub open spec fn pixel_of(nanopoints: int, scale: PixelScale) -> int {
    saturated(rounded(nanopoints * scale.fraction, pixel_unit()))
}

/// Rounding misses the exact quotient by half a unit at most, and a quotient
/// that lies halfway between two integers goes to the one farther from zero.
pub proof fn rounding_is_nearest(numerator: int, denominator: int)
    requires
        denominator > 0,
    ensures
        -denominator <= 2 * (numerator - rounded(numerator, denominator) * denominator)
            <= denominator,
        2 * (numerator - rounded(numerator, denominator) * denominator) == denominator
            ==> numerator < 0,
        2 * (numerator - rounded(numerator, denominator) * denominator) == -denominator
            ==> numerator > 0,
{
    let magnitude = if numerator >= 0 {
        numerator
    } else {
        -numerator
    };
    let dividend = 2 * magnitude + denominator;
    let quotient = dividend / (2 * denominator);
    vstd::arithmetic::div_mod::lemma_fundamental_div_mod(dividend, 2 * denominator);
    vstd::arithmetic::div_mod::lemma_mod_bound(dividend, 2 * denominator);
    assert((2 * denominator) * quotient == 2 * (quotient * denominator)) by (nonlinear_arith);
    assert((-quotient) * denominator == -(quotient * denominator)) by (nonlinear_arith);
    if numerator == 0 {
        vstd::arithmetic::div_mod::lemma_basic_div(dividend, 2 * denominator);
        assert(quotient * denominator == 0);
    }
}

/// Scaling a longer length never gives an earlier pixel.
pub proof fn rounding_is_monotone(smaller: int, larger: int, denominator: int)
    requires
        smaller <= larger,
        denominator > 0,
    ensures
        rounded(smaller, denominator) <= rounded(larger, denominator),
{
    rounding_is_nearest(smaller, denominator);
    rounding_is_nearest(larger, denominator);
    let low = rounded(smaller, denominator);
    let high = rounded(larger, denominator);
    if low > high {
        assert(low * denominator >= high * denominator + denominator) by (nonlinear_arith)
            requires
                low >= high + 1,
                denominator > 0,
        ;
    }
}

/// The whole physical pixel closest to a logical length, halves away from zero,
/// kept within the range of the result.
pub fn to_pixel(nanopoints: i64, scale: PixelScale) -> (pixel: i32)
    ensures
        pixel == pixel_of(nanopoints as int, scale),
{
    let magnitude: u128 = if nanopoints < 0 {
        (-(nanopoints as i128)) as u128
    } else {
        nanopoints as u128
    };
    let fraction: u128 = scale.fraction as u128;
    assert(0 <= magnitude * fraction <= 0x8000_0000_0000_0000 * 0xffff_ffff_ffff_ffff)
        by (nonlinear_arith)
        requires
            0 <= magnitude <= 0x8000_0000_0000_0000,
            0 <= fraction <= 0xffff_ffff_ffff_ffff,
    ;
    let product: u128 = magnitude * fraction;
    let unit: u128 = 1_000_000_000 * 4_294_967_296;
    let whole: u128 = product / unit;
    let nearest: u128 = if 2 * (product % unit) >= unit {
        whole + 1
    } else {
        whole
    };
    assert(nearest == (2 * product + pixel_unit()) / (2 * pixel_unit()));
    proof {
        let exact = nanopoints as int * scale.fraction as int;
        assert((-(magnitude as int)) * (fraction as int) == -(magnitude * fraction))
            by (nonlinear_arith);
        if nanopoints < 0 {
            assert(exact == -(product as int));
        } else {
            assert(exact == product);
        }
    }
    if nanopoints < 0 {
        if nearest > 0x8000_0000 {
            i32::MIN
        } else {
            (-(nearest as i64)) as i32
        }
    } else if nearest > 0x7fff_ffff {
        i32::MAX
    } else {
        nearest as i32
    }
}

/// No pixel in range lies nearer to the length than `pixel` does, and of two that
/// lie equally near it is the one farther from zero. A pixel is as wide as
/// `NANOS` nanopoints at `SCALE_ONE`, and the gap to a neighbour is measured from
/// the middle between the two.
pub open spec fn is_nearest_pixel(pixel: int, length: int, scale: PixelScale) -> bool {
    let unit = 4_294_967_296_000_000_000int;
    let twice = 2 * (length * scale.fraction);
    &&& i32::MIN <= pixel <= i32::MAX
    &&& pixel > i32::MIN ==> (2 * pixel - 1) * unit <= twice
    &&& pixel < i32::MAX ==> twice <= (2 * pixel + 1) * unit
    &&& pixel > i32::MIN && (2 * pixel - 1) * unit == twice ==> pixel > 0
    &&& pixel < i32::MAX && (2 * pixel + 1) * unit == twice ==> pixel < 0
}

/// The pixel of a length is the nearest one, at every scale.
pub proof fn the_nearest_pixel_is_taken(length: int, scale: PixelScale)
    ensures
        is_nearest_pixel(pixel_of(length, scale), length, scale),
{
    rounding_is_nearest(length * scale.fraction, pixel_unit());
}

/// A length has only one nearest pixel.
pub proof fn one_pixel_is_nearest(first: int, second: int, length: int, scale: PixelScale)
    requires
        is_nearest_pixel(first, length, scale),
        is_nearest_pixel(second, length, scale),
    ensures
        first == second,
{
}

/// At a whole number of pixels per point, whole points cover whole pixels.
pub proof fn whole_points_cover_whole_pixels(points: int, pixels_per_point: int)
    requires
        0 <= pixels_per_point * SCALE_ONE <= u64::MAX,
        i32::MIN <= points * pixels_per_point <= i32::MAX,
    ensures
        pixel_of(
            points * NANOS,
            PixelScale { fraction: (pixels_per_point * SCALE_ONE) as u64 },
        ) == points * pixels_per_point,
{
    let scale = PixelScale { fraction: (pixels_per_point * SCALE_ONE) as u64 };
    let pixel = points * pixels_per_point;
    assert((points * 1_000_000_000) * (pixels_per_point * 4_294_967_296) == (points
        * pixels_per_point) * 4_294_967_296_000_000_000) by (nonlinear_arith);
    the_nearest_pixel_is_taken(points * NANOS, scale);
    one_pixel_is_nearest(pixel_of(points * NANOS, scale), pixel, points * NANOS, scale);
}

} // verus!
