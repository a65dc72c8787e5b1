//! The lens: a textured disc that shows the captured desktop as a glass sphere
//! would.
//!
//! A vertex at the fraction `r` of the ball's radius takes its colour from the
//! fraction
//!
//!   f(r) = c * r + (1 - c) * r^p,  c = 1 / CENTER_MAGNIFICATION,  p = SPHERE_POWER
//!
//! of the captured radius. Both `r` and `f(r)` are fractions of integers on
//! every ring, so the profile is computed without rounding.

use vstd::arithmetic::power::pow;
use vstd::prelude::*;

use crate::disc::{add_disc, mesh_with_texture, RINGS, SEGMENTS, VERTEX_COUNT};
use crate::motion::BALL_RADIUS_POINTS;

verus! {

/// Magnification at the very centre of the ball.
pub const CENTER_MAGNIFICATION: u32 = 6;

/// How strongly the image is compressed toward the rim; 1 would be a flat zoom.
pub const SPHERE_POWER: u32 = 4;

/// The denominator of the profile on the rings of the disc.
pub const PROFILE_UNIT: u32 = 3_687_936;

/// The numerator of f(steps / unit).
pub open spec fn profile(steps: int, unit: int) -> int {
    steps * pow(unit, (SPHERE_POWER - 1) as nat) + (CENTER_MAGNIFICATION - 1) * pow(
        steps,
        SPHERE_POWER as nat,
    )
}

/// The denominator of f(steps / unit).
pub open spec fn profile_unit(unit: int) -> int {
    CENTER_MAGNIFICATION * pow(unit, SPHERE_POWER as nat)
}

/// A vertex of the lens in whole numbers.
///
/// It lies at the angle of `segment` parts in `SEGMENTS` of a full turn, at a
/// distance of `reach` parts in `RINGS` of a point from the centre of the ball,
/// and shows the captured image at `sample` parts in `PROFILE_UNIT` of the
/// captured radius, at the same angle. What it shows is multiplied by its
/// colour, as red, green, blue and alpha.
#[derive(Clone, Copy, PartialEq, Eq, Debug)]
pub struct LensVertex {
    pub segment: u32,
    pub reach: u32,
    pub sample: u32,
    pub color: (u8, u8, u8, u8),
}

/// The colour that changes nothing of what is shown.
pub open spec fn white() -> (u8, u8, u8, u8) {
    (255, 255, 255, 255)
}

/// Vertex `v` of the lens.
pub open spec fn lens_vertex(v: int) -> LensVertex {
    LensVertex {
        segment: crate::disc::segment_of(v) as u32,
        reach: (crate::disc::ring_of(v) * BALL_RADIUS_POINTS) as u32,
        sample: profile(crate::disc::ring_of(v), RINGS as int) as u32,
        color: white(),
    }
}

/// The powers that the profile is made of.
proof fn powers(x: int)
    ensures
        pow(x, 3) == x * x * x,
        pow(x, 4) == x * x * x * x,
{
    reveal(pow);
    reveal_with_fuel(pow, 5);
    assert(pow(x, 1) == x);
    assert(pow(x, 2) == x * x);
    assert(x * (x * x) == x * x * x) by (nonlinear_arith);
    assert(x * (x * x * x) == x * x * x * x) by (nonlinear_arith);
}

/// The profile on the rings of the disc, in parts of `PROFILE_UNIT`.
fn ring_sample(ring: u32) -> (sample: u32)
    requires
        ring <= RINGS,
    ensures
        sample == profile(ring as int, RINGS as int),
        sample <= PROFILE_UNIT,
        PROFILE_UNIT == profile_unit(RINGS as int),
{
    proof {
        powers(ring as int);
        powers(RINGS as int);
    }
    assert(ring * ring <= 784) by (nonlinear_arith)
        requires
            0 <= ring <= 28,
    ;
    let square: u32 = ring * ring;
    assert(square * square <= 614_656) by (nonlinear_arith)
        requires
            0 <= square <= 784,
    ;
    let fourth: u32 = square * square;
    assert(fourth == ring * ring * ring * ring) by (nonlinear_arith)
        requires
            fourth == square * square,
            square == ring * ring,
    ;
    let cube: u32 = RINGS * RINGS * RINGS;
    let weight: u32 = CENTER_MAGNIFICATION - 1;
    assert(cube == 21_952 && weight == 5);
    assert(ring * cube <= 614_656) by (nonlinear_arith)
        requires
            0 <= ring <= 28,
            cube == 21_952,
    ;
    assert(weight * fourth <= 3_073_280) by (nonlinear_arith)
        requires
            0 <= fourth <= 614_656,
            weight == 5,
    ;
    ring * cube + weight * fourth
}

/// The lens with the given texture: its triangles as a mesh that has no
/// vertices yet, and the vertices that belong into it, in order. Every vertex is
/// opaque white, so the capture is shown untinted.
pub fn build_lens_mesh(texture: egui::TextureId) -> (lens: (egui::Mesh, Vec<LensVertex>))
    ensures
        crate::disc::mesh_texture(lens.0) == texture,
        crate::disc::mesh_vertex_count(lens.0) == 0,
        crate::disc::mesh_indices(lens.0) == crate::disc::index_list(),
        lens.1@ == Seq::new(VERTEX_COUNT as nat, |v: int| lens_vertex(v)),
        forall|v: int| 0 <= v < lens.1@.len() ==> (#[trigger] lens.1@[v]).color == white(),
{
    let mut mesh: egui::Mesh = mesh_with_texture(texture);
    let mut vertices: Vec<LensVertex> = Vec::new();
    let centre: u32 = ring_sample(0);
    let color: (u8, u8, u8, u8) = (255, 255, 255, 255);
    vertices.push(LensVertex { segment: 0, reach: 0, sample: centre, color });
    let mut ring: u32 = 1;
    while ring <= RINGS
        invariant
            1 <= ring <= RINGS + 1,
            color == white(),
            vertices@.len() == 1 + (ring - 1) * SEGMENTS,
            forall|v: int| 0 <= v < vertices@.len() ==> vertices@[v] == lens_vertex(v),
        decreases RINGS + 1 - ring,
    {
        let sample: u32 = ring_sample(ring);
        let reach: u32 = ring * BALL_RADIUS_POINTS;
        let mut seg: u32 = 0;
        while seg < SEGMENTS
            invariant
                1 <= ring <= RINGS,
                seg <= SEGMENTS,
                color == white(),
                sample == profile(ring as int, RINGS as int),
                reach == ring * BALL_RADIUS_POINTS,
                vertices@.len() == 1 + (ring - 1) * SEGMENTS + seg,
                forall|v: int| 0 <= v < vertices@.len() ==> vertices@[v] == lens_vertex(v),
            decreases SEGMENTS - seg,
        {
            vertices.push(LensVertex { segment: seg, reach, sample, color });
            seg = seg + 1;
        }
        ring = ring + 1;
    }
    add_disc(&mut mesh);
    assert forall|v: int| 0 <= v < vertices@.len() implies (#[trigger] vertices@[v]).color
        == white() by {
        assert(vertices@[v] == lens_vertex(v));
    }
    (mesh, vertices)
}

/// The centre of the ball shows the centre of the capture, and its edge shows
/// the edge of the capture: there is no seam.
pub proof fn profile_meets_centre_and_rim(unit: int)
    ensures
        profile(0, unit) == 0,
        profile(unit, unit) == profile_unit(unit),
{
    powers(0);
    powers(unit);
    assert(unit * (unit * unit * unit) == unit * unit * unit * unit) by (nonlinear_arith);
}

/// The profile depends on the fraction of the radius alone, not on the unit in
/// which the fraction is written.
pub proof fn profile_depends_on_the_fraction(steps: int, unit: int, factor: int)
    ensures
        profile(factor * steps, factor * unit) * profile_unit(unit) == profile(steps, unit)
            * profile_unit(factor * unit),
{
    powers(steps);
    powers(unit);
    powers(factor * steps);
    powers(factor * unit);
    let k4 = factor * factor * factor * factor;
    let (s, u, k) = (steps, unit, factor);
    assert((k * s) * ((k * u) * (k * u) * (k * u)) == k4 * (s * (u * u * u))) by (nonlinear_arith)
        requires
            k4 == k * k * k * k,
    ;
    assert((k * s) * (k * s) * (k * s) * (k * s) == k4 * (s * s * s * s)) by (nonlinear_arith)
        requires
            k4 == k * k * k * k,
    ;
    assert((k * u) * (k * u) * (k * u) * (k * u) == k4 * (u * u * u * u)) by (nonlinear_arith)
        requires
            k4 == k * k * k * k,
    ;
    let linear = s * (u * u * u);
    let s4 = s * s * s * s;
    let u4 = u * u * u * u;
    assert((k4 * linear + 5 * (k4 * s4)) * (6 * u4) == (linear + 5 * s4) * (6 * (k4 * u4)))
        by (nonlinear_arith);
}

/// Farther out on the ball the sample lies farther out in the capture: the
/// image is never folded over itself.
pub proof fn profile_rises(inner: int, outer: int, unit: int)
    requires
        0 <= inner < outer,
        unit > 0,
    ensures
        profile(inner, unit) < profile(outer, unit),
{
    powers(inner);
    powers(outer);
    powers(unit);
    let cube = unit * unit * unit;
    assert(cube > 0) by (nonlinear_arith)
        requires
            unit > 0,
            cube == unit * unit * unit,
    ;
    assert(inner * cube < outer * cube) by (nonlinear_arith)
        requires
            inner < outer,
            cube > 0,
    ;
    let a = inner * inner;
    let b = outer * outer;
    assert(0 <= a <= b) by (nonlinear_arith)
        requires
            0 <= inner < outer,
            a == inner * inner,
            b == outer * outer,
    ;
    assert(a * a <= b * b) by (nonlinear_arith)
        requires
            0 <= a <= b,
    ;
    assert(inner * inner * inner * inner == a * a) by (nonlinear_arith)
        requires
            a == inner * inner,
    ;
    assert(outer * outer * outer * outer == b * b) by (nonlinear_arith)
        requires
            b == outer * outer,
    ;
}

/// Each step outward moves the sample farther than the step before it did:
/// the image is large in the middle and compressed toward the rim.
pub proof fn profile_steps_grow(steps: int, unit: int)
    requires
        0 <= steps,
    ensures
        profile(steps + 1, unit) - profile(steps, unit) < profile(steps + 2, unit) - profile(
            steps + 1,
            unit,
        ),
{
    powers(steps);
    powers(steps + 1);
    powers(steps + 2);
    let cube = pow(unit, 3);
    let s = steps;
    assert((s + 1) * cube == s * cube + cube) by (nonlinear_arith);
    assert((s + 2) * cube == s * cube + 2 * cube) by (nonlinear_arith);
    let (s2, s3, s4) = (s * s, s * s * s, s * s * s * s);
    assert((s + 1) * (s + 1) * (s + 1) * (s + 1) == s4 + 4 * s3 + 6 * s2 + 4 * s + 1)
        by (nonlinear_arith)
        requires
            s2 == s * s,
            s3 == s * s * s,
            s4 == s * s * s * s,
    ;
    assert((s + 2) * (s + 2) * (s + 2) * (s + 2) == s4 + 8 * s3 + 24 * s2 + 32 * s + 16)
        by (nonlinear_arith)
        requires
            s2 == s * s,
            s3 == s * s * s,
            s4 == s * s * s * s,
    ;
    assert(s2 >= 0) by (nonlinear_arith)
        requires
            s2 == s * s,
    ;
}

/// The profile as the sum of its two terms: the flat one, and the one that bends
/// the image, which is the smaller within the ball.
proof fn profile_is_flat_and_bent(steps: int, unit: int) -> (terms: (int, int))
    requires
        0 <= steps <= unit,
    ensures
        terms.0 == (steps * (unit * unit * unit)) * unit,
        terms.1 == (steps * (steps * steps * steps)) * unit,
        profile(steps, unit) * unit == terms.0 + 5 * terms.1,
        steps * profile_unit(unit) == 6 * terms.0,
        0 <= steps * steps * steps <= steps * (unit * unit),
        0 <= terms.1 <= terms.0,
{
    powers(steps);
    powers(unit);
    let (s, u) = (steps, unit);
    let (s3, u3) = (s * s * s, u * u * u);
    let flat = (s * u3) * u;
    let bent = (s * s3) * u;
    assert(s * s * s * s == s * s3 && u * u * u * u == u3 * u) by (nonlinear_arith)
        requires
            s3 == s * s * s,
            u3 == u * u * u,
    ;
    assert((s * u3 + 5 * (s * s3)) * u == flat + 5 * bent) by (nonlinear_arith)
        requires
            flat == (s * u3) * u,
            bent == (s * s3) * u,
    ;
    assert(s * (6 * (u3 * u)) == 6 * flat) by (nonlinear_arith)
        requires
            flat == (s * u3) * u,
    ;
    assert(0 <= s * s <= u * u) by (nonlinear_arith)
        requires
            0 <= s <= u,
    ;
    assert(0 <= s3 <= s * (u * u) <= u3) by (nonlinear_arith)
        requires
            0 <= s <= u,
            0 <= s * s <= u * u,
            s3 == s * s * s,
            u3 == u * u * u,
    ;
    assert(0 <= s * s3 <= s * u3) by (nonlinear_arith)
        requires
            0 <= s,
            0 <= s3 <= u3,
    ;
    assert(0 <= bent <= flat) by (nonlinear_arith)
        requires
            0 <= u,
            0 <= s * s3 <= s * u3,
            flat == (s * u3) * u,
            bent == (s * s3) * u,
    ;
    (flat, bent)
}

/// The sample lies between `c * r` and `r`: nothing is shown smaller than it
/// is, and nothing is magnified more than the centre.
pub proof fn profile_lies_between_flat_zooms(steps: int, unit: int)
    requires
        0 <= steps <= unit,
    ensures
        profile(steps, unit) * unit <= steps * profile_unit(unit),
        steps * profile_unit(unit) <= CENTER_MAGNIFICATION * (profile(steps, unit) * unit),
{
    profile_is_flat_and_bent(steps, unit);
}

/// The slope of the profile at the centre is `c`, so the magnification there is
/// `CENTER_MAGNIFICATION`: within the fraction `part / whole` of the radius,
/// f(r) / r exceeds `c` by no more than `part / whole`.
pub proof fn centre_slope_is_the_magnification(steps: int, unit: int, part: int, whole: int)
    requires
        0 < steps <= unit,
        0 < whole,
        steps * whole <= part * unit,
    ensures
        0 <= (CENTER_MAGNIFICATION * (profile(steps, unit) * unit) - steps * profile_unit(unit))
            * whole <= part * (CENTER_MAGNIFICATION * (steps * profile_unit(unit))),
{
    let (flat, bent) = profile_is_flat_and_bent(steps, unit);
    let (s, u) = (steps, unit);
    let (s3, u2) = (s * s * s, u * u);
    let excess = 30 * bent;
    assert(excess == CENTER_MAGNIFICATION * (profile(s, u) * u) - s * profile_unit(u));
    assert(part > 0) by (nonlinear_arith)
        requires
            0 < s <= u,
            0 < whole,
            s * whole <= part * u,
    ;
    let s3u = s3 * u;
    assert(bent * whole == s3u * (s * whole)) by (nonlinear_arith)
        requires
            bent == (s * s3) * u,
            s3u == s3 * u,
    ;
    assert(s3u * (s * whole) <= s3u * (part * u)) by (nonlinear_arith)
        requires
            0 <= s3,
            0 < u,
            s3u == s3 * u,
            s * whole <= part * u,
    ;
    assert(s3u * (part * u) == (part * u2) * s3) by (nonlinear_arith)
        requires
            s3u == s3 * u,
            u2 == u * u,
    ;
    assert((part * u2) * s3 <= (part * u2) * (s * u2)) by (nonlinear_arith)
        requires
            0 < part,
            u2 == u * u,
            s3 <= s * u2,
    ;
    assert((part * u2) * (s * u2) == part * flat) by (nonlinear_arith)
        requires
            flat == (s * (u * u * u)) * u,
            u2 == u * u,
    ;
    assert(excess * whole == 30 * (bent * whole)) by (nonlinear_arith)
        requires
            excess == 30 * bent,
    ;
    assert(part * (6 * (6 * flat)) == 36 * (part * flat)) by (nonlinear_arith);
    assert(0 <= excess * whole) by (nonlinear_arith)
        requires
            0 <= excess,
            0 < whole,
    ;
    assert(0 <= part * flat) by (nonlinear_arith)
        requires
            0 < part,
            0 <= flat,
    ;
}

/// The numbers of a vertex are exact, its sample never leaves the captured
/// circle, and the outermost ring lies on the edge of the ball and shows the
/// edge of the capture.
pub proof fn lens_vertices_fit_the_ball(v: int)
    requires
        0 <= v < VERTEX_COUNT,
    ensures
        PROFILE_UNIT == profile_unit(RINGS as int),
        lens_vertex(v).segment == crate::disc::segment_of(v),
        lens_vertex(v).reach == crate::disc::ring_of(v) * BALL_RADIUS_POINTS,
        lens_vertex(v).sample == profile(crate::disc::ring_of(v), RINGS as int),
        lens_vertex(v).segment < SEGMENTS,
        lens_vertex(v).reach <= RINGS * BALL_RADIUS_POINTS,
        lens_vertex(v).sample <= PROFILE_UNIT,
        crate::disc::ring_of(v) == RINGS ==> lens_vertex(v).reach == RINGS * BALL_RADIUS_POINTS
            && lens_vertex(v).sample == PROFILE_UNIT,
{
    let ring = crate::disc::ring_of(v);
    powers(RINGS as int);
    profile_meets_centre_and_rim(RINGS as int);
    if 0 < ring {
        profile_rises(0, ring, RINGS as int);
    }
    if ring < RINGS {
        profile_rises(ring, RINGS as int, RINGS as int);
    }
}

/// The vertices, place by place: the centre first, and then ring by ring the 96
/// vertices of each. One at the fraction `ring / 28` of the radius lies `ring`
/// times 180 parts in 28 of a point from the centre, and shows the capture at
/// (ring * 28^3 + 5 * ring^4) / (6 * 28^4) of its radius.
pub proof fn vertices_stand_in_order(ring: int, segment: int)
    requires
        1 <= ring <= 28,
        0 <= segment < 96,
    ensures
        lens_vertex(0).segment == 0 && lens_vertex(0).reach == 0 && lens_vertex(0).sample == 0,
        ({
            let vertex = lens_vertex(1 + (ring - 1) * 96 + segment);
            &&& vertex.segment == segment
            &&& vertex.reach == 180 * ring
            &&& vertex.sample == ring * 21_952 + 5 * (ring * ring * ring * ring)
            &&& vertex.color == (255u8, 255u8, 255u8, 255u8)
        }),
        PROFILE_UNIT == 6 * (28 * 28 * 28 * 28),
{
    let v = 1 + (ring - 1) * 96 + segment;
    powers(ring);
    powers(28);
    powers(0);
    lens_vertices_fit_the_ball(0);
    lens_vertices_fit_the_ball(v);
}

} // verus!
