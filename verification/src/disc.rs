//! The shape of the lens: which vertices the disc has and which triangles join
//! them.
//!
//! The disc has one centre vertex and `RINGS` concentric rings of `SEGMENTS`
//! vertices each. A fan of triangles joins the centre to the first ring and a
//! strip of quads joins each ring to the one around it.

use vstd::prelude::*;

verus! {

/// The triangle mesh of `egui`.
#[verifier::external_type_specification]
#[verifier::external_body]
pub struct ExMesh(egui::Mesh);

/// The texture handle of `egui`.
#[verifier::external_type_specification]
#[verifier::external_body]
pub struct ExTextureId(egui::TextureId);

/// The index list of a mesh, three entries for each triangle.
pub uninterp spec fn mesh_indices(mesh: egui::Mesh) -> Seq<u32>;

/// The number of vertices in a mesh.
pub uninterp spec fn mesh_vertex_count(mesh: egui::Mesh) -> nat;

/// The texture that a mesh is drawn with.
pub uninterp spec fn mesh_texture(mesh: egui::Mesh) -> egui::TextureId;

/// Calls `egui::Mesh::with_texture`: the new mesh has that texture and neither
/// vertices nor indices.
#[verifier::external_body]
pub(crate) fn mesh_with_texture(texture: egui::TextureId) -> (mesh: egui::Mesh)
    ensures
        mesh_texture(mesh) == texture,
        mesh_vertex_count(mesh) == 0,
        mesh_indices(mesh) == Seq::<u32>::empty(),
{
    egui::Mesh::with_texture(texture)
}

/// Calls `egui::Mesh::add_triangle`: the three indices go to the end of the
/// index list, in order, and the rest of the mesh stays as it is.
#[verifier::external_body]
fn add_triangle(mesh: &mut egui::Mesh, a: u32, b: u32, c: u32)
    ensures
        mesh_indices(*final(mesh)) == mesh_indices(*old(mesh)).push(a).push(b).push(c),
        mesh_vertex_count(*final(mesh)) == mesh_vertex_count(*old(mesh)),
        mesh_texture(*final(mesh)) == mesh_texture(*old(mesh)),
{
    mesh.add_triangle(a, b, c)
}

/// Concentric rings of vertices around the centre.
pub const RINGS: u32 = 28;

/// Vertices on each ring.
pub const SEGMENTS: u32 = 96;

/// Vertices of the disc.
pub const VERTEX_COUNT: u32 = 2_689;

/// Triangles of the disc.
pub const TRIANGLE_COUNT: u32 = 5_280;

/// The place in the vertex list of the vertex at `segment` of ring `ring`.
/// Ring 0 is the centre.
pub open spec fn vertex_at(ring: int, segment: int) -> int {
    if ring == 0 {
        0
    } else {
        1 + (ring - 1) * SEGMENTS + segment
    }
}

/// The ring on which vertex `v` of the list lies.
pub open spec fn ring_of(v: int) -> int {
    if v == 0 {
        0
    } else {
        1 + (v - 1) / SEGMENTS as int
    }
}

/// The segment at which vertex `v` of the list lies.
pub open spec fn segment_of(v: int) -> int {
    if v == 0 {
        0
    } else {
        (v - 1) % SEGMENTS as int
    }
}

/// The segment after `segment` on its ring.
pub open spec fn following(segment: int) -> int {
    (segment + 1) % SEGMENTS as int
}

/// The triangle of the fan that starts at `segment` of the first ring.
pub open spec fn fan_triangle(segment: int) -> (int, int, int) {
    (0, vertex_at(1, segment), vertex_at(1, following(segment)))
}

/// The half of a quad that has two corners on the outer ring.
pub open spec fn outer_half(ring: int, segment: int) -> (int, int, int) {
    (
        vertex_at(ring, segment),
        vertex_at(ring + 1, segment),
        vertex_at(ring + 1, following(segment)),
    )
}

/// The half of a quad that has two corners on the inner ring.
pub open spec fn inner_half(ring: int, segment: int) -> (int, int, int) {
    (
        vertex_at(ring, segment),
        vertex_at(ring + 1, following(segment)),
        vertex_at(ring, following(segment)),
    )
}

/// The triangles in the order in which they are drawn: the fan, then the quads
/// ring by ring, the outer half of each before its inner half.
pub open spec fn triangle(t: int) -> (int, int, int) {
    if t < SEGMENTS {
        fan_triangle(t)
    } else {
        let quad = (t - SEGMENTS) / 2;
        let ring = 1 + quad / SEGMENTS as int;
        let segment = quad % SEGMENTS as int;
        if (t - SEGMENTS) % 2 == 0 {
            outer_half(ring, segment)
        } else {
            inner_half(ring, segment)
        }
    }
}

/// Corner `k` of triangle `t`.
pub open spec fn corner(t: int, k: int) -> int {
    if k == 0 {
        triangle(t).0
    } else if k == 1 {
        triangle(t).1
    } else {
        triangle(t).2
    }
}

/// `indices` is made of the first `count` triangles.
pub open spec fn holds_triangles(indices: Seq<u32>, count: nat) -> bool {
    &&& indices.len() == 3 * count
    &&& forall|i: int| 0 <= i < indices.len() ==> #[trigger] indices[i] == corner(i / 3, i % 3)
}

/// The flat index list: three corners for each triangle.
pub open spec fn index_list() -> Seq<u32> {
    Seq::new(3 * TRIANGLE_COUNT as nat, |i: int| corner(i / 3, i % 3) as u32)
}

/// Adds the triangles of the disc to a mesh that has none.
pub(crate) fn add_disc(mesh: &mut egui::Mesh)
    requires
        mesh_indices(*old(mesh)).len() == 0,
    ensures
        mesh_indices(*final(mesh)) == index_list(),
        mesh_texture(*final(mesh)) == mesh_texture(*old(mesh)),
        mesh_vertex_count(*final(mesh)) == mesh_vertex_count(*old(mesh)),
{
    let ghost texture = mesh_texture(*mesh);
    let ghost vertices = mesh_vertex_count(*mesh);
    let mut seg: u32 = 0;
    while seg < SEGMENTS
        invariant
            seg <= SEGMENTS,
            holds_triangles(mesh_indices(*mesh), seg as nat),
            mesh_texture(*mesh) == texture,
            mesh_vertex_count(*mesh) == vertices,
        decreases SEGMENTS - seg,
    {
        let v_curr: u32 = 1 + seg;
        let v_next: u32 = 1 + (seg + 1) % SEGMENTS;
        add_triangle(mesh, 0, v_curr, v_next);
        seg = seg + 1;
    }
    let mut ring: u32 = 1;
    while ring < RINGS
        invariant
            1 <= ring <= RINGS,
            holds_triangles(mesh_indices(*mesh), quad_place(ring as int, 0) as nat),
            mesh_texture(*mesh) == texture,
            mesh_vertex_count(*mesh) == vertices,
        decreases RINGS - ring,
    {
        let base_inner: u32 = 1 + (ring - 1) * SEGMENTS;
        let base_outer: u32 = 1 + ring * SEGMENTS;
        let mut seg: u32 = 0;
        while seg < SEGMENTS
            invariant
                1 <= ring < RINGS,
                seg <= SEGMENTS,
                base_inner == vertex_at(ring as int, 0),
                base_outer == vertex_at(ring + 1, 0),
                holds_triangles(mesh_indices(*mesh), quad_place(ring as int, seg as int) as nat),
                mesh_texture(*mesh) == texture,
                mesh_vertex_count(*mesh) == vertices,
            decreases SEGMENTS - seg,
        {
            let next_seg: u32 = (seg + 1) % SEGMENTS;
            let i_curr: u32 = base_inner + seg;
            let i_next: u32 = base_inner + next_seg;
            let o_curr: u32 = base_outer + seg;
            let o_next: u32 = base_outer + next_seg;
            proof {
                quad_stands_in_its_place(ring as int, seg as int);
            }
            add_triangle(mesh, i_curr, o_curr, o_next);
            add_triangle(mesh, i_curr, o_next, i_next);
            seg = seg + 1;
        }
        ring = ring + 1;
    }
}

/// The directed edge that leaves corner `k` of triangle `t`.
pub open spec fn edge(t: int, k: int) -> (int, int) {
    (corner(t, k), corner(t, (k + 1) % 3))
}

/// Whether `t` and `k` name an edge of the disc.
pub open spec fn names_edge(t: int, k: int) -> bool {
    0 <= t < TRIANGLE_COUNT && 0 <= k < 3
}

/// The edge from `a` to `b` runs along the outermost ring in the direction of
/// rising segments.
pub open spec fn on_rim(a: int, b: int) -> bool {
    &&& ring_of(a) == RINGS
    &&& b == vertex_at(RINGS as int, following(segment_of(a)))
}

/// The place in the triangle list of the outer half of a quad; its inner half
/// comes next.
pub open spec fn quad_place(ring: int, segment: int) -> int {
    SEGMENTS + 2 * ((ring - 1) * SEGMENTS + segment)
}

/// The segment before `segment` on its ring.
pub open spec fn preceding(segment: int) -> int {
    (segment + SEGMENTS - 1) % SEGMENTS as int
}

/// The triangle, and the corner of it, from which the edge from `a` to `b`
/// leaves, where there is one.
pub open spec fn edge_owner(a: int, b: int) -> (int, int) {
    let (ring, segment) = (ring_of(a), segment_of(a));
    let (ring_b, segment_b) = (ring_of(b), segment_of(b));
    if ring == 0 {
        (segment_b, 0)
    } else if ring_b == 0 {
        (preceding(segment), 2)
    } else if ring == ring_b {
        if segment_b == following(segment) {
            if ring == 1 {
                (segment, 1)
            } else {
                (quad_place(ring - 1, segment), 1)
            }
        } else {
            (quad_place(ring, segment_b) + 1, 2)
        }
    } else if ring < ring_b {
        if segment == segment_b {
            (quad_place(ring, segment), 0)
        } else {
            (quad_place(ring, segment) + 1, 0)
        }
    } else {
        if segment == segment_b {
            (quad_place(ring_b, preceding(segment)) + 1, 1)
        } else {
            (quad_place(ring_b, segment_b), 2)
        }
    }
}

/// Place and coordinates of a vertex determine each other.
proof fn vertex_coordinates(ring: int, segment: int)
    requires
        1 <= ring <= RINGS,
        0 <= segment < SEGMENTS,
    ensures
        ring_of(vertex_at(ring, segment)) == ring,
        segment_of(vertex_at(ring, segment)) == segment,
        1 <= vertex_at(ring, segment) < VERTEX_COUNT,
{
}

/// A triangle past the fan is one half of a quad.
proof fn quad_coordinates(t: int) -> (coordinates: (int, int))
    requires
        SEGMENTS <= t < TRIANGLE_COUNT,
    ensures
        1 <= coordinates.0 < RINGS,
        0 <= coordinates.1 < SEGMENTS,
        t == quad_place(coordinates.0, coordinates.1) ==> triangle(t) == outer_half(
            coordinates.0,
            coordinates.1,
        ),
        t == quad_place(coordinates.0, coordinates.1) + 1 ==> triangle(t) == inner_half(
            coordinates.0,
            coordinates.1,
        ),
        t == quad_place(coordinates.0, coordinates.1) || t == quad_place(
            coordinates.0,
            coordinates.1,
        ) + 1,
{
    let quad = (t - SEGMENTS) / 2;
    (1 + quad / SEGMENTS as int, quad % SEGMENTS as int)
}

/// Every index names a vertex of the disc, and the three corners of a triangle
/// are three different vertices.
pub proof fn triangles_join_three_vertices(t: int)
    requires
        0 <= t < TRIANGLE_COUNT,
    ensures
        0 <= triangle(t).0 < VERTEX_COUNT,
        0 <= triangle(t).1 < VERTEX_COUNT,
        0 <= triangle(t).2 < VERTEX_COUNT,
        triangle(t).0 != triangle(t).1,
        triangle(t).1 != triangle(t).2,
        triangle(t).2 != triangle(t).0,
{
    if t >= SEGMENTS {
        let (ring, segment) = quad_coordinates(t);
        vertex_coordinates(ring, segment);
        vertex_coordinates(ring, following(segment));
        vertex_coordinates(ring + 1, segment);
        vertex_coordinates(ring + 1, following(segment));
    }
}

/// Every vertex of the disc is a corner of some triangle.
pub proof fn every_vertex_is_drawn(v: int)
    requires
        0 <= v < VERTEX_COUNT,
    ensures
        exists|t: int, k: int| names_edge(t, k) && #[trigger] corner(t, k) == v,
{
    let ring = ring_of(v);
    let segment = segment_of(v);
    if v == 0 {
        assert(names_edge(0, 0) && corner(0, 0) == v);
    } else if ring == 1 {
        assert(names_edge(segment, 1) && corner(segment, 1) == v);
    } else {
        let t = quad_place(ring - 1, segment);
        assert(triangle(t) == outer_half(ring - 1, segment));
        assert(names_edge(t, 1) && corner(t, 1) == v);
    }
}

/// Steps along a ring never stand still, never turn back and can be undone.
proof fn steps_along_a_ring(segment: int)
    requires
        0 <= segment < SEGMENTS,
    ensures
        0 <= following(segment) < SEGMENTS,
        0 <= preceding(segment) < SEGMENTS,
        following(segment) != segment,
        following(following(segment)) != segment,
        preceding(following(segment)) == segment,
        following(preceding(segment)) == segment,
{
}

/// The edges of a triangle of the fan lead back to it.
proof fn fan_edges_have_their_owner(segment: int)
    requires
        0 <= segment < SEGMENTS,
    ensures
        ({
            let (a, b, c) = fan_triangle(segment);
            &&& edge_owner(a, b) == (segment, 0int)
            &&& edge_owner(b, c) == (segment, 1int)
            &&& edge_owner(c, a) == (segment, 2int)
        }),
{
    steps_along_a_ring(segment);
    vertex_coordinates(1, segment);
    vertex_coordinates(1, following(segment));
}

/// The edges of a quad's outer half lead back to it.
proof fn outer_edges_have_their_owner(ring: int, segment: int)
    requires
        1 <= ring < RINGS,
        0 <= segment < SEGMENTS,
    ensures
        ({
            let (a, b, c) = outer_half(ring, segment);
            let t = quad_place(ring, segment);
            &&& edge_owner(a, b) == (t, 0int)
            &&& edge_owner(b, c) == (t, 1int)
            &&& edge_owner(c, a) == (t, 2int)
        }),
{
    let next = following(segment);
    steps_along_a_ring(segment);
    vertex_coordinates(ring, segment);
    vertex_coordinates(ring + 1, segment);
    vertex_coordinates(ring + 1, next);
}

/// The edges of a quad's inner half lead back to it.
proof fn inner_edges_have_their_owner(ring: int, segment: int)
    requires
        1 <= ring < RINGS,
        0 <= segment < SEGMENTS,
    ensures
        ({
            let (a, b, c) = inner_half(ring, segment);
            let t = quad_place(ring, segment) + 1;
            &&& edge_owner(a, b) == (t, 0int)
            &&& edge_owner(b, c) == (t, 1int)
            &&& edge_owner(c, a) == (t, 2int)
        }),
{
    let next = following(segment);
    steps_along_a_ring(segment);
    vertex_coordinates(ring, segment);
    vertex_coordinates(ring, next);
    vertex_coordinates(ring + 1, next);
}

/// An edge leads back to the triangle that it came from.
proof fn edge_has_its_owner(t: int, k: int)
    requires
        names_edge(t, k),
    ensures
        edge_owner(edge(t, k).0, edge(t, k).1) == (t, k),
{
    if t < SEGMENTS {
        fan_edges_have_their_owner(t);
    } else {
        let (ring, segment) = quad_coordinates(t);
        if t == quad_place(ring, segment) {
            outer_edges_have_their_owner(ring, segment);
        } else {
            inner_edges_have_their_owner(ring, segment);
        }
    }
}

/// No directed edge occurs twice: two triangles never lie over each other along
/// an edge, and all of them turn the same way.
pub proof fn edges_occur_once(t: int, k: int, other_t: int, other_k: int)
    requires
        names_edge(t, k),
        names_edge(other_t, other_k),
        edge(t, k) == edge(other_t, other_k),
    ensures
        t == other_t,
        k == other_k,
{
    edge_has_its_owner(t, k);
    edge_has_its_owner(other_t, other_k);
}

/// The halves of a quad stand where its place says.
proof fn quad_stands_in_its_place(ring: int, segment: int)
    requires
        1 <= ring < RINGS,
        0 <= segment < SEGMENTS,
    ensures
        SEGMENTS <= quad_place(ring, segment),
        quad_place(ring, segment) + 1 < TRIANGLE_COUNT,
        triangle(quad_place(ring, segment)) == outer_half(ring, segment),
        triangle(quad_place(ring, segment) + 1) == inner_half(ring, segment),
{
    let first = quad_place(ring, segment);
    assert((first - SEGMENTS) / 2 == (ring - 1) * SEGMENTS + segment);
    assert((first + 1 - SEGMENTS) / 2 == (ring - 1) * SEGMENTS + segment);
}

/// The triangle on the other side of an edge that does not lie on the rim.
proof fn neighbour(t: int, k: int) -> (beyond: (int, int))
    requires
        names_edge(t, k),
        !on_rim(edge(t, k).0, edge(t, k).1),
    ensures
        names_edge(beyond.0, beyond.1),
        edge(beyond.0, beyond.1) == (edge(t, k).1, edge(t, k).0),
{
    if t < SEGMENTS {
        steps_along_a_ring(t);
        if k == 0 {
            (preceding(t), 2)
        } else if k == 1 {
            quad_stands_in_its_place(1, t);
            (quad_place(1, t) + 1, 2)
        } else {
            (following(t), 0)
        }
    } else {
        let (ring, segment) = quad_coordinates(t);
        let next = following(segment);
        let last = preceding(segment);
        steps_along_a_ring(segment);
        quad_stands_in_its_place(ring, segment);
        quad_stands_in_its_place(ring, next);
        quad_stands_in_its_place(ring, last);
        if t == quad_place(ring, segment) {
            if k == 0 {
                (quad_place(ring, last) + 1, 1)
            } else if k == 1 {
                vertex_coordinates(ring + 1, segment);
                quad_stands_in_its_place(ring + 1, segment);
                (quad_place(ring + 1, segment) + 1, 2)
            } else {
                (quad_place(ring, segment) + 1, 0)
            }
        } else {
            if k == 0 {
                (quad_place(ring, segment), 2)
            } else if k == 1 {
                (quad_place(ring, next), 0)
            } else if ring == 1 {
                (segment, 1)
            } else {
                quad_stands_in_its_place(ring - 1, segment);
                (quad_place(ring - 1, segment), 1)
            }
        }
    }
}

/// The disc has no seam and no hole: an edge is met from its other side by a
/// triangle exactly when it does not lie on the rim. With `edges_occur_once`,
/// every inner edge belongs to exactly two triangles and every rim edge to one.
pub proof fn inner_edges_are_shared(t: int, k: int)
    requires
        names_edge(t, k),
    ensures
        on_rim(edge(t, k).0, edge(t, k).1) <==> !exists|u: int, j: int|
            names_edge(u, j) && #[trigger] edge(u, j) == (edge(t, k).1, edge(t, k).0),
{
    let (a, b) = edge(t, k);
    if on_rim(a, b) {
        assert forall|u: int, j: int| names_edge(u, j) implies #[trigger] edge(u, j) != (b, a) by {
            if edge(u, j) == (b, a) {
                edge_has_its_owner(u, j);
                steps_along_a_ring(segment_of(a));
                vertex_coordinates(RINGS as int, following(segment_of(a)));
                assert(edge_owner(b, a) == (quad_place(RINGS as int, segment_of(a)) + 1, 2int));
            }
        }
    } else {
        let (u, j) = neighbour(t, k);
        assert(names_edge(u, j) && edge(u, j) == (b, a));
    }
}

/// The rim is the whole outermost ring: each of its steps is an edge of the
/// disc.
pub proof fn rim_is_the_outermost_ring(segment: int)
    requires
        0 <= segment < SEGMENTS,
    ensures
        on_rim(
            vertex_at(RINGS as int, segment),
            vertex_at(RINGS as int, following(segment)),
        ),
        exists|t: int, k: int|
            names_edge(t, k) && #[trigger] edge(t, k) == (
                vertex_at(RINGS as int, segment),
                vertex_at(RINGS as int, following(segment)),
            ),
{
    vertex_coordinates(RINGS as int, segment);
    quad_stands_in_its_place(RINGS - 1, segment);
    let t = quad_place(RINGS - 1, segment);
    assert(names_edge(t, 1) && edge(t, 1) == (
        vertex_at(RINGS as int, segment),
        vertex_at(RINGS as int, following(segment)),
    ));
}

/// The index list, place by place: first the fan, a triangle for each of the 96
/// steps round the first ring, then for each ring but the last and each step
/// round it the two triangles that join the step to the next ring. The last step
/// of a ring leads back to its first vertex.
pub proof fn indices_stand_in_order(ring: int, segment: int)
    requires
        1 <= ring < 28,
        0 <= segment < 96,
    ensures
        ({
            let next = if segment == 95 {
                0
            } else {
                segment + 1
            };
            let (inner, outer) = (1 + (ring - 1) * 96, 1 + ring * 96);
            let fan = 3 * segment;
            let quad = 3 * 96 + 6 * ((ring - 1) * 96 + segment);
            let list = index_list();
            &&& list.len() == 3 * 96 + 6 * 27 * 96
            &&& list[fan] == 0
            &&& list[fan + 1] == 1 + segment
            &&& list[fan + 2] == 1 + next
            &&& list[quad] == inner + segment
            &&& list[quad + 1] == outer + segment
            &&& list[quad + 2] == outer + next
            &&& list[quad + 3] == inner + segment
            &&& list[quad + 4] == outer + next
            &&& list[quad + 5] == inner + next
        }),
{
    let t = quad_place(ring, segment);
    quad_stands_in_its_place(ring, segment);
    triangles_join_three_vertices(segment);
    triangles_join_three_vertices(t);
    triangles_join_three_vertices(t + 1);
    let quad = 3 * t;
    assert((quad + 3) / 3 == t + 1 && (quad + 4) / 3 == t + 1 && (quad + 5) / 3 == t + 1);
    assert(corner(t, 0) == index_list()[quad] && corner(t, 1) == index_list()[quad + 1] && corner(
        t,
        2,
    ) == index_list()[quad + 2]);
}

} // verus!
