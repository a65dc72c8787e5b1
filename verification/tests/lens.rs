use std::collections::HashMap;

use egui::{Color32, TextureId};
use magnifier_ball::disc::{RINGS, SEGMENTS, TRIANGLE_COUNT, VERTEX_COUNT};
use magnifier_ball::lens::{build_lens_mesh, LensVertex, PROFILE_UNIT};

const WHITE: (u8, u8, u8, u8) = (255, 255, 255, 255);

#[test]
fn the_mesh_has_the_texture_and_no_vertices_yet() {
    let (mesh, vertices) = build_lens_mesh(TextureId::User(7));
    assert_eq!(mesh.texture_id, TextureId::User(7));
    assert!(mesh.vertices.is_empty());
    assert_eq!(vertices.len(), VERTEX_COUNT as usize);
    assert_eq!(mesh.indices.len(), 3 * TRIANGLE_COUNT as usize);
    assert_eq!(VERTEX_COUNT, 1 + RINGS * SEGMENTS);
    assert_eq!(TRIANGLE_COUNT, SEGMENTS + 2 * (RINGS - 1) * SEGMENTS);
}

#[test]
fn the_fan_surrounds_the_centre() {
    let (mesh, _) = build_lens_mesh(TextureId::Managed(1));
    assert_eq!(mesh.indices[..6], [0, 1, 2, 0, 2, 3]);
    assert_eq!(mesh.indices[285..288], [0, 96, 1]);
}

#[test]
fn quads_join_the_rings() {
    let (mesh, _) = build_lens_mesh(TextureId::Managed(1));
    assert_eq!(mesh.indices[288..294], [1, 97, 98, 1, 98, 2]);
    assert_eq!(mesh.indices[858..864], [96, 192, 97, 96, 97, 1]);
    assert_eq!(mesh.indices[15834..], [2592, 2688, 2593, 2592, 2593, 2497]);
}

#[test]
fn every_index_names_a_vertex_and_every_vertex_is_used() {
    let (mesh, vertices) = build_lens_mesh(TextureId::Managed(1));
    let mut used = vec![false; vertices.len()];
    for index in &mesh.indices {
        used[*index as usize] = true;
    }
    assert!(used.iter().all(|u| *u));
}

#[test]
fn only_rim_edges_belong_to_one_triangle() {
    let (mesh, _) = build_lens_mesh(TextureId::Managed(1));
    let mut edges: HashMap<(u32, u32), u32> = HashMap::new();
    for triangle in mesh.indices.chunks(3) {
        for k in 0..3 {
            *edges.entry((triangle[k], triangle[(k + 1) % 3])).or_insert(0) += 1;
        }
    }
    let first_rim = 1 + (RINGS - 1) * SEGMENTS;
    let mut rim = 0;
    for ((a, b), count) in &edges {
        assert_eq!(*count, 1);
        if !edges.contains_key(&(*b, *a)) {
            assert!(*a >= first_rim && *b >= first_rim);
            rim += 1;
        }
    }
    assert_eq!(rim, SEGMENTS);
}

#[test]
fn the_centre_shows_the_centre() {
    let (_, vertices) = build_lens_mesh(TextureId::Managed(1));
    assert_eq!(vertices[0], LensVertex { segment: 0, reach: 0, sample: 0, color: WHITE });
}

#[test]
fn the_rim_shows_the_rim() {
    let (_, vertices) = build_lens_mesh(TextureId::Managed(1));
    let last = vertices[vertices.len() - 1];
    assert_eq!(last, LensVertex { segment: 95, reach: 28 * 180, sample: 3_687_936, color: WHITE });
    assert_eq!(PROFILE_UNIT, 3_687_936);
}

#[test]
fn samples_follow_the_profile() {
    let (_, vertices) = build_lens_mesh(TextureId::Managed(1));
    // Ring 1: 28^3 + 5.
    assert_eq!(vertices[1], LensVertex { segment: 0, reach: 180, sample: 21_957, color: WHITE });
    // Ring 14, segment 3: 14 * 28^3 + 5 * 14^4.
    assert_eq!(
        vertices[1 + 13 * 96 + 3],
        LensVertex { segment: 3, reach: 2_520, sample: 499_408, color: WHITE }
    );
    for (v, vertex) in vertices.iter().enumerate().skip(1) {
        let r = ((v - 1) / 96 + 1) as f64 / 28.0;
        let exact = r / 6.0 + (5.0 / 6.0) * r.powi(4);
        let sample = vertex.sample as f64 / PROFILE_UNIT as f64;
        assert!((sample - exact).abs() < 1e-12);
    }
}

#[test]
fn the_profile_rises_ever_faster_and_stays_under_a_flat_zoom() {
    let (_, vertices) = build_lens_mesh(TextureId::Managed(1));
    let mut samples = vec![0u32];
    for ring in 0..28usize {
        samples.push(vertices[1 + ring * 96].sample);
    }
    for ring in 1..samples.len() {
        assert!(samples[ring] > samples[ring - 1]);
        if ring >= 2 {
            assert!(
                samples[ring] - samples[ring - 1] > samples[ring - 1] - samples[ring - 2]
            );
        }
        let (f, r) = (samples[ring] as u64 * 28, ring as u64 * PROFILE_UNIT as u64);
        assert!(f <= r && r <= 6 * f);
    }
}

#[test]
fn the_lens_is_untinted() {
    let (_, vertices) = build_lens_mesh(TextureId::Managed(1));
    for vertex in vertices {
        let (r, g, b, a) = vertex.color;
        assert_eq!(Color32::from_rgba_premultiplied(r, g, b, a), Color32::WHITE);
    }
}
