use pathtracer::focus::autofocus_distances;
use pathtracer::focus::probe_offsets;
use pathtracer::focus::FALLBACK_FOCUS_BITS;
use pathtracer::mesh::fan_triangles;

#[test]
fn probe_grid_is_five_by_five_centered() {
    let offsets = probe_offsets();
    assert_eq!(offsets.len(), 25);
    assert_eq!(offsets[0], (-2, -2));
    assert_eq!(offsets[12], (0, 0));
    assert_eq!(offsets[24], (2, 2));
}

#[test]
fn autofocus_keeps_hits_in_probe_order() {
    let ts = vec![
        None,
        Some(4.0f32.to_bits()),
        None,
        Some(6.0f32.to_bits()),
    ];
    let hits = autofocus_distances(&ts).expect("two probes hit");
    assert_eq!(hits, vec![4.0f32.to_bits(), 6.0f32.to_bits()]);
}

#[test]
fn autofocus_all_miss_falls_back() {
    let ts: Vec<Option<u32>> = vec![None; 25];
    assert!(autofocus_distances(&ts).is_none());
    assert_eq!(f32::from_bits(FALLBACK_FOCUS_BITS), 10.0);
}

#[test]
fn quad_fans_into_two_triangles() {
    let face = vec![1usize, 2, 3, 4];
    assert_eq!(fan_triangles(&face), vec![(0, 1, 2), (0, 2, 3)]);
}

#[test]
fn degenerate_faces_yield_nothing() {
    assert!(fan_triangles(&vec![5usize, 6]).is_empty());
    assert!(fan_triangles(&Vec::new()).is_empty());
}

#[test]
fn polygon_fan_is_anchored_at_first_vertex() {
    let face = vec![10usize, 11, 12, 13, 14, 15];
    let tris = fan_triangles(&face);
    assert_eq!(tris.len(), 4);
    for (k, tri) in tris.iter().enumerate() {
        assert_eq!(*tri, (9, 10 + k, 11 + k));
    }
}
