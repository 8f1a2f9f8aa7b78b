use pathtracer::intersect::closest_hit;
use pathtracer::intersect::closest_triangle;
use pathtracer::intersect::MESH_EPSILON_BITS;

fn bits(t: f32) -> Option<u32> {
    Some(t.to_bits())
}

#[test]
fn closest_hit_picks_nearest() {
    let ts = vec![None, bits(2.0), bits(0.5), bits(1.0)];
    assert_eq!(closest_hit(&ts), Some(2));
}

#[test]
fn closest_hit_all_miss_is_none() {
    let ts: Vec<Option<u32>> = vec![None, None, None];
    assert_eq!(closest_hit(&ts), None);
    let empty: Vec<Option<u32>> = Vec::new();
    assert_eq!(closest_hit(&empty), None);
}

#[test]
fn closest_hit_tie_goes_to_first() {
    let ts = vec![None, bits(1.0), bits(1.0)];
    assert_eq!(closest_hit(&ts), Some(1));
}

#[test]
fn closest_hit_tolerates_nan_distances() {
    // A NaN distance from degenerate geometry must neither panic nor be
    // preferred over a real hit: NaN sorts after infinity in the total order.
    let ts = vec![bits(f32::NAN), bits(3.0), bits(f32::INFINITY)];
    assert_eq!(closest_hit(&ts), Some(1));
    // With nothing but NaN, the scan still answers.
    let only_nan = vec![bits(f32::NAN)];
    assert_eq!(closest_hit(&only_nan), Some(0));
}

#[test]
fn closest_triangle_rejects_epsilon_and_infinity() {
    assert_eq!(MESH_EPSILON_BITS, 1e-4f32.to_bits());
    // At or below the epsilon: self-intersection noise, rejected.
    let ts = vec![bits(1e-4), bits(0.5e-4), bits(f32::INFINITY)];
    assert_eq!(closest_triangle(&ts), None);
}

#[test]
fn closest_triangle_picks_first_strictly_nearest() {
    let ts = vec![bits(2.0), None, bits(0.25), bits(0.25), bits(1e-5)];
    assert_eq!(closest_triangle(&ts), Some(2));
}
