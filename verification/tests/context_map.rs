use context_steering::context_map::{get_closest, get_max, AddMethod, ContextMap, SEGMENT_COUNT};
use context_steering::vec2::Vec2i;

#[test]
fn fresh_map_is_empty_with_zero_bins() {
    let m = ContextMap::new();
    assert!(m.is_empty());
    for i in 0..SEGMENT_COUNT {
        assert_eq!(m.values[i], 0);
    }
}

#[test]
fn add_writes_cosine_falloff_around_direction() {
    let mut m = ContextMap::new();
    m.add(Vec2i::new(1000, 0), AddMethod::Dot(1000));
    assert_eq!(m.values[0], 1000);
    assert_eq!(m.values[1], 866);
    assert_eq!(m.values[2], 500);
    assert_eq!(m.values[3], 0);
    assert_eq!(m.values[6], 0);
    assert_eq!(m.values[11], 866);
    assert!(!m.is_empty());
}

#[test]
fn add_twice_with_same_arguments_changes_nothing() {
    let mut once = ContextMap::new();
    once.add(Vec2i::new(866, 500), AddMethod::Dot(700));
    let mut twice = ContextMap::new();
    twice.add(Vec2i::new(866, 500), AddMethod::Dot(700));
    twice.add(Vec2i::new(866, 500), AddMethod::Dot(700));
    assert_eq!(once.values, twice.values);
}

#[test]
fn add_with_larger_weight_replaces_never_sums() {
    let mut m = ContextMap::new();
    m.add(Vec2i::new(1000, 0), AddMethod::Dot(500));
    assert_eq!(m.values[0], 500);
    m.add(Vec2i::new(1000, 0), AddMethod::Dot(800));
    let mut single = ContextMap::new();
    single.add(Vec2i::new(1000, 0), AddMethod::Dot(800));
    assert_eq!(m.values, single.values);
    assert_eq!(m.values[0], 800);
}

#[test]
fn add_with_smaller_weight_keeps_stronger_interest() {
    let mut m = ContextMap::new();
    m.add(Vec2i::new(1000, 0), AddMethod::Dot(800));
    m.add(Vec2i::new(1000, 0), AddMethod::Dot(300));
    assert_eq!(m.values[0], 800);
}

#[test]
fn add_dot_with_minimum_keeps_floor_on_opposed_directions() {
    let mut m = ContextMap::new();
    m.add(Vec2i::new(1000, 0), AddMethod::DotWithMinimum(1000, 500));
    // Segment 0 is aligned: weight * (minimum + dot * minimum) = 1.0.
    assert_eq!(m.values[0], 1000);
    // Segment 6 is opposed: the floor clamps at zero.
    assert_eq!(m.values[6], 0);
    // Segment 3 is orthogonal: exactly the floor contribution.
    assert_eq!(m.values[3], 500);
}

#[test]
fn add_dot_inverted_favours_opposed_directions() {
    let mut m = ContextMap::new();
    m.add(Vec2i::new(1000, 0), AddMethod::DotInverted(1000));
    // Aligned: |1 - 1| = 0; opposed: |1 + 1| = 2.
    assert_eq!(m.values[0], 0);
    assert_eq!(m.values[6], 2000);
    assert_eq!(m.values[3], 1000);
}

#[test]
fn mask_subtracts_and_clamps_at_zero() {
    let mut a = ContextMap::new();
    a.add(Vec2i::new(1000, 0), AddMethod::Dot(1000));
    let mut b = ContextMap::new();
    b.add(Vec2i::new(1000, 0), AddMethod::Dot(600));
    let masked = a.mask(&b);
    for i in 0..SEGMENT_COUNT {
        assert!(masked.values[i] >= 0);
    }
    assert_eq!(masked.values[0], 400);
    let over = b.mask(&a);
    for i in 0..SEGMENT_COUNT {
        assert_eq!(over.values[i], 0);
    }
}

#[test]
fn mask_by_empty_map_is_identity() {
    let mut a = ContextMap::new();
    a.add(Vec2i::new(500, 866), AddMethod::Dot(900));
    let empty = ContextMap::new();
    let masked = a.mask(&empty);
    assert_eq!(masked.values, a.values);
}

#[test]
fn get_vector_on_empty_map_returns_zero_vector() {
    let m = ContextMap::new();
    let zero = Vec2i::zero();
    let v = m.get_vector(&zero, 2);
    assert_eq!(v, Vec2i::new(0, 0));
    let prev = Vec2i::new(1000, 0);
    let v2 = m.get_vector(&prev, 2);
    assert_eq!(v2, Vec2i::new(0, 0));
}

#[test]
fn get_vector_points_along_dominant_window() {
    let mut m = ContextMap::new();
    m.add(Vec2i::new(1000, 0), AddMethod::Dot(1000));
    let zero = Vec2i::zero();
    let v = m.get_vector(&zero, 2);
    assert_eq!(v, Vec2i::new(1000, 0));
    let prev = Vec2i::new(0, 1000);
    let v2 = m.get_vector(&prev, 2);
    assert_eq!(v2, Vec2i::new(1000, 0));
}

#[test]
fn get_index_offset_wraps_around_the_circle() {
    let m = ContextMap::new();
    assert_eq!(m.get_index_offset(0, -1), 11);
    assert_eq!(m.get_index_offset(11, 2), 1);
    assert_eq!(m.get_index_offset(5, 0), 5);
    assert_eq!(m.get_index_offset(0, 12), 0);
}

#[test]
fn get_max_prefers_lowest_index_on_ties() {
    let mut m = ContextMap::new();
    m.values[3] = 700;
    m.values[7] = 700;
    m.values[1] = 200;
    assert_eq!(get_max(&m), 3);
    let empty = ContextMap::new();
    assert_eq!(get_max(&empty), 0);
}

#[test]
fn get_closest_picks_first_nonzero_bin_for_zero_probe() {
    let mut m = ContextMap::new();
    m.values[4] = 10;
    m.values[8] = 900;
    assert_eq!(get_closest(Vec2i::zero(), &m), Some(4));
    assert_eq!(get_closest(Vec2i::zero(), &ContextMap::new()), None);
}

#[test]
fn get_closest_follows_probe_direction() {
    let mut m = ContextMap::new();
    m.values[0] = 5;
    m.values[3] = 5;
    // The probe points up: segment 3 has the larger dot product.
    assert_eq!(get_closest(Vec2i::new(0, 1000), &m), Some(3));
}
