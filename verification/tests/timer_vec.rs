use context_steering::timer::{Timer, TimerMode};
use context_steering::vec2::{isqrt, Vec2i};

#[test]
fn once_timer_finishes_exactly_once() {
    let mut t = Timer::from_millis(200, TimerMode::Once);
    t.tick(150);
    assert!(!t.finished());
    assert!(!t.just_finished());
    t.tick(100);
    assert!(t.finished());
    assert!(t.just_finished());
    t.tick(100);
    assert!(t.finished());
    assert!(!t.just_finished()); // stays finished, but only reported once
}

#[test]
fn repeating_timer_wraps_and_reports_the_wrap() {
    let mut t = Timer::from_millis(100, TimerMode::Repeating);
    t.tick(60);
    assert!(!t.just_finished());
    t.tick(60);
    assert!(t.just_finished());
    assert_eq!(t.elapsed_ms, 20); // 120 wrapped around 100
    t.tick(50);
    assert!(!t.just_finished());
}

#[test]
fn timer_percent_is_permille_of_duration() {
    let mut t = Timer::from_millis(200, TimerMode::Once);
    t.tick(50);
    assert_eq!(t.percent(), 250);
    assert_eq!(t.percent_left(), 750);
    t.tick(500);
    assert_eq!(t.percent(), 1000);
}

#[test]
fn timer_reset_and_set_duration() {
    let mut t = Timer::from_millis(100, TimerMode::Repeating);
    t.tick(100);
    assert!(t.just_finished());
    t.reset();
    assert_eq!(t.elapsed_ms, 0);
    assert!(!t.just_finished());
    t.tick(70);
    t.set_duration(50);
    assert_eq!(t.elapsed_ms, 0); // 70 did not fit under the new duration
}

#[test]
fn isqrt_brackets_perfect_squares() {
    assert_eq!(isqrt(0), 0);
    assert_eq!(isqrt(1), 1);
    assert_eq!(isqrt(3), 1);
    assert_eq!(isqrt(4), 2);
    assert_eq!(isqrt(40000), 200);
    assert_eq!(isqrt(40001), 200);
    assert_eq!(isqrt(u64::MAX), 4_294_967_295);
}

#[test]
fn length_and_distance_use_integer_square_roots() {
    let a = Vec2i::new(3, 4);
    assert_eq!(a.length(), 5);
    assert_eq!(Vec2i::new(0, 0).length(), 0);
    assert_eq!(Vec2i::new(200, 0).distance(Vec2i::new(0, 0)), 200);
    assert_eq!(Vec2i::new(0, 0).distance_squared(Vec2i::new(10, 10)), 200);
}

#[test]
fn normalize_scales_to_unit_box_and_keeps_zero() {
    assert_eq!(Vec2i::new(0, 0).normalize_or_zero(), Vec2i::new(0, 0));
    assert_eq!(Vec2i::new(500, 0).normalize_or_zero(), Vec2i::new(1000, 0));
    assert_eq!(Vec2i::new(0, -70).normalize_or_zero(), Vec2i::new(0, -1000));
    let d = Vec2i::new(30, 40).normalize_or_zero();
    assert_eq!(d, Vec2i::new(600, 800));
}

#[test]
fn scaled_multiplies_by_a_fixed_point_factor() {
    let d = Vec2i::new(1000, -500);
    assert_eq!(d.scaled(40), Vec2i::new(40, -20));
    assert_eq!(d.scaled(0), Vec2i::new(0, 0));
}
