use context_steering::behaviors::{
    avoid_group, avoid_obstacles, chase_group, chase_player, chase_targets, random_around_area,
    strafe_around, AvoidGroup, AvoidObstacles, ChaseGroup, ChasePlayer, ChaseTargets,
    ChaseThenStrageAround, Contact, GroupMember, RandomAroundArea,
};
use context_steering::context_map::{AddMethod, ContextMap, SEGMENT_COUNT};
use context_steering::steer::{update_ai_timer, update_steer_ai, SteerAi, SteerConfiguration, SteerDecision};
use context_steering::timer::{Timer, TimerMode};
use context_steering::vec2::Vec2i;

#[test]
fn weight_falloff_boundary_values() {
    let c = SteerConfiguration::new(10, 50);
    assert_eq!(c.get_weight(5), 1000); // 1.0 inside the minimum
    assert_eq!(c.get_weight(50), 0); // 0.0 at the maximum
    assert_eq!(c.get_weight(30), 400); // 0.4 linear falloff
    assert_eq!(c.get_weight(10), 800); // falloff starts at the minimum
}

#[test]
fn avoid_style_weight_matches_linear_falloff() {
    let b = AvoidObstacles(SteerConfiguration::new(10, 50));
    assert_eq!(b.weight(5), 1000);
    assert_eq!(b.weight(50), 0);
    assert_eq!(b.weight(30), 400);
    assert!(b.is_valid(&30));
    assert!(!b.is_valid(&50));
}

#[test]
fn is_in_distance_is_strict_on_both_bounds() {
    let c = SteerConfiguration::new(10, 50);
    assert!(!c.is_in_distance(10));
    assert!(c.is_in_distance(11));
    assert!(c.is_in_distance(49));
    assert!(!c.is_in_distance(50));
}

#[test]
fn timer_elapse_resets_both_maps() {
    let mut ai = SteerAi::new(100);
    ai.chase.add(Vec2i::new(1000, 0), AddMethod::Dot(1000));
    ai.avoid.add(Vec2i::new(0, 1000), AddMethod::Dot(500));
    update_ai_timer(&mut ai, 40);
    assert!(!ai.chase.is_empty()); // interval not yet elapsed
    update_ai_timer(&mut ai, 60);
    assert!(ai.chase.is_empty());
    assert!(ai.avoid.is_empty());
}

#[test]
fn steer_coasts_between_decisions() {
    let mut ai = SteerAi::new(100);
    ai.previous = Vec2i::new(0, 1000);
    update_ai_timer(&mut ai, 40);
    match update_steer_ai(&mut ai) {
        SteerDecision::Move(d) => assert_eq!(d, Vec2i::new(0, 1000)),
        _ => panic!("expected a coasting move"),
    }
}

#[test]
fn steer_idles_without_a_stored_direction() {
    let mut ai = SteerAi::new(100);
    update_ai_timer(&mut ai, 40);
    assert!(matches!(update_steer_ai(&mut ai), SteerDecision::Idle));
}

#[test]
fn steer_halts_when_masking_leaves_nothing() {
    let mut ai = SteerAi::new(100);
    ai.previous = Vec2i::new(1000, 0);
    update_ai_timer(&mut ai, 100); // elapses and clears the maps
    ai.chase.add(Vec2i::new(1000, 0), AddMethod::Dot(600));
    ai.avoid.add(Vec2i::new(1000, 0), AddMethod::Dot(1000));
    assert!(matches!(update_steer_ai(&mut ai), SteerDecision::Halt));
    assert_eq!(ai.previous, Vec2i::new(0, 0));
}

#[test]
fn steer_moves_along_unmasked_interest() {
    let mut ai = SteerAi::new(100);
    update_ai_timer(&mut ai, 100);
    ai.chase.add(Vec2i::new(1000, 0), AddMethod::Dot(1000));
    match update_steer_ai(&mut ai) {
        SteerDecision::Move(d) => {
            assert_eq!(d, Vec2i::new(1000, 0));
            assert_eq!(ai.previous, d);
        },
        _ => panic!("expected a move"),
    }
}

fn elapsed_ai() -> SteerAi {
    let mut ai = SteerAi::new(100);
    update_ai_timer(&mut ai, 100);
    ai
}

#[test]
fn avoid_obstacles_writes_away_weighted_interest() {
    let mut ai = elapsed_ai();
    let b = AvoidObstacles(SteerConfiguration::new(10, 50));
    // One obstacle 30 units to the right: weight 0.4 towards it.
    avoid_obstacles(Vec2i::new(0, 0), &mut ai, &b, &vec![Vec2i::new(30, 0)]);
    assert_eq!(ai.avoid.values[0], 400);
    assert_eq!(ai.avoid.values[6], 0);
    assert!(ai.chase.is_empty());
}

#[test]
fn avoid_obstacles_ignores_out_of_range_candidates() {
    let mut ai = elapsed_ai();
    let b = AvoidObstacles(SteerConfiguration::new(10, 50));
    avoid_obstacles(Vec2i::new(0, 0), &mut ai, &b, &vec![Vec2i::new(60, 0)]);
    assert!(ai.avoid.is_empty());
}

#[test]
fn avoid_obstacles_skips_between_ticks() {
    let mut ai = SteerAi::new(100);
    update_ai_timer(&mut ai, 40); // interval not elapsed
    let b = AvoidObstacles(SteerConfiguration::new(10, 50));
    avoid_obstacles(Vec2i::new(0, 0), &mut ai, &b, &vec![Vec2i::new(30, 0)]);
    assert!(ai.avoid.is_empty());
}

#[test]
fn avoid_group_skips_self_and_other_groups() {
    let mut ai = elapsed_ai();
    let b = AvoidGroup(SteerConfiguration::new(10, 50), 2);
    let others = vec![
        GroupMember { id: 1, group: 2, position: Vec2i::new(30, 0) }, // the agent itself
        GroupMember { id: 9, group: 3, position: Vec2i::new(30, 0) }, // wrong group
    ];
    avoid_group(1, Vec2i::new(0, 0), &mut ai, &b, &others);
    assert!(ai.avoid.is_empty());
    let member = vec![GroupMember { id: 5, group: 2, position: Vec2i::new(30, 0) }];
    avoid_group(1, Vec2i::new(0, 0), &mut ai, &b, &member);
    assert_eq!(ai.avoid.values[0], 400);
}

#[test]
fn chase_group_requires_band_and_group() {
    let mut ai = elapsed_ai();
    let b = ChaseGroup(SteerConfiguration::new(10, 50), 2);
    let near = vec![GroupMember { id: 5, group: 2, position: Vec2i::new(5, 0) }];
    chase_group(1, Vec2i::new(0, 0), &mut ai, &b, &near);
    assert!(ai.chase.is_empty()); // inside the minimum: not chased
    let mid = vec![GroupMember { id: 5, group: 2, position: Vec2i::new(30, 0) }];
    chase_group(1, Vec2i::new(0, 0), &mut ai, &b, &mid);
    assert_eq!(ai.chase.values[0], 400);
}

#[test]
fn chase_targets_only_follows_designated_ids() {
    let mut ai = elapsed_ai();
    let b = ChaseTargets(SteerConfiguration::new(10, 50), vec![7, 8]);
    let strangers = vec![Contact { id: 9, position: Vec2i::new(30, 0) }];
    chase_targets(Vec2i::new(0, 0), &mut ai, &b, &strangers);
    assert!(ai.chase.is_empty());
    let target = vec![Contact { id: 8, position: Vec2i::new(0, 30) }];
    chase_targets(Vec2i::new(0, 0), &mut ai, &b, &target);
    assert_eq!(ai.chase.values[3], 400);
}

#[test]
fn chase_player_writes_towards_the_player() {
    let mut ai = elapsed_ai();
    let b = ChasePlayer(SteerConfiguration::new(10, 50));
    chase_player(Vec2i::new(0, 0), &mut ai, &b, Vec2i::new(-30, 0));
    assert_eq!(ai.chase.values[6], 400);
    assert_eq!(ai.chase.values[0], 0);
}

#[test]
fn strafe_flips_to_inverted_dot_inside_minimum() {
    let mut ai = elapsed_ai();
    let b = ChaseThenStrageAround(SteerConfiguration::new(10, 50), 7);
    // Close in: 5 units away, inside the minimum; strafing weight 0.5.
    strafe_around(Vec2i::new(0, 0), &mut ai, &b, &vec![Contact { id: 7, position: Vec2i::new(5, 0) }]);
    // Inverted dot: the opposed segment carries the peak interest.
    assert!(ai.chase.values[6] > ai.chase.values[0]);
    let mut far_ai = elapsed_ai();
    strafe_around(Vec2i::new(0, 0), &mut far_ai, &b, &vec![Contact { id: 7, position: Vec2i::new(30, 0) }]);
    // Beyond the minimum: ordinary chase towards the target.
    assert_eq!(far_ai.chase.values[0], 400);
}

#[test]
fn random_around_area_heads_home_when_far() {
    let mut ai = elapsed_ai();
    let b = RandomAroundArea(Vec2i::new(0, 0), 100);
    // 300 units out: full weight straight back to the centre.
    random_around_area(Vec2i::new(300, 0), &mut ai, &b);
    assert_eq!(ai.chase.values[6], 1000);
    assert_eq!(ai.chase.values[0], 0);
}

#[test]
fn random_around_area_wanders_inside_the_area() {
    let mut ai = elapsed_ai();
    let b = RandomAroundArea(Vec2i::new(0, 0), 100);
    // 50 units out: weight 0.5 along some random direction.
    random_around_area(Vec2i::new(50, 0), &mut ai, &b);
    let peak = (0..SEGMENT_COUNT).map(|i| ai.chase.values[i]).max().unwrap();
    assert!(peak <= 500);
    for i in 0..SEGMENT_COUNT {
        assert!(ai.chase.values[i] >= 0);
    }
}

#[test]
fn steer_default_matches_hundred_millisecond_interval() {
    let ai = SteerAi::default();
    assert_eq!(ai.update_interval, Timer::from_millis(100, TimerMode::Repeating));
    assert_eq!(ai.previous, Vec2i::new(0, 0));
    assert!(ai.chase.is_empty());
    assert!(ai.avoid.is_empty());
}
