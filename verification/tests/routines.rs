use context_steering::events::{EventAttackFinished, EventDistanceExited, EventDistanceReached};
use context_steering::routines::{
    update_attack_routine, update_follow_routine, update_rush_routine, AttackRoutine, AttackState,
    AttackType, FollowRoutine, RushRoutine, PROJECTILE_SPEED, SPRITE_DRAW_SIZE,
};
use context_steering::skills::SkillUsedEvent;
use context_steering::vec2::Vec2i;

#[test]
fn follow_on_boundary_fires_no_event_and_targets_player() {
    // Agent at (200, 0), player at the origin, trigger distance 200:
    // the boundary itself is not "below", so no event; the elapsed
    // timer still issues the player's position as the target.
    let mut f = FollowRoutine::new(100, 200);
    let out = update_follow_routine(&mut f, 1, Vec2i::new(200, 0), Vec2i::new(0, 0), 100);
    assert_eq!(out.reached, None);
    assert!(!out.clear_target);
    assert_eq!(out.new_target, Some(Vec2i::new(0, 0)));
}

#[test]
fn follow_below_threshold_emits_exactly_one_reached() {
    let mut f = FollowRoutine::new(100, 200);
    let out = update_follow_routine(&mut f, 1, Vec2i::new(199, 0), Vec2i::new(0, 0), 30);
    assert_eq!(out.reached, Some(EventDistanceReached { distance: 200, parent: 1 }));
    assert!(out.clear_target);
    assert_eq!(out.new_target, None); // 30 ms: the 100 ms timer has not elapsed
}

#[test]
fn follow_timer_only_retargets_on_the_elapsing_tick() {
    let mut f = FollowRoutine::new(100, 200);
    let out1 = update_follow_routine(&mut f, 1, Vec2i::new(300, 0), Vec2i::new(0, 0), 60);
    assert_eq!(out1.new_target, None);
    let out2 = update_follow_routine(&mut f, 1, Vec2i::new(300, 0), Vec2i::new(5, 5), 60);
    assert_eq!(out2.new_target, Some(Vec2i::new(5, 5)));
    let out3 = update_follow_routine(&mut f, 1, Vec2i::new(300, 0), Vec2i::new(9, 9), 60);
    assert_eq!(out3.new_target, None);
}

#[test]
fn rush_watches_lower_bound_while_dashing() {
    let mut r = RushRoutine::new(500, 80, 200);
    // A target is set: only the lower bound is watched, the timer is idle.
    let out = update_rush_routine(&mut r, 2, Vec2i::new(79, 0), Vec2i::new(0, 0), true, 500);
    assert_eq!(out.reached, Some(EventDistanceReached { distance: 80, parent: 2 }));
    assert_eq!(out.exited, None);
    assert_eq!(out.new_target, None);
    assert!(!out.start_dash);
    let out2 = update_rush_routine(&mut r, 2, Vec2i::new(100, 0), Vec2i::new(0, 0), true, 500);
    assert_eq!(out2.reached, None);
}

#[test]
fn rush_impulse_targets_player_and_engages_dash() {
    let mut r = RushRoutine::new(500, 80, 200);
    let out = update_rush_routine(&mut r, 2, Vec2i::new(150, 0), Vec2i::new(0, 0), false, 500);
    assert_eq!(out.exited, None); // 150 is within the upper bound
    assert_eq!(out.new_target, Some(Vec2i::new(0, 0)));
    assert!(out.start_dash);
}

#[test]
fn rush_impulse_reports_an_escaped_player() {
    let mut r = RushRoutine::new(500, 80, 200);
    let out = update_rush_routine(&mut r, 2, Vec2i::new(300, 0), Vec2i::new(0, 0), false, 500);
    assert_eq!(out.exited, Some(EventDistanceExited { distance: 200, parent: 2 }));
    assert!(out.start_dash);
}

#[test]
fn rush_jitter_stays_inside_the_offset_box() {
    for _ in 0..50 {
        let mut r = RushRoutine::new(500, 80, 200).with_offset(Vec2i::new(50, 50));
        let out = update_rush_routine(&mut r, 2, Vec2i::new(150, 0), Vec2i::new(100, 100), false, 500);
        let t = out.new_target.expect("impulse must pick a target");
        assert!(t.x >= 50 && t.x < 150, "jittered x out of box: {}", t.x);
        assert!(t.y >= 50 && t.y < 150, "jittered y out of box: {}", t.y);
    }
}

#[test]
fn rush_between_impulses_does_nothing() {
    let mut r = RushRoutine::new(500, 80, 200);
    let out = update_rush_routine(&mut r, 2, Vec2i::new(150, 0), Vec2i::new(0, 0), false, 100);
    assert_eq!(out.reached, None);
    assert_eq!(out.exited, None);
    assert_eq!(out.new_target, None);
    assert!(!out.start_dash);
}

#[test]
fn attack_cycle_fires_exactly_one_spawn_and_one_closing_event() {
    // Start 200 ms, finish 100 ms, fixed 100 ms frames; player stays
    // in range, so the cycle must end in AttackFinished, never both.
    let mut a = AttackRoutine::new(AttackType::Slash, 200, 100, 80);
    let agent = Vec2i::new(40, 0);
    let player = Vec2i::new(0, 0);
    let mut spawns: u32 = 0;
    let mut finished: u32 = 0;
    let mut exited: u32 = 0;
    for _ in 0..4 {
        let out = update_attack_routine(&mut a, 3, agent, player, true, 100);
        if out.skill.is_some() {
            spawns += 1;
        }
        if out.finished.is_some() {
            finished += 1;
        }
        if out.exited.is_some() {
            exited += 1;
        }
        assert!(!(out.finished.is_some() && out.exited.is_some()));
    }
    assert_eq!(spawns, 1);
    assert_eq!(finished, 1);
    assert_eq!(exited, 0);
    assert_eq!(a.state, AttackState::Finish);
}

#[test]
fn attack_cycle_reports_a_fled_player() {
    let mut a = AttackRoutine::new(AttackType::Slash, 200, 100, 80);
    let agent = Vec2i::new(0, 0);
    let player = Vec2i::new(300, 0); // far outside the 80-unit band
    let mut events = Vec::new();
    for _ in 0..4 {
        let out = update_attack_routine(&mut a, 3, agent, player, true, 100);
        if let Some(e) = out.exited {
            events.push(e);
        }
        assert_eq!(out.finished, None);
    }
    assert_eq!(events, vec![EventDistanceExited { distance: 80, parent: 3 }]);
}

#[test]
fn attack_spawn_flies_towards_the_player() {
    let mut a = AttackRoutine::new(AttackType::Slash, 200, 100, 80);
    let agent = Vec2i::new(40, 0);
    let player = Vec2i::new(0, 0);
    // Wind up fully, then fire.
    update_attack_routine(&mut a, 3, agent, player, true, 200);
    assert_eq!(a.state, AttackState::Spawn);
    let out = update_attack_routine(&mut a, 3, agent, player, true, 100);
    match out.skill {
        Some(SkillUsedEvent::Slash(d)) => {
            // The player is to the left: a unit direction scaled by the
            // projectile speed.
            assert_eq!(d.velocity, Vec2i::new(-1000 * PROJECTILE_SPEED, 0));
            // Spawned one sprite length in front of the agent.
            assert_eq!(d.position, Vec2i::new(40 - SPRITE_DRAW_SIZE, 0));
        },
        _ => panic!("expected a slash spawn"),
    }
    assert_eq!(a.state, AttackState::Finish);
}

#[test]
fn fireball_flies_at_six_tenths_speed() {
    let mut a = AttackRoutine::new(AttackType::Fireball, 800, 400, 220);
    let agent = Vec2i::new(0, 0);
    let player = Vec2i::new(200, 0);
    update_attack_routine(&mut a, 3, agent, player, false, 800);
    let out = update_attack_routine(&mut a, 3, agent, player, false, 100);
    match out.skill {
        Some(SkillUsedEvent::Fireball(d)) => {
            assert_eq!(d.velocity, Vec2i::new(1000 * (PROJECTILE_SPEED * 6 / 10), 0));
        },
        _ => panic!("expected a fireball spawn"),
    }
}

#[test]
fn attack_wind_up_rotates_the_weapon() {
    let mut a = AttackRoutine::new(AttackType::Slash, 200, 100, 80);
    let out = update_attack_routine(&mut a, 3, Vec2i::new(40, 0), Vec2i::new(0, 0), true, 100);
    assert_eq!(out.weapon_rotation, Some(500)); // half wound up, facing left
    assert_eq!(a.state, AttackState::Start);
    let mut b = AttackRoutine::new(AttackType::Slash, 200, 100, 80);
    let out2 = update_attack_routine(&mut b, 3, Vec2i::new(40, 0), Vec2i::new(0, 0), false, 100);
    assert_eq!(out2.weapon_rotation, Some(-500)); // mirrored when facing right
}

#[test]
fn attack_reset_starts_the_cycle_over() {
    let mut a = AttackRoutine::new(AttackType::Slash, 200, 100, 80);
    update_attack_routine(&mut a, 3, Vec2i::new(40, 0), Vec2i::new(0, 0), true, 200);
    update_attack_routine(&mut a, 3, Vec2i::new(40, 0), Vec2i::new(0, 0), true, 100);
    assert_eq!(a.state, AttackState::Finish);
    a.reset();
    assert_eq!(a.state, AttackState::Start);
    assert_eq!(a.timer_start.elapsed_ms, 0);
    assert_eq!(a.timer_finish.elapsed_ms, 0);
}

#[test]
fn attack_finished_event_names_the_agent() {
    let mut a = AttackRoutine::new(AttackType::Slash, 200, 100, 80);
    let agent = Vec2i::new(40, 0);
    let player = Vec2i::new(0, 0);
    update_attack_routine(&mut a, 9, agent, player, true, 200);
    update_attack_routine(&mut a, 9, agent, player, true, 100);
    let out = update_attack_routine(&mut a, 9, agent, player, true, 100);
    assert_eq!(out.finished, Some(EventAttackFinished { parent: 9 }));
}
