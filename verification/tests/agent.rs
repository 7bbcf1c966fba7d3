use context_steering::agent::{
    initialize_shooting_ai, initialize_simple_ai, update_ai_facing, update_ai_routines,
    update_dashing, update_shooting_ai, update_simple_ai, AiAgent, AiEvent, Routine,
    ATTACK_DISTANCE, DASH_SPEED_BONUS, RUSH_DISTANCE, RUSH_SPEED_BONUS,
};
use context_steering::events::{EventAttackFinished, EventDistanceExited, EventDistanceReached};
use context_steering::routines::{AttackState, AttackType};
use context_steering::vec2::Vec2i;

#[test]
fn initializer_installs_follow_once() {
    let mut a = AiAgent::new(1, 5000);
    initialize_simple_ai(&mut a);
    match &a.routine {
        Some(Routine::Follow(f)) => {
            assert_eq!(f.distance, RUSH_DISTANCE);
            assert_eq!(f.timer.duration_ms, 100);
        },
        _ => panic!("expected a follow routine"),
    }
    initialize_simple_ai(&mut a); // already running: left alone
    assert!(matches!(a.routine, Some(Routine::Follow(_))));
}

#[test]
fn facing_follows_the_player() {
    let mut a = AiAgent::new(1, 5000);
    update_ai_facing(&mut a, Vec2i::new(100, 0), Vec2i::new(0, 0));
    assert!(a.facing_left);
    update_ai_facing(&mut a, Vec2i::new(100, 0), Vec2i::new(200, 0));
    assert!(!a.facing_left);
}

#[test]
fn reached_event_in_attack_band_swaps_in_slash() {
    let mut a = AiAgent::new(1, 5000);
    initialize_simple_ai(&mut a);
    let ev = AiEvent::DistanceReached(EventDistanceReached { distance: 80, parent: 1 });
    update_simple_ai(&mut a, &ev);
    match &a.routine {
        Some(Routine::Attack(at)) => {
            assert!(matches!(at.attack_type, AttackType::Slash));
            assert_eq!(at.distance, ATTACK_DISTANCE);
            assert_eq!(at.timer_start.duration_ms, 200);
            assert_eq!(at.timer_finish.duration_ms, 100);
        },
        _ => panic!("expected an attack routine"),
    }
    assert!(a.target.is_none());
    assert!(a.dashing.is_none());
}

#[test]
fn reached_event_in_rush_band_swaps_in_rush_with_bonus() {
    let mut a = AiAgent::new(1, 5000);
    initialize_simple_ai(&mut a);
    let ev = AiEvent::DistanceReached(EventDistanceReached { distance: 200, parent: 1 });
    update_simple_ai(&mut a, &ev);
    match &a.routine {
        Some(Routine::Rush(r)) => {
            assert_eq!(r.min_distance, ATTACK_DISTANCE);
            assert_eq!(r.max_distance, RUSH_DISTANCE);
            assert_eq!(r.offset, Some(Vec2i::new(50, 50)));
        },
        _ => panic!("expected a rush routine"),
    }
    assert_eq!(a.character.speed, 5000 + RUSH_SPEED_BONUS);
    // Falling back out of the rush band returns the bonus.
    let exit = AiEvent::DistanceExited(EventDistanceExited { distance: 200, parent: 1 });
    update_simple_ai(&mut a, &exit);
    assert!(matches!(a.routine, Some(Routine::Follow(_))));
    assert_eq!(a.character.speed, 5000);
}

#[test]
fn events_for_other_agents_change_nothing() {
    let mut a = AiAgent::new(1, 5000);
    initialize_simple_ai(&mut a);
    let ev = AiEvent::DistanceReached(EventDistanceReached { distance: 80, parent: 2 });
    update_simple_ai(&mut a, &ev);
    assert!(matches!(a.routine, Some(Routine::Follow(_))));
}

#[test]
fn attack_finished_restarts_the_attack_cycle() {
    let mut a = AiAgent::new(1, 5000);
    initialize_simple_ai(&mut a);
    update_simple_ai(&mut a, &AiEvent::DistanceReached(EventDistanceReached { distance: 80, parent: 1 }));
    // Run the attack through to recovery.
    update_ai_routines(&mut a, Vec2i::new(40, 0), Vec2i::new(0, 0), 200);
    update_ai_routines(&mut a, Vec2i::new(40, 0), Vec2i::new(0, 0), 100);
    let out = update_ai_routines(&mut a, Vec2i::new(40, 0), Vec2i::new(0, 0), 100);
    assert_eq!(out.attack_finished, Some(EventAttackFinished { parent: 1 }));
    update_simple_ai(&mut a, &AiEvent::AttackFinished(EventAttackFinished { parent: 1 }));
    match &a.routine {
        Some(Routine::Attack(at)) => {
            assert_eq!(at.state, AttackState::Start);
            assert_eq!(at.timer_start.elapsed_ms, 0);
        },
        _ => panic!("expected the attack routine to remain"),
    }
}

#[test]
fn shooting_ai_swaps_between_follow_and_fireball() {
    let mut a = AiAgent::new(4, 5000);
    initialize_shooting_ai(&mut a);
    update_shooting_ai(&mut a, &AiEvent::DistanceReached(EventDistanceReached { distance: 200, parent: 4 }));
    match &a.routine {
        Some(Routine::Attack(at)) => {
            assert!(matches!(at.attack_type, AttackType::Fireball));
            assert_eq!(at.distance, 220);
            assert_eq!(at.timer_start.duration_ms, 800);
            assert_eq!(at.timer_finish.duration_ms, 400);
        },
        _ => panic!("expected a fireball attack"),
    }
    update_shooting_ai(&mut a, &AiEvent::DistanceExited(EventDistanceExited { distance: 220, parent: 4 }));
    assert!(matches!(a.routine, Some(Routine::Follow(_))));
}

#[test]
fn rush_impulse_through_the_agent_engages_one_dash_bonus() {
    let mut a = AiAgent::new(1, 5000);
    initialize_simple_ai(&mut a);
    update_simple_ai(&mut a, &AiEvent::DistanceReached(EventDistanceReached { distance: 150, parent: 1 }));
    assert_eq!(a.character.speed, 5000 + RUSH_SPEED_BONUS);
    // The rush timer elapses: a dash engages on top of the rush bonus.
    let out = update_ai_routines(&mut a, Vec2i::new(150, 0), Vec2i::new(0, 0), 500);
    assert!(out.reached.is_none());
    assert!(a.target.is_some());
    assert!(a.dashing.is_some());
    assert_eq!(a.character.speed, 5000 + RUSH_SPEED_BONUS + DASH_SPEED_BONUS);
    // The dash expires after its second: the bonus is handed back.
    update_dashing(&mut a, 600);
    update_dashing(&mut a, 600);
    assert!(a.dashing.is_none());
    assert_eq!(a.character.speed, 5000 + RUSH_SPEED_BONUS);
}

#[test]
fn dash_sheds_particles_on_its_cadence() {
    let mut a = AiAgent::new(1, 5000);
    initialize_simple_ai(&mut a);
    update_simple_ai(&mut a, &AiEvent::DistanceReached(EventDistanceReached { distance: 150, parent: 1 }));
    update_ai_routines(&mut a, Vec2i::new(150, 0), Vec2i::new(0, 0), 500);
    assert!(update_dashing(&mut a, 50)); // 50 ms cadence
    assert!(!update_dashing(&mut a, 20));
}

#[test]
fn end_to_end_follow_scenario() {
    // Agent at (200, 0), player at (0, 0), follow with a 100 ms timer
    // and a 200-unit trigger. After one 100 ms tick the distance is
    // exactly 200 — not below — so no event fires, and the target is
    // set to the player's position. Once the agent has moved closer,
    // the next tick emits the reached event and the routine removes
    // itself before the selection policy runs.
    let mut a = AiAgent::new(7, 5000);
    initialize_simple_ai(&mut a);
    let player = Vec2i::new(0, 0);

    let out1 = update_ai_routines(&mut a, Vec2i::new(200, 0), player, 100);
    assert!(out1.reached.is_none());
    assert_eq!(a.target.as_ref().map(|t| t.0), Some(Vec2i::new(0, 0)));
    assert!(matches!(a.routine, Some(Routine::Follow(_))));

    // The movement executor brought the agent closer.
    let out2 = update_ai_routines(&mut a, Vec2i::new(120, 0), player, 100);
    assert_eq!(out2.reached, Some(EventDistanceReached { distance: 200, parent: 7 }));
    assert!(a.routine.is_none(), "follow must remove itself before the policy runs");

    // The selection policy now installs the rush routine.
    update_simple_ai(&mut a, &AiEvent::DistanceReached(out2.reached.unwrap()));
    assert!(matches!(a.routine, Some(Routine::Rush(_))));
}
