//! Per-agent AI state and the selection policy that swaps routines.
//!
//! An agent owns at most one primary routine at a time — follow, rush
//! or attack, held in one tagged union — plus its movement target, an
//! optional dash (a temporary speed bonus) and its facing. Routines
//! signal intent through threshold-cross events; the policy functions
//! here consume those events and perform the actual remove-old /
//! insert-new routine swap, using fixed distance bands. Two archetypes
//! are provided: a melee agent that closes in through follow and rush
//! before slashing, and a shooting agent that lobs fireballs from
//! range.

use vstd::prelude::*;
use crate::events::{EventAttackFinished, EventDistanceExited, EventDistanceReached};
use crate::routines::{
    attack_projectile, jittered, rotation_out, update_attack_routine, update_follow_routine,
    update_rush_routine, AttackRoutine, AttackState, AttackType, FollowRoutine, RushRoutine,
    DASH_DURATION_MS,
};
use crate::skills::SkillUsedEvent;
use crate::timer::{Timer, TimerMode, TIME_LIMIT_MS};
use crate::vec2::Vec2i;

verus! {

/// Within this distance of the player a melee agent attacks.
pub const ATTACK_DISTANCE: i64 = 80;

/// Within this distance (but beyond the attack band) a melee agent
/// rushes; beyond it, it follows.
pub const RUSH_DISTANCE: i64 = 200;

/// Extra speed while a rush routine is attached, fixed-point.
pub const RUSH_SPEED_BONUS: i64 = 2_000;

/// Extra speed while a dash is underway, fixed-point.
pub const DASH_SPEED_BONUS: i64 = 3_000;

/// Upper bound on an agent's base speed, fixed-point.
pub const SPEED_LIMIT: i64 = 495_000;

/// A melee AI archetype marker: follow, rush, then slash.
pub struct SimpleAi;

/// A ranged AI archetype marker: follow, then fire fireballs.
pub struct ShootingAi;

/// An agent's movement capability: its speed, fixed-point units per
/// second.
pub struct Character {
    pub speed: i64,
}

impl Character {
    pub fn new(speed: i64) -> (r: Self)
        requires
            0 <= speed <= SPEED_LIMIT,
        ensures
            r.speed == speed,
    {
        Self { speed }
    }

    /// Apply a speed change (a bonus engaging or expiring).
    pub fn update_speed(&mut self, change: i64)
        requires
            0 <= old(self).speed + change <= SPEED_LIMIT + RUSH_SPEED_BONUS + DASH_SPEED_BONUS,
        ensures
            final(self).speed == old(self).speed + change,
    {
        self.speed = self.speed + change;
    }
}

/// A short-lived dash: a duration timer and a cadence timer for the
/// particle trail the renderer draws behind the dashing agent.
pub struct Dashing {
    pub particle_timer: Timer,
    pub timer: Timer,
}

/// How often a dash sheds a particle, in milliseconds.
pub const DASH_PARTICLE_SPAWN_INTERVAL_MS: u64 = 50;

impl Dashing {
    pub open spec fn wf(self) -> bool {
        &&& self.particle_timer.wf()
        &&& self.particle_timer.mode == TimerMode::Repeating
        &&& self.timer.wf()
        &&& self.timer.mode == TimerMode::Once
    }

    pub fn new(time_ms: u64) -> (r: Self)
        requires
            0 < time_ms <= TIME_LIMIT_MS,
        ensures
            r.wf(),
            r.particle_timer == Timer::from_millis_spec(DASH_PARTICLE_SPAWN_INTERVAL_MS, TimerMode::Repeating),
            r.timer == Timer::from_millis_spec(time_ms, TimerMode::Once),
    {
        Self {
            particle_timer: Timer::from_millis(DASH_PARTICLE_SPAWN_INTERVAL_MS, TimerMode::Repeating),
            timer: Timer::from_millis(time_ms, TimerMode::Once),
        }
    }
}

/// The point an agent is currently walking towards.
pub struct TargetPosition(pub Vec2i);

impl TargetPosition {
    pub fn new(pos: Vec2i) -> (r: Self)
        ensures
            r.0 == pos,
    {
        Self(pos)
    }

    pub fn update(&mut self, x: i64, y: i64)
        ensures
            final(self).0 == (Vec2i { x, y }),
    {
        self.0.x = x;
        self.0.y = y;
    }
}

/// The one primary routine an agent may run; holding it as a tagged
/// union makes "at most one primary routine at a time" structural.
pub enum Routine {
    Follow(FollowRoutine),
    Rush(RushRoutine),
    Attack(AttackRoutine),
}

/// A threshold-cross message for the AI-selection policy.
pub enum AiEvent {
    DistanceReached(EventDistanceReached),
    DistanceExited(EventDistanceExited),
    AttackFinished(EventAttackFinished),
}

/// All per-agent AI state outside the steering maps.
pub struct AiAgent {
    pub id: u64,
    pub routine: Option<Routine>,
    pub target: Option<TargetPosition>,
    pub dashing: Option<Dashing>,
    pub character: Character,
    pub facing_left: bool,
}

/// The speed bonuses currently engaged on an agent.
pub open spec fn bonus_of(a: AiAgent) -> int {
    (if a.routine matches Some(Routine::Rush(_)) { RUSH_SPEED_BONUS as int } else { 0int })
        + (if a.dashing is Some { DASH_SPEED_BONUS as int } else { 0int })
}

impl AiAgent {
    /// The routine and dash are well formed and the speed carries
    /// exactly its engaged bonuses on top of a bounded base speed.
    pub open spec fn wf(self) -> bool {
        &&& match self.routine {
            Some(Routine::Follow(f)) => f.wf(),
            Some(Routine::Rush(r)) => r.wf(),
            Some(Routine::Attack(a)) => a.wf(),
            None => true,
        }
        &&& match self.dashing {
            Some(d) => d.wf(),
            None => true,
        }
        &&& bonus_of(self) <= self.character.speed
        &&& self.character.speed - bonus_of(self) <= SPEED_LIMIT
    }

    /// A freshly spawned agent: no routine, no target, no dash.
    pub fn new(id: u64, speed: i64) -> (r: Self)
        requires
            0 <= speed <= SPEED_LIMIT,
        ensures
            r.wf(),
            r.id == id,
            r.routine is None,
            r.target is None,
            r.dashing is None,
            r.character.speed == speed,
            !r.facing_left,
    {
        Self {
            id,
            routine: None,
            target: None,
            dashing: None,
            character: Character::new(speed),
            facing_left: false,
        }
    }
}

/// The melee agent's follow routine: re-evaluates every 100 ms, hands
/// over once the player is within the rush band.
pub open spec fn default_follow_spec() -> FollowRoutine {
    FollowRoutine {
        timer: Timer::from_millis_spec(100u64, TimerMode::Repeating),
        distance: RUSH_DISTANCE,
    }
}

/// The melee agent's rush routine: an impulse every 500 ms towards a
/// point jittered within a 50-unit box around the player.
pub open spec fn default_rush_spec() -> RushRoutine {
    RushRoutine {
        timer: Timer::from_millis_spec(500u64, TimerMode::Repeating),
        min_distance: ATTACK_DISTANCE,
        max_distance: RUSH_DISTANCE,
        offset: Some(Vec2i { x: 50, y: 50 }),
    }
}

/// The melee agent's attack: a slash with a 200 ms wind-up and a
/// 100 ms recovery, looped while the player stays within the attack
/// band.
pub open spec fn slash_attack_spec() -> AttackRoutine {
    AttackRoutine {
        attack_type: AttackType::Slash,
        state: AttackState::Start,
        timer_start: Timer::from_millis_spec(200u64, TimerMode::Once),
        timer_finish: Timer::from_millis_spec(100u64, TimerMode::Once),
        distance: ATTACK_DISTANCE,
    }
}

/// The shooting agent's attack: a fireball with an 800 ms wind-up and
/// a 400 ms recovery, usable out to 220 units.
pub open spec fn fireball_attack_spec() -> AttackRoutine {
    AttackRoutine {
        attack_type: AttackType::Fireball,
        state: AttackState::Start,
        timer_start: Timer::from_millis_spec(800u64, TimerMode::Once),
        timer_finish: Timer::from_millis_spec(400u64, TimerMode::Once),
        distance: 220,
    }
}

/// `a` with every routine, target and dash removed and the speed
/// bonuses handed back.
pub open spec fn stripped(a: AiAgent) -> AiAgent {
    AiAgent {
        routine: None,
        target: None,
        dashing: None,
        character: Character { speed: (a.character.speed - bonus_of(a)) as i64 },
        ..a
    }
}

/// Give an agent with no primary routine its initial follow routine;
/// an agent already running a routine is left alone.
pub fn initialize_simple_ai(agent: &mut AiAgent)
    requires
        old(agent).wf(),
    ensures
        final(agent).wf(),
        old(agent).routine is Some ==> *final(agent) == *old(agent),
        old(agent).routine is None ==> *final(agent) == (AiAgent {
            routine: Some(Routine::Follow(default_follow_spec())),
            ..*old(agent)
        }),
{
    if agent.routine.is_none() {
        agent.routine = Some(Routine::Follow(FollowRoutine::new(100, RUSH_DISTANCE)));
    }
}

/// Give a shooting agent with no primary routine its initial follow
/// routine.
pub fn initialize_shooting_ai(agent: &mut AiAgent)
    requires
        old(agent).wf(),
    ensures
        final(agent).wf(),
        old(agent).routine is Some ==> *final(agent) == *old(agent),
        old(agent).routine is None ==> *final(agent) == (AiAgent {
            routine: Some(Routine::Follow(default_follow_spec())),
            ..*old(agent)
        }),
{
    if agent.routine.is_none() {
        agent.routine = Some(Routine::Follow(FollowRoutine::new(100, RUSH_DISTANCE)));
    }
}

/// An AI-controlled agent faces the player: left exactly when the
/// player is to its left.
pub fn update_ai_facing(agent: &mut AiAgent, agent_pos: Vec2i, player_pos: Vec2i)
    requires
        old(agent).wf(),
    ensures
        final(agent).wf(),
        *final(agent) == (AiAgent { facing_left: player_pos.x < agent_pos.x, ..*old(agent) }),
{
    agent.facing_left = player_pos.x < agent_pos.x;
}

/// What the melee policy makes of an agent on one event.
pub open spec fn simple_ai_step(a: AiAgent, ev: AiEvent) -> AiAgent {
    match ev {
        AiEvent::DistanceReached(e) => {
            if e.parent != a.id {
                a
            } else if e.distance <= ATTACK_DISTANCE {
                AiAgent { routine: Some(Routine::Attack(slash_attack_spec())), ..stripped(a) }
            } else if e.distance <= RUSH_DISTANCE {
                AiAgent {
                    routine: Some(Routine::Rush(default_rush_spec())),
                    character: Character {
                        speed: (a.character.speed - bonus_of(a) + RUSH_SPEED_BONUS) as i64,
                    },
                    ..stripped(a)
                }
            } else {
                a
            }
        },
        AiEvent::AttackFinished(e) => {
            if e.parent == a.id && (a.routine matches Some(Routine::Attack(_))) {
                match a.routine {
                    Some(Routine::Attack(at)) => AiAgent {
                        routine: Some(Routine::Attack(AttackRoutine {
                            state: AttackState::Start,
                            timer_start: Timer {
                                elapsed_ms: 0u64,
                                just_finished_now: false,
                                ..at.timer_start
                            },
                            timer_finish: Timer {
                                elapsed_ms: 0u64,
                                just_finished_now: false,
                                ..at.timer_finish
                            },
                            ..at
                        })),
                        ..a
                    },
                    _ => a,
                }
            } else {
                a
            }
        },
        AiEvent::DistanceExited(e) => {
            if e.parent != a.id {
                a
            } else if e.distance >= RUSH_DISTANCE {
                AiAgent { routine: Some(Routine::Follow(default_follow_spec())), ..stripped(a) }
            } else if e.distance >= ATTACK_DISTANCE {
                AiAgent {
                    routine: Some(Routine::Rush(default_rush_spec())),
                    character: Character {
                        speed: (a.character.speed - bonus_of(a) + RUSH_SPEED_BONUS) as i64,
                    },
                    ..stripped(a)
                }
            } else {
                a
            }
        },
    }
}

/// Remove the agent's routine, target and dash, handing back the
/// engaged speed bonuses.
fn strip(agent: &mut AiAgent)
    requires
        old(agent).wf(),
    ensures
        final(agent).wf(),
        *final(agent) == stripped(*old(agent)),
{
    let mut give_back: i64 = 0;
    match &agent.routine {
        Some(Routine::Rush(_)) => {
            give_back = give_back + RUSH_SPEED_BONUS;
        },
        _ => {},
    }
    if agent.dashing.is_some() {
        give_back = give_back + DASH_SPEED_BONUS;
    }
    agent.routine = None;
    agent.target = None;
    agent.dashing = None;
    agent.character.update_speed(-give_back);
}

/// Apply the melee selection policy to one event: distance reached
/// swaps in an attack (close) or a rush (mid-band), attack finished
/// restarts the attack cycle, distance exited falls back to a rush
/// (mid-band) or to following (far). Events for other agents change
/// nothing.
pub fn update_simple_ai(agent: &mut AiAgent, ev: &AiEvent)
    requires
        old(agent).wf(),
    ensures
        final(agent).wf(),
        *final(agent) == simple_ai_step(*old(agent), *ev),
{
    match ev {
        AiEvent::DistanceReached(e) => {
            if e.parent != agent.id {
                return;
            }
            if e.distance <= ATTACK_DISTANCE {
                strip(agent);
                agent.routine = Some(Routine::Attack(AttackRoutine::new(
                    AttackType::Slash,
                    200,
                    100,
                    ATTACK_DISTANCE,
                )));
            } else if e.distance <= RUSH_DISTANCE {
                strip(agent);
                agent.routine = Some(Routine::Rush(
                    RushRoutine::new(500, ATTACK_DISTANCE, RUSH_DISTANCE)
                        .with_offset(Vec2i::new(50, 50)),
                ));
                agent.character.update_speed(RUSH_SPEED_BONUS);
            }
        },
        AiEvent::AttackFinished(e) => {
            if e.parent != agent.id {
                return;
            }
            match &mut agent.routine {
                Some(Routine::Attack(at)) => {
                    at.reset();
                },
                _ => {},
            }
        },
        AiEvent::DistanceExited(e) => {
            if e.parent != agent.id {
                return;
            }
            if e.distance >= RUSH_DISTANCE {
                strip(agent);
                agent.routine = Some(Routine::Follow(FollowRoutine::new(100, RUSH_DISTANCE)));
            } else if e.distance >= ATTACK_DISTANCE {
                strip(agent);
                agent.routine = Some(Routine::Rush(
                    RushRoutine::new(500, ATTACK_DISTANCE, RUSH_DISTANCE)
                        .with_offset(Vec2i::new(50, 50)),
                ));
                agent.character.update_speed(RUSH_SPEED_BONUS);
            }
        },
    }
}

/// A dash as the rush impulse engages it.
pub open spec fn fresh_dash_spec() -> Dashing {
    Dashing {
        particle_timer: Timer::from_millis_spec(DASH_PARTICLE_SPAWN_INTERVAL_MS, TimerMode::Repeating),
        timer: Timer::from_millis_spec(DASH_DURATION_MS, TimerMode::Once),
    }
}

/// Everything one routine tick may hand outward: threshold events for
/// the selection policy, a skill for the spawner, a weapon rotation
/// for the renderer.
pub struct RoutineTickOutput {
    pub reached: Option<EventDistanceReached>,
    pub exited: Option<EventDistanceExited>,
    pub attack_finished: Option<EventAttackFinished>,
    pub skill: Option<SkillUsedEvent>,
    pub weapon_rotation: Option<i64>,
}

/// Advance whichever routine the agent runs by one frame and apply
/// its decisions to the agent: follow re-targets the player and, per
/// the threshold round-trip, removes itself on the tick it reports the
/// player reached — before the selection policy runs; rush impulses
/// set a (jittered) dash target and engage the dash speed bonus;
/// attack advances its three-phase cycle. Events and spawn requests
/// are handed back for the policy and the engine.
pub fn update_ai_routines(
    agent: &mut AiAgent,
    agent_pos: Vec2i,
    player_pos: Vec2i,
    delta_ms: u64,
) -> (r: RoutineTickOutput)
    requires
        old(agent).wf(),
        agent_pos.pos_wf(),
        player_pos.pos_wf(),
        delta_ms <= TIME_LIMIT_MS,
    ensures
        final(agent).wf(),
        final(agent).id == old(agent).id,
        final(agent).facing_left == old(agent).facing_left,
        old(agent).routine is None ==> *final(agent) == *old(agent)
            && r.reached is None && r.exited is None && r.attack_finished is None
            && r.skill is None && r.weapon_rotation is None,
        old(agent).routine matches Some(Routine::Follow(f)) ==> {
            &&& r.exited is None && r.attack_finished is None && r.skill is None
                && r.weapon_rotation is None
            &&& final(agent).dashing == old(agent).dashing
            &&& final(agent).character == old(agent).character
            &&& r.reached == if Vec2i::diff_of(agent_pos, player_pos).norm2() < f.distance * f.distance
                { Some(EventDistanceReached { distance: f.distance, parent: old(agent).id }) }
                else { None::<EventDistanceReached> }
            &&& final(agent).routine == if Vec2i::diff_of(agent_pos, player_pos).norm2() < f.distance * f.distance
                { None::<Routine> }
                else { Some(Routine::Follow(FollowRoutine { timer: f.timer.ticked(delta_ms), ..f })) }
            &&& final(agent).target == if f.timer.ticked(delta_ms).just_finished_now
                { Some(TargetPosition(player_pos)) }
                else if Vec2i::diff_of(agent_pos, player_pos).norm2() < f.distance * f.distance
                { None::<TargetPosition> }
                else { old(agent).target }
        },
        old(agent).routine matches Some(Routine::Rush(ru)) ==> {
            &&& r.attack_finished is None && r.skill is None && r.weapon_rotation is None
            &&& old(agent).target is Some ==> {
                &&& r.reached == if Vec2i::diff_of(agent_pos, player_pos).norm2()
                        < ru.min_distance * ru.min_distance
                    { Some(EventDistanceReached { distance: ru.min_distance, parent: old(agent).id }) }
                    else { None::<EventDistanceReached> }
                &&& r.exited is None
                &&& *final(agent) == *old(agent)
            }
            &&& old(agent).target is None ==> {
                &&& r.reached is None
                &&& !ru.timer.ticked(delta_ms).just_finished_now ==> {
                    &&& r.exited is None
                    &&& *final(agent) == (AiAgent {
                        routine: Some(Routine::Rush(RushRoutine { timer: ru.timer.ticked(delta_ms), ..ru })),
                        ..*old(agent)
                    })
                }
                &&& ru.timer.ticked(delta_ms).just_finished_now ==> {
                    &&& r.exited == if Vec2i::diff_of(agent_pos, player_pos).norm2()
                            > ru.max_distance * ru.max_distance
                        { Some(EventDistanceExited { distance: ru.max_distance, parent: old(agent).id }) }
                        else { None::<EventDistanceExited> }
                    &&& final(agent).routine == Some(Routine::Rush(RushRoutine {
                        timer: (Timer {
                            elapsed_ms: 0u64,
                            just_finished_now: false,
                            ..ru.timer.ticked(delta_ms)
                        }),
                        ..ru
                    }))
                    &&& match ru.offset {
                        None => final(agent).target == Some(TargetPosition(player_pos)),
                        Some(o) => exists|jx: i64, jy: i64|
                            #![trigger jittered(player_pos, jx, jy)]
                            -o.x <= jx < o.x && -o.y <= jy < o.y
                            && final(agent).target == Some(TargetPosition(jittered(player_pos, jx, jy))),
                    }
                    &&& final(agent).dashing == Some(fresh_dash_spec())
                    &&& final(agent).character.speed == old(agent).character.speed
                        + (if old(agent).dashing is None { DASH_SPEED_BONUS as int } else { 0int })
                }
            }
        },
        old(agent).routine matches Some(Routine::Attack(at)) ==> {
            &&& r.reached is None
            &&& final(agent).target == old(agent).target
            &&& final(agent).dashing == old(agent).dashing
            &&& final(agent).character == old(agent).character
            &&& (r.skill is Some <==> at.state == AttackState::Spawn)
            &&& !(r.attack_finished is Some && r.exited is Some)
            &&& (r.attack_finished is Some || r.exited is Some) ==> at.state == AttackState::Finish
            &&& final(agent).routine matches Some(Routine::Attack(at2))
                && at2.attack_type == at.attack_type
                && at2.distance == at.distance
                && (at.state == AttackState::Start ==> {
                    &&& at2.timer_start == at.timer_start.ticked(delta_ms)
                    &&& at2.timer_finish == at.timer_finish
                    &&& at2.state == if at.timer_start.ticked(delta_ms).just_finished_now
                        { AttackState::Spawn } else { AttackState::Start }
                    &&& r.attack_finished is None && r.exited is None
                    &&& r.weapon_rotation == Some(rotation_out(
                        at.timer_start.ticked(delta_ms).elapsed_ms * 1000
                            / (at.timer_start.duration_ms as int),
                        old(agent).facing_left))
                })
                && (at.state == AttackState::Spawn ==> {
                    &&& at2.timer_start == at.timer_start
                    &&& at2.timer_finish == at.timer_finish
                    &&& at2.state == AttackState::Finish
                    &&& r.weapon_rotation is None
                    &&& r.attack_finished is None && r.exited is None
                    &&& r.skill == Some(attack_projectile(at.attack_type, agent_pos, player_pos))
                })
                && (at.state == AttackState::Finish ==> {
                    &&& at2.timer_start == at.timer_start
                    &&& at2.timer_finish == at.timer_finish.ticked(delta_ms)
                    &&& at2.state == AttackState::Finish
                    &&& r.weapon_rotation == Some(rotation_out(
                        1000 - at.timer_finish.ticked(delta_ms).elapsed_ms * 1000
                            / (at.timer_finish.duration_ms as int),
                        old(agent).facing_left))
                    &&& !at.timer_finish.ticked(delta_ms).just_finished_now
                        ==> r.attack_finished is None && r.exited is None
                    &&& at.timer_finish.ticked(delta_ms).just_finished_now ==> {
                        &&& Vec2i::diff_of(agent_pos, player_pos).norm2() > at.distance * at.distance
                            ==> r.exited == Some(EventDistanceExited {
                                    distance: at.distance,
                                    parent: old(agent).id,
                                }) && r.attack_finished is None
                        &&& Vec2i::diff_of(agent_pos, player_pos).norm2() <= at.distance * at.distance
                            ==> r.attack_finished == Some(EventAttackFinished { parent: old(agent).id })
                                && r.exited is None
                    }
                })
        },
{
    let id = agent.id;
    let facing = agent.facing_left;
    match &mut agent.routine {
        None => RoutineTickOutput {
            reached: None,
            exited: None,
            attack_finished: None,
            skill: None,
            weapon_rotation: None,
        },
        Some(Routine::Follow(f)) => {
            let out = update_follow_routine(f, id, agent_pos, player_pos, delta_ms);
            if out.clear_target {
                agent.target = None;
                agent.routine = None;
            }
            match out.new_target {
                Some(t) => {
                    agent.target = Some(TargetPosition::new(t));
                },
                None => {},
            }
            RoutineTickOutput {
                reached: out.reached,
                exited: None,
                attack_finished: None,
                skill: None,
                weapon_rotation: None,
            }
        },
        Some(Routine::Rush(ru)) => {
            let has_target = agent.target.is_some();
            let out = update_rush_routine(ru, id, agent_pos, player_pos, has_target, delta_ms);
            match out.new_target {
                Some(t) => {
                    agent.target = Some(TargetPosition::new(t));
                },
                None => {},
            }
            if out.start_dash {
                if agent.dashing.is_none() {
                    agent.character.update_speed(DASH_SPEED_BONUS);
                }
                agent.dashing = Some(Dashing::new(DASH_DURATION_MS));
            }
            RoutineTickOutput {
                reached: out.reached,
                exited: out.exited,
                attack_finished: None,
                skill: None,
                weapon_rotation: None,
            }
        },
        Some(Routine::Attack(at)) => {
            let out = update_attack_routine(at, id, agent_pos, player_pos, facing, delta_ms);
            RoutineTickOutput {
                reached: None,
                exited: out.exited,
                attack_finished: out.finished,
                skill: out.skill,
                weapon_rotation: out.weapon_rotation,
            }
        },
    }
}

/// Tick a dash that is underway: shed particles on the particle
/// cadence, and when the dash duration elapses drop the dash and hand
/// back its speed bonus.
pub fn update_dashing(agent: &mut AiAgent, delta_ms: u64) -> (spawn_particle: bool)
    requires
        old(agent).wf(),
        delta_ms <= TIME_LIMIT_MS,
    ensures
        final(agent).wf(),
        old(agent).dashing is None ==> *final(agent) == *old(agent) && !spawn_particle,
        old(agent).dashing matches Some(d) ==> {
            &&& spawn_particle == d.particle_timer.ticked(delta_ms).just_finished_now
            &&& d.timer.ticked(delta_ms).finished_spec() ==> *final(agent) == (AiAgent {
                dashing: None::<Dashing>,
                character: (Character {
                    speed: (old(agent).character.speed - DASH_SPEED_BONUS) as i64,
                }),
                ..*old(agent)
            })
            &&& !d.timer.ticked(delta_ms).finished_spec() ==> *final(agent) == (AiAgent {
                dashing: Some(Dashing {
                    particle_timer: d.particle_timer.ticked(delta_ms),
                    timer: d.timer.ticked(delta_ms),
                }),
                ..*old(agent)
            })
        },
{
    match &mut agent.dashing {
        None => false,
        Some(d) => {
            d.particle_timer.tick(delta_ms);
            let sp = d.particle_timer.just_finished();
            d.timer.tick(delta_ms);
            let done = d.timer.finished();
            if done {
                agent.dashing = None;
                agent.character.update_speed(-DASH_SPEED_BONUS);
            }
            sp
        },
    }
}

/// What the shooting policy makes of an agent on one event.
pub open spec fn shooting_ai_step(a: AiAgent, ev: AiEvent) -> AiAgent {
    match ev {
        AiEvent::DistanceReached(e) => {
            if e.parent == a.id {
                AiAgent { routine: Some(Routine::Attack(fireball_attack_spec())), ..stripped(a) }
            } else {
                a
            }
        },
        AiEvent::AttackFinished(e) => {
            if e.parent == a.id && (a.routine matches Some(Routine::Attack(_))) {
                match a.routine {
                    Some(Routine::Attack(at)) => AiAgent {
                        routine: Some(Routine::Attack(AttackRoutine {
                            state: AttackState::Start,
                            timer_start: Timer {
                                elapsed_ms: 0u64,
                                just_finished_now: false,
                                ..at.timer_start
                            },
                            timer_finish: Timer {
                                elapsed_ms: 0u64,
                                just_finished_now: false,
                                ..at.timer_finish
                            },
                            ..at
                        })),
                        ..a
                    },
                    _ => a,
                }
            } else {
                a
            }
        },
        AiEvent::DistanceExited(e) => {
            if e.parent == a.id {
                AiAgent { routine: Some(Routine::Follow(default_follow_spec())), ..stripped(a) }
            } else {
                a
            }
        },
    }
}

/// Apply the shooting selection policy to one event: distance reached
/// swaps in the fireball attack, attack finished restarts its cycle,
/// distance exited falls back to following.
pub fn update_shooting_ai(agent: &mut AiAgent, ev: &AiEvent)
    requires
        old(agent).wf(),
    ensures
        final(agent).wf(),
        *final(agent) == shooting_ai_step(*old(agent), *ev),
{
    match ev {
        AiEvent::DistanceReached(e) => {
            if e.parent != agent.id {
                return;
            }
            strip(agent);
            agent.routine = Some(Routine::Attack(AttackRoutine::new(
                AttackType::Fireball,
                800,
                400,
                220,
            )));
        },
        AiEvent::AttackFinished(e) => {
            if e.parent != agent.id {
                return;
            }
            match &mut agent.routine {
                Some(Routine::Attack(at)) => {
                    at.reset();
                },
                _ => {},
            }
        },
        AiEvent::DistanceExited(e) => {
            if e.parent != agent.id {
                return;
            }
            strip(agent);
            agent.routine = Some(Routine::Follow(FollowRoutine::new(100, RUSH_DISTANCE)));
        },
    }
}

} // verus!
