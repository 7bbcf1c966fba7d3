//! The routine layer: timer- and threshold-driven controllers that own
//! one discrete AI state each (follow, rush, attack).
//!
//! Each update function advances one routine by one frame from plain
//! inputs — the agent's and the player's positions and the elapsed
//! time — and returns what happened as data: threshold-cross events,
//! a new movement target, a dash to engage, a skill to spawn. The
//! AI-selection policy (see the agent module) consumes the events and
//! swaps routines; the external engine executes the rest.

use vstd::prelude::*;
use crate::events::{EventAttackFinished, EventDistanceExited, EventDistanceReached};
use crate::rng::{new_rng, random_in_range};
use crate::skills::{
    ProjectileSpawnData, SkillUsedEvent, ENEMY_PROJECTILE_FILTERS, ENEMY_PROJECTILE_MEMBERSHIP,
};
use crate::steer::DIST_LIMIT;
use crate::timer::{Timer, TimerMode, TIME_LIMIT_MS};
use crate::vec2::Vec2i;

verus! {

/// Base speed of a spawned projectile, in plain units per second.
pub const PROJECTILE_SPEED: i64 = 500;

/// How far in front of the agent a projectile appears, in plain units.
pub const SPRITE_DRAW_SIZE: i64 = 40;

/// How long the dash engaged by a rush impulse lasts, in milliseconds.
pub const DASH_DURATION_MS: u64 = 1_000;

/// Re-issue a movement target towards the player on a repeating timer,
/// and report when the player comes within the trigger distance.
pub struct FollowRoutine {
    pub timer: Timer,
    pub distance: i64,
}

impl FollowRoutine {
    pub open spec fn wf(self) -> bool {
        &&& self.timer.wf()
        &&& self.timer.mode == TimerMode::Repeating
        &&& 0 < self.distance <= DIST_LIMIT
    }

    pub fn new(time_ms: u64, distance: i64) -> (r: Self)
        requires
            0 < time_ms <= TIME_LIMIT_MS,
            0 < distance <= DIST_LIMIT,
        ensures
            r.wf(),
            r.timer == Timer::from_millis_spec(time_ms, TimerMode::Repeating),
            r.distance == distance,
    {
        Self { timer: Timer::from_millis(time_ms, TimerMode::Repeating), distance }
    }
}

/// What one follow update decided.
pub struct FollowOutcome {
    /// Emitted when the player is within the trigger distance; at most
    /// one per tick.
    pub reached: Option<EventDistanceReached>,
    /// The movement target is dropped on the tick the threshold is
    /// crossed.
    pub clear_target: bool,
    /// A fresh movement target towards the player, on the tick the
    /// repeating timer elapsed.
    pub new_target: Option<Vec2i>,
}

/// Advance a follow routine by one frame.
///
/// If the squared distance to the player is below the trigger
/// distance's square, exactly one `EventDistanceReached` is emitted
/// and the movement target is dropped. Independently, on the tick the
/// repeating timer elapses the player's current position becomes the
/// new movement target.
pub fn update_follow_routine(
    routine: &mut FollowRoutine,
    agent_id: u64,
    agent_pos: Vec2i,
    player_pos: Vec2i,
    delta_ms: u64,
) -> (r: FollowOutcome)
    requires
        old(routine).wf(),
        agent_pos.pos_wf(),
        player_pos.pos_wf(),
        delta_ms <= TIME_LIMIT_MS,
    ensures
        final(routine).wf(),
        final(routine).distance == old(routine).distance,
        final(routine).timer == old(routine).timer.ticked(delta_ms),
        r.clear_target == (Vec2i::diff_of(agent_pos, player_pos).norm2()
            < old(routine).distance * old(routine).distance),
        r.reached == if Vec2i::diff_of(agent_pos, player_pos).norm2()
                < old(routine).distance * old(routine).distance
            { Some(EventDistanceReached { distance: old(routine).distance, parent: agent_id }) }
            else { None::<EventDistanceReached> },
        r.new_target == if old(routine).timer.ticked(delta_ms).just_finished_now
            { Some(player_pos) } else { None::<Vec2i> },
{
    proof {
        assert(routine.distance * routine.distance <= DIST_LIMIT * DIST_LIMIT) by (nonlinear_arith)
            requires 0 < routine.distance <= DIST_LIMIT;
    }
    let near = agent_pos.distance_squared(player_pos) < routine.distance * routine.distance;
    let reached = if near {
        Some(EventDistanceReached { distance: routine.distance, parent: agent_id })
    } else {
        None
    };
    routine.timer.tick(delta_ms);
    let new_target = if routine.timer.just_finished() {
        Some(player_pos)
    } else {
        None
    };
    FollowOutcome { reached, clear_target: near, new_target }
}

/// Repeatedly dash towards (a point near) the player, reporting when
/// the player is close enough or has fled out of range.
pub struct RushRoutine {
    pub timer: Timer,
    pub min_distance: i64,
    pub max_distance: i64,
    pub offset: Option<Vec2i>,
}

impl RushRoutine {
    pub open spec fn wf(self) -> bool {
        &&& self.timer.wf()
        &&& self.timer.mode == TimerMode::Repeating
        &&& 0 < self.min_distance < self.max_distance <= DIST_LIMIT
        &&& match self.offset {
            Some(o) => 0 < o.x <= 100_000 && 0 < o.y <= 100_000,
            None => true,
        }
    }

    pub fn new(time_ms: u64, min_distance: i64, max_distance: i64) -> (r: Self)
        requires
            0 < time_ms <= TIME_LIMIT_MS,
            0 < min_distance < max_distance <= DIST_LIMIT,
        ensures
            r.wf(),
            r.timer == Timer::from_millis_spec(time_ms, TimerMode::Repeating),
            r.min_distance == min_distance,
            r.max_distance == max_distance,
            r.offset is None,
    {
        Self {
            timer: Timer::from_millis(time_ms, TimerMode::Repeating),
            min_distance,
            max_distance,
            offset: None,
        }
    }

    /// Jitter each picked target point by a random offset within
    /// `-offset..offset` on each axis.
    pub fn with_offset(self, offset: Vec2i) -> (r: Self)
        requires
            0 < offset.x <= 100_000,
            0 < offset.y <= 100_000,
        ensures
            r == (RushRoutine { offset: Some(offset), ..self }),
    {
        RushRoutine { offset: Some(offset), ..self }
    }
}

/// A position jittered by a random planar offset.
pub open spec fn jittered(pos: Vec2i, jx: i64, jy: i64) -> Vec2i {
    Vec2i { x: (pos.x + jx) as i64, y: (pos.y + jy) as i64 }
}

/// What one rush update decided.
pub struct RushOutcome {
    /// Emitted when a dash is underway and the player is already within
    /// the lower bound.
    pub reached: Option<EventDistanceReached>,
    /// Emitted on a rush impulse when the player is beyond the upper
    /// bound.
    pub exited: Option<EventDistanceExited>,
    /// The next dash target: the player's position, possibly jittered.
    pub new_target: Option<Vec2i>,
    /// A fresh dash (temporary speed bonus) engages with each impulse.
    pub start_dash: bool,
}

/// Advance a rush routine by one frame.
///
/// While a movement target is still set the routine only watches the
/// lower bound: within it, exactly one `EventDistanceReached` is
/// emitted; the timer does not run. Otherwise the repeating timer
/// ticks, and on the tick it elapses the routine issues a rush
/// impulse: it reports `EventDistanceExited` if the player is beyond
/// the upper bound, picks the player's position (jittered into the
/// configured box, whatever the generator produced) as the next
/// target, and engages a dash.
pub fn update_rush_routine(
    routine: &mut RushRoutine,
    agent_id: u64,
    agent_pos: Vec2i,
    player_pos: Vec2i,
    has_target: bool,
    delta_ms: u64,
) -> (r: RushOutcome)
    requires
        old(routine).wf(),
        agent_pos.pos_wf(),
        player_pos.pos_wf(),
        delta_ms <= TIME_LIMIT_MS,
    ensures
        final(routine).wf(),
        final(routine).min_distance == old(routine).min_distance,
        final(routine).max_distance == old(routine).max_distance,
        final(routine).offset == old(routine).offset,
        has_target ==> {
            &&& final(routine).timer == old(routine).timer
            &&& r.reached == if Vec2i::diff_of(agent_pos, player_pos).norm2()
                    < old(routine).min_distance * old(routine).min_distance
                { Some(EventDistanceReached { distance: old(routine).min_distance, parent: agent_id }) }
                else { None::<EventDistanceReached> }
            &&& r.exited is None
            &&& r.new_target is None
            &&& !r.start_dash
        },
        !has_target ==> {
            &&& r.reached is None
            &&& final(routine).timer == if old(routine).timer.ticked(delta_ms).just_finished_now
                { Timer {
                    elapsed_ms: 0u64,
                    just_finished_now: false,
                    ..old(routine).timer.ticked(delta_ms)
                } }
                else { old(routine).timer.ticked(delta_ms) }
            &&& !old(routine).timer.ticked(delta_ms).just_finished_now
                ==> r.exited is None && r.new_target is None && !r.start_dash
            &&& old(routine).timer.ticked(delta_ms).just_finished_now ==> {
                &&& r.exited == if Vec2i::diff_of(agent_pos, player_pos).norm2()
                        > old(routine).max_distance * old(routine).max_distance
                    { Some(EventDistanceExited { distance: old(routine).max_distance, parent: agent_id }) }
                    else { None::<EventDistanceExited> }
                &&& r.start_dash
                &&& match old(routine).offset {
                    None => r.new_target == Some(player_pos),
                    Some(o) => exists|jx: i64, jy: i64|
                        #![trigger jittered(player_pos, jx, jy)]
                        -o.x <= jx < o.x && -o.y <= jy < o.y
                        && r.new_target == Some(jittered(player_pos, jx, jy)),
                }
            }
        },
{
    proof {
        assert(routine.min_distance * routine.min_distance <= DIST_LIMIT * DIST_LIMIT
            && routine.max_distance * routine.max_distance <= DIST_LIMIT * DIST_LIMIT) by (nonlinear_arith)
            requires 0 < routine.min_distance <= DIST_LIMIT && 0 < routine.max_distance <= DIST_LIMIT;
    }
    let distance_sq = agent_pos.distance_squared(player_pos);
    if has_target {
        let reached = if distance_sq < routine.min_distance * routine.min_distance {
            Some(EventDistanceReached { distance: routine.min_distance, parent: agent_id })
        } else {
            None
        };
        return RushOutcome { reached, exited: None, new_target: None, start_dash: false };
    }
    routine.timer.tick(delta_ms);
    if !routine.timer.just_finished() {
        return RushOutcome { reached: None, exited: None, new_target: None, start_dash: false };
    }
    routine.timer.reset();
    let exited = if distance_sq > routine.max_distance * routine.max_distance {
        Some(EventDistanceExited { distance: routine.max_distance, parent: agent_id })
    } else {
        None
    };
    let target = match routine.offset {
        Some(o) => {
            let mut rng = new_rng();
            let jx = random_in_range(&mut rng, -o.x, o.x);
            let jy = random_in_range(&mut rng, -o.y, o.y);
            let t = Vec2i::new(player_pos.x + jx, player_pos.y + jy);
            proof {
                assert(t == jittered(player_pos, jx, jy));
            }
            t
        },
        None => player_pos,
    };
    RushOutcome { reached: None, exited, new_target: Some(target), start_dash: true }
}

/// The three phases of one attack cycle.
#[derive(Clone, Copy, Debug, PartialEq, Eq, Structural)]
pub enum AttackState {
    /// Wind-up: the weapon rotates over the start timer.
    Start,
    /// Fire exactly one projectile or hitbox.
    Spawn,
    /// Recovery: the weapon rotates back over the finish timer.
    Finish,
}

/// Which skill the attack routine fires.
#[derive(Clone, Copy, Debug, PartialEq, Eq, Structural)]
pub enum AttackType {
    Fireball,
    Slash,
}

/// A three-phase one-shot attack: wind up, fire once, recover, then
/// report whether the target is still in range.
pub struct AttackRoutine {
    pub attack_type: AttackType,
    pub state: AttackState,
    pub timer_start: Timer,
    pub timer_finish: Timer,
    pub distance: i64,
}

impl AttackRoutine {
    pub open spec fn wf(self) -> bool {
        &&& self.timer_start.wf()
        &&& self.timer_start.mode == TimerMode::Once
        &&& self.timer_finish.wf()
        &&& self.timer_finish.mode == TimerMode::Once
        &&& 0 < self.distance <= DIST_LIMIT
    }

    pub fn new(attack_type: AttackType, start_ms: u64, finish_ms: u64, distance: i64) -> (r: Self)
        requires
            0 < start_ms <= TIME_LIMIT_MS,
            0 < finish_ms <= TIME_LIMIT_MS,
            0 < distance <= DIST_LIMIT,
        ensures
            r.wf(),
            r.attack_type == attack_type,
            r.state == AttackState::Start,
            r.timer_start == Timer::from_millis_spec(start_ms, TimerMode::Once),
            r.timer_finish == Timer::from_millis_spec(finish_ms, TimerMode::Once),
            r.distance == distance,
    {
        Self {
            attack_type,
            state: AttackState::Start,
            timer_start: Timer::from_millis(start_ms, TimerMode::Once),
            timer_finish: Timer::from_millis(finish_ms, TimerMode::Once),
            distance,
        }
    }

    /// Start the cycle over.
    pub fn reset(&mut self)
        requires
            old(self).wf(),
        ensures
            final(self).wf(),
            final(self).state == AttackState::Start,
            final(self).attack_type == old(self).attack_type,
            final(self).distance == old(self).distance,
            final(self).timer_start == (Timer {
                elapsed_ms: 0u64,
                just_finished_now: false,
                ..old(self).timer_start
            }),
            final(self).timer_finish == (Timer {
                elapsed_ms: 0u64,
                just_finished_now: false,
                ..old(self).timer_finish
            }),
    {
        self.state = AttackState::Start;
        self.timer_start.reset();
        self.timer_finish.reset();
    }
}

/// The unit direction from the agent to the player at the instant of
/// firing.
pub open spec fn attack_dir(agent: Vec2i, player: Vec2i) -> Vec2i {
    Vec2i::diff_of(agent, player).unit_dir()
}

/// Where the projectile appears: one sprite length in front of the
/// agent, along the firing direction.
pub open spec fn attack_spawn_pos(agent: Vec2i, dir: Vec2i) -> Vec2i {
    Vec2i {
        x: (agent.x + Vec2i::scale_component(dir.x as int, SPRITE_DRAW_SIZE as int)) as i64,
        y: (agent.y + Vec2i::scale_component(dir.y as int, SPRITE_DRAW_SIZE as int)) as i64,
    }
}

/// The skill event the spawn phase fires: a fireball flies at six
/// tenths of the base projectile speed, a slash at full speed.
pub open spec fn attack_projectile(attack_type: AttackType, agent: Vec2i, player: Vec2i) -> SkillUsedEvent {
    let dir = attack_dir(agent, player);
    let speed = match attack_type {
        AttackType::Fireball => (PROJECTILE_SPEED * 6 / 10) as int,
        AttackType::Slash => PROJECTILE_SPEED as int,
    };
    let data = ProjectileSpawnData {
        memberships: ENEMY_PROJECTILE_MEMBERSHIP,
        filters: ENEMY_PROJECTILE_FILTERS,
        position: attack_spawn_pos(agent, dir),
        velocity: Vec2i { x: (dir.x * speed) as i64, y: (dir.y * speed) as i64 },
    };
    match attack_type {
        AttackType::Fireball => SkillUsedEvent::Fireball(data),
        AttackType::Slash => SkillUsedEvent::Slash(data),
    }
}

/// What one attack update decided.
pub struct AttackOutcome {
    /// Where the weapon sprite points this frame, as a signed permille
    /// of a quarter turn (positive when the agent faces left).
    pub weapon_rotation: Option<i64>,
    /// The skill fired by the spawn phase; exactly one per cycle.
    pub skill: Option<SkillUsedEvent>,
    /// Emitted at the end of recovery with the player still in range.
    pub finished: Option<EventAttackFinished>,
    /// Emitted at the end of recovery with the player out of range.
    pub exited: Option<EventDistanceExited>,
}

/// Advance an attack routine by one frame.
///
/// The wind-up phase rotates the weapon over the start timer and hands
/// over to the spawn phase when it elapses. The spawn phase fires
/// exactly one skill towards the player and enters recovery. Recovery
/// rotates the weapon back over the finish timer; on the tick it
/// elapses, exactly one of `EventAttackFinished` (player still within
/// the attack distance) or `EventDistanceExited` (player fled) is
/// emitted — never both.
pub fn update_attack_routine(
    routine: &mut AttackRoutine,
    agent_id: u64,
    agent_pos: Vec2i,
    player_pos: Vec2i,
    facing_left: bool,
    delta_ms: u64,
) -> (r: AttackOutcome)
    requires
        old(routine).wf(),
        agent_pos.pos_wf(),
        player_pos.pos_wf(),
        delta_ms <= TIME_LIMIT_MS,
    ensures
        final(routine).wf(),
        final(routine).attack_type == old(routine).attack_type,
        final(routine).distance == old(routine).distance,
        attack_phase_step(old(routine).state, final(routine).state),
        r.skill is Some <==> old(routine).state == AttackState::Spawn,
        !(r.finished is Some && r.exited is Some),
        (r.finished is Some || r.exited is Some) ==> old(routine).state == AttackState::Finish,
        old(routine).state == AttackState::Start ==> {
            &&& final(routine).timer_start == old(routine).timer_start.ticked(delta_ms)
            &&& final(routine).timer_finish == old(routine).timer_finish
            &&& final(routine).state == if old(routine).timer_start.ticked(delta_ms).just_finished_now
                { AttackState::Spawn } else { AttackState::Start }
            &&& r.finished is None && r.exited is None
            &&& r.weapon_rotation == Some(rotation_out(
                old(routine).timer_start.ticked(delta_ms).elapsed_ms * 1000
                    / (old(routine).timer_start.duration_ms as int),
                facing_left))
        },
        old(routine).state == AttackState::Spawn ==> {
            &&& final(routine).timer_start == old(routine).timer_start
            &&& final(routine).timer_finish == old(routine).timer_finish
            &&& final(routine).state == AttackState::Finish
            &&& r.weapon_rotation is None
            &&& r.finished is None && r.exited is None
            &&& r.skill == Some(attack_projectile(old(routine).attack_type, agent_pos, player_pos))
        },
        old(routine).state == AttackState::Finish ==> {
            &&& final(routine).timer_start == old(routine).timer_start
            &&& final(routine).timer_finish == old(routine).timer_finish.ticked(delta_ms)
            &&& final(routine).state == AttackState::Finish
            &&& r.weapon_rotation == Some(rotation_out(
                1000 - old(routine).timer_finish.ticked(delta_ms).elapsed_ms * 1000
                    / (old(routine).timer_finish.duration_ms as int),
                facing_left))
            &&& !old(routine).timer_finish.ticked(delta_ms).just_finished_now
                ==> r.finished is None && r.exited is None
            &&& old(routine).timer_finish.ticked(delta_ms).just_finished_now ==> {
                &&& Vec2i::diff_of(agent_pos, player_pos).norm2()
                        > old(routine).distance * old(routine).distance
                    ==> r.exited == Some(EventDistanceExited {
                            distance: old(routine).distance,
                            parent: agent_id,
                        }) && r.finished is None
                &&& Vec2i::diff_of(agent_pos, player_pos).norm2()
                        <= old(routine).distance * old(routine).distance
                    ==> r.finished == Some(EventAttackFinished { parent: agent_id })
                        && r.exited is None
            }
        },
{
    proof {
        assert(routine.distance * routine.distance <= DIST_LIMIT * DIST_LIMIT) by (nonlinear_arith)
            requires 0 < routine.distance <= DIST_LIMIT;
    }
    match routine.state {
        AttackState::Start => {
            routine.timer_start.tick(delta_ms);
            let p = routine.timer_start.percent();
            let rot: i64 = if facing_left { p as i64 } else { -(p as i64) };
            if routine.timer_start.just_finished() {
                routine.state = AttackState::Spawn;
            }
            AttackOutcome { weapon_rotation: Some(rot), skill: None, finished: None, exited: None }
        },
        AttackState::Spawn => {
            let dir = player_pos.sub(agent_pos).normalize_or_zero();
            let offset = dir.scaled(SPRITE_DRAW_SIZE);
            let position = Vec2i::new(agent_pos.x + offset.x, agent_pos.y + offset.y);
            let mut data = ProjectileSpawnData::new(
                ENEMY_PROJECTILE_MEMBERSHIP,
                ENEMY_PROJECTILE_FILTERS,
                position,
                dir,
            );
            let skill = match routine.attack_type {
                AttackType::Fireball => {
                    data.multiply_velocity(PROJECTILE_SPEED * 6 / 10);
                    SkillUsedEvent::Fireball(data)
                },
                AttackType::Slash => {
                    data.multiply_velocity(PROJECTILE_SPEED);
                    SkillUsedEvent::Slash(data)
                },
            };
            routine.state = AttackState::Finish;
            AttackOutcome { weapon_rotation: None, skill: Some(skill), finished: None, exited: None }
        },
        AttackState::Finish => {
            routine.timer_finish.tick(delta_ms);
            let p = routine.timer_finish.percent_left();
            let rot: i64 = if facing_left { p as i64 } else { -(p as i64) };
            let mut finished: Option<EventAttackFinished> = None;
            let mut exited: Option<EventDistanceExited> = None;
            if routine.timer_finish.just_finished() {
                let distance_sq = agent_pos.distance_squared(player_pos);
                if distance_sq > routine.distance * routine.distance {
                    exited = Some(EventDistanceExited { distance: routine.distance, parent: agent_id });
                } else {
                    finished = Some(EventAttackFinished { parent: agent_id });
                }
            }
            AttackOutcome { weapon_rotation: Some(rot), skill: None, finished, exited }
        },
    }
}

/// A signed weapon rotation: the permille amount when the agent faces
/// left, its negation otherwise (the external renderer multiplies by
/// a quarter turn).
pub open spec fn rotation_out(permille: int, facing_left: bool) -> i64 {
    if facing_left { permille as i64 } else { (-permille) as i64 }
}

/// How one update may move the attack phase: wind-up either holds or
/// hands over to the spawn phase, the spawn phase always enters
/// recovery, and recovery never leaves (only a reset starts over).
pub open spec fn attack_phase_step(pre: AttackState, post: AttackState) -> bool {
    match pre {
        AttackState::Start => post == AttackState::Start || post == AttackState::Spawn,
        AttackState::Spawn => post == AttackState::Finish,
        AttackState::Finish => post == AttackState::Finish,
    }
}

/// Once a run of updates has passed the spawn phase it stays in
/// recovery for good.
pub proof fn lemma_attack_finish_persists(states: Seq<AttackState>, i: int, j: int)
    requires
        forall|k: int| 0 <= k < states.len() - 1 ==> attack_phase_step(#[trigger] states[k], states[k + 1]),
        0 <= i < j < states.len(),
        states[i] == AttackState::Spawn,
    ensures
        states[j] == AttackState::Finish,
    decreases j,
{
    if j == i + 1 {
        assert(attack_phase_step(states[i], states[i + 1]));
    } else {
        lemma_attack_finish_persists(states, i, j - 1);
        assert(attack_phase_step(states[j - 1], states[j]));
    }
}

/// Attack cycle determinism: along any run of updates (each of which
/// satisfies `attack_phase_step`, as `update_attack_routine` ensures),
/// the spawn phase is occupied on at most one tick — and since a skill
/// is fired exactly on that tick, one cycle fires exactly one skill.
pub proof fn lemma_attack_spawns_at_most_once(states: Seq<AttackState>)
    requires
        forall|k: int| 0 <= k < states.len() - 1 ==> attack_phase_step(#[trigger] states[k], states[k + 1]),
    ensures
        forall|i: int, j: int|
            0 <= i < j < states.len() && states[i] == AttackState::Spawn
                ==> states[j] != AttackState::Spawn,
{
    assert forall|i: int, j: int|
        0 <= i < j < states.len() && states[i] == AttackState::Spawn
            implies states[j] != AttackState::Spawn by {
        lemma_attack_finish_persists(states, i, j);
    }
}

} // verus!
