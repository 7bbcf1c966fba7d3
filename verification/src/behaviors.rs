//! Behaviour evaluators: each converts nearby candidates into weighted
//! directional interest written into a steering agent's context maps.
//!
//! Every behaviour follows the same three-operation shape: a validity
//! filter on a candidate's distance (and identity), a falloff weight,
//! and a write into the chase or avoid map. Batch functions evaluate a
//! whole list of candidates in order, and only on the tick where the
//! agent's re-evaluation timer elapsed; their contracts give the
//! resulting segment values as a fold over the candidate list.

use vstd::prelude::*;
use crate::context_map::{added_values, AddMethod};
use crate::steer::{weight_spec, SteerAi, SteerConfiguration};
use crate::vec2::{Vec2i, SCALE};
use crate::rng::{new_rng, random_in_range};

verus! {

/// The unit direction from `agent` towards `cand`.
pub open spec fn rel_dir(agent: Vec2i, cand: Vec2i) -> Vec2i {
    Vec2i::diff_of(agent, cand).unit_dir()
}

/// The integer distance from `agent` to `cand`.
pub open spec fn rel_dist(agent: Vec2i, cand: Vec2i) -> int {
    Vec2i::diff_of(agent, cand).length_spec()
}

/// A nearby character carrying a group tag.
#[derive(Clone, Copy, Debug)]
pub struct GroupMember {
    pub id: u64,
    pub group: usize,
    pub position: Vec2i,
}

/// A nearby entity identified by id.
#[derive(Clone, Copy, Debug)]
pub struct Contact {
    pub id: u64,
    pub position: Vec2i,
}

/// Steer away from every obstacle within the falloff band.
pub struct AvoidObstacles(pub SteerConfiguration);

/// Steer away from fellow members of one group.
pub struct AvoidGroup(pub SteerConfiguration, pub usize);

/// Steer towards members of one group inside the band.
pub struct ChaseGroup(pub SteerConfiguration, pub usize);

/// Steer towards a fixed set of target entities inside the band.
pub struct ChaseTargets(pub SteerConfiguration, pub Vec<u64>);

/// Steer towards the player inside the band.
pub struct ChasePlayer(pub SteerConfiguration);

/// Chase one entity, and strafe around it once inside the minimum
/// distance (the dot combination flips to its inverted form).
pub struct ChaseThenStrageAround(pub SteerConfiguration, pub u64);

/// Wander: head back towards a centre point when outside its radius,
/// otherwise pick a random direction, weighted by how far out the
/// agent is.
pub struct RandomAroundArea(pub Vec2i, pub i64);

impl AvoidObstacles {
    /// Avoidance has no lower bound: anything nearer than the maximum
    /// counts.
    pub open spec fn valid_spec(self, distance: int) -> bool {
        distance < self.0.max_distance
    }

    pub fn is_valid(&self, value: &i64) -> (r: bool)
        ensures
            r == self.valid_spec(*value as int),
    {
        *value < self.0.max_distance
    }

    /// Full strength inside the minimum distance, then linear falloff.
    pub fn weight(&self, distance: i64) -> (r: i64)
        requires
            self.0.wf(),
            0 <= distance <= self.0.max_distance,
        ensures
            r == weight_spec(self.0.min_distance as int, self.0.max_distance as int, distance as int),
            0 <= r <= SCALE,
    {
        self.0.get_weight(distance)
    }

    /// Write the weighted direction into the avoid map.
    pub fn fill_context_map(&self, vector: Vec2i, data: i64, ai: &mut SteerAi)
        requires
            old(ai).wf(),
            vector.wf_wide(),
            0 <= data <= SCALE,
        ensures
            final(ai).wf(),
            final(ai).avoid.values@
                == added_values(old(ai).avoid.values@, vector.unit_dir(), AddMethod::Dot(data)),
            final(ai).chase == old(ai).chase,
            final(ai).previous == old(ai).previous,
            final(ai).update_interval == old(ai).update_interval,
    {
        let dir = vector.normalize_or_zero();
        ai.avoid.add(dir, AddMethod::Dot(data));
    }
}

/// The avoid-map segment values after evaluating the first `n`
/// obstacles in order: each obstacle inside the band adds its weighted
/// direction, the rest change nothing.
pub open spec fn avoid_obstacles_values(
    b: AvoidObstacles,
    agent: Vec2i,
    pre: Seq<i64>,
    cands: Seq<Vec2i>,
    n: int,
) -> Seq<i64>
    decreases n,
{
    if n <= 0 {
        pre
    } else {
        let prev = avoid_obstacles_values(b, agent, pre, cands, n - 1);
        let cand = cands[n - 1];
        let d = rel_dist(agent, cand);
        if b.valid_spec(d) {
            added_values(prev, rel_dir(agent, cand),
                AddMethod::Dot(weight_spec(b.0.min_distance as int, b.0.max_distance as int, d) as i64))
        } else {
            prev
        }
    }
}

/// Evaluate the avoid-obstacles behaviour against every obstacle, on
/// the tick where the agent's re-evaluation timer elapsed; between
/// ticks nothing is written.
pub fn avoid_obstacles(agent_pos: Vec2i, ai: &mut SteerAi, behavior: &AvoidObstacles, obstacles: &Vec<Vec2i>)
    requires
        old(ai).wf(),
        behavior.0.wf(),
        agent_pos.pos_wf(),
        forall|k: int| 0 <= k < obstacles@.len() ==> (#[trigger] obstacles@[k]).pos_wf(),
    ensures
        final(ai).wf(),
        final(ai).update_interval == old(ai).update_interval,
        final(ai).previous == old(ai).previous,
        final(ai).chase == old(ai).chase,
        !old(ai).update_interval.just_finished_now ==> final(ai).avoid == old(ai).avoid,
        old(ai).update_interval.just_finished_now ==> final(ai).avoid.values@
            == avoid_obstacles_values(*behavior, agent_pos, old(ai).avoid.values@, obstacles@, obstacles@.len() as int),
{
    if !ai.update_interval.just_finished() {
        return;
    }
    let ghost pre = ai.avoid.values@;
    let mut k: usize = 0;
    while k < obstacles.len()
        invariant
            k <= obstacles@.len(),
            ai.wf(),
            behavior.0.wf(),
            agent_pos.pos_wf(),
            forall|t: int| 0 <= t < obstacles@.len() ==> (#[trigger] obstacles@[t]).pos_wf(),
            ai.update_interval == old(ai).update_interval,
            ai.previous == old(ai).previous,
            ai.chase == old(ai).chase,
            pre == old(ai).avoid.values@,
            ai.avoid.values@ == avoid_obstacles_values(*behavior, agent_pos, pre, obstacles@, k as int),
        decreases obstacles@.len() - k,
    {
        let cand = obstacles[k];
        let v = cand.sub(agent_pos);
        let length = agent_pos.distance(cand);
        proof {
            assert(v == Vec2i::diff_of(agent_pos, cand));
        }
        if behavior.is_valid(&length) {
            let w = behavior.weight(length);
            behavior.fill_context_map(v, w, ai);
        }
        k += 1;
    }
}

impl AvoidGroup {
    /// Valid candidates are other members of this behaviour's group
    /// inside the maximum distance.
    pub open spec fn valid_spec(self, group: usize, distance: int) -> bool {
        distance < self.0.max_distance && self.1 == group
    }

    pub fn is_valid(&self, value: &(usize, i64)) -> (r: bool)
        ensures
            r == self.valid_spec(value.0, value.1 as int),
    {
        value.1 < self.0.max_distance && self.1 == value.0
    }

    /// Full strength inside the minimum distance, then linear falloff.
    pub fn weight(&self, distance: i64) -> (r: i64)
        requires
            self.0.wf(),
            0 <= distance <= self.0.max_distance,
        ensures
            r == weight_spec(self.0.min_distance as int, self.0.max_distance as int, distance as int),
            0 <= r <= SCALE,
    {
        self.0.get_weight(distance)
    }

    /// Write the weighted direction into the avoid map.
    pub fn fill_context_map(&self, vector: Vec2i, data: i64, ai: &mut SteerAi)
        requires
            old(ai).wf(),
            vector.wf_wide(),
            0 <= data <= SCALE,
        ensures
            final(ai).wf(),
            final(ai).avoid.values@
                == added_values(old(ai).avoid.values@, vector.unit_dir(), AddMethod::Dot(data)),
            final(ai).chase == old(ai).chase,
            final(ai).previous == old(ai).previous,
            final(ai).update_interval == old(ai).update_interval,
    {
        let dir = vector.normalize_or_zero();
        ai.avoid.add(dir, AddMethod::Dot(data));
    }
}

/// The avoid-map segment values after evaluating the first `n` group
/// members in order; the agent itself never contributes.
pub open spec fn avoid_group_values(
    b: AvoidGroup,
    ai_id: u64,
    agent: Vec2i,
    pre: Seq<i64>,
    cands: Seq<GroupMember>,
    n: int,
) -> Seq<i64>
    decreases n,
{
    if n <= 0 {
        pre
    } else {
        let prev = avoid_group_values(b, ai_id, agent, pre, cands, n - 1);
        let cand = cands[n - 1];
        let d = rel_dist(agent, cand.position);
        if cand.id != ai_id && b.valid_spec(cand.group, d) {
            added_values(prev, rel_dir(agent, cand.position),
                AddMethod::Dot(weight_spec(b.0.min_distance as int, b.0.max_distance as int, d) as i64))
        } else {
            prev
        }
    }
}

/// Evaluate the avoid-group behaviour against every nearby character,
/// skipping the agent itself, on the tick where the re-evaluation
/// timer elapsed.
pub fn avoid_group(ai_id: u64, agent_pos: Vec2i, ai: &mut SteerAi, behavior: &AvoidGroup, others: &Vec<GroupMember>)
    requires
        old(ai).wf(),
        behavior.0.wf(),
        agent_pos.pos_wf(),
        forall|k: int| 0 <= k < others@.len() ==> (#[trigger] others@[k]).position.pos_wf(),
    ensures
        final(ai).wf(),
        final(ai).update_interval == old(ai).update_interval,
        final(ai).previous == old(ai).previous,
        final(ai).chase == old(ai).chase,
        !old(ai).update_interval.just_finished_now ==> final(ai).avoid == old(ai).avoid,
        old(ai).update_interval.just_finished_now ==> final(ai).avoid.values@
            == avoid_group_values(*behavior, ai_id, agent_pos, old(ai).avoid.values@, others@, others@.len() as int),
{
    if !ai.update_interval.just_finished() {
        return;
    }
    let ghost pre = ai.avoid.values@;
    let mut k: usize = 0;
    while k < others.len()
        invariant
            k <= others@.len(),
            ai.wf(),
            behavior.0.wf(),
            agent_pos.pos_wf(),
            forall|t: int| 0 <= t < others@.len() ==> (#[trigger] others@[t]).position.pos_wf(),
            ai.update_interval == old(ai).update_interval,
            ai.previous == old(ai).previous,
            ai.chase == old(ai).chase,
            pre == old(ai).avoid.values@,
            ai.avoid.values@ == avoid_group_values(*behavior, ai_id, agent_pos, pre, others@, k as int),
        decreases others@.len() - k,
    {
        let cand = others[k];
        if cand.id != ai_id {
            let v = cand.position.sub(agent_pos);
            let length = agent_pos.distance(cand.position);
            proof {
                assert(v == Vec2i::diff_of(agent_pos, cand.position));
            }
            if behavior.is_valid(&(cand.group, length)) {
                let w = behavior.weight(length);
                behavior.fill_context_map(v, w, ai);
            }
        }
        k += 1;
    }
}

impl ChaseGroup {
    /// Valid candidates are members of this behaviour's group strictly
    /// inside the band.
    pub open spec fn valid_spec(self, group: usize, distance: int) -> bool {
        self.0.min_distance < distance < self.0.max_distance && self.1 == group
    }

    pub fn is_valid(&self, value: &(usize, i64)) -> (r: bool)
        ensures
            r == self.valid_spec(value.0, value.1 as int),
    {
        self.0.is_in_distance(value.1) && self.1 == value.0
    }

    /// Full strength inside the minimum distance, then linear falloff.
    pub fn weight(&self, distance: i64) -> (r: i64)
        requires
            self.0.wf(),
            0 <= distance <= self.0.max_distance,
        ensures
            r == weight_spec(self.0.min_distance as int, self.0.max_distance as int, distance as int),
            0 <= r <= SCALE,
    {
        self.0.get_weight(distance)
    }

    /// Write the weighted direction into the chase map.
    pub fn fill_context_map(&self, vector: Vec2i, data: i64, ai: &mut SteerAi)
        requires
            old(ai).wf(),
            vector.wf_wide(),
            0 <= data <= SCALE,
        ensures
            final(ai).wf(),
            final(ai).chase.values@
                == added_values(old(ai).chase.values@, vector.unit_dir(), AddMethod::Dot(data)),
            final(ai).avoid == old(ai).avoid,
            final(ai).previous == old(ai).previous,
            final(ai).update_interval == old(ai).update_interval,
    {
        let dir = vector.normalize_or_zero();
        ai.chase.add(dir, AddMethod::Dot(data));
    }
}

/// The chase-map segment values after evaluating the first `n` group
/// members in order; the agent itself never contributes.
pub open spec fn chase_group_values(
    b: ChaseGroup,
    ai_id: u64,
    agent: Vec2i,
    pre: Seq<i64>,
    cands: Seq<GroupMember>,
    n: int,
) -> Seq<i64>
    decreases n,
{
    if n <= 0 {
        pre
    } else {
        let prev = chase_group_values(b, ai_id, agent, pre, cands, n - 1);
        let cand = cands[n - 1];
        let d = rel_dist(agent, cand.position);
        if cand.id != ai_id && b.valid_spec(cand.group, d) {
            added_values(prev, rel_dir(agent, cand.position),
                AddMethod::Dot(weight_spec(b.0.min_distance as int, b.0.max_distance as int, d) as i64))
        } else {
            prev
        }
    }
}

/// Evaluate the chase-group behaviour against every nearby character,
/// skipping the agent itself, on the tick where the re-evaluation
/// timer elapsed.
pub fn chase_group(ai_id: u64, agent_pos: Vec2i, ai: &mut SteerAi, behavior: &ChaseGroup, others: &Vec<GroupMember>)
    requires
        old(ai).wf(),
        behavior.0.wf(),
        agent_pos.pos_wf(),
        forall|k: int| 0 <= k < others@.len() ==> (#[trigger] others@[k]).position.pos_wf(),
    ensures
        final(ai).wf(),
        final(ai).update_interval == old(ai).update_interval,
        final(ai).previous == old(ai).previous,
        final(ai).avoid == old(ai).avoid,
        !old(ai).update_interval.just_finished_now ==> final(ai).chase == old(ai).chase,
        old(ai).update_interval.just_finished_now ==> final(ai).chase.values@
            == chase_group_values(*behavior, ai_id, agent_pos, old(ai).chase.values@, others@, others@.len() as int),
{
    if !ai.update_interval.just_finished() {
        return;
    }
    let ghost pre = ai.chase.values@;
    let mut k: usize = 0;
    while k < others.len()
        invariant
            k <= others@.len(),
            ai.wf(),
            behavior.0.wf(),
            agent_pos.pos_wf(),
            forall|t: int| 0 <= t < others@.len() ==> (#[trigger] others@[t]).position.pos_wf(),
            ai.update_interval == old(ai).update_interval,
            ai.previous == old(ai).previous,
            ai.avoid == old(ai).avoid,
            pre == old(ai).chase.values@,
            ai.chase.values@ == chase_group_values(*behavior, ai_id, agent_pos, pre, others@, k as int),
        decreases others@.len() - k,
    {
        let cand = others[k];
        if cand.id != ai_id {
            let v = cand.position.sub(agent_pos);
            let length = agent_pos.distance(cand.position);
            proof {
                assert(v == Vec2i::diff_of(agent_pos, cand.position));
            }
            if behavior.is_valid(&(cand.group, length)) {
                let w = behavior.weight(length);
                behavior.fill_context_map(v, w, ai);
            }
        }
        k += 1;
    }
}

/// Whether `ids` holds `id`.
fn contains_id(ids: &Vec<u64>, id: u64) -> (r: bool)
    ensures
        r == ids@.contains(id),
{
    let mut k: usize = 0;
    while k < ids.len()
        invariant
            k <= ids@.len(),
            forall|t: int| 0 <= t < k ==> ids@[t] != id,
        decreases ids@.len() - k,
    {
        if ids[k] == id {
            return true;
        }
        k += 1;
    }
    false
}

impl ChaseTargets {
    /// Valid candidates are designated targets strictly inside the
    /// band.
    pub open spec fn valid_spec(self, id: u64, distance: int) -> bool {
        self.0.min_distance < distance < self.0.max_distance && self.1@.contains(id)
    }

    pub fn is_valid(&self, value: &(u64, i64)) -> (r: bool)
        ensures
            r == self.valid_spec(value.0, value.1 as int),
    {
        self.0.is_in_distance(value.1) && contains_id(&self.1, value.0)
    }

    /// Full strength inside the minimum distance, then linear falloff.
    pub fn weight(&self, distance: i64) -> (r: i64)
        requires
            self.0.wf(),
            0 <= distance <= self.0.max_distance,
        ensures
            r == weight_spec(self.0.min_distance as int, self.0.max_distance as int, distance as int),
            0 <= r <= SCALE,
    {
        self.0.get_weight(distance)
    }

    /// Write the weighted direction into the chase map.
    pub fn fill_context_map(&self, vector: Vec2i, data: i64, ai: &mut SteerAi)
        requires
            old(ai).wf(),
            vector.wf_wide(),
            0 <= data <= SCALE,
        ensures
            final(ai).wf(),
            final(ai).chase.values@
                == added_values(old(ai).chase.values@, vector.unit_dir(), AddMethod::Dot(data)),
            final(ai).avoid == old(ai).avoid,
            final(ai).previous == old(ai).previous,
            final(ai).update_interval == old(ai).update_interval,
    {
        let dir = vector.normalize_or_zero();
        ai.chase.add(dir, AddMethod::Dot(data));
    }
}

/// The chase-map segment values after evaluating the first `n`
/// contacts against a chase-targets behaviour.
pub open spec fn chase_targets_values(
    b: ChaseTargets,
    agent: Vec2i,
    pre: Seq<i64>,
    cands: Seq<Contact>,
    n: int,
) -> Seq<i64>
    decreases n,
{
    if n <= 0 {
        pre
    } else {
        let prev = chase_targets_values(b, agent, pre, cands, n - 1);
        let cand = cands[n - 1];
        let d = rel_dist(agent, cand.position);
        if b.valid_spec(cand.id, d) {
            added_values(prev, rel_dir(agent, cand.position),
                AddMethod::Dot(weight_spec(b.0.min_distance as int, b.0.max_distance as int, d) as i64))
        } else {
            prev
        }
    }
}

/// Evaluate the chase-targets behaviour against every contact, on the
/// tick where the re-evaluation timer elapsed.
pub fn chase_targets(agent_pos: Vec2i, ai: &mut SteerAi, behavior: &ChaseTargets, others: &Vec<Contact>)
    requires
        old(ai).wf(),
        behavior.0.wf(),
        agent_pos.pos_wf(),
        forall|k: int| 0 <= k < others@.len() ==> (#[trigger] others@[k]).position.pos_wf(),
    ensures
        final(ai).wf(),
        final(ai).update_interval == old(ai).update_interval,
        final(ai).previous == old(ai).previous,
        final(ai).avoid == old(ai).avoid,
        !old(ai).update_interval.just_finished_now ==> final(ai).chase == old(ai).chase,
        old(ai).update_interval.just_finished_now ==> final(ai).chase.values@
            == chase_targets_values(*behavior, agent_pos, old(ai).chase.values@, others@, others@.len() as int),
{
    if !ai.update_interval.just_finished() {
        return;
    }
    let ghost pre = ai.chase.values@;
    let mut k: usize = 0;
    while k < others.len()
        invariant
            k <= others@.len(),
            ai.wf(),
            behavior.0.wf(),
            agent_pos.pos_wf(),
            forall|t: int| 0 <= t < others@.len() ==> (#[trigger] others@[t]).position.pos_wf(),
            ai.update_interval == old(ai).update_interval,
            ai.previous == old(ai).previous,
            ai.avoid == old(ai).avoid,
            pre == old(ai).chase.values@,
            ai.chase.values@ == chase_targets_values(*behavior, agent_pos, pre, others@, k as int),
        decreases others@.len() - k,
    {
        let cand = others[k];
        let v = cand.position.sub(agent_pos);
        let length = agent_pos.distance(cand.position);
        proof {
            assert(v == Vec2i::diff_of(agent_pos, cand.position));
        }
        if behavior.is_valid(&(cand.id, length)) {
            let w = behavior.weight(length);
            behavior.fill_context_map(v, w, ai);
        }
        k += 1;
    }
}

impl ChasePlayer {
    /// The player is valid strictly inside the band.
    pub open spec fn valid_spec(self, distance: int) -> bool {
        self.0.min_distance < distance < self.0.max_distance
    }

    pub fn is_valid(&self, value: &i64) -> (r: bool)
        ensures
            r == self.valid_spec(*value as int),
    {
        self.0.is_in_distance(*value)
    }

    /// Full strength inside the minimum distance, then linear falloff.
    pub fn weight(&self, distance: i64) -> (r: i64)
        requires
            self.0.wf(),
            0 <= distance <= self.0.max_distance,
        ensures
            r == weight_spec(self.0.min_distance as int, self.0.max_distance as int, distance as int),
            0 <= r <= SCALE,
    {
        self.0.get_weight(distance)
    }

    /// Write the weighted direction into the chase map.
    pub fn fill_context_map(&self, vector: Vec2i, data: i64, ai: &mut SteerAi)
        requires
            old(ai).wf(),
            vector.wf_wide(),
            0 <= data <= SCALE,
        ensures
            final(ai).wf(),
            final(ai).chase.values@
                == added_values(old(ai).chase.values@, vector.unit_dir(), AddMethod::Dot(data)),
            final(ai).avoid == old(ai).avoid,
            final(ai).previous == old(ai).previous,
            final(ai).update_interval == old(ai).update_interval,
    {
        let dir = vector.normalize_or_zero();
        ai.chase.add(dir, AddMethod::Dot(data));
    }
}

/// Evaluate the chase-player behaviour against the player's position,
/// on the tick where the re-evaluation timer elapsed. A player inside
/// the band adds its weighted direction to the chase map; otherwise
/// nothing changes.
pub fn chase_player(agent_pos: Vec2i, ai: &mut SteerAi, behavior: &ChasePlayer, player_pos: Vec2i)
    requires
        old(ai).wf(),
        behavior.0.wf(),
        agent_pos.pos_wf(),
        player_pos.pos_wf(),
    ensures
        final(ai).wf(),
        final(ai).update_interval == old(ai).update_interval,
        final(ai).previous == old(ai).previous,
        final(ai).avoid == old(ai).avoid,
        !old(ai).update_interval.just_finished_now ==> final(ai).chase == old(ai).chase,
        old(ai).update_interval.just_finished_now ==> ({
            let d = rel_dist(agent_pos, player_pos);
            if behavior.valid_spec(d) {
                final(ai).chase.values@ == added_values(old(ai).chase.values@,
                    rel_dir(agent_pos, player_pos),
                    AddMethod::Dot(weight_spec(behavior.0.min_distance as int, behavior.0.max_distance as int, d) as i64))
            } else {
                final(ai).chase == old(ai).chase
            }
        }),
{
    if !ai.update_interval.just_finished() {
        return;
    }
    let v = player_pos.sub(agent_pos);
    let length = agent_pos.distance(player_pos);
    proof {
        assert(v == Vec2i::diff_of(agent_pos, player_pos));
    }
    if behavior.is_valid(&length) {
        let w = behavior.weight(length);
        behavior.fill_context_map(v, w, ai);
    }
}

/// The strafing weight once inside the minimum distance: grows towards
/// full strength back at the centre.
pub open spec fn strafe_weight_spec(min: int, distance: int) -> int {
    (min - distance) * SCALE / min
}

impl ChaseThenStrageAround {
    /// Valid candidates are this behaviour's target inside the maximum
    /// distance.
    pub open spec fn valid_spec(self, id: u64, distance: int) -> bool {
        self.1 == id && self.0.max_distance > distance
    }

    pub fn is_valid(&self, value: &(u64, i64)) -> (r: bool)
        ensures
            r == self.valid_spec(value.0, value.1 as int),
    {
        self.1 == value.0 && self.0.max_distance > value.1
    }

    /// Beyond the minimum distance the usual falloff; inside it, the
    /// strafing weight.
    pub fn weight(&self, distance: i64) -> (r: i64)
        requires
            self.0.wf(),
            self.0.min_distance > 0,
            0 <= distance <= self.0.max_distance,
        ensures
            r == if distance > self.0.min_distance
                { weight_spec(self.0.min_distance as int, self.0.max_distance as int, distance as int) }
                else { strafe_weight_spec(self.0.min_distance as int, distance as int) },
            0 <= r <= SCALE,
    {
        if distance > self.0.min_distance {
            self.0.get_weight(distance)
        } else {
            let diff: i64 = self.0.min_distance - distance;
            proof {
                crate::steer::lemma_falloff_quotient(diff as int, self.0.min_distance as int);
            }
            ((diff as u64 * 1000) / (self.0.min_distance as u64)) as i64
        }
    }

    /// Chase while beyond the minimum distance; strafe (inverted dot)
    /// once inside it.
    pub fn fill_context_map(&self, vector: Vec2i, data: (i64, i64), ai: &mut SteerAi)
        requires
            old(ai).wf(),
            vector.wf_wide(),
            0 <= data.1 <= SCALE,
        ensures
            final(ai).wf(),
            final(ai).chase.values@ == added_values(old(ai).chase.values@, vector.unit_dir(),
                if data.0 > self.0.min_distance { AddMethod::Dot(data.1) } else { AddMethod::DotInverted(data.1) }),
            final(ai).avoid == old(ai).avoid,
            final(ai).previous == old(ai).previous,
            final(ai).update_interval == old(ai).update_interval,
    {
        let dir = vector.normalize_or_zero();
        if data.0 > self.0.min_distance {
            ai.chase.add(dir, AddMethod::Dot(data.1));
        } else {
            ai.chase.add(dir, AddMethod::DotInverted(data.1));
        }
    }
}

/// The chase-map segment values after evaluating the first `n`
/// contacts against a chase-then-strafe behaviour.
pub open spec fn strafe_around_values(
    b: ChaseThenStrageAround,
    agent: Vec2i,
    pre: Seq<i64>,
    cands: Seq<Contact>,
    n: int,
) -> Seq<i64>
    decreases n,
{
    if n <= 0 {
        pre
    } else {
        let prev = strafe_around_values(b, agent, pre, cands, n - 1);
        let cand = cands[n - 1];
        let d = rel_dist(agent, cand.position);
        if b.valid_spec(cand.id, d) {
            let w = if d > b.0.min_distance
                { weight_spec(b.0.min_distance as int, b.0.max_distance as int, d) }
                else { strafe_weight_spec(b.0.min_distance as int, d) };
            let method = if d > b.0.min_distance
                { AddMethod::Dot(w as i64) }
                else { AddMethod::DotInverted(w as i64) };
            added_values(prev, rel_dir(agent, cand.position), method)
        } else {
            prev
        }
    }
}

/// Evaluate the chase-then-strafe behaviour against every contact, on
/// the tick where the re-evaluation timer elapsed.
pub fn strafe_around(agent_pos: Vec2i, ai: &mut SteerAi, behavior: &ChaseThenStrageAround, others: &Vec<Contact>)
    requires
        old(ai).wf(),
        behavior.0.wf(),
        behavior.0.min_distance > 0,
        agent_pos.pos_wf(),
        forall|k: int| 0 <= k < others@.len() ==> (#[trigger] others@[k]).position.pos_wf(),
    ensures
        final(ai).wf(),
        final(ai).update_interval == old(ai).update_interval,
        final(ai).previous == old(ai).previous,
        final(ai).avoid == old(ai).avoid,
        !old(ai).update_interval.just_finished_now ==> final(ai).chase == old(ai).chase,
        old(ai).update_interval.just_finished_now ==> final(ai).chase.values@
            == strafe_around_values(*behavior, agent_pos, old(ai).chase.values@, others@, others@.len() as int),
{
    if !ai.update_interval.just_finished() {
        return;
    }
    let ghost pre = ai.chase.values@;
    let mut k: usize = 0;
    while k < others.len()
        invariant
            k <= others@.len(),
            ai.wf(),
            behavior.0.wf(),
            behavior.0.min_distance > 0,
            agent_pos.pos_wf(),
            forall|t: int| 0 <= t < others@.len() ==> (#[trigger] others@[t]).position.pos_wf(),
            ai.update_interval == old(ai).update_interval,
            ai.previous == old(ai).previous,
            ai.avoid == old(ai).avoid,
            pre == old(ai).chase.values@,
            ai.chase.values@ == strafe_around_values(*behavior, agent_pos, pre, others@, k as int),
        decreases others@.len() - k,
    {
        let cand = others[k];
        let v = cand.position.sub(agent_pos);
        let length = agent_pos.distance(cand.position);
        proof {
            assert(v == Vec2i::diff_of(agent_pos, cand.position));
        }
        if behavior.is_valid(&(cand.id, length)) {
            let w = behavior.weight(length);
            behavior.fill_context_map(v, (length, w), ai);
        }
        k += 1;
    }
}

impl RandomAroundArea {
    /// Every tick is valid: the wander behaviour always contributes.
    pub fn is_valid(&self, _value: &i64) -> (r: bool)
        ensures
            r,
    {
        true
    }

    /// Full strength beyond the area's radius (head home), fading to
    /// nothing at its centre.
    pub fn weight(&self, distance: i64) -> (r: i64)
        requires
            0 < self.1 <= crate::steer::DIST_LIMIT,
            0 <= distance <= 3_000_000,
        ensures
            r == if distance > self.1 { SCALE as int } else { distance * SCALE / (self.1 as int) },
            0 <= r <= SCALE,
    {
        if distance > self.1 {
            1000
        } else {
            proof {
                crate::steer::lemma_falloff_quotient(distance as int, self.1 as int);
            }
            ((distance as u64 * 1000) / (self.1 as u64)) as i64
        }
    }

    /// Write the weighted direction into the chase map.
    pub fn fill_context_map(&self, vector: Vec2i, data: i64, ai: &mut SteerAi)
        requires
            old(ai).wf(),
            vector.wf_wide(),
            0 <= data <= SCALE,
        ensures
            final(ai).wf(),
            final(ai).chase.values@
                == added_values(old(ai).chase.values@, vector.unit_dir(), AddMethod::Dot(data)),
            final(ai).avoid == old(ai).avoid,
            final(ai).previous == old(ai).previous,
            final(ai).update_interval == old(ai).update_interval,
    {
        let dir = vector.normalize_or_zero();
        ai.chase.add(dir, AddMethod::Dot(data));
    }
}

/// Evaluate the wander behaviour, on the tick where the re-evaluation
/// timer elapsed. Outside the area the agent is drawn back towards the
/// centre at full weight; inside it, some random direction is written
/// with a weight that fades towards the centre — whatever direction
/// the generator produced, the contract below holds of it.
pub fn random_around_area(agent_pos: Vec2i, ai: &mut SteerAi, behavior: &RandomAroundArea)
    requires
        old(ai).wf(),
        agent_pos.pos_wf(),
        behavior.0.pos_wf(),
        0 < behavior.1 <= crate::steer::DIST_LIMIT,
    ensures
        final(ai).wf(),
        final(ai).update_interval == old(ai).update_interval,
        final(ai).previous == old(ai).previous,
        final(ai).avoid == old(ai).avoid,
        !old(ai).update_interval.just_finished_now ==> final(ai).chase == old(ai).chase,
        old(ai).update_interval.just_finished_now && rel_dist(agent_pos, behavior.0) > behavior.1
            ==> final(ai).chase.values@ == added_values(old(ai).chase.values@,
                rel_dir(agent_pos, behavior.0), AddMethod::Dot(SCALE)),
        old(ai).update_interval.just_finished_now && rel_dist(agent_pos, behavior.0) <= behavior.1
            ==> exists|rv: Vec2i|
                -SCALE <= rv.x < SCALE && -SCALE <= rv.y < SCALE
                && final(ai).chase.values@ == #[trigger] added_values(old(ai).chase.values@,
                    rv.unit_dir(),
                    AddMethod::Dot((rel_dist(agent_pos, behavior.0) * SCALE / (behavior.1 as int)) as i64)),
{
    if !ai.update_interval.just_finished() {
        return;
    }
    let mut rng = new_rng();
    let center_v = behavior.0.sub(agent_pos);
    let center_distance = agent_pos.distance(behavior.0);
    proof {
        assert(center_v == Vec2i::diff_of(agent_pos, behavior.0));
    }
    let weight = behavior.weight(center_distance);
    let ghost d = rel_dist(agent_pos, behavior.0);
    let ghost w = if d > behavior.1 { SCALE as int } else { d * SCALE / (behavior.1 as int) };
    proof {
        assert(weight == w as i64);
    }
    if center_distance > behavior.1 {
        behavior.fill_context_map(center_v, weight, ai);
        proof {
            assert(ai.chase.values@ == added_values(old(ai).chase.values@,
                rel_dir(agent_pos, behavior.0), AddMethod::Dot(w as i64)));
        }
    } else {
        let rx = random_in_range(&mut rng, -1000, 1000);
        let ry = random_in_range(&mut rng, -1000, 1000);
        let rv = Vec2i::new(rx, ry);
        behavior.fill_context_map(rv, weight, ai);
        proof {
            assert(ai.chase.values@ == added_values(old(ai).chase.values@,
                rv.unit_dir(), AddMethod::Dot(w as i64)));
        }
    }
}

} // verus!

