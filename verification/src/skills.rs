//! Projectile and melee-hitbox spawn requests handed to the external
//! spawning sink.

use vstd::prelude::*;
use crate::vec2::Vec2i;

verus! {

/// Collision-group bit masks for projectiles spawned by agents.
pub const ENEMY_PROJECTILE_MEMBERSHIP: u32 = 0b00010000;
pub const ENEMY_PROJECTILE_FILTERS: u32 = 0b00000001 | 0b00000010;

/// Everything the external spawner needs for one projectile or melee
/// hitbox: collision groups, a spawn position (plain units) and an
/// initial velocity (fixed-point units per second); the facing angle
/// follows from the velocity's direction.
#[derive(Clone, Copy, Debug, PartialEq, Eq, Structural)]
pub struct ProjectileSpawnData {
    pub memberships: u32,
    pub filters: u32,
    pub position: Vec2i,
    pub velocity: Vec2i,
}

impl ProjectileSpawnData {
    pub fn new(memberships: u32, filters: u32, position: Vec2i, velocity: Vec2i) -> (r: Self)
        ensures
            r == (ProjectileSpawnData { memberships, filters, position, velocity }),
    {
        Self { memberships, filters, position, velocity }
    }

    /// Scale the initial velocity by a plain integer ratio.
    pub fn multiply_velocity(&mut self, ratio: i64)
        requires
            old(self).velocity.is_unit_box(),
            0 <= ratio <= 1_000_000,
        ensures
            final(self).velocity.x == old(self).velocity.x * ratio,
            final(self).velocity.y == old(self).velocity.y * ratio,
            final(self).memberships == old(self).memberships,
            final(self).filters == old(self).filters,
            final(self).position == old(self).position,
    {
        proof {
            assert(self.velocity.x * ratio <= 1000 * 1_000_000
                && self.velocity.x * ratio >= -1000 * 1_000_000) by (nonlinear_arith)
                requires -1000 <= self.velocity.x <= 1000 && 0 <= ratio <= 1_000_000;
            assert(self.velocity.y * ratio <= 1000 * 1_000_000
                && self.velocity.y * ratio >= -1000 * 1_000_000) by (nonlinear_arith)
                requires -1000 <= self.velocity.y <= 1000 && 0 <= ratio <= 1_000_000;
        }
        self.velocity = Vec2i { x: self.velocity.x * ratio, y: self.velocity.y * ratio };
    }
}

/// A skill fired by an agent, for the external spawner.
pub enum SkillUsedEvent {
    Fireball(ProjectileSpawnData),
    Slash(ProjectileSpawnData),
}

} // verus!
