//! The per-agent steering state and its update cycle.
//!
//! A steering agent owns two context maps — chase interest and avoid
//! interest — and a repeating re-evaluation timer. Between timer
//! elapses the agent coasts on its previously chosen direction; on the
//! tick the timer elapses, both maps are freshly filled by the active
//! behaviours, the avoid map is subtracted from the chase map, and the
//! strongest remaining window of directions becomes the new movement
//! direction (or a halt, when nothing remains).

use vstd::prelude::*;
use crate::context_map::{
    ContextMap, chosen_index, mask_relates, window_sum, SEGMENT_OFFSETS_CHASE,
};
use crate::timer::{Timer, TimerMode, TIME_LIMIT_MS};
use crate::vec2::{Vec2i, SCALE};

verus! {

/// Upper bound on distances and distance thresholds, in plain units.
pub const DIST_LIMIT: i64 = 1_000_000;

/// A falloff band: full strength within `min_distance`, fading to
/// nothing at `max_distance`.
pub struct SteerConfiguration {
    pub min_distance: i64,
    pub max_distance: i64,
}

/// The weight of a candidate at `distance`: full strength (one unit)
/// strictly inside `min`, then a linear falloff reaching zero at `max`.
pub open spec fn weight_spec(min: int, max: int, distance: int) -> int {
    if distance < min {
        SCALE as int
    } else {
        (max - distance) * SCALE / max
    }
}

impl SteerConfiguration {
    /// The minimum distance is non-negative and strictly below the
    /// bounded maximum.
    pub open spec fn wf(self) -> bool {
        0 <= self.min_distance < self.max_distance <= DIST_LIMIT
    }

    pub fn new(min_distance: i64, max_distance: i64) -> (r: Self)
        requires
            0 <= min_distance < max_distance <= DIST_LIMIT,
        ensures
            r.wf(),
            r.min_distance == min_distance,
            r.max_distance == max_distance,
    {
        Self { min_distance, max_distance }
    }

    /// The falloff weight for a candidate at `distance` (fixed-point:
    /// `SCALE` is full strength, `0` is out of influence).
    pub fn get_weight(&self, distance: i64) -> (r: i64)
        requires
            self.wf(),
            0 <= distance <= self.max_distance,
        ensures
            r == weight_spec(self.min_distance as int, self.max_distance as int, distance as int),
            0 <= r <= SCALE,
    {
        if distance < self.min_distance {
            1000
        } else {
            let diff: i64 = self.max_distance - distance;
            proof {
                lemma_falloff_quotient(diff as int, self.max_distance as int);
            }
            ((diff as u64 * 1000) / (self.max_distance as u64)) as i64
        }
    }

    /// Whether `distance` lies strictly inside the band.
    pub fn is_in_distance(&self, distance: i64) -> (r: bool)
        ensures
            r == (self.min_distance < distance < self.max_distance),
    {
        distance > self.min_distance && distance < self.max_distance
    }
}

/// `(d * SCALE) / max` lies within one unit when `0 <= d <= max`.
pub proof fn lemma_falloff_quotient(d: int, max: int)
    requires
        0 <= d <= max,
        0 < max,
    ensures
        0 <= (d * SCALE) / max <= SCALE,
{
    assert(0 <= d * SCALE <= max * SCALE) by (nonlinear_arith)
        requires 0 <= d <= max;
    assert((max * SCALE) / max == SCALE) by (nonlinear_arith)
        requires max > 0;
    vstd::arithmetic::div_mod::lemma_div_is_ordered(d * SCALE, max * SCALE, max);
    vstd::arithmetic::div_mod::lemma_div_pos_is_pos(d * SCALE, max);
}

/// What one steering update asks of the agent's movement executor.
pub enum SteerDecision {
    /// Move along the given unit direction at the agent's speed (and
    /// keep movement side effects, such as a walk animation, active).
    Move(Vec2i),
    /// No steering signal remains: stop, and drop movement side
    /// effects.
    Halt,
    /// Between decisions with no stored direction: leave movement
    /// untouched this frame.
    Idle,
}

/// Per-agent steering state: the re-evaluation timer, the previously
/// chosen direction, and the two interest maps.
pub struct SteerAi {
    pub update_interval: Timer,
    pub previous: Vec2i,
    pub chase: ContextMap,
    pub avoid: ContextMap,
}

impl SteerAi {
    pub open spec fn wf(self) -> bool {
        &&& self.update_interval.wf()
        &&& self.update_interval.mode == TimerMode::Repeating
        &&& self.previous.is_unit_box()
        &&& self.chase.wf()
        &&& self.avoid.wf()
    }

    /// A fresh agent that re-evaluates every `update_interval_ms`
    /// milliseconds, with no stored direction and empty maps.
    pub fn new(update_interval_ms: u64) -> (r: Self)
        requires
            0 < update_interval_ms <= TIME_LIMIT_MS,
        ensures
            r.wf(),
            r.update_interval == Timer::from_millis_spec(update_interval_ms, TimerMode::Repeating),
            r.previous.is_zero(),
            r.chase.is_empty_spec(),
            r.avoid.is_empty_spec(),
    {
        Self {
            update_interval: Timer::from_millis(update_interval_ms, TimerMode::Repeating),
            previous: Vec2i::zero(),
            chase: ContextMap::new(),
            avoid: ContextMap::new(),
        }
    }
}

impl Default for SteerAi {
    /// The default agent re-evaluates every 100 ms.
    fn default() -> (r: Self)
        ensures
            r.wf(),
            r.update_interval == Timer::from_millis_spec(100u64, TimerMode::Repeating),
            r.previous.is_zero(),
            r.chase.is_empty_spec(),
            r.avoid.is_empty_spec(),
    {
        Self::new(100)
    }
}

/// Advance the agent's re-evaluation timer by one frame. On the tick
/// the interval elapses both maps are reset to zero, ready to be
/// refilled by the behaviours; on any other tick they are untouched.
pub fn update_ai_timer(ai: &mut SteerAi, delta_ms: u64)
    requires
        old(ai).wf(),
        delta_ms <= TIME_LIMIT_MS,
    ensures
        final(ai).wf(),
        final(ai).update_interval == old(ai).update_interval.ticked(delta_ms),
        final(ai).previous == old(ai).previous,
        old(ai).update_interval.ticked(delta_ms).just_finished_now
            ==> final(ai).chase.is_empty_spec() && final(ai).avoid.is_empty_spec(),
        !old(ai).update_interval.ticked(delta_ms).just_finished_now
            ==> final(ai).chase == old(ai).chase && final(ai).avoid == old(ai).avoid,
{
    ai.update_interval.tick(delta_ms);
    if ai.update_interval.just_finished() {
        ai.chase = ContextMap::new();
        ai.avoid = ContextMap::new();
    }
}

/// One steering decision, made after the behaviours have filled the
/// maps for this tick.
///
/// Between timer elapses the agent coasts: it re-issues its previous
/// direction, or stays idle when none is stored. On the tick the timer
/// elapsed, the avoid map is subtracted from the chase map; if nothing
/// remains the stored direction is cleared and the agent halts,
/// otherwise the masked map's strongest window (the chase aggregation
/// radius) yields the new stored direction.
pub fn update_steer_ai(ai: &mut SteerAi) -> (r: SteerDecision)
    requires
        old(ai).wf(),
    ensures
        final(ai).wf(),
        final(ai).update_interval == old(ai).update_interval,
        final(ai).chase == old(ai).chase,
        final(ai).avoid == old(ai).avoid,
        !old(ai).update_interval.just_finished_now ==> {
            &&& final(ai).previous == old(ai).previous
            &&& if old(ai).previous.is_zero() {
                r == SteerDecision::Idle
            } else {
                r == SteerDecision::Move(old(ai).previous)
            }
        },
        old(ai).update_interval.just_finished_now ==> exists|m: ContextMap|
            #[trigger] mask_relates(old(ai).chase, old(ai).avoid, m)
            && if m.is_empty_spec() {
                final(ai).previous.is_zero() && r == SteerDecision::Halt
            } else {
                r == SteerDecision::Move(final(ai).previous)
                && exists|i: int|
                    #[trigger] chosen_index(m, old(ai).previous, i)
                    && ({
                        let s = window_sum(m, i, SEGMENT_OFFSETS_CHASE as int, (2 * SEGMENT_OFFSETS_CHASE + 1) as nat);
                        (final(ai).previous.x as int, final(ai).previous.y as int)
                            == Vec2i::normalize_spec(s.0, s.1)
                    })
            },
{
    if !ai.update_interval.just_finished() {
        if ai.previous.eq_zero() {
            return SteerDecision::Idle;
        }
        return SteerDecision::Move(ai.previous);
    }

    let masked = ai.chase.mask(&ai.avoid);
    if masked.is_empty() {
        ai.previous = Vec2i::zero();
        return SteerDecision::Halt;
    }

    let prev = ai.previous;
    ai.previous = masked.get_vector(&prev, 2);
    SteerDecision::Move(ai.previous)
}

} // verus!
