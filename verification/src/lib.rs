//! Context-map steering for autonomous 2D agents.
//!
//! Agents combine competing spatial influences (chase a target, avoid
//! obstacles and allies, wander) into a single movement direction every
//! tick. Each influence writes weighted interest values into a fixed
//! resolution circular histogram (a context map); an avoid map is
//! subtracted from a chase map and the strongest remaining window of
//! directions yields the movement vector. A routine layer (follow, rush,
//! attack) swaps the active influences in and out, driven by distance
//! thresholds and timers.
//!
//! All geometry and all weights use fixed-point arithmetic: a scalar of
//! `1000` stands for `1.0`. Durations are integer milliseconds. The
//! surrounding engine is expected to supply positions and elapsed time as
//! plain integers in those units, and to execute the returned movement
//! directions and spawn requests.

pub mod agent;
pub mod behaviors;
pub mod context_map;
pub mod events;
pub mod rng;
pub mod routines;
pub mod skills;
pub mod steer;
pub mod timer;
pub mod vec2;
