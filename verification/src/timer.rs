//! Countdown timers driving re-evaluation cadence, in integer
//! milliseconds.
//!
//! A `Once` timer runs to its duration and stays finished; a
//! `Repeating` timer wraps its elapsed time and reports the tick on
//! which it wrapped. This mirrors the cadence control the routines and
//! the steering agent rely on: act exactly on the tick where the
//! interval elapsed, coast in between.

use vstd::prelude::*;

verus! {

/// Upper bound on durations and on a single frame delta, in
/// milliseconds; keeps all timer arithmetic inside `u64`.
pub const TIME_LIMIT_MS: u64 = 1_000_000_000;

#[derive(Clone, Copy, Debug, PartialEq, Eq, Structural)]
pub enum TimerMode {
    /// Runs once and stays finished.
    Once,
    /// Wraps around and reports each completed interval.
    Repeating,
}

/// A countdown timer with millisecond resolution.
#[derive(Clone, Copy, Debug, PartialEq, Eq, Structural)]
pub struct Timer {
    pub duration_ms: u64,
    pub elapsed_ms: u64,
    pub mode: TimerMode,
    pub just_finished_now: bool,
}

impl Timer {
    /// Positive bounded duration; elapsed time never exceeds it (and
    /// stays strictly below it for a repeating timer).
    pub open spec fn wf(self) -> bool {
        &&& 0 < self.duration_ms <= TIME_LIMIT_MS
        &&& match self.mode {
            TimerMode::Once => self.elapsed_ms <= self.duration_ms,
            TimerMode::Repeating => self.elapsed_ms < self.duration_ms,
        }
    }

    /// The timer has reached its duration: a `Once` timer stays
    /// finished, a `Repeating` timer reports the tick it wrapped on.
    pub open spec fn finished_spec(self) -> bool {
        match self.mode {
            TimerMode::Once => self.elapsed_ms >= self.duration_ms,
            TimerMode::Repeating => self.just_finished_now,
        }
    }

    /// The timer after advancing it by `delta_ms`: what `tick` returns.
    pub open spec fn ticked(self, delta_ms: u64) -> Timer {
        let total = self.elapsed_ms + delta_ms;
        match self.mode {
            TimerMode::Once => {
                if total >= self.duration_ms {
                    Timer {
                        elapsed_ms: self.duration_ms,
                        just_finished_now: self.elapsed_ms < self.duration_ms,
                        ..self
                    }
                } else {
                    Timer { elapsed_ms: total as u64, just_finished_now: false, ..self }
                }
            },
            TimerMode::Repeating => {
                if total >= self.duration_ms {
                    Timer {
                        elapsed_ms: (total % (self.duration_ms as int)) as u64,
                        just_finished_now: true,
                        ..self
                    }
                } else {
                    Timer { elapsed_ms: total as u64, just_finished_now: false, ..self }
                }
            },
        }
    }

    /// What `from_millis` returns: a fresh timer with the given
    /// duration.
    pub open spec fn from_millis_spec(duration_ms: u64, mode: TimerMode) -> Timer {
        Timer { duration_ms, elapsed_ms: 0u64, mode, just_finished_now: false }
    }

    /// A fresh timer with the given duration.
    pub fn from_millis(duration_ms: u64, mode: TimerMode) -> (r: Self)
        requires
            0 < duration_ms <= TIME_LIMIT_MS,
        ensures
            r.wf(),
            r == Self::from_millis_spec(duration_ms, mode),
    {
        Timer { duration_ms, elapsed_ms: 0, mode, just_finished_now: false }
    }

    /// Advance the timer by `delta_ms`. A `Once` timer saturates at its
    /// duration and reports finishing exactly once; a `Repeating` timer
    /// wraps its elapsed time and reports the wrap.
    pub fn tick(&mut self, delta_ms: u64)
        requires
            old(self).wf(),
            delta_ms <= TIME_LIMIT_MS,
        ensures
            final(self).wf(),
            *final(self) == old(self).ticked(delta_ms),
    {
        let total: u64 = self.elapsed_ms + delta_ms;
        let was_unfinished = self.elapsed_ms < self.duration_ms;
        match self.mode {
            TimerMode::Once => {
                if total >= self.duration_ms {
                    self.just_finished_now = was_unfinished;
                    self.elapsed_ms = self.duration_ms;
                } else {
                    self.just_finished_now = false;
                    self.elapsed_ms = total;
                }
            },
            TimerMode::Repeating => {
                if total >= self.duration_ms {
                    self.just_finished_now = true;
                    self.elapsed_ms = total % self.duration_ms;
                } else {
                    self.just_finished_now = false;
                    self.elapsed_ms = total;
                    proof {
                        vstd::arithmetic::div_mod::lemma_small_mod(total as nat, self.duration_ms as nat);
                    }
                }
            },
        }
    }

    /// True on exactly the tick where the duration elapsed.
    pub fn just_finished(&self) -> (r: bool)
        ensures
            r == self.just_finished_now,
    {
        self.just_finished_now
    }

    /// True once the duration has elapsed; for a repeating timer, true
    /// only on the tick it wrapped.
    pub fn finished(&self) -> (r: bool)
        requires
            self.wf(),
        ensures
            r == self.finished_spec(),
    {
        match self.mode {
            TimerMode::Once => self.elapsed_ms >= self.duration_ms,
            TimerMode::Repeating => self.just_finished_now,
        }
    }

    /// Start the timer over.
    pub fn reset(&mut self)
        requires
            old(self).wf(),
        ensures
            final(self).wf(),
            *final(self) == (Timer {
                elapsed_ms: 0u64,
                just_finished_now: false,
                ..*old(self)
            }),
    {
        self.elapsed_ms = 0;
        self.just_finished_now = false;
    }

    /// Replace the duration, clamping elapsed time into range.
    pub fn set_duration(&mut self, duration_ms: u64)
        requires
            old(self).wf(),
            0 < duration_ms <= TIME_LIMIT_MS,
        ensures
            final(self).wf(),
            final(self).duration_ms == duration_ms,
            final(self).mode == old(self).mode,
            final(self).elapsed_ms == if old(self).elapsed_ms < duration_ms
                { old(self).elapsed_ms } else { 0u64 },
    {
        self.duration_ms = duration_ms;
        if self.elapsed_ms >= duration_ms {
            self.elapsed_ms = 0;
        }
    }

    /// How much of the duration has elapsed, in fixed-point permille
    /// (0 is fresh, 1000 is finished).
    pub fn percent(&self) -> (r: u64)
        requires
            self.wf(),
        ensures
            r == self.elapsed_ms * 1000 / (self.duration_ms as int),
            r <= 1000,
    {
        proof {
            assert(self.elapsed_ms * 1000 <= self.duration_ms * 1000) by (nonlinear_arith)
                requires self.elapsed_ms <= self.duration_ms;
            assert(self.duration_ms * 1000 / (self.duration_ms as int) == 1000) by (nonlinear_arith)
                requires self.duration_ms > 0;
            vstd::arithmetic::div_mod::lemma_div_is_ordered(
                self.elapsed_ms * 1000,
                self.duration_ms * 1000,
                self.duration_ms as int,
            );
        }
        self.elapsed_ms * 1000 / self.duration_ms
    }

    /// How much of the duration is left, in fixed-point permille.
    pub fn percent_left(&self) -> (r: u64)
        requires
            self.wf(),
        ensures
            r == 1000 - self.elapsed_ms * 1000 / (self.duration_ms as int),
    {
        1000 - self.percent()
    }
}

} // verus!
