//! A repeating countdown on whole milliseconds.
//!
//! The engine drives the game with a per-frame time delta; the obstacle
//! spawner, the clearing animation and the sprite animation each own one of
//! these timers.  A timer fires whenever the accumulated time reaches its
//! period, then keeps the remainder, so a long frame can make it fire and
//! still leave it part-way into the next period.

use vstd::prelude::*;

verus! {

/// Longest period a timer may be built with, in milliseconds.
pub const TIMER_MAX_MS: u32 = 1_000_000_000;

/// A repeating timer: `elapsed_ms` counts from zero up to the period
/// `duration_ms`, wrapping each time it gets there.
#[derive(Clone, Copy, Debug, PartialEq, Eq, Structural)]
pub struct RepeatingTimer {
    pub elapsed_ms: u32,
    pub duration_ms: u32,
}

impl RepeatingTimer {
    /// The period is positive and bounded and the accumulator stays below it.
    pub open spec fn wf(self) -> bool {
        0 < self.duration_ms <= TIMER_MAX_MS && self.elapsed_ms < self.duration_ms
    }

    /// A fresh timer with the given period, not yet started.
    pub fn new(duration_ms: u32) -> (t: RepeatingTimer)
        requires
            0 < duration_ms <= TIMER_MAX_MS,
        ensures
            t.wf(),
            t.duration_ms == duration_ms,
            t.elapsed_ms == 0,
    {
        RepeatingTimer { elapsed_ms: 0, duration_ms }
    }

    /// Whether advancing by `delta` makes the timer reach its period.
    pub open spec fn spec_fired(self, delta: int) -> bool {
        self.elapsed_ms + delta >= self.duration_ms
    }

    /// The timer after advancing by `delta`: the period stays, the
    /// accumulator wraps at the period.
    pub open spec fn spec_tick(self, delta: int) -> RepeatingTimer {
        RepeatingTimer {
            elapsed_ms: ((self.elapsed_ms + delta) % (self.duration_ms as int)) as u32,
            duration_ms: self.duration_ms,
        }
    }

    /// Advances the timer by `delta_ms` and reports whether it fired: it
    /// fires exactly when the accumulated time reaches the period, and then
    /// carries the remainder into the next period.
    pub fn tick(&mut self, delta_ms: u32) -> (fired: bool)
        requires
            old(self).wf(),
            delta_ms <= TIMER_MAX_MS,
        ensures
            final(self).wf(),
            fired == old(self).spec_fired(delta_ms as int),
            *final(self) == old(self).spec_tick(delta_ms as int),
    {
        let total = self.elapsed_ms + delta_ms;
        if total >= self.duration_ms {
            self.elapsed_ms = total % self.duration_ms;
            true
        } else {
            proof {
                vstd::arithmetic::div_mod::lemma_small_mod(
                    total as nat,
                    self.duration_ms as nat,
                );
            }
            self.elapsed_ms = total;
            false
        }
    }
}

} // verus!
