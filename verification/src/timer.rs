//! The countdown clock the game runs on: dash cooldowns, enemy re-target
//! periods, download progress ticks and popup scheduling all advance a
//! `Timer` by the frame's elapsed milliseconds and ask whether it just
//! completed this tick.

use vstd::prelude::*;

verus! {

/// Longest duration a timer accepts, in milliseconds.
pub const TIMER_DUR_LIMIT: u64 = 1_000_000_000;

/// Longest single advance a timer accepts, in milliseconds.
pub const TIMER_TICK_LIMIT: u64 = 1_000_000_000;

/// A countdown clock. A one-shot timer stops at its duration and stays
/// finished; a repeating one wraps around and reports each completion.
#[derive(Clone, Copy, PartialEq, Eq, Structural, Debug)]
pub struct Timer {
    pub duration_ms: u64,
    pub elapsed_ms: u64,
    pub repeating: bool,
}

impl Timer {
    /// A usable timer: positive bounded duration, elapsed time within it,
    /// and strictly within it while it repeats.
    pub open spec fn wf(self) -> bool {
        &&& 0 < self.duration_ms <= TIMER_DUR_LIMIT
        &&& self.elapsed_ms <= self.duration_ms
        &&& self.repeating ==> self.elapsed_ms < self.duration_ms
    }

    /// The timer has reached its duration (meaningful for one-shot timers,
    /// which stop there).
    pub open spec fn spec_finished(self) -> bool {
        self.elapsed_ms >= self.duration_ms
    }

    /// Advancing by `dt_ms` completes the timer this tick.
    pub open spec fn spec_fires(self, dt_ms: u64) -> bool {
        if self.repeating {
            self.elapsed_ms + dt_ms >= self.duration_ms
        } else {
            self.elapsed_ms < self.duration_ms && self.elapsed_ms + dt_ms >= self.duration_ms
        }
    }

    /// The timer as it stands after advancing by `dt_ms`: wrapped if it
    /// repeats, clamped to the duration if not.
    pub open spec fn spec_after(self, dt_ms: u64) -> Timer {
        if self.repeating {
            Timer { elapsed_ms: ((self.elapsed_ms + dt_ms) % (self.duration_ms as int)) as u64, ..self }
        } else if self.elapsed_ms + dt_ms >= self.duration_ms {
            Timer { elapsed_ms: self.duration_ms, ..self }
        } else {
            Timer { elapsed_ms: (self.elapsed_ms + dt_ms) as u64, ..self }
        }
    }

    /// Makes a fresh timer of the given duration and mode.
    pub fn new(duration_ms: u64, repeating: bool) -> (t: Timer)
        requires
            0 < duration_ms <= TIMER_DUR_LIMIT,
        ensures
            t == (Timer { duration_ms, elapsed_ms: 0, repeating }),
            t.wf(),
    {
        Timer { duration_ms, elapsed_ms: 0, repeating }
    }

    /// Advances the timer by the frame's elapsed time and reports whether
    /// it just completed this tick.
    pub fn tick(&mut self, dt_ms: u64) -> (fired: bool)
        requires
            old(self).wf(),
            dt_ms <= TIMER_TICK_LIMIT,
        ensures
            fired == old(self).spec_fires(dt_ms),
            *final(self) == old(self).spec_after(dt_ms),
            final(self).wf(),
    {
        let total: u64 = self.elapsed_ms + dt_ms;
        if self.repeating {
            let fired: bool = total >= self.duration_ms;
            self.elapsed_ms = total % self.duration_ms;
            fired
        } else {
            let was_finished: bool = self.elapsed_ms >= self.duration_ms;
            if total >= self.duration_ms {
                self.elapsed_ms = self.duration_ms;
                !was_finished
            } else {
                self.elapsed_ms = total;
                false
            }
        }
    }

    /// The timer has reached its duration.
    pub fn finished(&self) -> (r: bool)
        ensures
            r == self.spec_finished(),
    {
        self.elapsed_ms >= self.duration_ms
    }

    /// Rewinds the timer to the start of its countdown.
    pub fn reset(&mut self)
        ensures
            *final(self) == (Timer { elapsed_ms: 0, ..*old(self) }),
            old(self).wf() ==> final(self).wf(),
    {
        self.elapsed_ms = 0;
    }
}

} // verus!
