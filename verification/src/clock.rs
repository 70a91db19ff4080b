//! Fixed-interval tick clock.
//!
//! The frame driver measures wall-clock delta time and hands it over once
//! per frame; the clock accumulates it and decides how many simulation
//! ticks fire. This decouples the simulation cadence from the display and
//! input polling rate: a slow frame fires several ticks, a fast one none.
//! Time is counted in whole milliseconds.

use vstd::prelude::*;

verus! {

/// Accumulator for a repeating fixed interval.
pub struct TickClock {
    /// Length of one tick interval, in milliseconds; never zero.
    pub interval_ms: u64,
    /// Time accumulated since the last fired tick; always below the
    /// interval.
    pub accumulated_ms: u64,
}

impl TickClock {
    /// A positive interval, with less than one interval accumulated.
    pub open spec fn wf(self) -> bool {
        1 <= self.interval_ms && self.accumulated_ms < self.interval_ms
    }

    /// A fresh clock that has accumulated nothing yet.
    pub fn new(interval_ms: u64) -> (c: TickClock)
        requires
            1 <= interval_ms,
        ensures
            c.wf(),
            c.interval_ms == interval_ms,
            c.accumulated_ms == 0,
    {
        TickClock { interval_ms, accumulated_ms: 0 }
    }

    /// Feed one frame's delta time; the result is how many ticks fire now.
    /// Every full interval contained in the accumulated time fires one
    /// tick, and the remainder stays accumulated for the next frame.
    pub fn advance(&mut self, delta_ms: u64) -> (fired: u64)
        requires
            old(self).wf(),
            old(self).accumulated_ms + delta_ms <= u64::MAX,
        ensures
            final(self).wf(),
            final(self).interval_ms == old(self).interval_ms,
            fired == (old(self).accumulated_ms + delta_ms) / (old(self).interval_ms as int),
            final(self).accumulated_ms == (old(self).accumulated_ms + delta_ms) % (old(
                self,
            ).interval_ms as int),
    {
        let total = self.accumulated_ms + delta_ms;
        let fired = total / self.interval_ms;
        self.accumulated_ms = total % self.interval_ms;
        fired
    }
}

} // verus!
