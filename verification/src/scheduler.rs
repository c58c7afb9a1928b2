//! The fixed-timestep accumulator: carries leftover simulated time across
//! render frames so that ticks run at a fixed rate whatever the frame
//! rate, zero or many per frame.

use vstd::prelude::*;

use crate::units::DEFAULT_TICK_NANOS;

verus! {

/// Accumulates elapsed real time and pays it out in whole ticks.
#[derive(Clone, Copy, Debug, PartialEq, Eq, Structural)]
pub struct TickScheduler {
    /// Length of one tick in nanoseconds; at least one.
    pub tick_nanos: u64,
    /// Elapsed time not yet paid out; always less than one tick.
    pub accumulated_nanos: u64,
}

impl TickScheduler {
    /// Whether the carried remainder is a proper fraction of a tick.
    pub open spec fn wf(&self) -> bool {
        &&& self.tick_nanos >= 1
        &&& self.accumulated_nanos < self.tick_nanos
    }

    /// Builds a scheduler with the given tick length and nothing carried.
    pub fn new(tick_nanos: u64) -> (s: TickScheduler)
        requires
            tick_nanos >= 1,
        ensures
            s.tick_nanos == tick_nanos,
            s.accumulated_nanos == 0,
            s.wf(),
    {
        TickScheduler { tick_nanos, accumulated_nanos: 0 }
    }

    /// Builds a scheduler at the default rate of sixty ticks per second.
    pub fn new_default() -> (s: TickScheduler)
        ensures
            s.tick_nanos == DEFAULT_TICK_NANOS,
            s.accumulated_nanos == 0,
            s.wf(),
    {
        TickScheduler { tick_nanos: DEFAULT_TICK_NANOS, accumulated_nanos: 0 }
    }

    /// Accounts one frame's elapsed real time and returns how many whole
    /// ticks are due; the remainder is carried into the next frame.
    pub fn advance(&mut self, elapsed_nanos: u64) -> (ticks: u64)
        requires
            old(self).wf(),
            old(self).accumulated_nanos + elapsed_nanos <= u64::MAX,
        ensures
            final(self).wf(),
            final(self).tick_nanos == old(self).tick_nanos,
            ticks == (old(self).accumulated_nanos + elapsed_nanos) / (old(self).tick_nanos as int),
            final(self).accumulated_nanos == (old(self).accumulated_nanos + elapsed_nanos) % (
            old(self).tick_nanos as int),
    {
        let total: u64 = self.accumulated_nanos + elapsed_nanos;
        let ticks: u64 = total / self.tick_nanos;
        self.accumulated_nanos = total % self.tick_nanos;
        ticks
    }
}

} // verus!
