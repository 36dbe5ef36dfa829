//! A stopwatch over the time-stamp counter.
use vstd::prelude::*;

verus! {

/// A counter reading to measure from, and the counter's rate in ticks a second.
pub struct Timer {
    pub start_tick: u64,
    pub timer_freq: u64,
}

impl Timer {
    /// A stopwatch started at `start_tick` for a counter of `timer_freq` Hz.
    pub fn new(start_tick: u64, timer_freq: u64) -> (t: Self)
        ensures
            t.start_tick == start_tick,
            t.timer_freq == timer_freq,
    {
        Timer { start_tick, timer_freq }
    }

    /// Restarts the stopwatch at `tick`.
    pub fn reset(&mut self, tick: u64)
        ensures
            final(self).start_tick == tick,
            final(self).timer_freq == old(self).timer_freq,
    {
        self.start_tick = tick;
    }
}

/// The counter rate in Hz measured over a one-millisecond stall that started at
/// `start` and ended at `end`.
pub fn timer_freq(start: u64, end: u64) -> (f: u64)
    requires
        start <= end,
        (end - start) * 1000 <= u64::MAX,
    ensures
        f == (end - start) * 1000,
{
    (end - start) * 1000
}

} // verus!
