//! Timekeeping with the time-stamp counter once its rate is known.
use vstd::prelude::*;

verus! {

/// Hours, minutes and seconds of an elapsed time.
pub struct Timestamp {
    pub minutes: u64,
    pub seconds: u64,
    pub hours: u64,
}

/// A point in time, as a reading of the time-stamp counter.
pub struct Instant {
    start_tick: u64,
}

impl Timestamp {
    /// Splits `secs` into hours, minutes below 60 and seconds below 60.
    pub fn from_secs(secs: u64) -> (t: Self)
        ensures
            t.seconds == secs % 60,
            t.minutes == (secs / 60) % 60,
            t.hours == secs / 3600,
    {
        let mut seconds = secs;
        let mut minutes: u64 = 0;
        let mut hours: u64 = 0;
        if seconds >= 60 {
            minutes = seconds / 60;
            seconds = seconds % 60;
        }
        if minutes >= 60 {
            hours = minutes / 60;
            minutes = minutes % 60;
        }
        assert(secs / 60 / 60 == secs / 3600) by (nonlinear_arith);
        Timestamp { minutes, seconds, hours }
    }

    /// The number of seconds the timestamp stands for.
    pub open spec fn total_secs(self) -> int {
        self.hours * 3600 + self.minutes * 60 + self.seconds
    }
}

/// Splitting seconds into a timestamp loses nothing, and the parts are in range.
pub proof fn lemma_timestamp_round_trip(secs: u64)
    ensures
        (secs / 3600) * 3600 + ((secs / 60) % 60) * 60 + secs % 60 == secs,
        (secs / 60) % 60 < 60,
        secs % 60 < 60,
{
    assert((secs / 3600) * 3600 + ((secs / 60) % 60) * 60 + secs % 60 == secs) by (nonlinear_arith);
}

/// The whole milliseconds between two counter readings at `ticks_per_ms` ticks a millisecond.
pub open spec fn elapsed_ms(start: u64, end: u64, ticks_per_ms: u64) -> int {
    (end - start) / (ticks_per_ms as int)
}

impl Instant {
    /// The instant of the counter reading `tick`.
    pub fn now(tick: u64) -> (i: Self)
        ensures
            i.start_tick() == tick,
    {
        Instant { start_tick: tick }
    }

    /// The counter reading of this instant.
    pub closed spec fn start_tick(&self) -> u64 {
        self.start_tick
    }

    /// The counter reading of this instant.
    pub fn start(&self) -> (t: u64)
        ensures
            t == self.start_tick(),
    {
        self.start_tick
    }

    /// Milliseconds from this instant to the counter reading `end_tick`.
    pub fn elapsed(&self, end_tick: u64, ticks_per_ms: u64) -> (ms: u64)
        requires
            end_tick >= self.start_tick(),
            ticks_per_ms > 0,
        ensures
            ms == elapsed_ms(self.start_tick(), end_tick, ticks_per_ms),
    {
        (end_tick - self.start_tick) / ticks_per_ms
    }

    /// The time from this instant to `end_tick`, in whole seconds, as hours,
    /// minutes and seconds.
    pub fn to_timestamp(&self, end_tick: u64, ticks_per_ms: u64) -> (t: Timestamp)
        requires
            end_tick >= self.start_tick(),
            ticks_per_ms > 0,
        ensures
            t.total_secs() == elapsed_ms(self.start_tick(), end_tick, ticks_per_ms) / 1000,
            t.minutes < 60,
            t.seconds < 60,
    {
        let secs = self.elapsed(end_tick, ticks_per_ms) / 1000;
        proof {
            lemma_timestamp_round_trip(secs);
        }
        Timestamp::from_secs(secs)
    }
}

/// The counter reading at which a wait of `ms` milliseconds that starts at
/// `now_tick` ends, in wrapping 64-bit arithmetic.
pub fn sleep_deadline(ms: u64, ticks_per_ms: u64, now_tick: u64) -> (deadline: u64)
    ensures
        deadline == ((ms * ticks_per_ms + now_tick) % 0x1_0000_0000_0000_0000),
{
    let relative = ms.wrapping_mul(ticks_per_ms);
    let deadline = relative.wrapping_add(now_tick);
    assert(deadline == ((ms * ticks_per_ms + now_tick) % 0x1_0000_0000_0000_0000)) by (nonlinear_arith)
        requires
            relative == (ms * ticks_per_ms) % 0x1_0000_0000_0000_0000,
            deadline == (relative + now_tick) % 0x1_0000_0000_0000_0000,
    ;
    deadline
}

/// The counter rate measured over the five-second calibration wait: the ticks
/// between the readings, in wrapping arithmetic, divided by 5000.
pub fn tsc_ticks_per_ms(start: u64, end: u64) -> (r: u64)
    ensures
        r == ((end - start + 0x1_0000_0000_0000_0000) % 0x1_0000_0000_0000_0000) / 5000,
{
    end.wrapping_sub(start) / 5000
}

} // verus!
