//! Waiting on the HPET main counter.
use vstd::prelude::*;

verus! {

/// The counter value at which a wait of `nanos` that starts at counter value
/// `now` ends, for a counter `period` long: `now + nanos * 1_000_000 / period`.
pub fn sleep_hpet_deadline(now: u64, nanos: u64, period: u64) -> (ticks: u64)
    requires
        period > 0,
        nanos * 1_000_000 <= u64::MAX,
        now + nanos * 1_000_000 / (period as int) <= u64::MAX,
    ensures
        ticks == now + nanos * 1_000_000 / (period as int),
{
    now + (nanos * 1_000_000) / period
}

/// `sleep_hpet_deadline`, or `None` when the period is 0 or the deadline does
/// not fit in 64 bits.
pub fn try_sleep_hpet_deadline(now: u64, nanos: u64, period: u64) -> (ticks: Option<u64>)
    ensures
        ticks is None <==> (period == 0 || nanos * 1_000_000 > u64::MAX || now + nanos
            * 1_000_000 / (period as int) > u64::MAX),
        ticks is Some ==> ticks->0 == now + nanos * 1_000_000 / (period as int),
{
    if period == 0 {
        return None;
    }
    let scaled = match nanos.checked_mul(1_000_000) {
        Some(v) => v,
        None => return None,
    };
    match now.checked_add(scaled / period) {
        Some(_) => Some(sleep_hpet_deadline(now, nanos, period)),
        None => None,
    }
}

} // verus!
