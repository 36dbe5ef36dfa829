//! The bit-fade module: a pattern is written, left alone, and read back.
use vstd::prelude::*;
use core::time::Duration;
use crate::modules::commons::{MemoryError, MemoryReport};

verus! {

pub const PATTERN_A: u8 = 0b0010_1011;
/// Seconds the memory rests with pattern A.
pub const TIME_A_SECS: u64 = 90;
pub const PATTERN_B: u8 = 0b0011_1100;
/// Seconds the memory rests with pattern B.
pub const TIME_B_SECS: u64 = 120;
pub const PATTERN_C: u8 = 0b0011_0111;
/// Seconds the memory rests with pattern C.
pub const TIME_C_SECS: u64 = 190;

/// Records the read-back at `address` after the rest of `sleep_time`: a bit-fade
/// report joins `reports` when `observed` is not the pattern written.
pub fn check_bit_fade(
    reports: &mut Vec<MemoryReport>,
    address: usize,
    observed: u8,
    pattern: u8,
    sleep_time: Duration,
)
    ensures
        final(reports)@ == if observed != pattern {
            old(reports)@.push(MemoryReport { address, kind: MemoryError::BitFade(sleep_time) })
        } else {
            old(reports)@
        },
{
    if observed != pattern {
        reports.push(MemoryReport { address, kind: MemoryError::BitFade(sleep_time) });
    }
}

} // verus!
