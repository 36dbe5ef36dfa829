//! The modulo-N module: every fourth byte gets one pattern, the others another.
use vstd::prelude::*;
use crate::modules::commons::{MemoryError, MemoryReport};

verus! {

pub const PATTERN_A: u8 = 0xAA;
pub const PATTERN_B: u8 = 0xFF;
pub const N: usize = 4;

/// The pattern written at `address`: A at multiples of N, B elsewhere.
pub open spec fn pattern_at(address: usize) -> u8 {
    if address % N == 0 {
        PATTERN_A
    } else {
        PATTERN_B
    }
}

/// The pattern that belongs at `address`.
pub fn modulo_n_pattern(address: usize) -> (p: u8)
    ensures
        p == pattern_at(address),
        p == if address % 4 == 0 {
            0xAAu8
        } else {
            0xFFu8
        },
{
    if address % N == 0 {
        PATTERN_A
    } else {
        PATTERN_B
    }
}

/// Records the read-back at `address`: a stuck-at report joins `reports` when
/// `observed` is not the pattern that belongs there.
pub fn check_modulo_n(reports: &mut Vec<MemoryReport>, address: usize, observed: u8)
    ensures
        final(reports)@ == if observed != pattern_at(address) {
            old(reports)@.push(MemoryReport { address, kind: MemoryError::StuckAt })
        } else {
            old(reports)@
        },
        final(reports)@ == if observed != (if address % 4 == 0 {
            0xAAu8
        } else {
            0xFFu8
        }) {
            old(reports)@.push(MemoryReport { address, kind: MemoryError::StuckAt })
        } else {
            old(reports)@
        },
{
    if observed != modulo_n_pattern(address) {
        reports.push(MemoryReport { address, kind: MemoryError::StuckAt });
    }
}

/// The addresses `[start, end)` that pass `offset` walks over an entry at `base`
/// of `length` bytes in the direct map at `hhdm`: from the mapped base moved by
/// `offset` to the end of the entry.
pub fn modulo_n_range(base: u64, length: u64, hhdm: u64, offset: usize) -> (r: (usize, usize))
    requires
        base + hhdm <= usize::MAX,
        base + hhdm + length <= usize::MAX,
        base + hhdm + offset <= usize::MAX,
    ensures
        r.0 == base + hhdm + offset,
        r.1 == base + hhdm + length,
{
    let mapped = (base + hhdm) as usize;
    let end = mapped + length as usize;
    let start = mapped + offset;
    (start, end)
}

/// Pattern A lies exactly on the multiples of N.
pub proof fn lemma_pattern_a_on_multiples(address: usize)
    ensures
        (pattern_at(address) == PATTERN_A) <==> (address % 4 == 0),
        pattern_at(address) == if address % 4 == 0 {
            0xAAu8
        } else {
            0xFFu8
        },
{
}

/// Every address gets one of the two patterns: 0xAA on the multiples of four,
/// 0xFF on every other address; and an address four further on gets the same.
pub proof fn lemma_modulo_n_patterns(address: usize)
    ensures
        address % 4 == 0 ==> pattern_at(address) == 0xAAu8,
        address % 4 != 0 ==> pattern_at(address) == 0xFFu8,
        address + 4 <= usize::MAX ==> pattern_at((address + 4) as usize) == pattern_at(address),
{
}

} // verus!
