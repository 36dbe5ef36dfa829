//! Memory-map entries and the reports the memory modules produce.
use vstd::prelude::*;
use core::time::Duration;

verus! {

/// A range of memory, `[start, end)`.
#[derive(Debug, Clone, Copy)]
pub struct MemoryEntry {
    pub start: u64,
    pub end: u64,
}

/// One entry of the boot loader's memory map.
#[derive(Debug, Clone, Copy)]
pub struct MemMapEntry {
    pub base: u64,
    pub length: u64,
    pub entry_type: u64,
}

/// The memory-map type of memory free for use (the Limine protocol's `USABLE`).
pub const USABLE: u64 = 0;

/// What went wrong at an address.
#[derive(Debug)]
pub enum MemoryError {
    /// A cell did not hold the value just written.
    StuckAt,
    /// A cell lost its value while the memory was left alone for the given time.
    BitFade(Duration),
}

/// A faulty address and what was found there.
#[derive(Debug)]
pub struct MemoryReport {
    pub address: usize,
    pub kind: MemoryError,
}

/// Whether the entry describes memory free for use.
pub fn is_usable_memory(entry: &MemMapEntry) -> (r: bool)
    ensures
        r == (entry.entry_type == USABLE),
{
    entry.entry_type == USABLE
}

/// The range `[start, end)` that an entry covers in the higher-half direct map at
/// `offset`: `start` is the entry's base moved by the offset, `end` lies its
/// length further.
pub fn entry_range(entry: &MemMapEntry, offset: u64) -> (r: (u64, u64))
    requires
        entry.base + offset + entry.length <= u64::MAX,
    ensures
        r.0 == entry.base + offset,
        r.1 == entry.base + offset + entry.length,
{
    let start = entry.base + offset;
    let end = start + entry.length;
    (start, end)
}

/// The addresses of a list of reports, in order.
pub open spec fn report_addresses(reports: Seq<MemoryReport>) -> Seq<usize> {
    reports.map_values(|r: MemoryReport| r.address)
}

/// Whether `v` holds `x`.
pub fn contains_usize(v: &Vec<usize>, x: usize) -> (r: bool)
    ensures
        r == v@.contains(x),
{
    let mut i: usize = 0;
    while i < v.len()
        invariant
            i <= v@.len(),
            forall|k: int| 0 <= k < i ==> v@[k] != x,
        decreases v@.len() - i,
    {
        if v[i] == x {
            assert(v@[i as int] == x);
            return true;
        }
        i = i + 1;
    }
    false
}

} // verus!
