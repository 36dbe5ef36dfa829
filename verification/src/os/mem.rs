//! The memory accessor of the memory tests: which addresses it touches.
use vstd::prelude::*;
use crate::memtest::MemoryRegion;

verus! {

/// Accesses physical memory through the higher-half direct map at `offset`.
#[derive(Debug)]
pub struct MemWriter {
    offset: u64,
}

impl MemWriter {
    /// The offset of the direct map.
    pub closed spec fn spec_offset(&self) -> u64 {
        self.offset
    }

    /// An accessor for the direct map at `offset`.
    pub fn create(offset: u64) -> (w: Self)
        ensures
            w.spec_offset() == offset,
    {
        MemWriter { offset }
    }

    /// The offset of the direct map.
    pub fn offset(&self) -> (o: u64)
        ensures
            o == self.spec_offset(),
    {
        self.offset
    }

    /// Whether a word may be accessed at `addr`: it is 8-byte aligned and not null.
    pub fn check(&self, addr: u64) -> (ok: bool)
        ensures
            ok == (addr % 8 == 0 && addr != 0),
    {
        addr % 8 == 0 && addr != 0
    }

    /// The region moved by the offset of the direct map.
    pub fn parse(&self, region: &MemoryRegion) -> (r: MemoryRegion)
        requires
            region.start + self.spec_offset() <= u64::MAX,
            region.end + self.spec_offset() <= u64::MAX,
        ensures
            r.start == region.start + self.spec_offset(),
            r.end == region.end + self.spec_offset(),
    {
        MemoryRegion { start: region.start + self.offset, end: region.end + self.offset }
    }
}

} // verus!
