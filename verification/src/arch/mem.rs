//! Which addresses a word-sized access may use.
use vstd::prelude::*;

verus! {

/// The alignment of a `u64`.
pub const ALIGNMENT: u64 = 8;

/// Whether a word may be accessed at `addr`: it is 8-byte aligned and not null.
pub fn check_addr(addr: usize) -> (ok: bool)
    ensures
        ok == (addr % 8 == 0 && addr != 0),
{
    addr % 8 == 0 && addr != 0
}

} // verus!
