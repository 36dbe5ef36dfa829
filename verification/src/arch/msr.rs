//! Model-specific registers: the 64-bit value and its EDX:EAX halves.
use vstd::prelude::*;

verus! {

/// The value of an MSR given its high (EDX) and low (EAX) halves.
pub fn msr_value(hi: u32, lo: u32) -> (v: u64)
    ensures
        v == hi * 0x1_0000_0000 + lo,
{
    let v = ((hi as u64) << 32) | (lo as u64);
    assert(v == hi * 0x1_0000_0000 + lo) by (bit_vector)
        requires
            v == ((hi as u64) << 32) | (lo as u64),
    ;
    v
}

/// The low (EAX) and high (EDX) halves in which `wrmsr` takes a value.
pub fn msr_halves(value: u64) -> (r: (u32, u32))
    ensures
        r.0 == value % 0x1_0000_0000,
        r.1 == value / 0x1_0000_0000,
{
    let lo = value as u32;
    let hi = (value >> 32) as u32;
    assert(value as u32 == value % 0x1_0000_0000 && (value >> 32) as u32 == value / 0x1_0000_0000)
        by (bit_vector);
    (lo, hi)
}

/// Splitting a value into halves and joining them gives the value back.
pub proof fn lemma_msr_round_trip(value: u64)
    ensures
        (value / 0x1_0000_0000) * 0x1_0000_0000 + value % 0x1_0000_0000 == value,
{
}

} // verus!
