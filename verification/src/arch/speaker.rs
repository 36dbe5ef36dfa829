//! The PC speaker, driven by channel 2 of the programmable interval timer.
use vstd::prelude::*;

verus! {

/// The input clock of the interval timer, in Hz.
pub const PIT_FREQUENCY: u32 = 1_193_180;

/// The low and high byte of the channel-2 divisor that makes a tone of
/// `frequence` Hz (the divisor is the clock rate divided by the frequency).
pub fn pit_divisor_bytes(frequence: u32) -> (r: (u8, u8))
    requires
        frequence > 0,
    ensures
        r.0 == (PIT_FREQUENCY / frequence) % 256,
        r.1 == (PIT_FREQUENCY / frequence) / 256 % 256,
{
    let div: u32 = PIT_FREQUENCY / frequence;
    let lo = div as u8;
    let hi = (div >> 8) as u8;
    assert(div as u8 == div % 256 && (div >> 8) as u8 == div / 256 % 256) by (bit_vector);
    (lo, hi)
}

/// The value to write to port 0x61 to connect the speaker, or `None` when its two
/// low bits are already set.
pub fn speaker_on_value(port_61: u8) -> (r: Option<u8>)
    ensures
        r is None <==> port_61 % 4 == 3,
        r is Some ==> r->0 == port_61 | 3,
{
    let on = port_61 | 3;
    assert((port_61 != (port_61 | 3u8)) <==> port_61 % 4 != 3) by (bit_vector);
    if port_61 != on {
        Some(on)
    } else {
        None
    }
}

/// The value of port 0x61 with the speaker disconnected: its two low bits cleared.
pub fn speaker_off_value(port_61: u8) -> (r: u8)
    ensures
        r == port_61 - port_61 % 4,
{
    let r = port_61 & 0xFC;
    assert((port_61 & 0xFCu8) == port_61 - port_61 % 4) by (bit_vector);
    r
}

} // verus!
