//! The CMOS real-time clock: decoding of its registers and the seconds-counting
//! wait loop.
use vstd::prelude::*;

verus! {

pub const CMOS_SECOND_REGISTER: u8 = 0x0;
pub const CMOS_MINUTE_REGISTER: u8 = 0x02;
pub const CMOS_HOUR_REGISTER: u8 = 0x04;
/// Status register A; its top bit is set while the clock updates.
pub const CMOS_STATUS_REGISTER_A: u8 = 0x0A;
/// Status register B; bit 2 set means binary rather than BCD values.
pub const CMOS_STATUS_REGISTER_B: u8 = 0x0B;
pub const CMOS_BINARY_FORMAT_FLAG: u8 = 0x04;
pub const CMOS_UPDATE_IN_PROGRESS_FLAG: u8 = 0x80;

/// The NMI-disable bit of the CMOS index port.
pub const CMOS_DISABLE_NMI: u8 = 0x80;

/// The index-port value that selects `register` with non-maskable interrupts off.
pub fn nmi_disabled_select(register: u8) -> (r: u8)
    ensures
        r == (if register >= 128 {
            register as int
        } else {
            register + 128
        }),
{
    let r = CMOS_DISABLE_NMI | register;
    assert((0x80u8 | register) == (if register >= 128 {
        register
    } else {
        (register + 128) as u8
    })) by (bit_vector);
    r
}

/// The index-port value `index` with non-maskable interrupts back on (bit 7 cleared).
pub fn nmi_enabled_index(index: u8) -> (r: u8)
    ensures
        r == index % 128,
{
    let r = index & 0x7F;
    assert((index & 0x7Fu8) == index % 128) by (bit_vector);
    r
}

/// A wall-clock time of day as the RTC reports it.
#[derive(Debug, Clone)]
pub struct Time {
    pub seconds: u8,
    pub minutes: u8,
    pub hours: u8,
}

/// Whether the binary-format bit (bit 2) of `cmos_format` is set.
pub fn is_binary_format(cmos_format: u8) -> (r: bool)
    ensures
        r == ((cmos_format / 4) % 2 == 1),
{
    let r = cmos_format & CMOS_BINARY_FORMAT_FLAG > 0;
    assert((cmos_format & 4u8 > 0) == ((cmos_format / 4) % 2 == 1)) by (bit_vector);
    r
}

/// Whether status register A reports an update in progress (bit 7 set).
pub fn update_in_progress(status_a: u8) -> (r: bool)
    ensures
        r == (status_a >= 128),
{
    let r = status_a & CMOS_UPDATE_IN_PROGRESS_FLAG > 0;
    assert((status_a & 0x80u8 > 0) == (status_a >= 128)) by (bit_vector);
    r
}

/// The value of a packed BCD byte: ten times the high nibble plus the low nibble.
pub open spec fn bcd_value(bcd: u8) -> int {
    10 * (bcd / 16) + bcd % 16
}

/// Converts a packed BCD byte to binary.
pub fn convert_bcd_value(bcd: u8) -> (r: u8)
    ensures
        r == bcd_value(bcd),
{
    let hi = bcd & 0xF0;
    let lo = bcd & 0xf;
    assert(hi == (bcd / 16) * 16 && lo == bcd % 16) by (bit_vector)
        requires
            hi == bcd & 0xF0,
            lo == bcd & 0xf,
    ;
    assert((hi >> 1) == hi / 2 && (hi >> 3) == hi / 8) by (bit_vector);
    (hi >> 1) + (hi >> 3) + lo
}

/// The value of a date or time register given its raw byte: the byte itself when
/// it has the binary-format bit set, its BCD value otherwise.
pub open spec fn datetime_value(raw: u8) -> int {
    if (raw / 4) % 2 == 1 {
        raw as int
    } else {
        bcd_value(raw)
    }
}

/// Decodes the raw byte of a date or time register. The format bit is looked for
/// in the byte itself.
pub fn read_datetime_reg(raw: u8) -> (r: u8)
    ensures
        r == datetime_value(raw),
{
    if is_binary_format(raw) {
        raw
    } else {
        convert_bcd_value(raw)
    }
}

/// `b - a` in 8-bit wrapping arithmetic.
pub open spec fn wrapping_sub_u8(b: u8, a: u8) -> u8 {
    (if b >= a {
        b - a
    } else {
        b - a + 256
    }) as u8
}

impl Time {
    /// The time given by the raw bytes of the second, minute and hour registers.
    pub fn now(raw_seconds: u8, raw_minutes: u8, raw_hours: u8) -> (t: Self)
        ensures
            t.seconds == datetime_value(raw_seconds),
            t.minutes == datetime_value(raw_minutes),
            t.hours == datetime_value(raw_hours),
    {
        let seconds = read_datetime_reg(raw_seconds);
        let minutes = read_datetime_reg(raw_minutes);
        let hours = read_datetime_reg(raw_hours);
        Time { seconds, minutes, hours }
    }

    /// Field by field, `rhs - self` in wrapping 8-bit arithmetic.
    pub fn sub(self, rhs: Self) -> (t: Self)
        ensures
            t.seconds == wrapping_sub_u8(rhs.seconds, self.seconds),
            t.minutes == wrapping_sub_u8(rhs.minutes, self.minutes),
            t.hours == wrapping_sub_u8(rhs.hours, self.hours),
    {
        Time {
            seconds: rhs.seconds.wrapping_sub(self.seconds),
            minutes: rhs.minutes.wrapping_sub(self.minutes),
            hours: rhs.hours.wrapping_sub(self.hours),
        }
    }

    /// The time elapsed from `self` to `end`, field by field.
    pub fn elapsed(self, end: Self) -> (t: Self)
        ensures
            t.seconds == wrapping_sub_u8(end.seconds, self.seconds),
            t.minutes == wrapping_sub_u8(end.minutes, self.minutes),
            t.hours == wrapping_sub_u8(end.hours, self.hours),
    {
        self.sub(end)
    }
}

/// The seconds that pass on the way from reading `prev` to reading `current`,
/// with one wrap of the minute when `current` is smaller.
pub open spec fn seconds_between(prev: u8, current: u8) -> int {
    if current == prev {
        0
    } else if current > prev {
        current - prev
    } else {
        (60 - prev) + current
    }
}

/// One step of the RTC wait loop: given the last seconds reading `prev`, the
/// seconds counted so far and a new reading, the new `(prev, elapsed)`.
pub fn sleep_rtc_step(prev: u8, elapsed: u8, current: u8) -> (r: (u8, u8))
    requires
        current < prev ==> prev <= 60,
        elapsed + seconds_between(prev, current) <= u8::MAX,
    ensures
        r.0 == current,
        r.1 == elapsed + seconds_between(prev, current),
{
    if current != prev {
        let add = if current > prev {
            current - prev
        } else {
            (60 - prev) + current
        };
        (current, elapsed + add)
    } else {
        (prev, elapsed)
    }
}

/// One step of the RTC wait loop as `sleep_rtc_step` takes it, or `None` where
/// the count would go wrong: the previous reading lies past 60 when the minute
/// wraps, or the seconds counted would not fit in a `u8`.
pub fn try_sleep_rtc_step(prev: u8, elapsed: u8, current: u8) -> (r: Option<(u8, u8)>)
    ensures
        r is None <==> (current < prev && prev > 60) || (!(current < prev && prev > 60) && elapsed
            + seconds_between(prev, current) > u8::MAX),
        r is Some ==> r == Some((current, (elapsed + seconds_between(prev, current)) as u8)),
{
    if current < prev && prev > 60 {
        return None;
    }
    let add: u16 = if current == prev {
        0
    } else if current > prev {
        (current - prev) as u16
    } else {
        (60 - prev) as u16 + current as u16
    };
    if elapsed as u16 + add > 255 {
        return None;
    }
    Some(sleep_rtc_step(prev, elapsed, current))
}

/// With readings inside a minute, a step counts the seconds between them modulo 60.
pub proof fn lemma_seconds_between_mod(prev: u8, current: u8)
    requires
        prev < 60,
        current < 60,
    ensures
        seconds_between(prev, current) == (current - prev + 60) % 60,
        seconds_between(prev, current) < 60,
{
}

/// Subtracting a time from itself gives zero in every field.
pub proof fn lemma_sub_self(t: Time)
    ensures
        wrapping_sub_u8(t.seconds, t.seconds) == 0,
        wrapping_sub_u8(t.minutes, t.minutes) == 0,
        wrapping_sub_u8(t.hours, t.hours) == 0,
{
}

} // verus!
