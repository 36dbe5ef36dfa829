//! Decoding of x86 machine state: CPUID registers, model-specific registers, the
//! CMOS real-time clock, the PC speaker and the time-stamp counter.
pub mod cpuid;
pub mod mem;
pub mod msr;
pub mod rtc;
pub mod speaker;
pub mod timer;
pub mod tsc;
