//! Memory-test logic of the memsos kernel: the memory tests themselves, the
//! decoding of firmware tables and CPU identification registers, the timekeeping
//! arithmetic and the small state machines of the keyboard and the UI.
//! Everything that touches hardware (ports, MSRs, raw memory) lives outside this
//! crate; the functions here take the values that hardware produced.
pub mod arch;
pub mod memtest;
pub mod os;
pub mod acpi;
pub mod pci;
pub mod modules;
pub mod sched;
pub mod lang;
pub mod fb;
pub mod timers;
