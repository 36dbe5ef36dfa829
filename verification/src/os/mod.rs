//! The kernel's own view of the machine: processor identification, the PS/2
//! keyboard protocol, the memory accessor of the tests, SMBIOS tables and the
//! state of the selection widget.
pub mod cpuid;
pub mod keyboard;
pub mod mem;
pub mod smbios;
pub mod ui;
