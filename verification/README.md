# memsos

The decision-making core of the memsos memory-testing kernel, verified with Verus.

- `src/` is the library. Its functions are verified, except four small trusted
  wrappers of outside functions (three bit-field extractions of the `bit_field`
  crate and the UTF-8 check of `core::str::from_utf8`), whose contracts are
  assumed. The library covers the memory tests
  (March C, own-address and pseudo-random pattern tests) over any `Mem`
  implementation, the memory modules' error bookkeeping, the decoding of ACPI,
  HPET, SMBIOS, PCI and CPUID data, the CMOS clock and time-stamp-counter
  arithmetic, the keyboard protocol, the text cursor of the console, and the
  state of the selection widget and of the scheduler. The memory tests are
  proved to make exactly the planned reads and writes and to count every
  read-back that differs from what was expected; for memory that keeps what is
  written they report no bad address and leave a known pattern behind.
- `app/` is the hardware side: port, MSR and raw-memory access, boot-loader
  requests, the framebuffer and the loops that wait on devices. It reads the
  machine, hands the values to the library and carries out what comes back.
- `tests/` exercises the library on concrete values, including fake memories
  with stuck cells for the memory tests.
