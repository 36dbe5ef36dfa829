//! The memory modules of the kernel (March C, bit fade, modulo N) and the
//! bookkeeping they share: memory-map entries and error reports.
pub mod bit_fade;
pub mod commons;
pub mod march_c;
pub mod modulo_n;
