//! Register-level bring-up logic for an STM32F103-class microcontroller:
//! GPIO pin configuration, clock-tree sequencing and UART setup.
//!
//! All peripheral state lives in an explicit in-memory register bank that
//! records a trace of register writes and ready-flag waits; on the target the
//! same sequence of operations is replayed through memory-mapped I/O.

pub mod gpio;
pub mod regs;
pub mod serial;
pub mod system;
