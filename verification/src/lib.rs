//! Hardware-abstraction layer for the EFM32PG12 microcontroller family,
//! built around a verified register model.
//!
//! The crate covers the GPIO pin configuration state machine, the
//! peripheral pin-location capability tables used by the USART and I2C
//! constructors, and the clock-gating facade of the CMU. Every register
//! effect is specified against an explicit model of the memory-mapped
//! register blocks, so that the exact bits written by each operation are
//! part of each function's contract.

pub mod bits;
pub mod cmu;
pub mod gpio;
pub mod i2c;
pub mod location;
pub mod pins;
pub mod regs;
pub mod serial;
pub mod usart;
