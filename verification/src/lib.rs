//! Hardware-abstraction layer for the E310x family of microcontrollers,
//! built around an explicit register-level model of the peripherals.
//!
//! The serial-peripheral-interface core models the controller's registers,
//! its transmit and receive FIFOs, and the recorded sequence of register
//! writes as plain data, so that configuration, chip-select framing, the
//! FIFO byte pump, and bus arbitration among several devices are all stated
//! and proved as contracts over that model.

pub mod serial;
pub mod spi;
pub mod status;
