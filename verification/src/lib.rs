//! USB full-speed device-controller engine for a GPS reference clock.
//!
//! The engine drives the microcontroller's dedicated USB peripheral:
//! packet-memory buffer descriptors, toggle-encoded endpoint registers,
//! double-buffered bulk transfer sequencing, and the multi-stage control
//! transfer protocol.  Everything the engine does to the peripheral is
//! expressed against an explicit model of the peripheral's register file
//! ([`hw::UsbHw`]), so that the toggle-bit bookkeeping and buffer hand-off
//! can be stated and proved; the thin shell that maps the model onto the
//! memory-mapped registers lives outside the library.

pub mod bus;
pub mod command;
pub mod command_ep;
pub mod control;
pub mod cpu;
pub mod crc;
pub mod crc32;
pub mod engine;
pub mod descriptor;
pub mod hw;
pub mod led;
pub mod numeric;
pub mod pma;
pub mod provision;
pub mod regs;
pub mod serial;
pub mod session;
pub mod strings;
pub mod types;
