//! Register-map translation layer for EM2RS stepper-motor controllers.
//!
//! The controller speaks a fieldbus protocol of 16-bit holding registers.
//! This crate translates high-level motion concepts (direction, path motion,
//! homing, status flags, alarms) into the exact ordered sequences of register
//! writes that realize them, and decodes register snapshots into independent
//! boolean conditions. The transport itself (framing, serial/TCP I/O) is a
//! collaborator owned by the caller: every operation here is expressed as
//! plain register addresses and values, so the whole layer is verified.

pub mod codec;
pub mod registers;
pub mod sequence;
pub mod session;
pub mod types;
