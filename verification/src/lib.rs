//! Cycle-counted core of a MOS 6502 microprocessor emulator.
//!
//! The crate models a deterministic state machine: a small register file, a
//! flat 64 KiB memory, and an executor that consumes opcodes and debits a
//! caller-supplied cycle budget. The behaviour of every instruction is given
//! by a specification-level interpreter (`model`), and the executable
//! executor (`cpu`) is proved to implement it exactly.

pub mod consts;
pub mod cpu;
pub mod isa;
pub mod laws;
pub mod model;
pub mod memory;
pub mod status;
