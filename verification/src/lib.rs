//! Execution core of a 32-bit x86-like software CPU emulator.
//!
//! The crate models a machine as a register file, a flags register, an
//! instruction pointer and a flat byte-addressable memory, together with a
//! 256-entry opcode dispatch table and a fetch-decode-execute loop.  Every
//! state change is specified by contracts over a mathematical view of the
//! machine, and the central laws of the instruction set are proved in
//! `laws`.

pub mod dispatch;
pub mod exec;
pub mod laws;
pub mod machine;
