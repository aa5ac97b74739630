//! An emulator core for the MOS 6502 microprocessor.
//!
//! The crate holds the byte-addressable memory with its memory-mapped
//! keyboard and display registers, and the processor that fetches, decodes
//! and executes one instruction per call on that memory. Every function is
//! specified against a mathematical model of the machine state and proved
//! to follow it.
//!
//! - [`memory`]: the 64 KiB of cells, their write protection, and the two
//!   device registers.
//! - [`alu`]: the arithmetic of the processor over the integers.
//! - [`machine`]: the model of the processor: state, addressing modes,
//!   instructions, and the opcode table.
//! - [`cpu6502`]: the processor itself, one handler per opcode.
//! - [`report`]: the status line and memory dump lines as text.
//! - [`laws`]: what holds of every state, proved from the model.

pub mod alu;
pub mod cpu6502;
pub mod laws;
pub mod machine;
pub mod memory;
pub mod report;
