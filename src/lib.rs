//! A verified core for an emulator of the LC-3, a 16-bit educational machine:
//! word arithmetic, the register file, the memory with its keyboard registers,
//! the image loader, the instruction set and the trap routines.
//!
//! Console work (polling the keyboard, reading and writing bytes) is left to the
//! host: the CPU reports it as an [`cpu::Action`] and the host hands keys and
//! characters back.

pub mod word;
pub mod cpu;
pub mod error;
pub mod memory;
pub mod vm;
