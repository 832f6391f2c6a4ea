//! A 6502 CPU core with the NES memory bus around it.
//!
//! The crate models the processor's register file, the opcode decode table,
//! the addressing-mode resolver, the instruction execution engine and the
//! interrupt controller, together with the memory map (work RAM, program ROM,
//! character ROM and the picture unit's register window) and the cartridge
//! image parser that feeds it.

pub mod cpu;
pub mod instruction;
pub mod machine;
pub mod ppu;
pub mod system;
