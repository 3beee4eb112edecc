//! An emulator of the MOS 6502 processor: the CPU, its 64 KiB memory, the
//! status register and the opcode table, with the effect of each instruction
//! stated over a model of the machine (`machine`).

pub mod cpu;
pub mod isa;
pub mod machine;
pub mod memory;
pub mod opcodes;
pub mod register;
pub mod laws;
pub mod decoding;
pub mod instruction_laws;
