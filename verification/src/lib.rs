//! Core of a 32-bit virtual machine platform: a synchronous, single-CPU
//! emulator whose address space is built from memory-mapped devices attached
//! to a motherboard, together with the fixed-width instruction codec that the
//! assembler emits and the CPU decodes.

pub mod board;
pub mod bytes;
pub mod cpu;
pub mod device;
pub mod extinstr;
pub mod instr;
pub mod lasm;
pub mod mapper;
pub mod metadata;
pub mod prog;
pub mod reg;
pub mod step;
