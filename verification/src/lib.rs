//! Core of an emulator for the LR35902, the 8-bit processor of a classic
//! handheld game console: register file and flags, the 64 KiB address space
//! with its region map, the instruction decoder, the execution engine with a
//! cycle clock, and a breakpoint debugger with a non-mutating disassembler.

pub mod bits;
pub mod error;
pub mod mem;
pub mod op;
pub mod interconnect;
pub mod cpu;
pub mod gb;
pub mod debug;
