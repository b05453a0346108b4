//! A bytecode virtual machine: a compact instruction encoding ("chunk"), a
//! disassembler for that encoding, and a stack-based interpreter that executes
//! it to completion or to a fatal runtime error.
//!
//! Values are IEEE-754 double-precision numbers, held everywhere as their
//! 64-bit bit patterns; the arithmetic itself is carried out in software.

pub mod chunk;
pub mod disasm;
pub mod fmt;
pub mod opcode;
pub mod value;
pub mod vm;
