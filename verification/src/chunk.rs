//! Chunks: the unit of compiled code.
//!
//! A chunk is an ordered byte sequence of opcodes and operands, a parallel
//! per-byte source-line table, and an owned constant pool. The line table is
//! deliberately uncompressed: one entry per code byte, appended in lockstep
//! with the code through the single growth primitive `append_byte`, so the
//! two sequences can never desynchronize.

use vstd::prelude::*;

use crate::opcode::{opcode_byte, Opcode};
use crate::value::{Value, ValuePool};

verus! {

/// A unit of compiled code: instruction bytes, their source lines, and the
/// constants they reference.
pub struct Chunk {
    /// The flattened instruction stream: opcode bytes, each immediately
    /// followed by its operand bytes.
    pub code: Vec<u8>,
    /// One source-line number per byte of `code`.
    pub lines: Vec<u32>,
    /// The constants CONSTANT instructions index into.
    pub constants: ValuePool,
}

impl Chunk {
    /// The chunk's structural invariant: the line table covers the code
    /// byte-for-byte.
    pub open spec fn wf(self) -> bool {
        self.code@.len() == self.lines@.len()
    }

    /// An empty chunk.
    pub fn new() -> (c: Chunk)
        ensures
            c.wf(),
            c.code@.len() == 0,
            c.lines@.len() == 0,
            c.constants.values@.len() == 0,
    {
        Chunk { code: Vec::new(), lines: Vec::new(), constants: ValuePool::new() }
    }

    /// Append one raw byte and its source line in lockstep. This is the sole
    /// primitive for growing a chunk's code; opcode and operand emission both
    /// funnel through it.
    pub fn append_byte(&mut self, byte: u8, line: u32)
        requires
            old(self).wf(),
        ensures
            final(self).wf(),
            final(self).code@ == old(self).code@.push(byte),
            final(self).lines@ == old(self).lines@.push(line),
            final(self).constants.values@ == old(self).constants.values@,
    {
        self.code.push(byte);
        self.lines.push(line);
    }

    /// Append an opcode's wire byte, tagged with its source line.
    pub fn write_opcode(&mut self, op: Opcode, line: u32)
        requires
            old(self).wf(),
        ensures
            final(self).wf(),
            final(self).code@ == old(self).code@.push(opcode_byte(op)),
            final(self).lines@ == old(self).lines@.push(line),
            final(self).constants.values@ == old(self).constants.values@,
    {
        let byte = op.to_byte();
        self.append_byte(byte, line);
    }

    /// Add a constant to the pool and return the index it was assigned; the
    /// caller is responsible for emitting a CONSTANT instruction whose
    /// operand byte equals that index. The code and line table are untouched.
    pub fn add_constant(&mut self, value: Value) -> (index: usize)
        requires
            old(self).wf(),
        ensures
            final(self).wf(),
            final(self).constants.values@ == old(self).constants.values@.push(value),
            index == old(self).constants.values@.len(),
            final(self).code@ == old(self).code@,
            final(self).lines@ == old(self).lines@,
    {
        self.constants.append(value)
    }

    /// Number of code bytes.
    pub fn len(&self) -> (n: usize)
        ensures
            n == self.code@.len(),
    {
        self.code.len()
    }

    /// Bounds-checked read of the code byte at an absolute position; used by
    /// both the disassembler and the virtual machine.
    pub fn read_byte(&self, position: usize) -> (b: u8)
        requires
            position < self.code@.len(),
        ensures
            b == self.code@[position as int],
    {
        self.code[position]
    }

    /// The source line recorded for the code byte at `position`.
    pub fn line_at(&self, position: usize) -> (line: u32)
        requires
            self.wf(),
            position < self.code@.len(),
        ensures
            line == self.lines@[position as int],
    {
        self.lines[position]
    }

    /// Discard the code, the line table and the constants; the chunk is
    /// empty (and still well formed) afterwards.
    pub fn free(&mut self)
        ensures
            final(self).wf(),
            final(self).code@.len() == 0,
            final(self).lines@.len() == 0,
            final(self).constants.values@.len() == 0,
    {
        self.code = Vec::new();
        self.lines = Vec::new();
        self.constants.free();
    }
}

} // verus!
