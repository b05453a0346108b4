//! The instruction set: a closed enumeration of opcodes together with its
//! total, bijective mapping to the one-byte wire encoding.

use vstd::prelude::*;

verus! {

/// The kinds of instruction a chunk can hold.
///
/// Every opcode occupies one byte in the instruction stream; `Constant` is
/// followed by one operand byte (a constant-pool index), all others take no
/// operand.
#[derive(Clone, Copy, PartialEq, Eq, Structural, Debug)]
pub enum Opcode {
    Constant,
    Negate,
    Return,
    Add,
    Subtract,
    Multiply,
    Divide,
}

/// The fixed byte assigned to each opcode on the wire.
pub open spec fn opcode_byte(op: Opcode) -> u8 {
    match op {
        Opcode::Constant => 0,
        Opcode::Negate => 1,
        Opcode::Return => 2,
        Opcode::Add => 3,
        Opcode::Subtract => 4,
        Opcode::Multiply => 5,
        Opcode::Divide => 6,
    }
}

/// The opcode a byte decodes to, if any: the inverse of `opcode_byte`,
/// `None` exactly on the bytes no opcode is assigned to.
pub open spec fn decode_byte(b: u8) -> Option<Opcode> {
    if b == 0 {
        Some(Opcode::Constant)
    } else if b == 1 {
        Some(Opcode::Negate)
    } else if b == 2 {
        Some(Opcode::Return)
    } else if b == 3 {
        Some(Opcode::Add)
    } else if b == 4 {
        Some(Opcode::Subtract)
    } else if b == 5 {
        Some(Opcode::Multiply)
    } else if b == 6 {
        Some(Opcode::Divide)
    } else {
        None
    }
}

/// How many operand bytes follow the opcode byte.
pub open spec fn operand_width(op: Opcode) -> nat {
    match op {
        Opcode::Constant => 1,
        _ => 0,
    }
}

/// Total size in bytes of an instruction with this opcode.
pub open spec fn instruction_size(op: Opcode) -> nat {
    1 + operand_width(op)
}

/// The display name used by the disassembler for each opcode.
pub open spec fn opcode_name(op: Opcode) -> Seq<char> {
    match op {
        Opcode::Constant => "OP_CONSTANT"@,
        Opcode::Negate => "OP_NEGATE"@,
        Opcode::Return => "OP_RETURN"@,
        Opcode::Add => "OP_ADD"@,
        Opcode::Subtract => "OP_SUBTRACT"@,
        Opcode::Multiply => "OP_MULTIPLY"@,
        Opcode::Divide => "OP_DIVIDE"@,
    }
}

impl Opcode {
    /// Encode this opcode as its wire byte.
    pub fn to_byte(self) -> (b: u8)
        ensures
            b == opcode_byte(self),
    {
        match self {
            Opcode::Constant => 0,
            Opcode::Negate => 1,
            Opcode::Return => 2,
            Opcode::Add => 3,
            Opcode::Subtract => 4,
            Opcode::Multiply => 5,
            Opcode::Divide => 6,
        }
    }

    /// Decode a wire byte; an explicitly-listed match, so a byte outside the
    /// valid set is caught as `None` rather than cast blindly.
    pub fn from_byte(b: u8) -> (r: Option<Opcode>)
        ensures
            r == decode_byte(b),
    {
        match b {
            0 => Some(Opcode::Constant),
            1 => Some(Opcode::Negate),
            2 => Some(Opcode::Return),
            3 => Some(Opcode::Add),
            4 => Some(Opcode::Subtract),
            5 => Some(Opcode::Multiply),
            6 => Some(Opcode::Divide),
            _ => None,
        }
    }

    /// How many operand bytes follow this opcode.
    pub fn width(self) -> (w: usize)
        ensures
            w == operand_width(self),
    {
        match self {
            Opcode::Constant => 1,
            _ => 0,
        }
    }

    /// The display name used in disassembly listings.
    pub fn name(self) -> (r: &'static str)
        ensures
            r@ == opcode_name(self),
    {
        match self {
            Opcode::Constant => "OP_CONSTANT",
            Opcode::Negate => "OP_NEGATE",
            Opcode::Return => "OP_RETURN",
            Opcode::Add => "OP_ADD",
            Opcode::Subtract => "OP_SUBTRACT",
            Opcode::Multiply => "OP_MULTIPLY",
            Opcode::Divide => "OP_DIVIDE",
        }
    }
}

/// Decoding inverts encoding: every opcode written to the wire reads back as
/// itself.
pub proof fn lemma_decode_encode(op: Opcode)
    ensures
        decode_byte(opcode_byte(op)) == Some(op),
{
}

/// Encoding inverts decoding: any byte that decodes at all re-encodes to the
/// same byte, so the mapping is bijective on the valid byte set.
pub proof fn lemma_encode_decode(b: u8, op: Opcode)
    requires
        decode_byte(b) == Some(op),
    ensures
        opcode_byte(op) == b,
{
}

} // verus!
