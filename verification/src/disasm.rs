//! The disassembler: a pure, read-only rendering of a chunk as one line of
//! text per instruction.
//!
//! Decoding, offset advancement and fault reporting follow `instr_at`, the
//! same definition the virtual machine executes by, so a chunk disassembles
//! cleanly exactly where it decodes cleanly; disassembly stops at the first
//! corrupt instruction and never reads past it.

use vstd::prelude::*;
use vstd::string::*;

use crate::chunk::Chunk;
use crate::fmt::{dec_digits, dec_string, left_pad, pad_left};
use crate::opcode::{instruction_size, opcode_name, Opcode};
use crate::value::{rendered, Value};
use crate::vm::{instr_at, valid_from, RuntimeError};

verus! {

/// The placeholder shown in the line column when a byte belongs to the same
/// source line as the byte before it.
pub open spec fn same_line_marker() -> Seq<char> {
    "   |"@
}

/// The disassembler's line column for the code byte at `offset`: the
/// right-justified line number, or the same-line placeholder when the
/// previous byte carries the same line. This is a display-only run-length
/// compression of the per-byte line table; the stored table is untouched.
pub open spec fn line_column(lines: Seq<u32>, offset: int) -> Seq<char> {
    if offset > 0 && lines[offset] == lines[offset - 1] {
        same_line_marker()
    } else {
        left_pad(dec_digits(lines[offset] as nat), 4, ' ')
    }
}

/// The full disassembly line for the instruction at `offset` (meaningful
/// where `instr_at` succeeds there): the zero-padded offset column, the
/// line column, the opcode's display name and, for CONSTANT, the raw
/// operand byte and the quoted rendering of the constant it references.
pub open spec fn instruction_text(
    code: Seq<u8>,
    lines: Seq<u32>,
    constants: Seq<Value>,
    offset: int,
    op: Opcode,
) -> Seq<char> {
    if op == Opcode::Constant {
        left_pad(dec_digits(offset as nat), 4, '0') + " "@ + line_column(lines, offset) + " "@
            + opcode_name(op) + " "@ + left_pad(dec_digits(code[offset + 1] as nat), 4, ' ')
            + " '"@ + rendered(constants[code[offset + 1] as int]) + "'"@ + "\n"@
    } else {
        left_pad(dec_digits(offset as nat), 4, '0') + " "@ + line_column(lines, offset) + " "@
            + opcode_name(op) + "\n"@
    }
}

/// The header line that opens a chunk's disassembly listing.
pub open spec fn header_text(name: Seq<char>) -> Seq<char> {
    "== "@ + name + " ==\n"@
}

/// The disassembly of every instruction from `offset` to the end of the
/// code, in order — or the first fault hit, exactly as `instr_at` reports
/// it; nothing past the corruption point is rendered.
pub open spec fn disasm_from(
    code: Seq<u8>,
    lines: Seq<u32>,
    constants: Seq<Value>,
    offset: int,
) -> Result<Seq<char>, RuntimeError>
    decreases code.len() - offset,
{
    if offset >= code.len() {
        Ok(Seq::empty())
    } else {
        match instr_at(code, constants, offset) {
            Err(e) => Err(e),
            Ok((op, next)) => match disasm_from(code, lines, constants, next) {
                Err(e) => Err(e),
                Ok(rest) => Ok(instruction_text(code, lines, constants, offset, op) + rest),
            },
        }
    }
}

/// Each successfully decoded instruction advances the offset by exactly the
/// bytes it occupies — one for the opcode plus its operand width — and
/// never past the end of the code: traversal neither overruns nor stalls.
pub proof fn lemma_step_consumes_instruction(
    code: Seq<u8>,
    constants: Seq<Value>,
    offset: int,
    op: Opcode,
    next: int,
)
    requires
        instr_at(code, constants, offset) == Ok::<(Opcode, int), RuntimeError>((op, next)),
    ensures
        next == offset + instruction_size(op),
        offset < next <= code.len(),
{
}

/// A chunk whose code decodes cleanly from `offset` disassembles in full:
/// the traversal visits each instruction in turn and terminates exactly at
/// the end of the code, with no fault and no overrun.
pub proof fn lemma_disassembly_total(
    code: Seq<u8>,
    lines: Seq<u32>,
    constants: Seq<Value>,
    offset: int,
)
    requires
        valid_from(code, constants, offset),
    ensures
        disasm_from(code, lines, constants, offset) is Ok,
    decreases code.len() - offset,
{
    if offset < code.len() {
        match instr_at(code, constants, offset) {
            Err(_) => {},
            Ok((op, next)) => {
                lemma_disassembly_total(code, lines, constants, next);
            },
        }
    }
}

/// Display-only compression of the line table: at every byte position
/// `i > 0` whose recorded line equals the previous byte's, the line column
/// is the same-line placeholder; at every other position it is the line
/// number itself, right-justified.
pub proof fn lemma_line_column_compression(lines: Seq<u32>, i: int)
    requires
        0 <= i < lines.len(),
    ensures
        (i > 0 && lines[i] == lines[i - 1]) ==> line_column(lines, i) == same_line_marker(),
        !(i > 0 && lines[i] == lines[i - 1]) ==> line_column(lines, i) == left_pad(
            dec_digits(lines[i] as nat),
            4,
            ' ',
        ),
{
}

impl Chunk {
    /// The text of this chunk's line column at `offset`.
    fn line_column_text(&self, offset: usize) -> (r: String)
        requires
            self.wf(),
            offset < self.code@.len(),
        ensures
            r@ == line_column(self.lines@, offset as int),
    {
        if offset > 0 && self.line_at(offset) == self.line_at(offset - 1) {
            String::from_str("   |")
        } else {
            proof {
                reveal_strlit(" ");
            }
            pad_left(dec_string(self.line_at(offset) as usize), 4, " ")
        }
    }

    /// Decode and render exactly one instruction starting at `offset`.
    /// Success returns its text together with the offset of the next
    /// instruction (`offset` plus the bytes consumed); failure reports the
    /// same fault execution would hit there, and renders nothing.
    pub fn disassemble_instruction(&self, offset: usize) -> (r: Result<(String, usize), RuntimeError>)
        requires
            self.wf(),
        ensures
            (instr_at(self.code@, self.constants.values@, offset as int) matches Ok(on)
                ==> r matches Ok(rn) && rn.0@ == instruction_text(
                self.code@,
                self.lines@,
                self.constants.values@,
                offset as int,
                on.0,
            ) && rn.1 == on.1),
            (instr_at(self.code@, self.constants.values@, offset as int) matches Err(e)
                ==> r == Err::<(String, usize), RuntimeError>(e)),
    {
        if offset >= self.len() {
            return Err(RuntimeError::EndOfCode { offset });
        }
        let byte = self.read_byte(offset);
        match Opcode::from_byte(byte) {
            Option::None => Err(RuntimeError::DecodeError { offset, byte }),
            Option::Some(op) => {
                proof {
                    reveal_strlit("0");
                }
                let mut text = pad_left(dec_string(offset), 4, "0");
                text.append(" ");
                let column = self.line_column_text(offset);
                text.append(column.as_str());
                text.append(" ");
                text.append(op.name());
                match op {
                    Opcode::Constant => {
                        if offset + 1 >= self.len() {
                            return Err(RuntimeError::EndOfCode { offset: offset + 1 });
                        }
                        let index = self.read_byte(offset + 1);
                        if self.constants.len() <= index as usize {
                            return Err(RuntimeError::PoolIndexOutOfRange { offset, index });
                        }
                        proof {
                            reveal_strlit(" ");
                        }
                        text.append(" ");
                        let operand = pad_left(dec_string(index as usize), 4, " ");
                        text.append(operand.as_str());
                        text.append(" '");
                        let constant = self.constants.render(index as usize);
                        text.append(constant.as_str());
                        text.append("'");
                        text.append("\n");
                        Ok((text, offset + 2))
                    },
                    _ => {
                        text.append("\n");
                        Ok((text, offset + 1))
                    },
                }
            },
        }
    }

    /// Render the whole chunk for diagnostics: a header line carrying
    /// `name`, then one line per instruction from offset 0 on, advancing by
    /// each instruction's size. Stops at — and reports — the first corrupt
    /// instruction rather than disassembling past it.
    pub fn disassemble_chunk(&self, name: &str) -> (r: Result<String, RuntimeError>)
        requires
            self.wf(),
        ensures
            (disasm_from(self.code@, self.lines@, self.constants.values@, 0) matches Ok(t)
                ==> r matches Ok(s) && s@ == header_text(name@) + t),
            (disasm_from(self.code@, self.lines@, self.constants.values@, 0) matches Err(e)
                ==> r == Err::<String, RuntimeError>(e)),
    {
        let ghost code = self.code@;
        let ghost lines = self.lines@;
        let ghost constants = self.constants.values@;
        let mut out = String::from_str("== ");
        out.append(name);
        out.append(" ==\n");
        let mut offset: usize = 0;
        while offset < self.len()
            invariant
                self.wf(),
                code == self.code@,
                lines == self.lines@,
                constants == self.constants.values@,
                offset <= code.len(),
                (disasm_from(code, lines, constants, offset as int) matches Ok(rest)
                    ==> disasm_from(code, lines, constants, 0) matches Ok(t) && header_text(name@)
                    + t == out@ + rest),
                (disasm_from(code, lines, constants, offset as int) matches Err(e)
                    ==> disasm_from(code, lines, constants, 0) == Err::<Seq<char>, RuntimeError>(
                    e,
                )),
            decreases code.len() - offset,
        {
            match self.disassemble_instruction(offset) {
                Err(e) => {
                    return Err(e);
                },
                Ok((text, next)) => {
                    proof {
                        lemma_step_consumes_instruction(
                            code,
                            constants,
                            offset as int,
                            instr_at(code, constants, offset as int)->Ok_0.0,
                            next as int,
                        );
                        if disasm_from(code, lines, constants, next as int) is Ok {
                            let rest = disasm_from(code, lines, constants, next as int)->Ok_0;
                            assert(out@ + (text@ + rest) =~= (out@ + text@) + rest);
                        }
                    }
                    out.append(text.as_str());
                    offset = next;
                },
            }
        }
        proof {
            assert(out@ + Seq::<char>::empty() =~= out@);
        }
        Ok(out)
    }
}

} // verus!
