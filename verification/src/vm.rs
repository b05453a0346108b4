//! The virtual machine: a stack-based interpreter over chunks.
//!
//! The meaning of a chunk is pinned down by the recursive specification
//! `run_from`, a mathematical fetch-decode-execute interpreter; `Vm::interpret`
//! is proved to return exactly its outcome and to leave the operand stack
//! exactly as it describes. Instruction decoding, including every fault a
//! malformed chunk can produce, is shared with the disassembler through
//! `instr_at`.

use vstd::prelude::*;

use crate::chunk::Chunk;
use crate::opcode::{decode_byte, opcode_byte, Opcode};
use crate::value::{
    add_bits, div_bits, mul_bits, negate_bits, rendered, render_value, sub_bits, value_add,
    value_divide, value_multiply, value_negate, value_subtract, Value,
};
use vstd::string::*;

verus! {

/// Capacity of the operand stack; exceeding it signals a compiler bug in the
/// chunk's producer and aborts the run like any other fatal fault.
pub const STACK_MAX: usize = 256;

/// The fatal faults a run (or a disassembly) of a malformed chunk can hit.
/// None is recoverable: each terminates the current run at the instruction
/// whose start (or, for `EndOfCode`, whose missing byte) it names.
#[derive(Clone, Copy, PartialEq, Eq, Structural, Debug)]
pub enum RuntimeError {
    /// The byte at `offset` does not decode to any opcode.
    DecodeError { offset: usize, byte: u8 },
    /// The instruction at `offset` pops more values than the stack holds.
    StackUnderflow { offset: usize },
    /// The CONSTANT instruction at `offset` references a pool index that was
    /// never assigned.
    PoolIndexOutOfRange { offset: usize, index: u8 },
    /// Execution needed the byte at `offset`, but the code ends before it:
    /// the chunk is truncated (no RETURN, or an operand cut short).
    EndOfCode { offset: usize },
    /// The instruction at `offset` would grow the stack past `STACK_MAX`.
    StackOverflow { offset: usize },
}

/// How a run of the interpreter ends.
#[derive(Clone, Copy, PartialEq, Eq, Structural, Debug)]
pub enum InterpretResult {
    /// A RETURN instruction executed; `value` is what it popped.
    Success { value: Value },
    /// Reserved for a producer that fails to compile a chunk at all; never
    /// produced by the interpreter itself.
    CompileError,
    /// A fatal fault; the run stopped at the instruction that caused it.
    RuntimeError { error: RuntimeError },
}

/// Decode the single instruction starting at `offset`: its opcode and the
/// offset of the next instruction, or the fault reported there. This is the
/// one definition of instruction well-formedness; the interpreter and the
/// disassembler both follow it byte for byte.
pub open spec fn instr_at(code: Seq<u8>, constants: Seq<Value>, offset: int) -> Result<
    (Opcode, int),
    RuntimeError,
> {
    if offset < 0 || offset >= code.len() {
        Err(RuntimeError::EndOfCode { offset: offset as usize })
    } else {
        match decode_byte(code[offset]) {
            Option::None => Err(
                RuntimeError::DecodeError { offset: offset as usize, byte: code[offset] },
            ),
            Option::Some(op) => {
                if op == Opcode::Constant {
                    if offset + 1 >= code.len() {
                        Err(RuntimeError::EndOfCode { offset: (offset + 1) as usize })
                    } else if constants.len() <= code[offset + 1] {
                        Err(
                            RuntimeError::PoolIndexOutOfRange {
                                offset: offset as usize,
                                index: code[offset + 1],
                            },
                        )
                    } else {
                        Ok((op, offset + 2))
                    }
                } else {
                    Ok((op, offset + 1))
                }
            },
        }
    }
}

/// The code decodes cleanly from `offset` onwards: every opcode byte is
/// assigned, every CONSTANT instruction has its operand byte and a pool
/// index in range.
pub open spec fn valid_from(code: Seq<u8>, constants: Seq<Value>, offset: int) -> bool
    decreases code.len() - offset,
{
    if offset >= code.len() {
        true
    } else {
        match instr_at(code, constants, offset) {
            Err(_) => false,
            Ok((op, next)) => valid_from(code, constants, next),
        }
    }
}

/// The bit pattern a binary opcode computes from left operand `a` and right
/// operand `b`.
pub open spec fn binary_bits(op: Opcode, a: Value, b: Value) -> Value {
    match op {
        Opcode::Add => add_bits(a, b),
        Opcode::Subtract => sub_bits(a, b),
        Opcode::Multiply => mul_bits(a, b),
        Opcode::Divide => div_bits(a, b),
        _ => 0,
    }
}

/// The mathematical interpreter: the outcome of running `code` against
/// `constants` from instruction pointer `ip` with operand stack `stack`
/// (last element topmost), together with the stack left behind.
///
/// One recursive step per instruction: fetch and decode via `instr_at`,
/// apply the opcode's stack effect, continue at the next offset. A binary
/// opcode pops its right operand first, so the earlier-pushed value is the
/// left operand. RETURN pops the result and stops with `Success`; any fault
/// stops with `RuntimeError` and leaves the stack as it stood.
pub open spec fn run_from(
    code: Seq<u8>,
    constants: Seq<Value>,
    stack: Seq<Value>,
    ip: int,
) -> (InterpretResult, Seq<Value>)
    decreases code.len() - ip,
{
    match instr_at(code, constants, ip) {
        Err(e) => (InterpretResult::RuntimeError { error: e }, stack),
        Ok((op, next)) => {
            if op == Opcode::Constant {
                let v = constants[code[ip + 1] as int];
                if stack.len() >= STACK_MAX {
                    (
                        InterpretResult::RuntimeError {
                            error: RuntimeError::StackOverflow { offset: ip as usize },
                        },
                        stack,
                    )
                } else {
                    run_from(code, constants, stack.push(v), next)
                }
            } else if op == Opcode::Negate {
                if stack.len() == 0 {
                    (
                        InterpretResult::RuntimeError {
                            error: RuntimeError::StackUnderflow { offset: ip as usize },
                        },
                        stack,
                    )
                } else {
                    run_from(
                        code,
                        constants,
                        stack.drop_last().push(negate_bits(stack.last())),
                        next,
                    )
                }
            } else if op == Opcode::Return {
                if stack.len() == 0 {
                    (
                        InterpretResult::RuntimeError {
                            error: RuntimeError::StackUnderflow { offset: ip as usize },
                        },
                        stack,
                    )
                } else {
                    (InterpretResult::Success { value: stack.last() }, stack.drop_last())
                }
            } else {
                if stack.len() < 2 {
                    (
                        InterpretResult::RuntimeError {
                            error: RuntimeError::StackUnderflow { offset: ip as usize },
                        },
                        stack,
                    )
                } else {
                    let a = stack[stack.len() - 2];
                    let b = stack[stack.len() - 1];
                    run_from(
                        code,
                        constants,
                        stack.drop_last().drop_last().push(binary_bits(op, a, b)),
                        next,
                    )
                }
            }
        },
    }
}

/// This core never produces `CompileError`: that outcome is reserved for a
/// chunk producer. Every run ends in `Success` or a `RuntimeError`.
pub proof fn lemma_run_never_compile_error(
    code: Seq<u8>,
    constants: Seq<Value>,
    stack: Seq<Value>,
    ip: int,
)
    ensures
        !(run_from(code, constants, stack, ip).0 is CompileError),
    decreases code.len() - ip,
{
    match instr_at(code, constants, ip) {
        Err(_) => {},
        Ok((op, next)) => {
            if op == Opcode::Constant {
                if stack.len() < STACK_MAX {
                    lemma_run_never_compile_error(
                        code,
                        constants,
                        stack.push(constants[code[ip + 1] as int]),
                        next,
                    );
                }
            } else if op == Opcode::Negate {
                if stack.len() > 0 {
                    lemma_run_never_compile_error(
                        code,
                        constants,
                        stack.drop_last().push(negate_bits(stack.last())),
                        next,
                    );
                }
            } else if op == Opcode::Return {
            } else {
                if stack.len() >= 2 {
                    lemma_run_never_compile_error(
                        code,
                        constants,
                        stack.drop_last().drop_last().push(
                            binary_bits(op, stack[stack.len() - 2], stack[stack.len() - 1]),
                        ),
                        next,
                    );
                }
            }
        },
    }
}

/// The machine makes no assumption beyond the chunk invariants: on code
/// that decodes cleanly — exactly the code the disassembler accepts — a run
/// never reports a decoding fault. Every failure is then a stack-effect
/// fault (underflow or overflow) or falling off the end of the code without
/// a RETURN.
pub proof fn lemma_clean_code_runs_without_decode_faults(
    code: Seq<u8>,
    constants: Seq<Value>,
    stack: Seq<Value>,
    ip: int,
)
    requires
        valid_from(code, constants, ip),
    ensures
        (run_from(code, constants, stack, ip).0 matches InterpretResult::RuntimeError { error }
            ==> (error is StackUnderflow || error is StackOverflow || error is EndOfCode)),
    decreases code.len() - ip,
{
    match instr_at(code, constants, ip) {
        Err(_) => {},
        Ok((op, next)) => {
            if op == Opcode::Constant {
                if stack.len() < STACK_MAX {
                    lemma_clean_code_runs_without_decode_faults(
                        code,
                        constants,
                        stack.push(constants[code[ip + 1] as int]),
                        next,
                    );
                }
            } else if op == Opcode::Negate {
                if stack.len() > 0 {
                    lemma_clean_code_runs_without_decode_faults(
                        code,
                        constants,
                        stack.drop_last().push(negate_bits(stack.last())),
                        next,
                    );
                }
            } else if op == Opcode::Return {
            } else {
                if stack.len() >= 2 {
                    lemma_clean_code_runs_without_decode_faults(
                        code,
                        constants,
                        stack.drop_last().drop_last().push(
                            binary_bits(op, stack[stack.len() - 2], stack[stack.len() - 1]),
                        ),
                        next,
                    );
                }
            }
        },
    }
}

/// Round trip: add a constant `v` to the pool, emit a CONSTANT instruction
/// whose operand byte is the index the pool assigned, and executing that
/// instruction pushes exactly `v` — bit for bit — onto the stack, then
/// continues past the operand.
pub proof fn lemma_constant_round_trip(
    code: Seq<u8>,
    constants: Seq<Value>,
    stack: Seq<Value>,
    v: Value,
    ip: int,
)
    requires
        0 <= ip,
        ip + 2 <= code.len(),
        code[ip] == opcode_byte(Opcode::Constant),
        constants.len() < 256,
        code[ip + 1] == constants.len() as u8,
        stack.len() < STACK_MAX,
    ensures
        run_from(code, constants.push(v), stack, ip) == run_from(
            code,
            constants.push(v),
            stack.push(v),
            ip + 2,
        ),
{
    assert(code[ip + 1] as int == constants.len());
    assert(constants.push(v)[code[ip + 1] as int] == v);
}

/// Arithmetic ordering: with `a` pushed before `b`, SUBTRACT computes
/// `a - b` — the earlier-pushed value is the left operand and the top of the
/// stack the right one — and DIVIDE likewise computes `a / b`.
pub proof fn lemma_binary_operand_order(
    code: Seq<u8>,
    constants: Seq<Value>,
    stack: Seq<Value>,
    a: Value,
    b: Value,
    ip: int,
)
    requires
        0 <= ip < code.len(),
    ensures
        code[ip] == opcode_byte(Opcode::Subtract) ==> run_from(
            code,
            constants,
            stack.push(a).push(b),
            ip,
        ) == run_from(code, constants, stack.push(sub_bits(a, b)), ip + 1),
        code[ip] == opcode_byte(Opcode::Divide) ==> run_from(
            code,
            constants,
            stack.push(a).push(b),
            ip,
        ) == run_from(code, constants, stack.push(div_bits(a, b)), ip + 1),
{
    let two = stack.push(a).push(b);
    assert(two.len() == stack.len() + 2);
    assert(two[two.len() - 2] == a);
    assert(two[two.len() - 1] == b);
    assert(two.drop_last().drop_last() =~= stack);
}

/// The trace rendering of an operand stack: each slot bracketed, bottom of
/// the stack first.
pub open spec fn stack_text(stack: Seq<Value>) -> Seq<char>
    decreases stack.len(),
{
    if stack.len() == 0 {
        Seq::empty()
    } else {
        stack_text(stack.drop_last()) + "[ "@ + rendered(stack.last()) + " ]"@
    }
}

/// The execution engine: an instruction pointer and an operand stack. One
/// `Vm` value serves any number of `interpret` calls; the chunk under
/// execution is only read.
pub struct Vm {
    /// The LIFO operand stack; the last element is the top.
    pub stack: Vec<Value>,
    /// Index into the current chunk's code of the next byte to fetch.
    pub ip: usize,
}

impl Vm {
    /// The machine's invariant: the stack never exceeds its capacity.
    pub open spec fn wf(self) -> bool {
        self.stack@.len() <= STACK_MAX
    }

    /// A fresh machine with an empty stack.
    pub fn new() -> (vm: Vm)
        ensures
            vm.wf(),
            vm.stack@.len() == 0,
            vm.ip == 0,
    {
        Vm { stack: Vec::new(), ip: 0 }
    }

    /// Teardown: clear the stack (values carry no resources, so nothing else
    /// is owed). The machine stays usable.
    pub fn free(&mut self)
        ensures
            final(self).wf(),
            final(self).stack@.len() == 0,
    {
        self.stack = Vec::new();
    }

    /// Render the operand stack for tracing, bottom first, each slot
    /// bracketed. Pure observation: the stack is only read.
    pub fn render_stack(&self) -> (r: String)
        ensures
            r@ == stack_text(self.stack@),
    {
        let mut out = String::new();
        let mut i: usize = 0;
        while i < self.stack.len()
            invariant
                i <= self.stack@.len(),
                out@ == stack_text(self.stack@.take(i as int)),
            decreases self.stack@.len() - i,
        {
            out.append("[ ");
            let piece = render_value(self.stack[i]);
            out.append(piece.as_str());
            out.append(" ]");
            proof {
                let s = self.stack@;
                assert(s.take(i + 1).drop_last() =~= s.take(i as int));
                assert(s.take(i + 1).last() == s[i as int]);
            }
            i = i + 1;
        }
        proof {
            assert(self.stack@.take(self.stack@.len() as int) =~= self.stack@);
        }
        out
    }

    /// Execute `chunk` from instruction 0 to completion or fault: the single
    /// entry point of the machine. Returns exactly the outcome of the
    /// mathematical interpreter `run_from`, and leaves the stack exactly as
    /// it prescribes: what RETURN or a fault left behind persists into the
    /// next call.
    pub fn interpret(&mut self, chunk: &Chunk) -> (r: InterpretResult)
        requires
            chunk.wf(),
            old(self).wf(),
        ensures
            final(self).wf(),
            ({
                let spec_run = run_from(chunk.code@, chunk.constants.values@, old(self).stack@, 0);
                r == spec_run.0 && final(self).stack@ == spec_run.1
            }),
    {
        self.ip = 0;
        loop
            invariant
                chunk.wf(),
                self.ip <= chunk.code@.len(),
                self.stack@.len() <= STACK_MAX,
                run_from(chunk.code@, chunk.constants.values@, old(self).stack@, 0) == run_from(
                    chunk.code@,
                    chunk.constants.values@,
                    self.stack@,
                    self.ip as int,
                ),
            decreases chunk.code@.len() - self.ip,
        {
            let ip = self.ip;
            if ip >= chunk.len() {
                return InterpretResult::RuntimeError {
                    error: RuntimeError::EndOfCode { offset: ip },
                };
            }
            let byte = chunk.read_byte(ip);
            match Opcode::from_byte(byte) {
                Option::None => {
                    return InterpretResult::RuntimeError {
                        error: RuntimeError::DecodeError { offset: ip, byte },
                    };
                },
                Option::Some(op) => match op {
                    Opcode::Constant => {
                        if ip + 1 >= chunk.len() {
                            return InterpretResult::RuntimeError {
                                error: RuntimeError::EndOfCode { offset: ip + 1 },
                            };
                        }
                        let index = chunk.read_byte(ip + 1);
                        if chunk.constants.len() <= index as usize {
                            return InterpretResult::RuntimeError {
                                error: RuntimeError::PoolIndexOutOfRange { offset: ip, index },
                            };
                        }
                        let v = chunk.constants.read(index as usize);
                        if self.stack.len() >= STACK_MAX {
                            return InterpretResult::RuntimeError {
                                error: RuntimeError::StackOverflow { offset: ip },
                            };
                        }
                        self.stack.push(v);
                        self.ip = ip + 2;
                    },
                    Opcode::Negate => {
                        match self.stack.pop() {
                            Option::None => {
                                return InterpretResult::RuntimeError {
                                    error: RuntimeError::StackUnderflow { offset: ip },
                                };
                            },
                            Option::Some(v) => {
                                self.stack.push(value_negate(v));
                                self.ip = ip + 1;
                            },
                        }
                    },
                    Opcode::Return => {
                        match self.stack.pop() {
                            Option::None => {
                                return InterpretResult::RuntimeError {
                                    error: RuntimeError::StackUnderflow { offset: ip },
                                };
                            },
                            Option::Some(v) => {
                                return InterpretResult::Success { value: v };
                            },
                        }
                    },
                    Opcode::Add => {
                        if self.stack.len() < 2 {
                            return InterpretResult::RuntimeError {
                                error: RuntimeError::StackUnderflow { offset: ip },
                            };
                        }
                        let b = self.stack.pop().unwrap();
                        let a = self.stack.pop().unwrap();
                        self.stack.push(value_add(a, b));
                        self.ip = ip + 1;
                    },
                    Opcode::Subtract => {
                        if self.stack.len() < 2 {
                            return InterpretResult::RuntimeError {
                                error: RuntimeError::StackUnderflow { offset: ip },
                            };
                        }
                        let b = self.stack.pop().unwrap();
                        let a = self.stack.pop().unwrap();
                        self.stack.push(value_subtract(a, b));
                        self.ip = ip + 1;
                    },
                    Opcode::Multiply => {
                        if self.stack.len() < 2 {
                            return InterpretResult::RuntimeError {
                                error: RuntimeError::StackUnderflow { offset: ip },
                            };
                        }
                        let b = self.stack.pop().unwrap();
                        let a = self.stack.pop().unwrap();
                        self.stack.push(value_multiply(a, b));
                        self.ip = ip + 1;
                    },
                    Opcode::Divide => {
                        if self.stack.len() < 2 {
                            return InterpretResult::RuntimeError {
                                error: RuntimeError::StackUnderflow { offset: ip },
                            };
                        }
                        let b = self.stack.pop().unwrap();
                        let a = self.stack.pop().unwrap();
                        self.stack.push(value_divide(a, b));
                        self.ip = ip + 1;
                    },
                },
            }
        }
    }
}

} // verus!
