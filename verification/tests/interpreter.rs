use bytecode_vm::chunk::Chunk;
use bytecode_vm::opcode::Opcode;
use bytecode_vm::vm::{InterpretResult, RuntimeError, Vm, STACK_MAX};

/// Build a chunk that loads each constant in order, then runs the given
/// zero-operand opcodes, all on source line `line`.
fn chunk_of(constants: &[f64], ops: &[Opcode], line: u32) -> Chunk {
    let mut c = Chunk::new();
    for &v in constants {
        let index = c.add_constant(v.to_bits());
        c.write_opcode(Opcode::Constant, line);
        c.append_byte(index as u8, line);
    }
    for &op in ops {
        c.write_opcode(op, line);
    }
    c
}

#[test]
fn negate_chunk_returns_negated_constant() {
    let c = chunk_of(&[1.2], &[Opcode::Negate, Opcode::Return], 1);
    let mut vm = Vm::new();
    let r = vm.interpret(&c);
    assert_eq!(r, InterpretResult::Success { value: (-1.2f64).to_bits() });
    assert!(vm.stack.is_empty());
}

#[test]
fn add_chunk_returns_sum() {
    let c = chunk_of(&[3.0, 4.0], &[Opcode::Add, Opcode::Return], 1);
    let mut vm = Vm::new();
    let r = vm.interpret(&c);
    assert_eq!(r, InterpretResult::Success { value: 7.0f64.to_bits() });
}

#[test]
fn subtract_uses_push_order_left_to_right() {
    // push a = 5.0, then b = 3.0: SUBTRACT must compute a - b = 2.0, not -2.0
    let c = chunk_of(&[5.0, 3.0], &[Opcode::Subtract, Opcode::Return], 1);
    let mut vm = Vm::new();
    let r = vm.interpret(&c);
    assert_eq!(r, InterpretResult::Success { value: 2.0f64.to_bits() });
}

#[test]
fn divide_uses_push_order_left_to_right() {
    let c = chunk_of(&[10.0, 4.0], &[Opcode::Divide, Opcode::Return], 1);
    let mut vm = Vm::new();
    let r = vm.interpret(&c);
    assert_eq!(r, InterpretResult::Success { value: 2.5f64.to_bits() });
}

#[test]
fn multiply_returns_product() {
    let c = chunk_of(&[6.0, 7.0], &[Opcode::Multiply, Opcode::Return], 1);
    let mut vm = Vm::new();
    let r = vm.interpret(&c);
    assert_eq!(r, InterpretResult::Success { value: 42.0f64.to_bits() });
}

#[test]
fn arithmetic_matches_ieee_rounding() {
    // 0.1 + 0.2 is inexact in binary64; the result must be the IEEE-rounded
    // bit pattern, exactly as hardware doubles produce it.
    let c = chunk_of(&[0.1, 0.2], &[Opcode::Add, Opcode::Return], 1);
    let mut vm = Vm::new();
    let r = vm.interpret(&c);
    assert_eq!(r, InterpretResult::Success { value: (0.1f64 + 0.2f64).to_bits() });
}

#[test]
fn divide_by_zero_yields_positive_infinity() {
    let c = chunk_of(&[10.0, 0.0], &[Opcode::Divide, Opcode::Return], 1);
    let mut vm = Vm::new();
    let r = vm.interpret(&c);
    assert_eq!(r, InterpretResult::Success { value: f64::INFINITY.to_bits() });
    match r {
        InterpretResult::Success { value } => {
            let f = f64::from_bits(value);
            assert!(f.is_infinite() && f.is_sign_positive());
        }
        _ => unreachable!(),
    }
}

#[test]
fn zero_divided_by_zero_yields_nan() {
    let c = chunk_of(&[0.0, 0.0], &[Opcode::Divide, Opcode::Return], 1);
    let mut vm = Vm::new();
    let r = vm.interpret(&c);
    match r {
        InterpretResult::Success { value } => assert!(f64::from_bits(value).is_nan()),
        _ => unreachable!(),
    }
}

#[test]
fn constant_round_trip_is_bit_exact() {
    // add_constant followed by a CONSTANT instruction referencing the
    // returned index pushes exactly the stored bit pattern.
    let v = 1.2f64; // not exactly representable; bits must survive untouched
    let mut c = Chunk::new();
    let index = c.add_constant(v.to_bits());
    assert_eq!(index, 0);
    c.write_opcode(Opcode::Constant, 7);
    c.append_byte(index as u8, 7);
    c.write_opcode(Opcode::Return, 7);
    let mut vm = Vm::new();
    let r = vm.interpret(&c);
    assert_eq!(r, InterpretResult::Success { value: v.to_bits() });
}

#[test]
fn return_on_empty_stack_is_underflow_not_panic() {
    let c = chunk_of(&[], &[Opcode::Return], 1);
    let mut vm = Vm::new();
    let r = vm.interpret(&c);
    assert_eq!(
        r,
        InterpretResult::RuntimeError { error: RuntimeError::StackUnderflow { offset: 0 } }
    );
    assert!(vm.stack.is_empty());
}

#[test]
fn negate_on_empty_stack_is_underflow() {
    let c = chunk_of(&[], &[Opcode::Negate], 1);
    let mut vm = Vm::new();
    let r = vm.interpret(&c);
    assert_eq!(
        r,
        InterpretResult::RuntimeError { error: RuntimeError::StackUnderflow { offset: 0 } }
    );
}

#[test]
fn binary_op_with_one_operand_is_underflow() {
    let c = chunk_of(&[1.0], &[Opcode::Add], 1);
    let mut vm = Vm::new();
    let r = vm.interpret(&c);
    // the one constant occupies bytes 0..2; ADD sits at offset 2
    assert_eq!(
        r,
        InterpretResult::RuntimeError { error: RuntimeError::StackUnderflow { offset: 2 } }
    );
    // the pushed operand is still there: nothing past the fault ran
    assert_eq!(vm.stack, vec![1.0f64.to_bits()]);
}

#[test]
fn undecodable_byte_is_decode_error_with_context() {
    let mut c = Chunk::new();
    c.append_byte(255, 1);
    let mut vm = Vm::new();
    let r = vm.interpret(&c);
    assert_eq!(
        r,
        InterpretResult::RuntimeError {
            error: RuntimeError::DecodeError { offset: 0, byte: 255 }
        }
    );
    assert!(vm.stack.is_empty());
}

#[test]
fn execution_before_bad_byte_is_kept_nothing_after_runs() {
    let mut c = Chunk::new();
    let index = c.add_constant(9.5f64.to_bits());
    c.write_opcode(Opcode::Constant, 1);
    c.append_byte(index as u8, 1);
    c.append_byte(99, 1); // corrupt opcode after one good instruction
    let mut vm = Vm::new();
    let r = vm.interpret(&c);
    assert_eq!(
        r,
        InterpretResult::RuntimeError {
            error: RuntimeError::DecodeError { offset: 2, byte: 99 }
        }
    );
    // the push before the corruption happened; nothing else did
    assert_eq!(vm.stack, vec![9.5f64.to_bits()]);
}

#[test]
fn constant_index_never_assigned_is_pool_range_error() {
    let mut c = Chunk::new();
    c.write_opcode(Opcode::Constant, 1);
    c.append_byte(5, 1); // pool is empty
    let mut vm = Vm::new();
    let r = vm.interpret(&c);
    assert_eq!(
        r,
        InterpretResult::RuntimeError {
            error: RuntimeError::PoolIndexOutOfRange { offset: 0, index: 5 }
        }
    );
}

#[test]
fn empty_chunk_is_end_of_code() {
    let c = Chunk::new();
    let mut vm = Vm::new();
    let r = vm.interpret(&c);
    assert_eq!(
        r,
        InterpretResult::RuntimeError { error: RuntimeError::EndOfCode { offset: 0 } }
    );
}

#[test]
fn truncated_constant_operand_is_end_of_code() {
    let mut c = Chunk::new();
    c.add_constant(1.0f64.to_bits());
    c.write_opcode(Opcode::Constant, 1); // operand byte missing
    let mut vm = Vm::new();
    let r = vm.interpret(&c);
    assert_eq!(
        r,
        InterpretResult::RuntimeError { error: RuntimeError::EndOfCode { offset: 1 } }
    );
}

#[test]
fn missing_return_is_end_of_code_after_last_instruction() {
    let c = chunk_of(&[1.0, 2.0], &[Opcode::Add], 1);
    let mut vm = Vm::new();
    let r = vm.interpret(&c);
    assert_eq!(
        r,
        InterpretResult::RuntimeError { error: RuntimeError::EndOfCode { offset: 5 } }
    );
    assert_eq!(vm.stack, vec![3.0f64.to_bits()]);
}

#[test]
fn pushing_past_capacity_is_stack_overflow() {
    let mut c = Chunk::new();
    let index = c.add_constant(1.0f64.to_bits());
    for _ in 0..STACK_MAX + 1 {
        c.write_opcode(Opcode::Constant, 1);
        c.append_byte(index as u8, 1);
    }
    let mut vm = Vm::new();
    let r = vm.interpret(&c);
    // the first STACK_MAX pushes succeed; the next CONSTANT, at byte offset
    // 2 * STACK_MAX, overflows
    assert_eq!(
        r,
        InterpretResult::RuntimeError {
            error: RuntimeError::StackOverflow { offset: 2 * STACK_MAX }
        }
    );
    assert_eq!(vm.stack.len(), STACK_MAX);
}

#[test]
fn vm_is_reusable_across_chunks_and_free_clears_the_stack() {
    let mut vm = Vm::new();
    let c1 = chunk_of(&[2.0, 3.0], &[Opcode::Add, Opcode::Return], 1);
    assert_eq!(vm.interpret(&c1), InterpretResult::Success { value: 5.0f64.to_bits() });
    assert!(vm.stack.is_empty());

    let c2 = chunk_of(&[8.0], &[Opcode::Negate, Opcode::Return], 2);
    assert_eq!(vm.interpret(&c2), InterpretResult::Success { value: (-8.0f64).to_bits() });

    let c3 = chunk_of(&[1.0], &[], 3); // leaves a value behind (no RETURN)
    let r = vm.interpret(&c3);
    assert_eq!(
        r,
        InterpretResult::RuntimeError { error: RuntimeError::EndOfCode { offset: 2 } }
    );
    assert_eq!(vm.stack, vec![1.0f64.to_bits()]);
    vm.free();
    assert!(vm.stack.is_empty());
}

#[test]
fn negation_flips_only_the_sign_bit() {
    // double negation restores the original bit pattern exactly
    let c = chunk_of(&[1.2], &[Opcode::Negate, Opcode::Negate, Opcode::Return], 1);
    let mut vm = Vm::new();
    let r = vm.interpret(&c);
    assert_eq!(r, InterpretResult::Success { value: 1.2f64.to_bits() });

    // negating zero yields negative zero (distinct bit pattern)
    let c = chunk_of(&[0.0], &[Opcode::Negate, Opcode::Return], 1);
    let mut vm = Vm::new();
    let r = vm.interpret(&c);
    assert_eq!(r, InterpretResult::Success { value: (-0.0f64).to_bits() });
}
