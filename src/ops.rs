use vstd::prelude::*;

use crate::instruction::Instruction;
use crate::machine::MachineError;
use crate::memory::{cell_value, LinearlyAddressable};
use crate::stack::{Stack, MAX_STACK_DEPTH};
use crate::state::{State, StateView};
use crate::types::Word;

verus! {

/// `s` with its program counter moved on by one and its stack replaced.
pub open spec fn advanced(s: StateView, stack: Seq<Word>) -> StateView {
    StateView { pc: (s.pc + 1) as Word, reg: s.reg, stack: stack, memory: s.memory }
}

/// The instructions that pop `a`, then `b`, and push one result.
pub open spec fn is_binary(i: Instruction) -> bool {
    match i {
        Instruction::Add | Instruction::Sub | Instruction::Mul | Instruction::Div
        | Instruction::Mod | Instruction::Cmp | Instruction::And | Instruction::Or
        | Instruction::Xor => true,
        _ => false,
    }
}

/// Result of the binary instruction `i` on `a` (popped first) and `b`
/// (popped second); `None` where it overflows, underflows or divides by zero.
pub open spec fn binary_result(i: Instruction, a: Word, b: Word) -> Option<Word> {
    match i {
        Instruction::Add => if a + b <= u64::MAX {
            Some((a + b) as Word)
        } else {
            None
        },
        Instruction::Sub => if a >= b {
            Some((a - b) as Word)
        } else {
            None
        },
        Instruction::Mul => if a * b <= u64::MAX {
            Some((a * b) as Word)
        } else {
            None
        },
        Instruction::Div => if b != 0 {
            Some(a / b)
        } else {
            None
        },
        Instruction::Mod => if b != 0 {
            Some(a % b)
        } else {
            None
        },
        Instruction::Cmp => Some(if a == b { 1u64 } else { 0u64 }),
        Instruction::And => Some(a & b),
        Instruction::Or => Some(a | b),
        Instruction::Xor => Some(a ^ b),
        _ => None,
    }
}

/// What executing `i` in state `s` gives: the next state, or the error.
pub open spec fn step_spec(s: StateView, i: Instruction) -> Result<StateView, MachineError> {
    let st = s.stack;
    let n = st.len();
    match i {
        Instruction::Nop => Ok(advanced(s, st)),
        Instruction::Halt => Ok(s),
        Instruction::Load => if n < 1 {
            Err(MachineError::InsufficientArguments)
        } else {
            Ok(advanced(s, st.drop_last().push(cell_value(s.memory, st.last()))))
        },
        Instruction::Store => if n < 2 {
            Err(MachineError::InsufficientArguments)
        } else {
            Ok(
                StateView {
                    pc: (s.pc + 1) as Word,
                    reg: s.reg,
                    stack: st.drop_last().drop_last(),
                    memory: s.memory.insert(st.last(), st[n - 2]),
                },
            )
        },
        Instruction::Push => if n == MAX_STACK_DEPTH {
            Err(MachineError::StackFull)
        } else {
            Ok(advanced(s, st.push(s.reg)))
        },
        Instruction::Pop => if n == 0 {
            Err(MachineError::StackEmpty)
        } else {
            Ok(
                StateView {
                    pc: (s.pc + 1) as Word,
                    reg: st.last(),
                    stack: st.drop_last(),
                    memory: s.memory,
                },
            )
        },
        Instruction::SetReg(w) => Ok(
            StateView { pc: (s.pc + 1) as Word, reg: w, stack: st, memory: s.memory },
        ),
        Instruction::Read | Instruction::Write | Instruction::JumpIf => Err(
            MachineError::IllegalInstruction,
        ),
        Instruction::Jump => if n < 1 {
            Err(MachineError::InsufficientArguments)
        } else {
            Ok(StateView { pc: st.last(), reg: s.reg, stack: st.drop_last(), memory: s.memory })
        },
        Instruction::Not => if n < 1 {
            Err(MachineError::InsufficientArguments)
        } else {
            Ok(advanced(s, st.drop_last().push(!st.last())))
        },
        _ => if n < 2 {
            Err(MachineError::InsufficientArguments)
        } else {
            match binary_result(i, st.last(), st[n - 2]) {
                None => Err(MachineError::ArithmeticOverflow),
                Some(c) => Ok(advanced(s, st.drop_last().drop_last().push(c))),
            }
        },
    }
}

/// The instructions that move the program counter on by one when they
/// succeed.
pub open spec fn advances(i: Instruction) -> bool {
    match i {
        Instruction::Halt | Instruction::Jump | Instruction::Read | Instruction::Write
        | Instruction::JumpIf => false,
        _ => true,
    }
}

/// Where executing `i` in `s` succeeds and moves the program counter on,
/// the counter has room to grow.
pub open spec fn pc_room(s: StateView, i: Instruction) -> bool {
    advances(i) && step_spec(s, i) is Ok ==> s.pc < u64::MAX
}

/// What a step's result means: the next state, or the error.
pub open spec fn result_view(r: Result<State, MachineError>) -> Result<StateView, MachineError> {
    match r {
        Ok(s) => Ok(s@),
        Err(e) => Err(e),
    }
}

/// Pops the top word, or reports that the instruction lacks an operand.
fn pop_operand(stack: &mut Stack) -> (r: Result<Word, MachineError>)
    ensures
        old(stack)@.len() == 0 ==> r == Err::<Word, MachineError>(
            MachineError::InsufficientArguments,
        ),
        old(stack)@.len() > 0 ==> r == Ok::<Word, MachineError>(old(stack)@.last())
            && final(stack)@ == old(stack)@.drop_last(),
{
    match stack.pop() {
        Ok(v) => Ok(v),
        Err(_) => Err(MachineError::InsufficientArguments),
    }
}

/// Pushes `value`, or reports that the stack is full.
fn push_result(stack: &mut Stack, value: Word) -> (r: Result<(), MachineError>)
    requires
        old(stack).wf(),
    ensures
        final(stack).wf(),
        old(stack)@.len() == MAX_STACK_DEPTH ==> r == Err::<(), MachineError>(
            MachineError::StackFull,
        ),
        old(stack)@.len() < MAX_STACK_DEPTH ==> r == Ok::<(), MachineError>(())
            && final(stack)@ == old(stack)@.push(value),
{
    match stack.push(value) {
        Ok(_) => Ok(()),
        Err(_) => Err(MachineError::StackFull),
    }
}

/// Executes the binary instruction `op`.
fn binary(state: State, op: Instruction) -> (r: Result<State, MachineError>)
    requires
        state.wf(),
        pc_room(state@, op),
        is_binary(op),
    ensures
        result_view(r) == step_spec(state@, op),
{
    let mut s = state;
    let a = match pop_operand(&mut s.stack) {
        Ok(v) => v,
        Err(e) => return Err(e),
    };
    let b = match pop_operand(&mut s.stack) {
        Ok(v) => v,
        Err(e) => return Err(e),
    };
    let c: Option<Word> = match op {
        Instruction::Add => a.checked_add(b),
        Instruction::Sub => a.checked_sub(b),
        Instruction::Mul => a.checked_mul(b),
        Instruction::Div => a.checked_div(b),
        Instruction::Mod => a.checked_rem(b),
        Instruction::Cmp => Some(if a == b { 1 } else { 0 }),
        Instruction::And => Some(a & b),
        Instruction::Or => Some(a | b),
        _ => Some(a ^ b),
    };
    match c {
        None => Err(MachineError::ArithmeticOverflow),
        Some(c) => {
            match push_result(&mut s.stack, c) {
                Ok(()) => {},
                Err(e) => return Err(e),
            }
            s.pc = s.pc + 1;
            Ok(s)
        },
    }
}

pub fn nop(state: State) -> (r: Result<State, MachineError>)
    requires
        pc_room(state@, Instruction::Nop),
    ensures
        result_view(r) == step_spec(state@, Instruction::Nop),
{
    let mut s = state;
    s.pc = s.pc + 1;
    Ok(s)
}

pub fn halt(state: State) -> (r: Result<State, MachineError>)
    ensures
        result_view(r) == step_spec(state@, Instruction::Halt),
{
    Ok(state)
}

/// Pops an address and pushes the word stored there.
pub fn load(state: State) -> (r: Result<State, MachineError>)
    requires
        state.wf(),
        pc_room(state@, Instruction::Load),
    ensures
        result_view(r) == step_spec(state@, Instruction::Load),
{
    let mut s = state;
    let address = match pop_operand(&mut s.stack) {
        Ok(v) => v,
        Err(e) => return Err(e),
    };
    let data = s.memory.read(address);
    match push_result(&mut s.stack, data) {
        Ok(()) => {},
        Err(e) => return Err(e),
    }
    s.pc = s.pc + 1;
    Ok(s)
}

/// Pops an address, then a value, and writes the value at the address.
pub fn store(state: State) -> (r: Result<State, MachineError>)
    requires
        pc_room(state@, Instruction::Store),
    ensures
        result_view(r) == step_spec(state@, Instruction::Store),
{
    let mut s = state;
    let address = match pop_operand(&mut s.stack) {
        Ok(v) => v,
        Err(e) => return Err(e),
    };
    let data = match pop_operand(&mut s.stack) {
        Ok(v) => v,
        Err(e) => return Err(e),
    };
    s.memory.write(address, data);
    s.pc = s.pc + 1;
    Ok(s)
}

/// Pushes the register.
pub fn push(state: State) -> (r: Result<State, MachineError>)
    requires
        state.wf(),
        pc_room(state@, Instruction::Push),
    ensures
        result_view(r) == step_spec(state@, Instruction::Push),
{
    let mut s = state;
    let value = s.reg;
    match push_result(&mut s.stack, value) {
        Ok(()) => {},
        Err(e) => return Err(e),
    }
    s.pc = s.pc + 1;
    Ok(s)
}

/// Pops the top word into the register.
pub fn pop(state: State) -> (r: Result<State, MachineError>)
    requires
        pc_room(state@, Instruction::Pop),
    ensures
        result_view(r) == step_spec(state@, Instruction::Pop),
{
    let mut s = state;
    let value = match s.stack.pop() {
        Ok(v) => v,
        Err(_) => return Err(MachineError::StackEmpty),
    };
    s.reg = value;
    s.pc = s.pc + 1;
    Ok(s)
}

/// Loads the literal `value` into the register.
pub fn set(value: Word, state: State) -> (r: Result<State, MachineError>)
    requires
        pc_room(state@, Instruction::SetReg(value)),
    ensures
        result_view(r) == step_spec(state@, Instruction::SetReg(value)),
{
    let mut s = state;
    s.reg = value;
    s.pc = s.pc + 1;
    Ok(s)
}

/// Reserved: decodable, never executable.
pub fn read(state: State) -> (r: Result<State, MachineError>)
    ensures
        result_view(r) == step_spec(state@, Instruction::Read),
{
    Err(MachineError::IllegalInstruction)
}

/// Reserved: decodable, never executable.
pub fn write(state: State) -> (r: Result<State, MachineError>)
    ensures
        result_view(r) == step_spec(state@, Instruction::Write),
{
    Err(MachineError::IllegalInstruction)
}

/// Pops a target and makes it the program counter.
pub fn jump(state: State) -> (r: Result<State, MachineError>)
    ensures
        result_view(r) == step_spec(state@, Instruction::Jump),
{
    let mut s = state;
    let target = match pop_operand(&mut s.stack) {
        Ok(v) => v,
        Err(e) => return Err(e),
    };
    s.pc = target;
    Ok(s)
}

pub fn add(state: State) -> (r: Result<State, MachineError>)
    requires
        state.wf(),
        pc_room(state@, Instruction::Add),
    ensures
        result_view(r) == step_spec(state@, Instruction::Add),
{
    binary(state, Instruction::Add)
}

pub fn sub(state: State) -> (r: Result<State, MachineError>)
    requires
        state.wf(),
        pc_room(state@, Instruction::Sub),
    ensures
        result_view(r) == step_spec(state@, Instruction::Sub),
{
    binary(state, Instruction::Sub)
}

pub fn mul(state: State) -> (r: Result<State, MachineError>)
    requires
        state.wf(),
        pc_room(state@, Instruction::Mul),
    ensures
        result_view(r) == step_spec(state@, Instruction::Mul),
{
    binary(state, Instruction::Mul)
}

pub fn div(state: State) -> (r: Result<State, MachineError>)
    requires
        state.wf(),
        pc_room(state@, Instruction::Div),
    ensures
        result_view(r) == step_spec(state@, Instruction::Div),
{
    binary(state, Instruction::Div)
}

/// Remainder of `a` by `b`; a zero divisor is an arithmetic error.
pub fn modulo(state: State) -> (r: Result<State, MachineError>)
    requires
        state.wf(),
        pc_room(state@, Instruction::Mod),
    ensures
        result_view(r) == step_spec(state@, Instruction::Mod),
{
    binary(state, Instruction::Mod)
}

/// Pushes one where the two operands are equal, zero otherwise.
pub fn cmp(state: State) -> (r: Result<State, MachineError>)
    requires
        state.wf(),
        pc_room(state@, Instruction::Cmp),
    ensures
        result_view(r) == step_spec(state@, Instruction::Cmp),
{
    binary(state, Instruction::Cmp)
}

pub fn and(state: State) -> (r: Result<State, MachineError>)
    requires
        state.wf(),
        pc_room(state@, Instruction::And),
    ensures
        result_view(r) == step_spec(state@, Instruction::And),
{
    binary(state, Instruction::And)
}

pub fn or(state: State) -> (r: Result<State, MachineError>)
    requires
        state.wf(),
        pc_room(state@, Instruction::Or),
    ensures
        result_view(r) == step_spec(state@, Instruction::Or),
{
    binary(state, Instruction::Or)
}

/// Replaces the top word by its bitwise complement.
pub fn not(state: State) -> (r: Result<State, MachineError>)
    requires
        state.wf(),
        pc_room(state@, Instruction::Not),
    ensures
        result_view(r) == step_spec(state@, Instruction::Not),
{
    let mut s = state;
    let a = match pop_operand(&mut s.stack) {
        Ok(v) => v,
        Err(e) => return Err(e),
    };
    match push_result(&mut s.stack, !a) {
        Ok(()) => {},
        Err(e) => return Err(e),
    }
    s.pc = s.pc + 1;
    Ok(s)
}

pub fn xor(state: State) -> (r: Result<State, MachineError>)
    requires
        state.wf(),
        pc_room(state@, Instruction::Xor),
    ensures
        result_view(r) == step_spec(state@, Instruction::Xor),
{
    binary(state, Instruction::Xor)
}

} // verus!
