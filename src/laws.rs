use vstd::prelude::*;

use crate::code::{decode_from, decode_spec};
use crate::instruction::{
    be_bytes,
    be_value,
    opcode_instruction,
    parse_instruction,
    lemma_pow256_monotone,
    pow256,
    Instruction,
};
use crate::machine::{round, rounds, MachineError, Progress};
use crate::memory::cell_value;
use crate::ops::step_spec;
use crate::stack::MAX_STACK_DEPTH;
use crate::state::StateView;
use crate::types::Word;

verus! {

/// A step from a state whose stack depth is within the bound leads to a
/// state whose stack depth is within the bound.
pub proof fn lemma_step_keeps_depth_bound(s: StateView, i: Instruction)
    requires
        s.wf(),
    ensures
        step_spec(s, i) is Ok ==> step_spec(s, i)->Ok_0.wf(),
{
}

/// Every state that a run passes through, from a state within the depth
/// bound, is within the depth bound.
pub proof fn lemma_rounds_keep_depth_bound(prog: Seq<Instruction>, s: StateView, k: nat)
    requires
        s.wf(),
    ensures
        match rounds(prog, s, k) {
            Progress::Running(t) => t.wf(),
            Progress::Stopped(t) => t.wf(),
            Progress::Failed(t, _) => t.wf(),
        },
    decreases k,
{
    if k > 0 {
        lemma_rounds_keep_depth_bound(prog, s, (k - 1) as nat);
        match rounds(prog, s, (k - 1) as nat) {
            Progress::Running(t) => {
                if t.pc < prog.len() {
                    lemma_step_keeps_depth_bound(t, prog[t.pc as int]);
                }
            },
            _ => {},
        }
    }
}

/// `Push` on a full stack fails with `StackFull`, and `Pop` on an empty
/// stack fails with `StackEmpty`; in a run, such a failure leaves the state
/// as it was before the step.
pub proof fn lemma_stack_limits(prog: Seq<Instruction>, s: StateView)
    ensures
        s.stack.len() == MAX_STACK_DEPTH ==> step_spec(s, Instruction::Push) == Err::<
            StateView,
            MachineError,
        >(MachineError::StackFull),
        s.stack.len() == 0 ==> step_spec(s, Instruction::Pop) == Err::<StateView, MachineError>(
            MachineError::StackEmpty,
        ),
        s.pc < prog.len() && prog[s.pc as int] == Instruction::Push && s.stack.len()
            == MAX_STACK_DEPTH ==> round(prog, s) == Progress::Failed(s, MachineError::StackFull),
        s.pc < prog.len() && prog[s.pc as int] == Instruction::Pop && s.stack.len() == 0
            ==> round(prog, s) == Progress::Failed(s, MachineError::StackEmpty),
{
}

/// The cells after applying the writes `ws`, in order, to `m`.
pub open spec fn after_writes(m: Map<Word, Word>, ws: Seq<(Word, Word)>) -> Map<Word, Word>
    decreases ws.len(),
{
    if ws.len() == 0 {
        m
    } else {
        after_writes(m, ws.drop_last()).insert(ws.last().0, ws.last().1)
    }
}

/// Reading an address that no write has touched, starting from empty
/// memory, gives zero.
pub proof fn lemma_unwritten_reads_zero(ws: Seq<(Word, Word)>, address: Word)
    requires
        forall|j: int| 0 <= j < ws.len() ==> (#[trigger] ws[j]).0 != address,
    ensures
        cell_value(after_writes(Map::empty(), ws), address) == 0,
    decreases ws.len(),
{
    if ws.len() > 0 {
        let d = ws.drop_last();
        assert forall|j: int| 0 <= j < d.len() implies (#[trigger] d[j]).0 != address by {
            assert(d[j] == ws[j]);
        }
        lemma_unwritten_reads_zero(d, address);
    }
}

/// The checked arithmetic instructions.
pub open spec fn is_checked_arith(i: Instruction) -> bool {
    match i {
        Instruction::Add | Instruction::Sub | Instruction::Mul | Instruction::Div => true,
        _ => false,
    }
}

/// The exact mathematical result of a checked arithmetic instruction on
/// `a` (popped first) and `b` (popped second).
pub open spec fn exact_result(i: Instruction, a: Word, b: Word) -> int {
    match i {
        Instruction::Add => a + b,
        Instruction::Sub => a - b,
        Instruction::Mul => a * b,
        _ => if b == 0 {
            0
        } else {
            a as int / b as int
        },
    }
}

/// Add, Sub, Mul and Div fail with `ArithmeticOverflow` exactly when the
/// exact result leaves the word range or Div divides by zero; otherwise they
/// replace the two operands by the exact result, advance the program
/// counter and change nothing else.
pub proof fn lemma_checked_arithmetic(s: StateView, i: Instruction)
    requires
        is_checked_arith(i),
        s.stack.len() >= 2,
    ensures
        ({
            let n = s.stack.len();
            let a = s.stack[n - 1];
            let b = s.stack[n - 2];
            let c = exact_result(i, a, b);
            let fails = c < 0 || c > u64::MAX || (i == Instruction::Div && b == 0);
            &&& fails <==> step_spec(s, i) == Err::<StateView, MachineError>(
                MachineError::ArithmeticOverflow,
            )
            &&& !fails ==> step_spec(s, i) == Ok::<StateView, MachineError>(
                StateView {
                    pc: (s.pc + 1) as Word,
                    reg: s.reg,
                    stack: s.stack.subrange(0, n - 2).push(c as Word),
                    memory: s.memory,
                },
            )
        }),
{
    let n = s.stack.len();
    assert(s.stack.drop_last().drop_last() =~= s.stack.subrange(0, n - 2));
    let a = s.stack[n - 1];
    let b = s.stack[n - 2];
    if i == Instruction::Mul {
        assert(0 <= a * b) by (nonlinear_arith);
    }
    if i == Instruction::Div && b != 0 {
        assert(0 <= a / b <= a) by (nonlinear_arith)
            requires
                b > 0,
        ;
    }
}

/// The big-endian reading of the last `n` base-256 digits of `v` is `v`
/// modulo `256^n`.
pub proof fn lemma_be_bytes_value(v: nat, n: nat)
    ensures
        be_bytes(v, n).len() == n,
        be_value(be_bytes(v, n)) == v % pow256(n),
    decreases n,
{
    if n > 0 {
        let m = (n - 1) as nat;
        lemma_be_bytes_value(v / 256, m);
        let s = be_bytes(v, n);
        assert(s.drop_last() =~= be_bytes(v / 256, m));
        lemma_pow256_monotone(0, m);
        vstd::arithmetic::div_mod::lemma_mod_breakdown(v as int, 256, pow256(m) as int);
    }
}

/// For every payload-free opcode byte, the one-byte buffer holding it
/// decodes to the one-instruction program of its instruction, and that
/// instruction encodes back to the same byte.
pub proof fn lemma_opcode_round_trip(b: u8)
    requires
        opcode_instruction(b) is Some,
    ensures
        decode_spec(seq![b]) == Ok::<Seq<Instruction>, crate::code::CodeParseError>(
            seq![opcode_instruction(b)->Some_0],
        ),
        opcode_instruction(b)->Some_0.opcode() == b,
        opcode_instruction(b)->Some_0.encoding() == seq![b],
{
    let bs = seq![b];
    assert(bs.subrange(0, 1) =~= bs);
    assert(decode_from(bs, 1) == Ok::<Seq<Instruction>, crate::code::CodeParseError>(
        Seq::empty(),
    ));
    assert(seq![opcode_instruction(b)->Some_0].add(Seq::empty()) =~= seq![
        opcode_instruction(b)->Some_0,
    ]);
}

/// The literal-load instruction decodes back from its nine-byte encoding,
/// for every word.
pub proof fn lemma_literal_round_trip(w: Word)
    ensures
        Instruction::SetReg(w).encoding().len() == 9,
        parse_instruction(Instruction::SetReg(w).encoding()) == Ok::<
            Instruction,
            crate::instruction::InstructionParseError,
        >(Instruction::SetReg(w)),
        decode_spec(Instruction::SetReg(w).encoding()) == Ok::<
            Seq<Instruction>,
            crate::code::CodeParseError,
        >(seq![Instruction::SetReg(w)]),
{
    let e = Instruction::SetReg(w).encoding();
    lemma_be_bytes_value(w as nat, 8);
    reveal_with_fuel(pow256, 9);
    assert(pow256(8) == 0x1_0000_0000_0000_0000nat);
    assert(e.subrange(1, 9) =~= be_bytes(w as nat, 8));
    assert(e.subrange(0, 9) =~= e);
    assert(decode_from(e, 9) == Ok::<Seq<Instruction>, crate::code::CodeParseError>(
        Seq::empty(),
    ));
    assert(seq![Instruction::SetReg(w)].add(Seq::empty()) =~= seq![Instruction::SetReg(w)]);
}

} // verus!
