use vstd::prelude::*;

use crate::types::{word_bytes, Word};

verus! {

/// One machine instruction. Only `SetReg` carries a payload: the literal it
/// loads into the register.
#[derive(Clone, Copy, Debug, PartialEq, Eq, Structural)]
pub enum Instruction {
    Nop,
    Halt,
    Load,
    Store,
    Push,
    Pop,
    SetReg(Word),
    Read,
    Write,
    Jump,
    JumpIf,
    Add,
    Sub,
    Mul,
    Div,
    Mod,
    Cmp,
    And,
    Or,
    Not,
    Xor,
}

/// Why a byte slice is not the encoding of one instruction.
#[derive(Clone, Copy, Debug, PartialEq, Eq, Structural)]
pub enum InstructionParseError {
    /// The slice is empty.
    NoData,
    /// The single byte is no opcode.
    InvalidOpcode,
    /// The literal-load opcode stands alone, without its literal.
    MissingLiteral,
    /// A payload-free opcode was given trailing bytes.
    InappropriateLiteral,
    /// The literal-load opcode is followed by a number of bytes other than eight.
    IncompleteLiteral,
}

/// Opcode of the literal-load instruction `SetReg`.
pub const SET_OPCODE: u8 = 6;

/// `256` raised to the power `n`.
pub open spec fn pow256(n: nat) -> nat
    decreases n,
{
    if n == 0 {
        1
    } else {
        256 * pow256((n - 1) as nat)
    }
}

/// The number that the bytes `s` spell in big-endian order.
pub open spec fn be_value(s: Seq<u8>) -> nat
    decreases s.len(),
{
    if s.len() == 0 {
        0
    } else {
        be_value(s.drop_last()) * 256 + s.last() as nat
    }
}

/// The last `n` big-endian base-256 digits of `v`.
pub open spec fn be_bytes(v: nat, n: nat) -> Seq<u8>
    decreases n,
{
    if n == 0 {
        Seq::empty()
    } else {
        be_bytes(v / 256, (n - 1) as nat).push((v % 256) as u8)
    }
}

/// The payload-free instruction whose opcode is `b`, if there is one.
pub open spec fn opcode_instruction(b: u8) -> Option<Instruction> {
    match b {
        0x00 => Some(Instruction::Nop),
        0x01 => Some(Instruction::Halt),
        0x02 => Some(Instruction::Load),
        0x03 => Some(Instruction::Store),
        0x04 => Some(Instruction::Push),
        0x05 => Some(Instruction::Pop),
        0x07 => Some(Instruction::Read),
        0x08 => Some(Instruction::Write),
        0x09 => Some(Instruction::Jump),
        0x0A => Some(Instruction::JumpIf),
        0x0B => Some(Instruction::Add),
        0x0C => Some(Instruction::Sub),
        0x0D => Some(Instruction::Mul),
        0x0E => Some(Instruction::Div),
        0x0F => Some(Instruction::Mod),
        0x10 => Some(Instruction::Cmp),
        0x11 => Some(Instruction::And),
        0x12 => Some(Instruction::Or),
        0x13 => Some(Instruction::Not),
        0x14 => Some(Instruction::Xor),
        _ => None,
    }
}

/// The instruction that the whole of `b` encodes, or why it encodes none.
pub open spec fn parse_instruction(b: Seq<u8>) -> Result<Instruction, InstructionParseError> {
    if b.len() == 0 {
        Err(InstructionParseError::NoData)
    } else if b.len() > 1 {
        if b[0] == SET_OPCODE {
            if b.len() == 9 {
                Ok(Instruction::SetReg(be_value(b.subrange(1, 9)) as Word))
            } else {
                Err(InstructionParseError::IncompleteLiteral)
            }
        } else {
            Err(InstructionParseError::InappropriateLiteral)
        }
    } else {
        match opcode_instruction(b[0]) {
            Some(i) => Ok(i),
            None => if b[0] == SET_OPCODE {
                Err(InstructionParseError::MissingLiteral)
            } else {
                Err(InstructionParseError::InvalidOpcode)
            },
        }
    }
}

pub proof fn lemma_pow256_monotone(a: nat, b: nat)
    requires
        a <= b,
    ensures
        pow256(a) <= pow256(b),
    decreases b,
{
    if a < b {
        lemma_pow256_monotone(a, (b - 1) as nat);
    }
}

pub proof fn lemma_be_value_bound(s: Seq<u8>)
    ensures
        be_value(s) < pow256(s.len()),
    decreases s.len(),
{
    if s.len() > 0 {
        let d = s.drop_last();
        lemma_be_value_bound(d);
        let p = pow256(d.len());
        let v = be_value(d);
        let x = s.last() as nat;
        assert(v * 256 + x < p * 256) by (nonlinear_arith)
            requires
                v < p,
                x < 256,
        ;
    }
}

/// Reads the word stored big-endian in `b[start..start + 8]`.
fn read_word(b: &[u8], start: usize) -> (r: Word)
    requires
        start + 8 <= b@.len(),
    ensures
        r as nat == be_value(b@.subrange(start as int, start + 8)),
{
    let mut acc: Word = 0;
    let mut k: usize = start;
    let len: usize = b.len();
    let end: usize = start + 8;
    while k < end
        invariant
            end == start + 8,
            start <= k <= end,
            end <= len,
            len == b@.len(),
            acc as nat == be_value(b@.subrange(start as int, k as int)),
        decreases end - k,
    {
        proof {
            lemma_be_value_bound(b@.subrange(start as int, k as int));
            lemma_pow256_monotone((k - start) as nat, 7);
            reveal_with_fuel(pow256, 8);
            assert(pow256(7) == 72057594037927936nat);
            assert(acc * 256 + b@[k as int] <= 18446744073709551615nat) by (nonlinear_arith)
                requires
                    acc < 72057594037927936nat,
                    b@[k as int] < 256,
            ;
            assert(b@.subrange(start as int, k + 1).drop_last() =~= b@.subrange(
                start as int,
                k as int,
            ));
        }
        acc = acc * 256 + b[k] as Word;
        k = k + 1;
    }
    acc
}

impl Instruction {
    /// The opcode byte that starts this instruction's encoding.
    pub open spec fn opcode(self) -> u8 {
        match self {
            Instruction::Nop => 0x00,
            Instruction::Halt => 0x01,
            Instruction::Load => 0x02,
            Instruction::Store => 0x03,
            Instruction::Push => 0x04,
            Instruction::Pop => 0x05,
            Instruction::SetReg(_) => 0x06,
            Instruction::Read => 0x07,
            Instruction::Write => 0x08,
            Instruction::Jump => 0x09,
            Instruction::JumpIf => 0x0A,
            Instruction::Add => 0x0B,
            Instruction::Sub => 0x0C,
            Instruction::Mul => 0x0D,
            Instruction::Div => 0x0E,
            Instruction::Mod => 0x0F,
            Instruction::Cmp => 0x10,
            Instruction::And => 0x11,
            Instruction::Or => 0x12,
            Instruction::Not => 0x13,
            Instruction::Xor => 0x14,
        }
    }

    /// The bytes that encode this instruction: the opcode, followed for
    /// `SetReg` by its literal in eight big-endian bytes.
    pub open spec fn encoding(self) -> Seq<u8> {
        match self {
            Instruction::SetReg(w) => seq![SET_OPCODE].add(be_bytes(w as nat, 8)),
            _ => seq![self.opcode()],
        }
    }

    pub fn from_bytes(bytes: Vec<u8>) -> (r: Option<Self>)
        ensures
            r == match parse_instruction(bytes@) {
                Ok(i) => Some(i),
                Err(_) => None::<Instruction>,
            },
    {
        match Instruction::try_from(bytes) {
            Ok(i) => Some(i),
            Err(_) => None,
        }
    }

    /// The bytes that encode this instruction.
    pub fn to_bytes(&self) -> (r: Vec<u8>)
        ensures
            r@ == self.encoding(),
    {
        match self {
            Instruction::SetReg(w) => {
                let mut out: Vec<u8> = Vec::new();
                let mut v: Word = *w;
                let mut k: usize = 0;
                while k < word_bytes()
                    invariant
                        k <= 8,
                        be_bytes(v as nat, (8 - k) as nat).add(out@) == be_bytes(*w as nat, 8),
                    decreases 8 - k,
                {
                    proof {
                        let rest = be_bytes(v as nat / 256, (7 - k) as nat);
                        let digit = (v as nat % 256) as u8;
                        assert(rest.push(digit).add(out@) =~= rest.add(out@.insert(0, digit)));
                    }
                    out.insert(0, (v % 256) as u8);
                    v = v / 256;
                    k = k + 1;
                }
                proof {
                    assert(Seq::<u8>::empty().add(out@) =~= out@);
                }
                out.insert(0, SET_OPCODE);
                proof {
                    assert(out@ =~= seq![SET_OPCODE].add(be_bytes(*w as nat, 8)));
                }
                out
            },
            _ => vec![self.to_byte()],
        }
    }

    pub fn to_byte(&self) -> (r: u8)
        ensures
            r == self.opcode(),
    {
        match self {
            Instruction::Nop => 0x00,
            Instruction::Halt => 0x01,
            Instruction::Load => 0x02,
            Instruction::Store => 0x03,
            Instruction::Push => 0x04,
            Instruction::Pop => 0x05,
            Instruction::SetReg(_) => 0x06,
            Instruction::Read => 0x07,
            Instruction::Write => 0x08,
            Instruction::Jump => 0x09,
            Instruction::JumpIf => 0x0A,
            Instruction::Add => 0x0B,
            Instruction::Sub => 0x0C,
            Instruction::Mul => 0x0D,
            Instruction::Div => 0x0E,
            Instruction::Mod => 0x0F,
            Instruction::Cmp => 0x10,
            Instruction::And => 0x11,
            Instruction::Or => 0x12,
            Instruction::Not => 0x13,
            Instruction::Xor => 0x14,
        }
    }
}

impl<'a> TryFrom<&'a [u8]> for Instruction {
    type Error = InstructionParseError;

    fn try_from(value: &'a [u8]) -> (r: Result<Self, Self::Error>)
        ensures
            r == parse_instruction(value@),
    {
        if value.len() == 0 {
            Err(InstructionParseError::NoData)
        } else if value.len() > 1 {
            if value[0] == SET_OPCODE {
                if value.len() == 1 + word_bytes() {
                    Ok(Instruction::SetReg(read_word(value, 1)))
                } else {
                    Err(InstructionParseError::IncompleteLiteral)
                }
            } else {
                Err(InstructionParseError::InappropriateLiteral)
            }
        } else {
            match value[0] {
                0x00 => Ok(Instruction::Nop),
                0x01 => Ok(Instruction::Halt),
                0x02 => Ok(Instruction::Load),
                0x03 => Ok(Instruction::Store),
                0x04 => Ok(Instruction::Push),
                0x05 => Ok(Instruction::Pop),
                0x07 => Ok(Instruction::Read),
                0x08 => Ok(Instruction::Write),
                0x09 => Ok(Instruction::Jump),
                0x0A => Ok(Instruction::JumpIf),
                0x0B => Ok(Instruction::Add),
                0x0C => Ok(Instruction::Sub),
                0x0D => Ok(Instruction::Mul),
                0x0E => Ok(Instruction::Div),
                0x0F => Ok(Instruction::Mod),
                0x10 => Ok(Instruction::Cmp),
                0x11 => Ok(Instruction::And),
                0x12 => Ok(Instruction::Or),
                0x13 => Ok(Instruction::Not),
                0x14 => Ok(Instruction::Xor),
                0x06 => Err(InstructionParseError::MissingLiteral),
                _ => Err(InstructionParseError::InvalidOpcode),
            }
        }
    }
}

impl<'a> vstd::std_specs::convert::TryFromSpecImpl<&'a [u8]> for Instruction {
    open spec fn obeys_try_from_spec() -> bool {
        true
    }

    open spec fn try_from_spec(value: &'a [u8]) -> Result<Self, Self::Error> {
        parse_instruction(value@)
    }
}

impl TryFrom<Vec<u8>> for Instruction {
    type Error = InstructionParseError;

    fn try_from(value: Vec<u8>) -> (r: Result<Self, Self::Error>)
        ensures
            r == parse_instruction(value@),
    {
        Instruction::try_from(value.as_slice())
    }
}

impl vstd::std_specs::convert::TryFromSpecImpl<Vec<u8>> for Instruction {
    open spec fn obeys_try_from_spec() -> bool {
        true
    }

    open spec fn try_from_spec(value: Vec<u8>) -> Result<Self, Self::Error> {
        parse_instruction(value@)
    }
}

} // verus!
