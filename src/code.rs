use vstd::prelude::*;
use vstd::slice::slice_subrange;

use crate::instruction::{parse_instruction, Instruction, InstructionParseError, SET_OPCODE};
use crate::types::word_bytes;

verus! {

/// A decoded program: instructions indexed by their position, not by
/// byte offset.
#[derive(Clone, Debug, PartialEq, Eq)]
pub struct VecCode(pub Vec<Instruction>);

impl View for VecCode {
    type V = Seq<Instruction>;

    open spec fn view(&self) -> Seq<Instruction> {
        self.0@
    }
}

/// Why decoding failed, and at which byte offset the failing instruction
/// starts.
#[derive(Clone, Copy, Debug, PartialEq, Eq, Structural)]
pub struct CodeParseError {
    pub err: InstructionParseError,
    pub pos: usize,
}

/// Number of bytes taken by the instruction whose opcode is `b`.
pub open spec fn encoded_len(b: u8) -> nat {
    if b == SET_OPCODE {
        9
    } else {
        1
    }
}

/// Decodes `b` from byte offset `i` to its end, left to right, stopping at
/// the first instruction that cannot be decoded.
pub open spec fn decode_from(b: Seq<u8>, i: nat) -> Result<Seq<Instruction>, CodeParseError>
    decreases b.len() - i,
{
    if i >= b.len() {
        Ok(Seq::empty())
    } else {
        let n = encoded_len(b[i as int]);
        if i + n > b.len() {
            Err(CodeParseError { err: InstructionParseError::IncompleteLiteral, pos: i as usize })
        } else {
            match parse_instruction(b.subrange(i as int, (i + n) as int)) {
                Err(e) => Err(CodeParseError { err: e, pos: i as usize }),
                Ok(ins) => match decode_from(b, i + n) {
                    Ok(rest) => Ok(seq![ins].add(rest)),
                    Err(e) => Err(e),
                },
            }
        }
    }
}

/// The program that the bytes `b` encode, or the first failure.
pub open spec fn decode_spec(b: Seq<u8>) -> Result<Seq<Instruction>, CodeParseError> {
    decode_from(b, 0)
}

/// `r` with the instructions `p` put in front of its program.
pub open spec fn prefixed(p: Seq<Instruction>, r: Result<Seq<Instruction>, CodeParseError>) -> Result<
    Seq<Instruction>,
    CodeParseError,
> {
    match r {
        Ok(s) => Ok(p.add(s)),
        Err(e) => Err(e),
    }
}

/// What a decoding result means: the program's instructions, or the error.
pub open spec fn code_result(r: Result<VecCode, CodeParseError>) -> Result<
    Seq<Instruction>,
    CodeParseError,
> {
    match r {
        Ok(c) => Ok(c@),
        Err(e) => Err(e),
    }
}

impl VecCode {
    /// Decodes a whole byte stream into a program; all or nothing.
    pub fn decode(data: &[u8]) -> (r: Result<VecCode, CodeParseError>)
        ensures
            code_result(r) == decode_spec(data@),
    {
        let len: usize = data.len();
        let mut i: usize = 0;
        let mut res: Vec<Instruction> = Vec::new();
        proof {
            match decode_from(data@, 0) {
                Ok(s) => {
                    assert(res@.add(s) =~= s);
                },
                Err(_) => {},
            }
        }
        while i < len
            invariant
                len == data@.len(),
                i <= len,
                decode_spec(data@) == prefixed(res@, decode_from(data@, i as nat)),
            decreases len - i,
        {
            let curr_byte: u8 = data[i];
            let width: usize = if curr_byte == SET_OPCODE {
                1 + word_bytes()
            } else {
                1
            };
            if width > len - i {
                return Err(CodeParseError { err: InstructionParseError::IncompleteLiteral, pos: i });
            }
            let curr_slice: &[u8] = slice_subrange(data, i, i + width);
            match Instruction::try_from(curr_slice) {
                Ok(t) => {
                    proof {
                        let rest = decode_from(data@, (i + width) as nat);
                        match rest {
                            Ok(s) => {
                                assert(res@.add(seq![t].add(s)) =~= res@.push(t).add(s));
                            },
                            Err(_) => {},
                        }
                    }
                    res.push(t);
                },
                Err(e) => {
                    return Err(CodeParseError { err: e, pos: i });
                },
            }
            i = i + width;
        }
        proof {
            assert(res@.add(Seq::empty()) =~= res@);
        }
        Ok(VecCode(res))
    }
}

impl<'a> TryFrom<&'a [u8]> for VecCode {
    type Error = CodeParseError;

    fn try_from(data: &'a [u8]) -> (r: Result<Self, Self::Error>)
        ensures
            code_result(r) == decode_spec(data@),
    {
        VecCode::decode(data)
    }
}

/// A program is determined by its instructions only up to its view, so the
/// conversion is described by `code_result` in the `ensures` of `try_from`
/// rather than by a value here.
impl<'a> vstd::std_specs::convert::TryFromSpecImpl<&'a [u8]> for VecCode {
    open spec fn obeys_try_from_spec() -> bool {
        false
    }

    open spec fn try_from_spec(data: &'a [u8]) -> Result<Self, Self::Error> {
        match decode_spec(data@) {
            Ok(s) => Ok(choose|c: VecCode| c@ == s),
            Err(e) => Err(e),
        }
    }
}

impl TryFrom<Vec<u8>> for VecCode {
    type Error = CodeParseError;

    fn try_from(data: Vec<u8>) -> (r: Result<Self, Self::Error>)
        ensures
            code_result(r) == decode_spec(data@),
    {
        VecCode::decode(data.as_slice())
    }
}

impl vstd::std_specs::convert::TryFromSpecImpl<Vec<u8>> for VecCode {
    open spec fn obeys_try_from_spec() -> bool {
        false
    }

    open spec fn try_from_spec(data: Vec<u8>) -> Result<Self, Self::Error> {
        match decode_spec(data@) {
            Ok(s) => Ok(choose|c: VecCode| c@ == s),
            Err(e) => Err(e),
        }
    }
}

pub type Code = VecCode;

} // verus!
