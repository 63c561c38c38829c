use dreamer::cmd::CommandError;
use dreamer::code::{CodeParseError, VecCode};
use dreamer::instruction::{Instruction, InstructionParseError};
use dreamer::types::word_bytes;

fn payload_free() -> Vec<(u8, Instruction)> {
    vec![
        (0x00, Instruction::Nop),
        (0x01, Instruction::Halt),
        (0x02, Instruction::Load),
        (0x03, Instruction::Store),
        (0x04, Instruction::Push),
        (0x05, Instruction::Pop),
        (0x07, Instruction::Read),
        (0x08, Instruction::Write),
        (0x09, Instruction::Jump),
        (0x0A, Instruction::JumpIf),
        (0x0B, Instruction::Add),
        (0x0C, Instruction::Sub),
        (0x0D, Instruction::Mul),
        (0x0E, Instruction::Div),
        (0x0F, Instruction::Mod),
        (0x10, Instruction::Cmp),
        (0x11, Instruction::And),
        (0x12, Instruction::Or),
        (0x13, Instruction::Not),
        (0x14, Instruction::Xor),
    ]
}

#[test]
fn word_is_eight_bytes() {
    assert_eq!(word_bytes(), 8);
}

#[test]
fn single_opcode_bytes_round_trip() {
    for (byte, ins) in payload_free() {
        let code = VecCode::decode(&[byte]).unwrap();
        assert_eq!(code, VecCode(vec![ins]));
        assert_eq!(ins.to_byte(), byte);
        assert_eq!(ins.to_bytes(), vec![byte]);
        assert_eq!(Instruction::from_bytes(vec![byte]), Some(ins));
    }
}

#[test]
fn literal_round_trips() {
    for w in [0u64, 1, 5, 0x0102_0304_0506_0708, u64::MAX - 1, u64::MAX] {
        let bytes = Instruction::SetReg(w).to_bytes();
        let mut expected = vec![0x06u8];
        expected.extend_from_slice(&w.to_be_bytes());
        assert_eq!(bytes, expected);
        assert_eq!(Instruction::try_from(bytes.as_slice()), Ok(Instruction::SetReg(w)));
        assert_eq!(VecCode::decode(&bytes), Ok(VecCode(vec![Instruction::SetReg(w)])));
    }
}

#[test]
fn literal_is_big_endian() {
    let bytes = [0x06u8, 0, 0, 0, 0, 0, 0, 0x01, 0x02];
    assert_eq!(Instruction::from_bytes(bytes.to_vec()), Some(Instruction::SetReg(0x0102)));
}

#[test]
fn scenario_six_instruction_program() {
    let bytes: Vec<u8> = vec![
        0x06, 0, 0, 0, 0, 0, 0, 0, 5, 0x04, 0x06, 0, 0, 0, 0, 0, 0, 0, 3, 0x04, 0x0B, 0x01,
    ];
    let code = VecCode::decode(&bytes).unwrap();
    assert_eq!(
        code,
        VecCode(vec![
            Instruction::SetReg(5),
            Instruction::Push,
            Instruction::SetReg(3),
            Instruction::Push,
            Instruction::Add,
            Instruction::Halt,
        ])
    );
}

#[test]
fn empty_input_decodes_to_empty_program() {
    assert_eq!(VecCode::decode(&[]), Ok(VecCode(vec![])));
}

#[test]
fn truncated_literal_is_incomplete_at_offset_zero() {
    assert_eq!(
        VecCode::decode(&[0x06, 1, 2, 3, 4]),
        Err(CodeParseError { err: InstructionParseError::IncompleteLiteral, pos: 0 })
    );
}

#[test]
fn truncated_literal_after_other_instructions() {
    assert_eq!(
        VecCode::decode(&[0x00, 0x04, 0x06, 1]),
        Err(CodeParseError { err: InstructionParseError::IncompleteLiteral, pos: 2 })
    );
}

#[test]
fn unknown_opcode_reports_its_offset() {
    assert_eq!(
        VecCode::decode(&[0x00, 0x01, 0x15, 0x00]),
        Err(CodeParseError { err: InstructionParseError::InvalidOpcode, pos: 2 })
    );
    assert_eq!(
        VecCode::decode(&[0xFF]),
        Err(CodeParseError { err: InstructionParseError::InvalidOpcode, pos: 0 })
    );
}

#[test]
fn single_instruction_errors() {
    let empty: &[u8] = &[];
    assert_eq!(Instruction::try_from(empty), Err(InstructionParseError::NoData));
    assert_eq!(Instruction::try_from(&[0x06u8][..]), Err(InstructionParseError::MissingLiteral));
    assert_eq!(Instruction::try_from(&[0x16u8][..]), Err(InstructionParseError::InvalidOpcode));
    assert_eq!(
        Instruction::try_from(&[0x01u8, 0x02][..]),
        Err(InstructionParseError::InappropriateLiteral)
    );
    assert_eq!(
        Instruction::try_from(vec![0x06u8, 1, 2]),
        Err(InstructionParseError::IncompleteLiteral)
    );
    assert_eq!(Instruction::from_bytes(vec![]), None);
}

#[test]
fn command_error_wraps_parse_error() {
    let e = CodeParseError { err: InstructionParseError::InvalidOpcode, pos: 3 };
    match CommandError::from(e) {
        CommandError::CodeError(inner) => assert_eq!(inner, e),
        other => panic!("unexpected {:?}", other),
    }
}

#[test]
fn code_try_from_decodes_slices_and_vectors() {
    for (byte, ins) in payload_free() {
        assert_eq!(VecCode::try_from(&[byte][..]), Ok(VecCode(vec![ins])));
    }
    let bytes: Vec<u8> = Instruction::SetReg(0xDEAD_BEEF).to_bytes();
    assert_eq!(VecCode::try_from(bytes), Ok(VecCode(vec![Instruction::SetReg(0xDEAD_BEEF)])));
    assert_eq!(
        VecCode::try_from(vec![0x06u8, 1, 2, 3, 4]),
        Err(CodeParseError { err: InstructionParseError::IncompleteLiteral, pos: 0 })
    );
}
