use rgbemu::instruction::{ConditionCode, Instruction, Operand16, Operand8};
use rgbemu::instruction_decoder::{decode_instruction, instruction_size};

fn decode_bytes(bytes: &[u8]) -> Instruction {
    let b0 = bytes[0];
    let b1 = if bytes.len() > 1 { bytes[1] } else { 0 };
    let b2 = if bytes.len() > 2 { bytes[2] } else { 0 };
    decode_instruction(b0, b1, b2)
}

fn verify_instruction(expected: Instruction, bytes: &[u8]) {
    let instruction = decode_bytes(bytes);
    assert_eq!(expected, instruction);
}

#[test]
pub fn random_instructions() {
    verify_instruction(Instruction::Nop, &[0]);
    verify_instruction(Instruction::OrOperandWithA(Operand8::B), &[0xB0]);
    verify_instruction(
        Instruction::MoveOperand8 {
            to: Operand8::MemoryReference,
            from: Operand8::L,
        },
        &[0x75],
    );
    verify_instruction(Instruction::SetBit(4, Operand8::D), &[0xCB, 0xE2]);
    verify_instruction(
        Instruction::SubtractOperandFromABorrow(Operand8::A),
        &[0x9F],
    );
}

#[test]
pub fn load_immediate_8() {
    verify_instruction(
        Instruction::MoveOperand8 {
            to: Operand8::B,
            from: Operand8::Immediate(0xFF),
        },
        &[0x06, 0xFF],
    );

    verify_instruction(
        Instruction::MoveOperand8 {
            to: Operand8::D,
            from: Operand8::Immediate(0x00),
        },
        &[0x16, 0x00],
    );

    verify_instruction(
        Instruction::MoveOperand8 {
            to: Operand8::H,
            from: Operand8::Immediate(0x01),
        },
        &[0x26, 0x01],
    );

    verify_instruction(
        Instruction::MoveOperand8 {
            to: Operand8::C,
            from: Operand8::Immediate(0x02),
        },
        &[0x0E, 0x02],
    );

    verify_instruction(
        Instruction::MoveOperand8 {
            to: Operand8::E,
            from: Operand8::Immediate(0x03),
        },
        &[0x1E, 0x03],
    );

    verify_instruction(
        Instruction::MoveOperand8 {
            to: Operand8::L,
            from: Operand8::Immediate(0x04),
        },
        &[0x2E, 0x04],
    );

    verify_instruction(
        Instruction::MoveOperand8 {
            to: Operand8::A,
            from: Operand8::Immediate(0x05),
        },
        &[0x3E, 0x05],
    );
}

#[test]
pub fn special_stores_8() {
    verify_instruction(
        Instruction::MoveOperand8 {
            to: Operand8::MemoryReference,
            from: Operand8::Immediate(0x00),
        },
        &[0x36, 0x00],
    );

    verify_instruction(Instruction::StoreA(0x00FF), &[0xEA, 0xFF, 0x00]);
    verify_instruction(Instruction::StoreSP(0x1234), &[0x08, 0x34, 0x12]);
    verify_instruction(Instruction::StoreAIndirectHLIncrement, &[0x22]);
    verify_instruction(Instruction::StoreAIndirectHLDecrement, &[0x32]);
    verify_instruction(Instruction::StoreAHigh(0xFF), &[0xE0, 0xFF]);
    verify_instruction(Instruction::StoreAHighC, &[0xE2]);
}

#[test]
pub fn removed_instructions_decode_to_unknown() {
    let removed_instructions = vec![
        0xD3u8, 0xDB, 0xDD, 0xE3, 0xE4, 0xEB, 0xEC, 0xF2, 0xF4, 0xFC, 0xFD,
    ];

    for opcode in removed_instructions {
        let decoded = decode_bytes(&[opcode]);
        assert_eq!(Instruction::Unknown(opcode as u16), decoded);
    }
}

#[test]
pub fn bitwise_swap() {
    verify_instruction(Instruction::SwapNibbles(Operand8::A), &[0xCB, 0x37]);
    verify_instruction(Instruction::SwapNibbles(Operand8::B), &[0xCB, 0x30]);
    verify_instruction(Instruction::SwapNibbles(Operand8::C), &[0xCB, 0x31]);
    verify_instruction(Instruction::SwapNibbles(Operand8::D), &[0xCB, 0x32]);
    verify_instruction(Instruction::SwapNibbles(Operand8::E), &[0xCB, 0x33]);
    verify_instruction(Instruction::SwapNibbles(Operand8::H), &[0xCB, 0x34]);
    verify_instruction(Instruction::SwapNibbles(Operand8::L), &[0xCB, 0x35]);
    verify_instruction(
        Instruction::SwapNibbles(Operand8::MemoryReference),
        &[0xCB, 0x36],
    );
}

#[test]
pub fn bitwise_complement() {
    verify_instruction(Instruction::ComplementA, &[0x2F]);
    verify_instruction(Instruction::ComplementCarry, &[0x3F]);
}

#[test]
pub fn control_flow_decodes() {
    verify_instruction(Instruction::Jump(0x8000), &[0xC3, 0x00, 0x80]);
    verify_instruction(
        Instruction::ConditionalJump(ConditionCode::Zero(true), 0x1234),
        &[0xCA, 0x34, 0x12],
    );
    verify_instruction(Instruction::RelativeJump(-2), &[0x18, 0xFE]);
    verify_instruction(
        Instruction::ConditionalRelativeJump(ConditionCode::Zero(false), 5),
        &[0x20, 0x05],
    );
    verify_instruction(Instruction::Call(0xCAFE), &[0xCD, 0xFE, 0xCA]);
    verify_instruction(Instruction::Return, &[0xC9]);
    verify_instruction(Instruction::ReturnFromInterrupt, &[0xD9]);
    verify_instruction(Instruction::Restart(7), &[0xFF]);
    verify_instruction(Instruction::JumpToHL, &[0xE9]);
    verify_instruction(Instruction::Halt, &[0x76]);
    verify_instruction(Instruction::Stop, &[0x10, 0x00]);
}

#[test]
pub fn stack_and_pair_decodes() {
    verify_instruction(Instruction::Push(Operand16::BC), &[0xC5]);
    verify_instruction(Instruction::Push(Operand16::AF), &[0xF5]);
    verify_instruction(Instruction::Pop(Operand16::DE), &[0xD1]);
    verify_instruction(Instruction::Pop(Operand16::AF), &[0xF1]);
    verify_instruction(
        Instruction::MoveImmediate16 {
            to: Operand16::SP,
            value: 0x1234,
        },
        &[0x31, 0x34, 0x12],
    );
    verify_instruction(Instruction::MoveSPOffsetToHL(0x01), &[0xF8, 0x01]);
    verify_instruction(Instruction::MoveHLToSP, &[0xF9]);
    verify_instruction(Instruction::AddSignedImmediateToSP(-1), &[0xE8, 0xFF]);
}

#[test]
pub fn instruction_sizes() {
    assert_eq!(1, instruction_size(0x00));
    assert_eq!(2, instruction_size(0x06));
    assert_eq!(3, instruction_size(0x01));
    assert_eq!(3, instruction_size(0x08));
    assert_eq!(2, instruction_size(0x10));
    assert_eq!(2, instruction_size(0xCB));
    assert_eq!(3, instruction_size(0xCD));
    assert_eq!(3, instruction_size(0xEA));
    assert_eq!(2, instruction_size(0xE0));
    assert_eq!(2, instruction_size(0xF8));
    assert_eq!(1, instruction_size(0x76));
    assert_eq!(1, instruction_size(0xF2));
}
