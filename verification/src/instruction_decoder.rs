//! Byte-level instruction decoding. An instruction occupies one to three
//! bytes; `decode_instruction` maps the bytes at the program counter to the
//! instruction they encode, and `instruction_size` gives the number of bytes
//! consumed, a function of the first byte alone.

use vstd::prelude::*;

use crate::instruction::{
    spec_condition, spec_operand16, spec_operand16_stack, spec_operand8, ConditionCode,
    Instruction, Operand16, Operand8,
};

verus! {

/// The signed reading of a byte (two's complement).
pub open spec fn spec_to_i8(b: u8) -> i8 {
    if b < 128 {
        b as i8
    } else {
        (b - 256) as i8
    }
}

pub fn to_i8(b: u8) -> (r: i8)
    ensures
        r == spec_to_i8(b),
{
    if b < 128 {
        b as i8
    } else {
        ((b as i16) - 256) as i8
    }
}

/// A 16-bit immediate is stored low byte first.
pub open spec fn spec_imm16(low: u8, high: u8) -> u16 {
    (low + 256 * high) as u16
}

pub fn imm16(low: u8, high: u8) -> (r: u16)
    ensures
        r == spec_imm16(low, high),
{
    (low as u16) + 256 * (high as u16)
}

/// The instruction encoded by a `CB`-prefixed second byte: rotates, shifts,
/// nibble swap and single-bit test/set/clear over the operand in its low
/// three bits.
pub open spec fn spec_decode_cb(b1: u8) -> Instruction {
    let y = b1 / 64;
    let d = (b1 / 8) % 8;
    let reg = spec_operand8(b1 % 8);
    if y == 0 {
        if d == 0 {
            Instruction::RotateLeftCarry(reg)
        } else if d == 1 {
            Instruction::RotateRightCarry(reg)
        } else if d == 2 {
            Instruction::RotateLeft(reg)
        } else if d == 3 {
            Instruction::RotateRight(reg)
        } else if d == 4 {
            Instruction::ShiftLeftArithmetic(reg)
        } else if d == 5 {
            Instruction::ShiftRightArithmetic(reg)
        } else if d == 6 {
            Instruction::SwapNibbles(reg)
        } else {
            Instruction::ShiftRightLogical(reg)
        }
    } else if y == 1 {
        Instruction::TestBit(d, reg)
    } else if y == 2 {
        Instruction::ClearBit(d, reg)
    } else {
        Instruction::SetBit(d, reg)
    }
}

/// The instruction encoded by up to three bytes: `b0` is the opcode byte,
/// `b1` and `b2` the bytes that follow it (read only when the opcode takes
/// an immediate or the `CB` prefix). Opcode-byte bit groups, high to low:
/// `xx ddd sss`, with `ddd`/`sss` 3-bit operand codes, register pairs in the
/// upper two bits of `ddd`, and conditions in its lower two.
pub open spec fn spec_decode(b0: u8, b1: u8, b2: u8) -> Instruction {
    let x = b0 / 64;
    let d = (b0 / 8) % 8;
    let s = b0 % 8;
    if x == 0 {
        if s == 0 {
            if d == 0 {
                Instruction::Nop
            } else if d == 1 {
                Instruction::StoreSP(spec_imm16(b1, b2))
            } else if d == 2 {
                Instruction::Stop
            } else if d == 3 {
                Instruction::RelativeJump(spec_to_i8(b1))
            } else {
                Instruction::ConditionalRelativeJump(
                    spec_condition((d - 4) as u8),
                    spec_to_i8(b1),
                )
            }
        } else if s == 1 {
            if d % 2 == 0 {
                Instruction::MoveImmediate16 {
                    to: spec_operand16(d / 2),
                    value: spec_imm16(b1, b2),
                }
            } else {
                Instruction::AddOperandToHL(spec_operand16(d / 2))
            }
        } else if s == 2 {
            if d == 0 {
                Instruction::StoreAIndirect(Operand16::BC)
            } else if d == 1 {
                Instruction::LoadAIndirect(Operand16::BC)
            } else if d == 2 {
                Instruction::StoreAIndirect(Operand16::DE)
            } else if d == 3 {
                Instruction::LoadAIndirect(Operand16::DE)
            } else if d == 4 {
                Instruction::StoreAIndirectHLIncrement
            } else if d == 5 {
                Instruction::LoadAIndirectHLIncrement
            } else if d == 6 {
                Instruction::StoreAIndirectHLDecrement
            } else {
                Instruction::LoadAIndirectHLDecrement
            }
        } else if s == 3 {
            if d % 2 == 0 {
                Instruction::IncrementOperand16(spec_operand16(d / 2))
            } else {
                Instruction::DecrementOperand16(spec_operand16(d / 2))
            }
        } else if s == 4 {
            Instruction::IncrementOperand8(spec_operand8(d))
        } else if s == 5 {
            Instruction::DecrementOperand8(spec_operand8(d))
        } else if s == 6 {
            Instruction::MoveOperand8 { to: spec_operand8(d), from: Operand8::Immediate(b1) }
        } else {
            if d == 0 {
                Instruction::RotateLeftCarryA
            } else if d == 1 {
                Instruction::RotateRightCarryA
            } else if d == 2 {
                Instruction::RotateLeftA
            } else if d == 3 {
                Instruction::RotateRightA
            } else if d == 4 {
                Instruction::BCDCorrectA
            } else if d == 5 {
                Instruction::ComplementA
            } else if d == 6 {
                Instruction::SetCarry
            } else {
                Instruction::ComplementCarry
            }
        }
    } else if x == 1 {
        if b0 == 0x76 {
            Instruction::Halt
        } else {
            Instruction::MoveOperand8 { to: spec_operand8(d), from: spec_operand8(s) }
        }
    } else if x == 2 {
        let reg = spec_operand8(s);
        if d == 0 {
            Instruction::AddOperandToA(reg)
        } else if d == 1 {
            Instruction::AddOperandToACarry(reg)
        } else if d == 2 {
            Instruction::SubtractOperandFromA(reg)
        } else if d == 3 {
            Instruction::SubtractOperandFromABorrow(reg)
        } else if d == 4 {
            Instruction::AndOperandWithA(reg)
        } else if d == 5 {
            Instruction::XorOperandWithA(reg)
        } else if d == 6 {
            Instruction::OrOperandWithA(reg)
        } else {
            Instruction::CompareOperandWithA(reg)
        }
    } else {
        if s == 0 {
            if d < 4 {
                Instruction::ConditionalReturn(spec_condition(d))
            } else if d == 4 {
                Instruction::StoreAHigh(b1)
            } else if d == 5 {
                Instruction::AddSignedImmediateToSP(spec_to_i8(b1))
            } else if d == 6 {
                Instruction::LoadAHigh(b1)
            } else {
                Instruction::MoveSPOffsetToHL(b1)
            }
        } else if s == 1 {
            if d % 2 == 0 {
                Instruction::Pop(spec_operand16_stack(d / 2))
            } else if d == 1 {
                Instruction::Return
            } else if d == 3 {
                Instruction::ReturnFromInterrupt
            } else if d == 5 {
                Instruction::JumpToHL
            } else {
                Instruction::MoveHLToSP
            }
        } else if s == 2 {
            if d < 4 {
                Instruction::ConditionalJump(spec_condition(d), spec_imm16(b1, b2))
            } else if d == 4 {
                Instruction::StoreAHighC
            } else if d == 5 {
                Instruction::StoreA(spec_imm16(b1, b2))
            } else if d == 7 {
                Instruction::LoadA(spec_imm16(b1, b2))
            } else {
                Instruction::Unknown(b0 as u16)
            }
        } else if s == 3 {
            if d == 0 {
                Instruction::Jump(spec_imm16(b1, b2))
            } else if d == 1 {
                spec_decode_cb(b1)
            } else if d == 6 {
                Instruction::DisableInterrupts
            } else if d == 7 {
                Instruction::EnableInterrupts
            } else {
                Instruction::Unknown(b0 as u16)
            }
        } else if s == 4 {
            if d < 4 {
                Instruction::ConditionalCall(spec_condition(d), spec_imm16(b1, b2))
            } else {
                Instruction::Unknown(b0 as u16)
            }
        } else if s == 5 {
            if d % 2 == 0 {
                Instruction::Push(spec_operand16_stack(d / 2))
            } else if d == 1 {
                Instruction::Call(spec_imm16(b1, b2))
            } else {
                Instruction::Unknown(b0 as u16)
            }
        } else if s == 6 {
            let imm = Operand8::Immediate(b1);
            if d == 0 {
                Instruction::AddOperandToA(imm)
            } else if d == 1 {
                Instruction::AddOperandToACarry(imm)
            } else if d == 2 {
                Instruction::SubtractOperandFromA(imm)
            } else if d == 3 {
                Instruction::SubtractOperandFromABorrow(imm)
            } else if d == 4 {
                Instruction::AndOperandWithA(imm)
            } else if d == 5 {
                Instruction::XorOperandWithA(imm)
            } else if d == 6 {
                Instruction::OrOperandWithA(imm)
            } else {
                Instruction::CompareOperandWithA(imm)
            }
        } else {
            Instruction::Restart(d)
        }
    }
}

/// How many bytes the instruction whose opcode byte is `b0` occupies,
/// immediates included. `STOP` consumes the zero byte that follows it, and
/// the `CB` prefix always consumes its second byte.
pub open spec fn spec_instruction_size(b0: u8) -> u16 {
    let x = b0 / 64;
    let d = (b0 / 8) % 8;
    let s = b0 % 8;
    if x == 0 {
        if s == 0 {
            if d == 0 {
                1
            } else if d == 1 {
                3
            } else {
                2
            }
        } else if s == 1 {
            if d % 2 == 0 {
                3
            } else {
                1
            }
        } else if s == 6 {
            2
        } else {
            1
        }
    } else if x == 1 || x == 2 {
        1
    } else {
        if s == 0 {
            if d < 4 {
                1
            } else {
                2
            }
        } else if s == 2 {
            if d < 4 || d == 5 || d == 7 {
                3
            } else {
                1
            }
        } else if s == 3 {
            if d == 0 {
                3
            } else if d == 1 {
                2
            } else {
                1
            }
        } else if s == 4 {
            if d < 4 {
                3
            } else {
                1
            }
        } else if s == 5 {
            if d == 1 {
                3
            } else {
                1
            }
        } else if s == 6 {
            2
        } else {
            1
        }
    }
}

pub fn instruction_size(b0: u8) -> (r: u16)
    ensures
        r == spec_instruction_size(b0),
        1 <= r <= 3,
{
    let x = b0 / 64;
    let d = (b0 / 8) % 8;
    let s = b0 % 8;
    if x == 0 {
        if s == 0 {
            if d == 0 {
                1
            } else if d == 1 {
                3
            } else {
                2
            }
        } else if s == 1 {
            if d % 2 == 0 {
                3
            } else {
                1
            }
        } else if s == 6 {
            2
        } else {
            1
        }
    } else if x == 1 || x == 2 {
        1
    } else {
        if s == 0 {
            if d < 4 {
                1
            } else {
                2
            }
        } else if s == 2 {
            if d < 4 || d == 5 || d == 7 {
                3
            } else {
                1
            }
        } else if s == 3 {
            if d == 0 {
                3
            } else if d == 1 {
                2
            } else {
                1
            }
        } else if s == 4 {
            if d < 4 {
                3
            } else {
                1
            }
        } else if s == 5 {
            if d == 1 {
                3
            } else {
                1
            }
        } else if s == 6 {
            2
        } else {
            1
        }
    }
}

fn operand8_of(value: u8) -> (r: Operand8)
    requires
        value < 8,
    ensures
        r == spec_operand8(value),
        !r.spec_is_immediate(),
{
    if value == 0 {
        Operand8::B
    } else if value == 1 {
        Operand8::C
    } else if value == 2 {
        Operand8::D
    } else if value == 3 {
        Operand8::E
    } else if value == 4 {
        Operand8::H
    } else if value == 5 {
        Operand8::L
    } else if value == 6 {
        Operand8::MemoryReference
    } else {
        Operand8::A
    }
}

fn operand16_of(value: u8) -> (r: Operand16)
    requires
        value < 4,
    ensures
        r == spec_operand16(value),
{
    if value == 0 {
        Operand16::BC
    } else if value == 1 {
        Operand16::DE
    } else if value == 2 {
        Operand16::HL
    } else {
        Operand16::SP
    }
}

fn operand16_stack_of(value: u8) -> (r: Operand16)
    requires
        value < 4,
    ensures
        r == spec_operand16_stack(value),
{
    if value == 3 {
        Operand16::AF
    } else {
        operand16_of(value)
    }
}

fn condition_of(value: u8) -> (r: ConditionCode)
    requires
        value < 4,
    ensures
        r == spec_condition(value),
{
    if value == 0 {
        ConditionCode::Zero(false)
    } else if value == 1 {
        ConditionCode::Zero(true)
    } else if value == 2 {
        ConditionCode::Carry(false)
    } else {
        ConditionCode::Carry(true)
    }
}

fn decode_cb(b1: u8) -> (r: Instruction)
    ensures
        r == spec_decode_cb(b1),
        r.wf(),
{
    let y = b1 / 64;
    let d = (b1 / 8) % 8;
    let reg = operand8_of(b1 % 8);
    if y == 0 {
        if d == 0 {
            Instruction::RotateLeftCarry(reg)
        } else if d == 1 {
            Instruction::RotateRightCarry(reg)
        } else if d == 2 {
            Instruction::RotateLeft(reg)
        } else if d == 3 {
            Instruction::RotateRight(reg)
        } else if d == 4 {
            Instruction::ShiftLeftArithmetic(reg)
        } else if d == 5 {
            Instruction::ShiftRightArithmetic(reg)
        } else if d == 6 {
            Instruction::SwapNibbles(reg)
        } else {
            Instruction::ShiftRightLogical(reg)
        }
    } else if y == 1 {
        Instruction::TestBit(d, reg)
    } else if y == 2 {
        Instruction::ClearBit(d, reg)
    } else {
        Instruction::SetBit(d, reg)
    }
}

/// Decodes the instruction starting at `b0`; `b1` and `b2` are the two bytes
/// after it. Every byte decodes to exactly the instruction the opcode table
/// gives it; the opcode bytes the CPU does not define decode to `Unknown`.
pub fn decode_instruction(b0: u8, b1: u8, b2: u8) -> (r: Instruction)
    ensures
        r == spec_decode(b0, b1, b2),
        r.wf(),
{
    let x = b0 / 64;
    let d = (b0 / 8) % 8;
    let s = b0 % 8;
    if x == 0 {
        if s == 0 {
            if d == 0 {
                Instruction::Nop
            } else if d == 1 {
                Instruction::StoreSP(imm16(b1, b2))
            } else if d == 2 {
                Instruction::Stop
            } else if d == 3 {
                Instruction::RelativeJump(to_i8(b1))
            } else {
                Instruction::ConditionalRelativeJump(condition_of(d - 4), to_i8(b1))
            }
        } else if s == 1 {
            if d % 2 == 0 {
                Instruction::MoveImmediate16 { to: operand16_of(d / 2), value: imm16(b1, b2) }
            } else {
                Instruction::AddOperandToHL(operand16_of(d / 2))
            }
        } else if s == 2 {
            if d == 0 {
                Instruction::StoreAIndirect(Operand16::BC)
            } else if d == 1 {
                Instruction::LoadAIndirect(Operand16::BC)
            } else if d == 2 {
                Instruction::StoreAIndirect(Operand16::DE)
            } else if d == 3 {
                Instruction::LoadAIndirect(Operand16::DE)
            } else if d == 4 {
                Instruction::StoreAIndirectHLIncrement
            } else if d == 5 {
                Instruction::LoadAIndirectHLIncrement
            } else if d == 6 {
                Instruction::StoreAIndirectHLDecrement
            } else {
                Instruction::LoadAIndirectHLDecrement
            }
        } else if s == 3 {
            if d % 2 == 0 {
                Instruction::IncrementOperand16(operand16_of(d / 2))
            } else {
                Instruction::DecrementOperand16(operand16_of(d / 2))
            }
        } else if s == 4 {
            Instruction::IncrementOperand8(operand8_of(d))
        } else if s == 5 {
            Instruction::DecrementOperand8(operand8_of(d))
        } else if s == 6 {
            Instruction::MoveOperand8 { to: operand8_of(d), from: Operand8::Immediate(b1) }
        } else {
            if d == 0 {
                Instruction::RotateLeftCarryA
            } else if d == 1 {
                Instruction::RotateRightCarryA
            } else if d == 2 {
                Instruction::RotateLeftA
            } else if d == 3 {
                Instruction::RotateRightA
            } else if d == 4 {
                Instruction::BCDCorrectA
            } else if d == 5 {
                Instruction::ComplementA
            } else if d == 6 {
                Instruction::SetCarry
            } else {
                Instruction::ComplementCarry
            }
        }
    } else if x == 1 {
        if b0 == 0x76 {
            Instruction::Halt
        } else {
            Instruction::MoveOperand8 { to: operand8_of(d), from: operand8_of(s) }
        }
    } else if x == 2 {
        let reg = operand8_of(s);
        if d == 0 {
            Instruction::AddOperandToA(reg)
        } else if d == 1 {
            Instruction::AddOperandToACarry(reg)
        } else if d == 2 {
            Instruction::SubtractOperandFromA(reg)
        } else if d == 3 {
            Instruction::SubtractOperandFromABorrow(reg)
        } else if d == 4 {
            Instruction::AndOperandWithA(reg)
        } else if d == 5 {
            Instruction::XorOperandWithA(reg)
        } else if d == 6 {
            Instruction::OrOperandWithA(reg)
        } else {
            Instruction::CompareOperandWithA(reg)
        }
    } else {
        if s == 0 {
            if d < 4 {
                Instruction::ConditionalReturn(condition_of(d))
            } else if d == 4 {
                Instruction::StoreAHigh(b1)
            } else if d == 5 {
                Instruction::AddSignedImmediateToSP(to_i8(b1))
            } else if d == 6 {
                Instruction::LoadAHigh(b1)
            } else {
                Instruction::MoveSPOffsetToHL(b1)
            }
        } else if s == 1 {
            if d % 2 == 0 {
                Instruction::Pop(operand16_stack_of(d / 2))
            } else if d == 1 {
                Instruction::Return
            } else if d == 3 {
                Instruction::ReturnFromInterrupt
            } else if d == 5 {
                Instruction::JumpToHL
            } else {
                Instruction::MoveHLToSP
            }
        } else if s == 2 {
            if d < 4 {
                Instruction::ConditionalJump(condition_of(d), imm16(b1, b2))
            } else if d == 4 {
                Instruction::StoreAHighC
            } else if d == 5 {
                Instruction::StoreA(imm16(b1, b2))
            } else if d == 7 {
                Instruction::LoadA(imm16(b1, b2))
            } else {
                Instruction::Unknown(b0 as u16)
            }
        } else if s == 3 {
            if d == 0 {
                Instruction::Jump(imm16(b1, b2))
            } else if d == 1 {
                decode_cb(b1)
            } else if d == 6 {
                Instruction::DisableInterrupts
            } else if d == 7 {
                Instruction::EnableInterrupts
            } else {
                Instruction::Unknown(b0 as u16)
            }
        } else if s == 4 {
            if d < 4 {
                Instruction::ConditionalCall(condition_of(d), imm16(b1, b2))
            } else {
                Instruction::Unknown(b0 as u16)
            }
        } else if s == 5 {
            if d % 2 == 0 {
                Instruction::Push(operand16_stack_of(d / 2))
            } else if d == 1 {
                Instruction::Call(imm16(b1, b2))
            } else {
                Instruction::Unknown(b0 as u16)
            }
        } else if s == 6 {
            let imm = Operand8::Immediate(b1);
            if d == 0 {
                Instruction::AddOperandToA(imm)
            } else if d == 1 {
                Instruction::AddOperandToACarry(imm)
            } else if d == 2 {
                Instruction::SubtractOperandFromA(imm)
            } else if d == 3 {
                Instruction::SubtractOperandFromABorrow(imm)
            } else if d == 4 {
                Instruction::AndOperandWithA(imm)
            } else if d == 5 {
                Instruction::XorOperandWithA(imm)
            } else if d == 6 {
                Instruction::OrOperandWithA(imm)
            } else {
                Instruction::CompareOperandWithA(imm)
            }
        } else {
            Instruction::Restart(d)
        }
    }
}

/// Law: every opcode byte the CPU leaves undefined decodes to `Unknown`
/// carrying that byte, whatever bytes follow it.
pub proof fn lemma_undefined_opcodes_decode_unknown(b0: u8, b1: u8, b2: u8)
    requires
        b0 == 0xD3 || b0 == 0xDB || b0 == 0xDD || b0 == 0xE3 || b0 == 0xE4 || b0 == 0xEB || b0
            == 0xEC || b0 == 0xF2 || b0 == 0xF4 || b0 == 0xFC || b0 == 0xFD,
    ensures
        spec_decode(b0, b1, b2) == Instruction::Unknown(b0 as u16),
{
}

} // verus!
