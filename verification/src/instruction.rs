//! The decoded instruction model: operand kinds, condition codes, and the
//! tagged enumeration of every LR35902 instruction.

use vstd::prelude::*;

verus! {

/// An 8-bit operand: a register, the byte addressed by HL, or an immediate.
#[derive(Debug, PartialEq, Eq, Structural, Clone, Copy)]
pub enum Operand8 {
    A,
    B,
    C,
    D,
    E,
    H,
    L,
    MemoryReference,
    Immediate(u8),
}

/// The register operand selected by a 3-bit operand code.
pub open spec fn spec_operand8(value: u8) -> Operand8 {
    if value == 0 {
        Operand8::B
    } else if value == 1 {
        Operand8::C
    } else if value == 2 {
        Operand8::D
    } else if value == 3 {
        Operand8::E
    } else if value == 4 {
        Operand8::H
    } else if value == 5 {
        Operand8::L
    } else if value == 6 {
        Operand8::MemoryReference
    } else {
        Operand8::A
    }
}

impl Operand8 {
    pub fn decode(value: u8) -> (r: Option<Operand8>)
        ensures
            value <= 7 ==> r == Some(spec_operand8(value)),
            value > 7 ==> r is None,
    {
        match value {
            0b111 => Some(Operand8::A),
            0b000 => Some(Operand8::B),
            0b001 => Some(Operand8::C),
            0b010 => Some(Operand8::D),
            0b011 => Some(Operand8::E),
            0b100 => Some(Operand8::H),
            0b101 => Some(Operand8::L),
            0b110 => Some(Operand8::MemoryReference),
            _ => None,
        }
    }

    pub open spec fn spec_is_memref(self) -> bool {
        self is MemoryReference
    }

    pub open spec fn spec_is_immediate(self) -> bool {
        self is Immediate
    }

    pub fn is_memref(self) -> (r: bool)
        ensures
            r == self.spec_is_memref(),
    {
        match self {
            Operand8::MemoryReference => true,
            _ => false,
        }
    }

    pub fn is_immediate(self) -> (r: bool)
        ensures
            r == self.spec_is_immediate(),
    {
        match self {
            Operand8::Immediate(_) => true,
            _ => false,
        }
    }
}

/// A 16-bit operand: a register pair, SP, or — in stack instructions only —
/// the AF pair, which takes SP's slot in the encoding.
#[derive(Debug, PartialEq, Eq, Structural, Clone, Copy)]
pub enum Operand16 {
    BC,
    DE,
    HL,
    SP,
    AF,
}

/// The register pair selected by a 2-bit operand code.
pub open spec fn spec_operand16(value: u8) -> Operand16 {
    if value == 0 {
        Operand16::BC
    } else if value == 1 {
        Operand16::DE
    } else if value == 2 {
        Operand16::HL
    } else {
        Operand16::SP
    }
}

/// In PUSH and POP the code 3 selects AF instead of SP.
pub open spec fn spec_operand16_stack(value: u8) -> Operand16 {
    if value == 3 {
        Operand16::AF
    } else {
        spec_operand16(value)
    }
}

impl Operand16 {
    pub fn decode(value: u8) -> (r: Option<Operand16>)
        ensures
            value <= 3 ==> r == Some(spec_operand16(value)),
            value > 3 ==> r is None,
    {
        match value {
            0b00 => Some(Operand16::BC),
            0b01 => Some(Operand16::DE),
            0b10 => Some(Operand16::HL),
            0b11 => Some(Operand16::SP),
            _ => None,
        }
    }
}

/// A branch condition: the Z or C flag compared against an expected value.
#[derive(Debug, PartialEq, Eq, Structural, Clone, Copy)]
pub enum ConditionCode {
    Zero(bool),
    Carry(bool),
}

/// The condition selected by a condition code: NZ, Z, NC, C in order.
pub open spec fn spec_condition(value: u8) -> ConditionCode {
    if value == 0 {
        ConditionCode::Zero(false)
    } else if value == 1 {
        ConditionCode::Zero(true)
    } else if value == 2 {
        ConditionCode::Carry(false)
    } else {
        ConditionCode::Carry(true)
    }
}

impl ConditionCode {
    pub fn decode(value: u8) -> (r: Option<ConditionCode>)
        ensures
            value <= 3 ==> r == Some(spec_condition(value)),
            value > 3 ==> r is None,
    {
        match value {
            0b000 => Some(ConditionCode::Zero(false)),
            0b001 => Some(ConditionCode::Zero(true)),
            0b010 => Some(ConditionCode::Carry(false)),
            0b011 => Some(ConditionCode::Carry(true)),
            _ => None,
        }
    }
}

#[derive(Debug, PartialEq, Eq, Structural, Clone, Copy)]
pub enum Instruction {
    Unknown(u16),
    MoveOperand8 { to: Operand8, from: Operand8 },
    MoveImmediate16 { to: Operand16, value: u16 },
    LoadA(u16),
    StoreA(u16),
    LoadAIndirectHLIncrement,
    StoreAIndirectHLIncrement,
    LoadAIndirectHLDecrement,
    StoreAIndirectHLDecrement,
    LoadAIndirect(Operand16),
    StoreAIndirect(Operand16),
    LoadAHigh(u8),
    StoreAHigh(u8),
    StoreAHighC,
    MoveSPOffsetToHL(u8),
    MoveHLToSP,
    StoreSP(u16),
    AddOperandToA(Operand8),
    AddOperandToACarry(Operand8),
    SubtractOperandFromA(Operand8),
    SubtractOperandFromABorrow(Operand8),
    IncrementOperand8(Operand8),
    DecrementOperand8(Operand8),
    IncrementOperand16(Operand16),
    DecrementOperand16(Operand16),
    AddOperandToHL(Operand16),
    BCDCorrectA,
    AndOperandWithA(Operand8),
    OrOperandWithA(Operand8),
    XorOperandWithA(Operand8),
    CompareOperandWithA(Operand8),
    RotateLeftA,
    RotateRightA,
    RotateLeftCarryA,
    RotateRightCarryA,
    ComplementA,
    ComplementCarry,
    SetCarry,
    Jump(u16),
    ConditionalJump(ConditionCode, u16),
    RelativeJump(i8),
    ConditionalRelativeJump(ConditionCode, i8),
    Call(u16),
    ConditionalCall(ConditionCode, u16),
    Return,
    ReturnFromInterrupt,
    ConditionalReturn(ConditionCode),
    Restart(u8),
    JumpToHL,
    Push(Operand16),
    Pop(Operand16),
    EnableInterrupts,
    DisableInterrupts,
    Halt,
    Nop,
    RotateLeft(Operand8),
    RotateRight(Operand8),
    RotateLeftCarry(Operand8),
    RotateRightCarry(Operand8),
    ShiftLeftArithmetic(Operand8),
    ShiftLeftLogical(Operand8),
    ShiftRightArithmetic(Operand8),
    ShiftRightLogical(Operand8),
    SwapNibbles(Operand8),
    TestBit(u8, Operand8),
    SetBit(u8, Operand8),
    ClearBit(u8, Operand8),
    AddSignedImmediateToSP(i8),
    Stop,
}

impl Instruction {
    /// Shape constraints every decoded instruction meets: an instruction
    /// that writes its 8-bit operand never names an immediate, and bit
    /// indices are below 8.
    pub open spec fn wf(self) -> bool {
        match self {
            Instruction::MoveOperand8 { to, from } => !to.spec_is_immediate(),
            Instruction::IncrementOperand8(op) => !op.spec_is_immediate(),
            Instruction::DecrementOperand8(op) => !op.spec_is_immediate(),
            Instruction::RotateLeft(op) => !op.spec_is_immediate(),
            Instruction::RotateRight(op) => !op.spec_is_immediate(),
            Instruction::RotateLeftCarry(op) => !op.spec_is_immediate(),
            Instruction::RotateRightCarry(op) => !op.spec_is_immediate(),
            Instruction::ShiftLeftArithmetic(op) => !op.spec_is_immediate(),
            Instruction::ShiftLeftLogical(op) => !op.spec_is_immediate(),
            Instruction::ShiftRightArithmetic(op) => !op.spec_is_immediate(),
            Instruction::ShiftRightLogical(op) => !op.spec_is_immediate(),
            Instruction::SwapNibbles(op) => !op.spec_is_immediate(),
            Instruction::TestBit(n, op) => n < 8 && !op.spec_is_immediate(),
            Instruction::SetBit(n, op) => n < 8 && !op.spec_is_immediate(),
            Instruction::ClearBit(n, op) => n < 8 && !op.spec_is_immediate(),
            _ => true,
        }
    }
}

} // verus!
