//! The interpreter: fetches the bytes at PC, decodes them, and executes the
//! instruction against the device. `spec_run_instruction` is the complete
//! model of one instruction: what every register, memory and peripheral
//! holds afterwards, and the exact cycle cost.

use vstd::prelude::*;

use crate::alu;
use crate::bitwise;
use crate::bus::{spec_bus_read8, BusView};
use crate::control;
use crate::device::{
    spec_device_write8, spec_operand16_value, spec_operand8_value, spec_set_operand8, Device,
    DeviceView, ExecutionState,
};
use crate::instruction::{Instruction, Operand8};
use crate::instruction_decoder::{
    decode_instruction, instruction_size, spec_decode, spec_instruction_size,
};
use crate::misc;
use crate::registers::{pair_set_hl, Registers};
use crate::transfer;

verus! {

/// Cycles of an 8-bit move: 4 between registers, 8 through memory or an
/// immediate, 12 for an immediate stored through HL.
pub open spec fn spec_move8_cycles(to: Operand8, from: Operand8) -> u32 {
    if from.spec_is_immediate() {
        if to.spec_is_memref() {
            12u32
        } else {
            8u32
        }
    } else if from.spec_is_memref() || to.spec_is_memref() {
        8u32
    } else {
        4u32
    }
}

/// The device state and cycle cost of one decoded instruction, PC already
/// standing past it. A `HALT` (and a `STOP`) halts execution; an undefined
/// opcode pauses the core for good.
pub open spec fn spec_execute(d: DeviceView, instruction: Instruction) -> (DeviceView, u32) {
    match instruction {
        Instruction::Nop => (d, 4u32),
        Instruction::Halt => (DeviceView { execution_state: ExecutionState::Halted, ..d }, 4u32),
        Instruction::Stop => (DeviceView { execution_state: ExecutionState::Halted, ..d }, 4u32),
        Instruction::Unknown(_) => (
            DeviceView { execution_state: ExecutionState::Paused, ..d },
            4u32,
        ),
        Instruction::MoveOperand8 { to, from } => (
            spec_set_operand8(d, to, spec_operand8_value(d, from)),
            spec_move8_cycles(to, from),
        ),
        Instruction::LoadAHigh(offset) => (
            DeviceView {
                regs: Registers {
                    a: spec_bus_read8(d.bus, (0xFF00 + offset) as u16),
                    ..d.regs
                },
                ..d
            },
            12u32,
        ),
        Instruction::StoreAHigh(offset) => (
            spec_device_write8(d, (0xFF00 + offset) as u16, d.regs.a),
            12u32,
        ),
        Instruction::StoreAHighC => (
            spec_device_write8(d, (0xFF00 + d.regs.c) as u16, d.regs.a),
            8u32,
        ),
        Instruction::LoadAIndirect(operand) => (
            DeviceView {
                regs: Registers {
                    a: spec_bus_read8(d.bus, spec_operand16_value(d, operand)),
                    ..d.regs
                },
                ..d
            },
            8u32,
        ),
        Instruction::StoreAIndirect(operand) => (
            spec_device_write8(d, spec_operand16_value(d, operand), d.regs.a),
            8u32,
        ),
        Instruction::LoadAIndirectHLIncrement => {
            let hl = d.regs.spec_hl();
            let a = spec_bus_read8(d.bus, hl);
            (
                DeviceView {
                    regs: pair_set_hl(Registers { a, ..d.regs }, ((hl + 1) % 65536) as u16),
                    ..d
                },
                8u32,
            )
        },
        Instruction::LoadAIndirectHLDecrement => {
            let hl = d.regs.spec_hl();
            let a = spec_bus_read8(d.bus, hl);
            (
                DeviceView {
                    regs: pair_set_hl(Registers { a, ..d.regs }, ((hl + 65535) % 65536) as u16),
                    ..d
                },
                8u32,
            )
        },
        Instruction::StoreAIndirectHLIncrement => {
            let hl = d.regs.spec_hl();
            let d1 = spec_device_write8(d, hl, d.regs.a);
            (
                DeviceView { regs: pair_set_hl(d1.regs, ((hl + 1) % 65536) as u16), ..d1 },
                8u32,
            )
        },
        Instruction::StoreAIndirectHLDecrement => {
            let hl = d.regs.spec_hl();
            let d1 = spec_device_write8(d, hl, d.regs.a);
            (
                DeviceView { regs: pair_set_hl(d1.regs, ((hl + 65535) % 65536) as u16), ..d1 },
                8u32,
            )
        },
        Instruction::LoadA(address) => (
            DeviceView { regs: Registers { a: spec_bus_read8(d.bus, address), ..d.regs }, ..d },
            16u32,
        ),
        Instruction::StoreA(address) => (spec_device_write8(d, address, d.regs.a), 16u32),
        Instruction::MoveImmediate16 { to, value } => transfer::spec_move_immediate_16(d, to, value),
        Instruction::Push(operand) => transfer::spec_push_op(d, operand),
        Instruction::Pop(operand) => transfer::spec_pop_op(d, operand),
        Instruction::StoreSP(address) => transfer::spec_store_sp(d, address),
        Instruction::MoveSPOffsetToHL(offset) => transfer::spec_move_sp_offset_to_hl(d, offset),
        Instruction::MoveHLToSP => transfer::spec_move_hl_to_sp(d),
        Instruction::AddSignedImmediateToSP(offset) => transfer::spec_add_signed_to_sp(d, offset),
        Instruction::IncrementOperand8(operand) => alu::spec_increment_8(d, operand),
        Instruction::DecrementOperand8(operand) => alu::spec_decrement_8(d, operand),
        Instruction::SubtractOperandFromA(operand) => alu::spec_sub_8_from_a(d, operand),
        Instruction::SubtractOperandFromABorrow(operand) => alu::spec_sub_8_from_a_borrow(d, operand),
        Instruction::AddOperandToA(operand) => alu::spec_add_8_to_a(d, operand),
        Instruction::AddOperandToACarry(operand) => alu::spec_add_8_to_a_carry(d, operand),
        Instruction::CompareOperandWithA(operand) => alu::spec_compare_with_a(d, operand),
        Instruction::SetCarry => alu::spec_set_carry(d),
        Instruction::ComplementCarry => alu::spec_flip_carry(d),
        Instruction::IncrementOperand16(operand) => alu::spec_increment_16(d, operand),
        Instruction::DecrementOperand16(operand) => alu::spec_decrement_16(d, operand),
        Instruction::AddOperandToHL(operand) => alu::spec_add_to_hl(d, operand),
        Instruction::AndOperandWithA(operand) => bitwise::spec_and_with_a(d, operand),
        Instruction::OrOperandWithA(operand) => bitwise::spec_or_with_a(d, operand),
        Instruction::XorOperandWithA(operand) => bitwise::spec_xor_with_a(d, operand),
        Instruction::RotateLeft(operand) => (
            bitwise::spec_rotate_left(d, operand, true),
            if operand.spec_is_memref() {
                12u32
            } else {
                8u32
            },
        ),
        Instruction::RotateLeftA => (bitwise::spec_rotate_left(d, Operand8::A, false), 4u32),
        Instruction::RotateRight(operand) => (
            bitwise::spec_rotate_right(d, operand, true),
            if operand.spec_is_memref() {
                12u32
            } else {
                8u32
            },
        ),
        Instruction::RotateRightA => (bitwise::spec_rotate_right(d, Operand8::A, false), 4u32),
        Instruction::RotateLeftCarry(operand) => (
            bitwise::spec_rotate_left_circular(d, operand, true),
            bitwise::spec_cb_cycles(operand),
        ),
        Instruction::RotateLeftCarryA => (
            bitwise::spec_rotate_left_circular(d, Operand8::A, false),
            4u32,
        ),
        Instruction::RotateRightCarry(operand) => (
            bitwise::spec_rotate_right_circular(d, operand, true),
            bitwise::spec_cb_cycles(operand),
        ),
        Instruction::RotateRightCarryA => (
            bitwise::spec_rotate_right_circular(d, Operand8::A, false),
            4u32,
        ),
        Instruction::ShiftLeftArithmetic(operand) => bitwise::spec_shift_left(d, operand),
        Instruction::ShiftLeftLogical(operand) => bitwise::spec_shift_left_logical(d, operand),
        Instruction::ShiftRightArithmetic(operand) => bitwise::spec_shift_right(d, operand, true),
        Instruction::ShiftRightLogical(operand) => bitwise::spec_shift_right(d, operand, false),
        Instruction::SwapNibbles(operand) => bitwise::spec_swap_nibbles(d, operand),
        Instruction::ComplementA => bitwise::spec_complement_a(d),
        Instruction::TestBit(n, operand) => bitwise::spec_test_bit(d, operand, n),
        Instruction::ClearBit(n, operand) => bitwise::spec_clear_bit_op(d, operand, n),
        Instruction::SetBit(n, operand) => bitwise::spec_set_bit_op(d, operand, n),
        Instruction::Jump(address) => (control::spec_with_pc(d, address), 16u32),
        Instruction::RelativeJump(offset) => (
            control::spec_with_pc(d, control::spec_rel_target(d.regs.pc, offset)),
            12u32,
        ),
        Instruction::JumpToHL => control::spec_jump_to_hl(d),
        Instruction::ConditionalJump(condition, address) => control::spec_conditional_jump(
            d,
            condition,
            address,
        ),
        Instruction::ConditionalRelativeJump(condition, offset) => {
            control::spec_conditional_relative_jump(d, condition, offset)
        },
        Instruction::Call(address) => control::spec_call(d, address),
        Instruction::ConditionalCall(condition, address) => control::spec_conditional_call(
            d,
            condition,
            address,
        ),
        Instruction::Return => control::spec_return(d),
        Instruction::ReturnFromInterrupt => control::spec_return_from_interrupt(d),
        Instruction::ConditionalReturn(condition) => control::spec_conditional_return(d, condition),
        Instruction::Restart(handler) => control::spec_restart(d, handler),
        Instruction::DisableInterrupts => (DeviceView { interrupts_enabled: false, ..d }, 4u32),
        Instruction::EnableInterrupts => (DeviceView { interrupts_enabled: true, ..d }, 4u32),
        Instruction::BCDCorrectA => misc::spec_daa(d),
    }
}

/// One whole instruction from fetch to execution: the opcode byte at PC,
/// its immediates after it, PC advanced past them, and the decoded
/// instruction's effect.
pub open spec fn spec_run_instruction(d: DeviceView) -> (DeviceView, u32) {
    let pc = d.regs.pc;
    let b0 = spec_bus_read8(d.bus, pc);
    let size = spec_instruction_size(b0);
    let b1 = if size >= 2 {
        spec_bus_read8(d.bus, ((pc + 1) % 65536) as u16)
    } else {
        0
    };
    let b2 = if size >= 3 {
        spec_bus_read8(d.bus, ((pc + 2) % 65536) as u16)
    } else {
        0
    };
    let d1 = DeviceView { regs: Registers { pc: ((pc + size) % 65536) as u16, ..d.regs }, ..d };
    spec_execute(d1, spec_decode(b0, b1, b2))
}

/// Executes one decoded instruction against the device.
#[verifier::rlimit(100)]
#[verifier::spinoff_prover]
pub fn execute_instruction(device: &mut Device, instruction: Instruction) -> (cycles: u32)
    requires
        old(device)@.wf(),
        instruction.wf(),
    ensures
        (final (device)@, cycles) == spec_execute(old(device)@, instruction),
        final (device)@.wf(),
{
    match instruction {
        Instruction::Nop => 4,
        Instruction::Halt => {
            device.halt();
            4
        },
        Instruction::Stop => {
            device.halt();
            4
        },
        Instruction::Unknown(_) => {
            device.execution_state = ExecutionState::Paused;
            4
        },
        Instruction::MoveOperand8 { to, from } => {
            let value = device.get_operand_8(from);
            device.set_operand_8(to, value);
            if from.is_immediate() {
                if to.is_memref() {
                    12
                } else {
                    8
                }
            } else if from.is_memref() || to.is_memref() {
                8
            } else {
                4
            }
        },
        Instruction::LoadAHigh(offset) => {
            let addr = 0xFF00 + (offset as u16);
            let value = device.bus.read_addr_8(addr);
            device.regs.a = value;
            12
        },
        Instruction::StoreAHigh(offset) => {
            let a = device.regs.a;
            let address = 0xFF00 + (offset as u16);
            device.write_addr_8(address, a);
            12
        },
        Instruction::StoreAHighC => {
            let c = device.regs.c;
            let a = device.regs.a;
            let address = 0xFF00 + (c as u16);
            device.write_addr_8(address, a);
            8
        },
        Instruction::LoadAIndirect(operand) => {
            let addr = device.get_operand_16(operand);
            let value = device.bus.read_addr_8(addr);
            device.regs.a = value;
            8
        },
        Instruction::StoreAIndirect(operand) => {
            let addr = device.get_operand_16(operand);
            let a = device.regs.a;
            device.write_addr_8(addr, a);
            8
        },
        Instruction::LoadAIndirectHLIncrement => {
            let hl = device.regs.hl();
            let a = device.bus.read_addr_8(hl);
            device.regs.a = a;
            proof {
                assert(hl.wrapping_add(1) == ((hl + 1) % 65536) as u16);
            }
            device.regs.set_hl(hl.wrapping_add(1));
            8
        },
        Instruction::LoadAIndirectHLDecrement => {
            let hl = device.regs.hl();
            let a = device.bus.read_addr_8(hl);
            device.regs.a = a;
            proof {
                assert(hl.wrapping_sub(1) == ((hl + 65535) % 65536) as u16);
            }
            device.regs.set_hl(hl.wrapping_sub(1));
            8
        },
        Instruction::StoreAIndirectHLIncrement => {
            let hl = device.regs.hl();
            let a = device.regs.a;
            device.write_addr_8(hl, a);
            proof {
                assert(hl.wrapping_add(1) == ((hl + 1) % 65536) as u16);
            }
            device.regs.set_hl(hl.wrapping_add(1));
            8
        },
        Instruction::StoreAIndirectHLDecrement => {
            let hl = device.regs.hl();
            let a = device.regs.a;
            device.write_addr_8(hl, a);
            proof {
                assert(hl.wrapping_sub(1) == ((hl + 65535) % 65536) as u16);
            }
            device.regs.set_hl(hl.wrapping_sub(1));
            8
        },
        Instruction::LoadA(address) => {
            let value = device.bus.read_addr_8(address);
            device.regs.a = value;
            16
        },
        Instruction::StoreA(address) => {
            let a = device.regs.a;
            device.write_addr_8(address, a);
            16
        },
        Instruction::MoveImmediate16 { to, value } => transfer::move_immediate_16(device, to, value),
        Instruction::Push(operand) => transfer::push_16(device, operand),
        Instruction::Pop(operand) => transfer::pop_16(device, operand),
        Instruction::StoreSP(address) => transfer::store_sp(device, address),
        Instruction::MoveSPOffsetToHL(offset) => transfer::move_sp_offset_to_hl(device, offset),
        Instruction::MoveHLToSP => transfer::move_hl_to_sp(device),
        Instruction::AddSignedImmediateToSP(offset) => transfer::add_signed_immediate_to_sp(
            device,
            offset,
        ),
        Instruction::IncrementOperand8(operand) => alu::increment_operand_8(device, operand),
        Instruction::DecrementOperand8(operand) => alu::decrement_operand_8(device, operand),
        Instruction::SubtractOperandFromA(operand) => alu::subtract_operand_8_from_a(device, operand),
        Instruction::SubtractOperandFromABorrow(operand) => alu::subtract_operand_and_borrow_from_a(
            device,
            operand,
        ),
        Instruction::AddOperandToA(operand) => alu::add_operand_8_to_a(device, operand),
        Instruction::AddOperandToACarry(operand) => alu::add_operand_and_carry_to_a(device, operand),
        Instruction::CompareOperandWithA(operand) => alu::compare_operand_with_a(device, operand),
        Instruction::SetCarry => alu::set_carry_flag(device),
        Instruction::ComplementCarry => alu::flip_carry_flag(device),
        Instruction::IncrementOperand16(operand) => alu::increment_operand_16(device, operand),
        Instruction::DecrementOperand16(operand) => alu::decrement_operand_16(device, operand),
        Instruction::AddOperandToHL(operand) => alu::add_operand_to_hl(device, operand),
        Instruction::AndOperandWithA(operand) => bitwise::and_with_a(device, operand),
        Instruction::OrOperandWithA(operand) => bitwise::or_with_a(device, operand),
        Instruction::XorOperandWithA(operand) => bitwise::xor_with_a(device, operand),
        Instruction::RotateLeft(operand) => bitwise::rotate_left(device, operand),
        Instruction::RotateLeftA => bitwise::rotate_left_a(device),
        Instruction::RotateRight(operand) => bitwise::rotate_right(device, operand),
        Instruction::RotateRightA => bitwise::rotate_right_a(device),
        Instruction::RotateLeftCarry(operand) => bitwise::rotate_left_carry(device, operand),
        Instruction::RotateLeftCarryA => bitwise::rotate_left_carry_a(device),
        Instruction::RotateRightCarry(operand) => bitwise::rotate_right_carry(device, operand),
        Instruction::RotateRightCarryA => bitwise::rotate_right_carry_a(device),
        Instruction::ShiftLeftArithmetic(operand) => bitwise::shift_left(device, operand),
        Instruction::ShiftLeftLogical(operand) => bitwise::shift_left_logical(device, operand),
        Instruction::ShiftRightArithmetic(operand) => bitwise::shift_right(device, operand),
        Instruction::ShiftRightLogical(operand) => bitwise::shift_right_logical(device, operand),
        Instruction::SwapNibbles(operand) => bitwise::swap_nibbles(device, operand),
        Instruction::ComplementA => bitwise::complement_a(device),
        Instruction::TestBit(n, operand) => bitwise::test_bit(device, operand, n),
        Instruction::ClearBit(n, operand) => bitwise::clear_bit(device, operand, n),
        Instruction::SetBit(n, operand) => bitwise::set_bit(device, operand, n),
        Instruction::Jump(address) => {
            device.regs.pc = address;
            16
        },
        Instruction::RelativeJump(offset) => {
            device.regs.pc = control::relative_jump_target(device.regs.pc, offset);
            12
        },
        Instruction::JumpToHL => control::jump_to_hl(device),
        Instruction::ConditionalJump(condition, address) => control::conditional_jump(
            device,
            condition,
            address,
        ),
        Instruction::ConditionalRelativeJump(condition, offset) => {
            control::conditional_relative_jump(device, condition, offset)
        },
        Instruction::Call(address) => control::call(device, address),
        Instruction::ConditionalCall(condition, address) => control::conditional_call(
            device,
            condition,
            address,
        ),
        Instruction::Return => control::unconditional_return(device),
        Instruction::ReturnFromInterrupt => control::return_from_interrupt(device),
        Instruction::ConditionalReturn(condition) => control::conditional_return(device, condition),
        Instruction::Restart(handler) => control::restart(device, handler),
        Instruction::DisableInterrupts => misc::disable_interrupts(device),
        Instruction::EnableInterrupts => misc::enable_interrupts(device),
        Instruction::BCDCorrectA => misc::bcd_correct_a(device),
    }
}

/// Fetches, decodes and executes the instruction at PC.
#[verifier::rlimit(100)]
#[verifier::spinoff_prover]
pub fn run_instruction(device: &mut Device) -> (cycles: u32)
    requires
        old(device)@.wf(),
    ensures
        (final (device)@, cycles) == spec_run_instruction(old(device)@),
        final (device)@.wf(),
{
    let ghost pc0 = device@.regs.pc;
    let b0 = device.read_next_byte();
    let size = instruction_size(b0);
    let b1 = if size >= 2 {
        device.read_next_byte()
    } else {
        0
    };
    let b2 = if size >= 3 {
        device.read_next_byte()
    } else {
        0
    };
    proof {
        assert(device@.regs.pc == ((pc0 + size) % 65536) as u16);
    }
    let instruction = decode_instruction(b0, b1, b2);
    execute_instruction(device, instruction)
}

} // verus!
