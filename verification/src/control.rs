//! Control-flow instructions: jumps, relative jumps, calls, returns and
//! restarts, each with its conditional form and the exact cycle cost of the
//! taken and untaken paths.

use vstd::prelude::*;

use crate::device::{spec_pop16_value, spec_push16, Device, DeviceView};
use crate::instruction::ConditionCode;
use crate::registers::{Registers, StatusFlag};

verus! {

/// Whether a branch condition holds: the Z or C flag equals its expected
/// value.
pub open spec fn spec_check_condition(d: DeviceView, condition: ConditionCode) -> bool {
    match condition {
        ConditionCode::Zero(status) => d.regs.spec_get_flag(StatusFlag::Z) == status,
        ConditionCode::Carry(status) => d.regs.spec_get_flag(StatusFlag::C) == status,
    }
}

fn check_condition(device: &Device, condition: ConditionCode) -> (r: bool)
    ensures
        r == spec_check_condition(device@, condition),
{
    match condition {
        ConditionCode::Zero(status) => device.regs.get_flag(StatusFlag::Z) == status,
        ConditionCode::Carry(status) => device.regs.get_flag(StatusFlag::C) == status,
    }
}

/// The jump target of a relative jump: PC plus the signed offset, wrapped.
pub open spec fn spec_rel_target(pc: u16, offset: i8) -> u16 {
    ((pc + offset + 65536) % 65536) as u16
}

pub open spec fn spec_with_pc(d: DeviceView, pc: u16) -> DeviceView {
    DeviceView { regs: Registers { pc, ..d.regs }, ..d }
}

/// JP cc,nn: a taken jump loads PC and costs 16 cycles; untaken costs 12.
pub open spec fn spec_conditional_jump(d: DeviceView, condition: ConditionCode, address: u16) -> (
    DeviceView,
    u32,
) {
    if spec_check_condition(d, condition) {
        (spec_with_pc(d, address), 16u32)
    } else {
        (d, 12u32)
    }
}

pub fn conditional_jump(device: &mut Device, condition: ConditionCode, address: u16) -> (cycles:
    u32)
    ensures
        (final (device)@, cycles) == spec_conditional_jump(old(device)@, condition, address),
        old(device)@.wf() ==> final (device)@.wf(),
{
    if check_condition(device, condition) {
        device.regs.pc = address;
        16
    } else {
        12
    }
}

/// JR cc,e: a taken relative jump moves PC by the signed offset and costs
/// 12 cycles; untaken costs 8.
pub open spec fn spec_conditional_relative_jump(
    d: DeviceView,
    condition: ConditionCode,
    offset: i8,
) -> (DeviceView, u32) {
    if spec_check_condition(d, condition) {
        (spec_with_pc(d, spec_rel_target(d.regs.pc, offset)), 12u32)
    } else {
        (d, 8u32)
    }
}

pub fn relative_jump_target(pc: u16, offset: i8) -> (r: u16)
    ensures
        r == spec_rel_target(pc, offset),
{
    if offset >= 0 {
        pc.wrapping_add(offset as u16)
    } else {
        let magnitude = -(offset as i16);
        pc.wrapping_sub(magnitude as u16)
    }
}

pub fn conditional_relative_jump(device: &mut Device, condition: ConditionCode, offset: i8) -> (
    cycles: u32)
    ensures
        (final (device)@, cycles) == spec_conditional_relative_jump(old(device)@, condition, offset),
        old(device)@.wf() ==> final (device)@.wf(),
{
    if check_condition(device, condition) {
        device.regs.pc = relative_jump_target(device.regs.pc, offset);
        12
    } else {
        8
    }
}

/// CALL nn: the return address (the PC after the instruction) is pushed and
/// PC loads the target; 24 cycles.
pub open spec fn spec_call(d: DeviceView, address: u16) -> (DeviceView, u32) {
    (spec_with_pc(spec_push16(d, d.regs.pc), address), 24u32)
}

pub fn call(device: &mut Device, addr: u16) -> (cycles: u32)
    requires
        old(device)@.wf(),
    ensures
        (final (device)@, cycles) == spec_call(old(device)@, addr),
        final (device)@.wf(),
{
    let return_addr = device.regs.pc;
    device.push_16(return_addr);
    device.regs.pc = addr;
    24
}

/// CALL cc,nn: taken calls cost 24 cycles, untaken 12.
pub open spec fn spec_conditional_call(d: DeviceView, condition: ConditionCode, address: u16) -> (
    DeviceView,
    u32,
) {
    if spec_check_condition(d, condition) {
        spec_call(d, address)
    } else {
        (d, 12u32)
    }
}

pub fn conditional_call(device: &mut Device, condition: ConditionCode, addr: u16) -> (cycles: u32)
    requires
        old(device)@.wf(),
    ensures
        (final (device)@, cycles) == spec_conditional_call(old(device)@, condition, addr),
        final (device)@.wf(),
{
    if check_condition(device, condition) {
        call(device, addr)
    } else {
        12
    }
}

/// RET: PC pops off the stack; 16 cycles.
pub open spec fn spec_return(d: DeviceView) -> (DeviceView, u32) {
    let d1 = DeviceView {
        regs: Registers { sp: ((d.regs.sp + 2) % 65536) as u16, ..d.regs },
        ..d
    };
    (spec_with_pc(d1, spec_pop16_value(d)), 16u32)
}

pub fn unconditional_return(device: &mut Device) -> (cycles: u32)
    requires
        old(device)@.wf(),
    ensures
        (final (device)@, cycles) == spec_return(old(device)@),
        final (device)@.wf(),
{
    let addr = device.pop_16();
    device.regs.pc = addr;
    16
}

/// RET cc: a taken return costs 20 cycles, untaken 8.
pub open spec fn spec_conditional_return(d: DeviceView, condition: ConditionCode) -> (
    DeviceView,
    u32,
) {
    if spec_check_condition(d, condition) {
        (spec_return(d).0, 20u32)
    } else {
        (d, 8u32)
    }
}

pub fn conditional_return(device: &mut Device, condition: ConditionCode) -> (cycles: u32)
    requires
        old(device)@.wf(),
    ensures
        (final (device)@, cycles) == spec_conditional_return(old(device)@, condition),
        final (device)@.wf(),
{
    if check_condition(device, condition) {
        unconditional_return(device);
        20
    } else {
        8
    }
}

/// RETI: the return, and the master interrupt enable comes back on; 16
/// cycles.
pub open spec fn spec_return_from_interrupt(d: DeviceView) -> (DeviceView, u32) {
    (DeviceView { interrupts_enabled: true, ..spec_return(d).0 }, 16u32)
}

pub fn return_from_interrupt(device: &mut Device) -> (cycles: u32)
    requires
        old(device)@.wf(),
    ensures
        (final (device)@, cycles) == spec_return_from_interrupt(old(device)@),
        final (device)@.wf(),
{
    unconditional_return(device);
    device.interrupts_enabled = true;
    16
}

/// RST n: PC is pushed and control moves to the fixed handler at `n * 8`;
/// 16 cycles.
pub open spec fn spec_restart(d: DeviceView, handler_id: u8) -> (DeviceView, u32) {
    (spec_with_pc(spec_push16(d, d.regs.pc), (handler_id * 8) as u16), 16u32)
}

pub fn restart(device: &mut Device, handler_id: u8) -> (cycles: u32)
    requires
        old(device)@.wf(),
    ensures
        (final (device)@, cycles) == spec_restart(old(device)@, handler_id),
        final (device)@.wf(),
{
    let handler_addr = (handler_id as u16) * 8;
    let pc = device.regs.pc;
    device.push_16(pc);
    device.regs.pc = handler_addr;
    16
}

/// JP (HL): PC loads HL; 4 cycles.
pub open spec fn spec_jump_to_hl(d: DeviceView) -> (DeviceView, u32) {
    (spec_with_pc(d, d.regs.spec_hl()), 4u32)
}

pub fn jump_to_hl(device: &mut Device) -> (cycles: u32)
    ensures
        (final (device)@, cycles) == spec_jump_to_hl(old(device)@),
        old(device)@.wf() ==> final (device)@.wf(),
{
    let hl = device.regs.hl();
    device.regs.pc = hl;
    4
}

} // verus!
