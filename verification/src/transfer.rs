//! 16-bit transfer instructions: immediate loads, push and pop, the SP
//! store, and the SP/HL moves with their flag behaviour.

use vstd::prelude::*;

use crate::bitutils::carry_add_16;
use crate::device::{
    spec_device_write16, spec_operand16_value, spec_pop16_value, spec_push16, spec_set_operand16,
    spec_set_operand8, Device, DeviceView,
};
use crate::instruction::{Operand16, Operand8};
use crate::registers::{spec_set_flag_to, Registers, StatusFlag};

verus! {

/// LD rr,nn: the pair takes the immediate; 12 cycles.
pub open spec fn spec_move_immediate_16(d: DeviceView, to: Operand16, value: u16) -> (
    DeviceView,
    u32,
) {
    (spec_set_operand16(d, to, value), 12u32)
}

pub fn move_immediate_16(device: &mut Device, to: Operand16, value: u16) -> (cycles: u32)
    ensures
        (final (device)@, cycles) == spec_move_immediate_16(old(device)@, to, value),
        old(device)@.wf() ==> final (device)@.wf(),
{
    device.set_operand_16(to, value);
    12
}

/// LD r,n outside the decoder's immediate form: the operand takes the
/// value; 12 cycles.
pub fn move_immediate_8(device: &mut Device, to: Operand8, value: u8) -> (cycles: u32)
    requires
        old(device)@.wf(),
        !to.spec_is_immediate(),
    ensures
        final (device)@ == spec_set_operand8(old(device)@, to, value),
        cycles == 12,
        final (device)@.wf(),
{
    device.set_operand_8(to, value);
    12
}

/// LD SP,HL: SP takes HL; 8 cycles.
pub open spec fn spec_move_hl_to_sp(d: DeviceView) -> (DeviceView, u32) {
    (DeviceView { regs: Registers { sp: d.regs.spec_hl(), ..d.regs }, ..d }, 8u32)
}

pub fn move_hl_to_sp(device: &mut Device) -> (cycles: u32)
    ensures
        (final (device)@, cycles) == spec_move_hl_to_sp(old(device)@),
        old(device)@.wf() ==> final (device)@.wf(),
{
    let hl = device.regs.hl();
    device.regs.sp = hl;
    8
}

/// PUSH rr: the pair's value goes on the stack; 16 cycles.
pub open spec fn spec_push_op(d: DeviceView, operand: Operand16) -> (DeviceView, u32) {
    (spec_push16(d, spec_operand16_value(d, operand)), 16u32)
}

pub fn push_16(device: &mut Device, operand: Operand16) -> (cycles: u32)
    requires
        old(device)@.wf(),
    ensures
        (final (device)@, cycles) == spec_push_op(old(device)@, operand),
        final (device)@.wf(),
{
    let op = device.get_operand_16(operand);
    device.push_16(op);
    16
}

/// POP rr: the pair takes the two bytes above SP and SP rises by two; a pop
/// into AF keeps the low nibble of F clear; 12 cycles.
pub open spec fn spec_pop_op(d: DeviceView, operand: Operand16) -> (DeviceView, u32) {
    let value = spec_pop16_value(d);
    let d1 = DeviceView {
        regs: Registers { sp: ((d.regs.sp + 2) % 65536) as u16, ..d.regs },
        ..d
    };
    (spec_set_operand16(d1, operand, value), 12u32)
}

pub fn pop_16(device: &mut Device, operand: Operand16) -> (cycles: u32)
    requires
        old(device)@.wf(),
    ensures
        (final (device)@, cycles) == spec_pop_op(old(device)@, operand),
        final (device)@.wf(),
{
    let value = device.pop_16();
    device.set_operand_16(operand, value);
    12
}

/// LD (nn),SP: SP's low byte goes to the address, its high byte just above;
/// 12 cycles.
pub open spec fn spec_store_sp(d: DeviceView, address: u16) -> (DeviceView, u32) {
    (spec_device_write16(d, address, d.regs.sp), 12u32)
}

pub fn store_sp(device: &mut Device, address: u16) -> (cycles: u32)
    requires
        old(device)@.wf(),
    ensures
        (final (device)@, cycles) == spec_store_sp(old(device)@, address),
        final (device)@.wf(),
{
    let sp = device.regs.sp;
    device.write_addr_16(address, sp);
    12
}

/// LD HL,SP+n: HL takes the wrapped sum of SP and the unsigned offset; C
/// and H report the 16-bit and lowest-nibble carries; Z and N are
/// untouched; 12 cycles.
pub open spec fn spec_move_sp_offset_to_hl(d: DeviceView, offset: u8) -> (DeviceView, u32) {
    let sum = offset + d.regs.sp;
    let result = ((sum) % 65536) as u16;
    let f1 = spec_set_flag_to(d.regs.f, StatusFlag::H, offset % 16 + d.regs.sp % 16 > 0xF);
    let f2 = spec_set_flag_to(f1, StatusFlag::C, sum > 0xFFFF);
    (
        DeviceView {
            regs: (Registers {
                h: (result / 256) as u8,
                l: (result % 256) as u8,
                f: f2,
                ..d.regs
            }),
            ..d
        },
        12u32,
    )
}

pub fn move_sp_offset_to_hl(device: &mut Device, offset: u8) -> (cycles: u32)
    ensures
        (final (device)@, cycles) == spec_move_sp_offset_to_hl(old(device)@, offset),
        old(device)@.wf() ==> final (device)@.wf(),
{
    let a = offset as u16;
    let b = device.regs.sp;
    let r = carry_add_16(a, b);

    device.regs.set_flag_to(StatusFlag::H, r.half_carry);
    device.regs.set_flag_to(StatusFlag::C, r.carry);
    device.regs.set_hl(r.result);

    12
}

/// The same move with Z and N cleared as well.
pub open spec fn spec_move_sp_with_offset_to_hl(d: DeviceView, offset: u8) -> (DeviceView, u32) {
    let sum = d.regs.sp + offset;
    let result = ((sum) % 65536) as u16;
    let f1 = spec_set_flag_to(d.regs.f, StatusFlag::Z, false);
    let f2 = spec_set_flag_to(f1, StatusFlag::N, false);
    let f3 = spec_set_flag_to(f2, StatusFlag::H, d.regs.sp % 16 + offset % 16 > 0xF);
    let f4 = spec_set_flag_to(f3, StatusFlag::C, sum > 0xFFFF);
    (
        DeviceView {
            regs: (Registers {
                h: (result / 256) as u8,
                l: (result % 256) as u8,
                f: f4,
                ..d.regs
            }),
            ..d
        },
        12u32,
    )
}

pub fn move_sp_with_offset_to_hl(device: &mut Device, offset: u8) -> (cycles: u32)
    ensures
        (final (device)@, cycles) == spec_move_sp_with_offset_to_hl(old(device)@, offset),
        old(device)@.wf() ==> final (device)@.wf(),
{
    let sp = device.regs.sp;
    let r = carry_add_16(sp, offset as u16);

    device.regs.clear_flag(StatusFlag::Z);
    device.regs.clear_flag(StatusFlag::N);
    device.regs.set_flag_to(StatusFlag::H, r.half_carry);
    device.regs.set_flag_to(StatusFlag::C, r.carry);
    device.regs.set_hl(r.result);

    12
}

/// ADD SP,e: SP takes the wrapped sum of SP and the sign-extended offset; C
/// and H report the carries of the 16-bit add, Z and N clear; 16 cycles.
pub open spec fn spec_add_signed_to_sp(d: DeviceView, offset: i8) -> (DeviceView, u32) {
    let ext = ((offset + 65536) % 65536) as u16;
    let sum = d.regs.sp + ext;
    let result = ((sum) % 65536) as u16;
    let f1 = spec_set_flag_to(d.regs.f, StatusFlag::Z, false);
    let f2 = spec_set_flag_to(f1, StatusFlag::N, false);
    let f3 = spec_set_flag_to(f2, StatusFlag::H, d.regs.sp % 16 + ext % 16 > 0xF);
    let f4 = spec_set_flag_to(f3, StatusFlag::C, sum > 0xFFFF);
    (DeviceView { regs: (Registers { sp: result, f: f4, ..d.regs }), ..d }, 16u32)
}

pub fn add_signed_immediate_to_sp(device: &mut Device, offset: i8) -> (cycles: u32)
    ensures
        (final (device)@, cycles) == spec_add_signed_to_sp(old(device)@, offset),
        old(device)@.wf() ==> final (device)@.wf(),
{
    let ext: u16 = if offset >= 0 {
        offset as u16
    } else {
        ((offset as i32) + 65536) as u16
    };
    let sp = device.regs.sp;
    let r = carry_add_16(sp, ext);

    device.regs.clear_flag(StatusFlag::Z);
    device.regs.clear_flag(StatusFlag::N);
    device.regs.set_flag_to(StatusFlag::H, r.half_carry);
    device.regs.set_flag_to(StatusFlag::C, r.carry);
    device.regs.sp = r.result;

    16
}

} // verus!
