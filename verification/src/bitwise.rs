//! Bitwise instructions: AND/OR/XOR into A, rotates and shifts (plain, A
//! forms and the `CB` forms), the nibble swap, complement, and single-bit
//! test, set and clear. Contracts give the exact result and flag values.

use vstd::prelude::*;

use crate::bitutils::BitExtensions;
use crate::device::{
    spec_operand8_value, spec_set_operand8, Device, DeviceView,
};
use crate::instruction::Operand8;
use crate::registers::{spec_set_flag_to, Registers, StatusFlag};

verus! {

/// Cycles of a `CB`-prefixed operation: 16 through memory, 8 on a register
/// (12/8 for the bit test).
pub open spec fn spec_cb_cycles(operand: Operand8) -> u32 {
    if operand.spec_is_memref() {
        16u32
    } else {
        8u32
    }
}

/// AND A,operand: Z reports a zero result, H sets, C and N clear.
pub open spec fn spec_and_with_a(d: DeviceView, operand: Operand8) -> (DeviceView, u32) {
    let res = d.regs.a & spec_operand8_value(d, operand);
    let f1 = spec_set_flag_to(d.regs.f, StatusFlag::C, false);
    let f2 = spec_set_flag_to(f1, StatusFlag::H, true);
    let f3 = spec_set_flag_to(f2, StatusFlag::N, false);
    let f4 = spec_set_flag_to(f3, StatusFlag::Z, res == 0);
    (
        DeviceView { regs: Registers { a: res, f: f4, ..d.regs }, ..d },
        crate::alu::spec_alu8_cycles(operand),
    )
}

pub fn and_with_a(device: &mut Device, operand: Operand8) -> (cycles: u32)
    requires
        old(device)@.wf(),
    ensures
        (final (device)@, cycles) == spec_and_with_a(old(device)@, operand),
        final (device)@.wf(),
{
    let a = device.get_operand_8(Operand8::A);
    let op = device.get_operand_8(operand);
    let res = a & op;

    device.regs.clear_flag(StatusFlag::C);
    device.regs.set_flag(StatusFlag::H);
    device.regs.clear_flag(StatusFlag::N);
    device.regs.set_flag_to(StatusFlag::Z, res == 0);

    device.regs.a = res;

    if operand.is_memref() || operand.is_immediate() {
        8
    } else {
        4
    }
}

/// OR A,operand: Z reports a zero result; C, H and N clear.
pub open spec fn spec_or_with_a(d: DeviceView, operand: Operand8) -> (DeviceView, u32) {
    let res = d.regs.a | spec_operand8_value(d, operand);
    let f1 = spec_set_flag_to(d.regs.f, StatusFlag::C, false);
    let f2 = spec_set_flag_to(f1, StatusFlag::H, false);
    let f3 = spec_set_flag_to(f2, StatusFlag::N, false);
    let f4 = spec_set_flag_to(f3, StatusFlag::Z, res == 0);
    (
        DeviceView { regs: Registers { a: res, f: f4, ..d.regs }, ..d },
        crate::alu::spec_alu8_cycles(operand),
    )
}

pub fn or_with_a(device: &mut Device, operand: Operand8) -> (cycles: u32)
    requires
        old(device)@.wf(),
    ensures
        (final (device)@, cycles) == spec_or_with_a(old(device)@, operand),
        final (device)@.wf(),
{
    let a = device.get_operand_8(Operand8::A);
    let op = device.get_operand_8(operand);
    let res = a | op;

    device.regs.clear_flag(StatusFlag::C);
    device.regs.clear_flag(StatusFlag::H);
    device.regs.clear_flag(StatusFlag::N);
    device.regs.set_flag_to(StatusFlag::Z, res == 0);

    device.regs.a = res;

    if operand.is_memref() || operand.is_immediate() {
        8
    } else {
        4
    }
}

/// XOR A,operand: Z reports a zero result; C, H and N clear.
pub open spec fn spec_xor_with_a(d: DeviceView, operand: Operand8) -> (DeviceView, u32) {
    let res = d.regs.a ^ spec_operand8_value(d, operand);
    let f1 = spec_set_flag_to(d.regs.f, StatusFlag::C, false);
    let f2 = spec_set_flag_to(f1, StatusFlag::H, false);
    let f3 = spec_set_flag_to(f2, StatusFlag::N, false);
    let f4 = spec_set_flag_to(f3, StatusFlag::Z, res == 0);
    (
        DeviceView { regs: Registers { a: res, f: f4, ..d.regs }, ..d },
        crate::alu::spec_alu8_cycles(operand),
    )
}

pub fn xor_with_a(device: &mut Device, operand: Operand8) -> (cycles: u32)
    requires
        old(device)@.wf(),
    ensures
        (final (device)@, cycles) == spec_xor_with_a(old(device)@, operand),
        final (device)@.wf(),
{
    let a = device.get_operand_8(Operand8::A);
    let op = device.get_operand_8(operand);
    let res = a ^ op;

    device.regs.clear_flag(StatusFlag::C);
    device.regs.clear_flag(StatusFlag::H);
    device.regs.clear_flag(StatusFlag::N);
    device.regs.set_flag_to(StatusFlag::Z, res == 0);

    device.regs.a = res;

    if operand.is_memref() || operand.is_immediate() {
        8
    } else {
        4
    }
}

/// BIT n,operand: Z reports that bit n is clear; nothing else changes.
pub open spec fn spec_test_bit(d: DeviceView, operand: Operand8, n: u8) -> (DeviceView, u32) {
    let op = spec_operand8_value(d, operand);
    let f1 = spec_set_flag_to(d.regs.f, StatusFlag::Z, !op.spec_get_bit(n));
    (
        DeviceView { regs: Registers { f: f1, ..d.regs }, ..d },
        if operand.spec_is_memref() {
            12u32
        } else {
            8u32
        },
    )
}

pub fn test_bit(device: &mut Device, operand: Operand8, n: u8) -> (cycles: u32)
    requires
        old(device)@.wf(),
        n < 8,
    ensures
        (final (device)@, cycles) == spec_test_bit(old(device)@, operand, n),
        final (device)@.wf(),
{
    let op = device.get_operand_8(operand);
    device.regs.set_flag_to(StatusFlag::Z, !op.get_bit(n));

    if operand.is_memref() {
        12
    } else {
        8
    }
}

/// SET n,operand: bit n of the operand sets; no flag changes.
pub open spec fn spec_set_bit_op(d: DeviceView, operand: Operand8, n: u8) -> (DeviceView, u32) {
    let op = spec_operand8_value(d, operand);
    (spec_set_operand8(d, operand, op.spec_set_bit(n)), spec_cb_cycles(operand))
}

pub fn set_bit(device: &mut Device, operand: Operand8, bit_index: u8) -> (cycles: u32)
    requires
        old(device)@.wf(),
        !operand.spec_is_immediate(),
        bit_index < 8,
    ensures
        (final (device)@, cycles) == spec_set_bit_op(old(device)@, operand, bit_index),
        final (device)@.wf(),
{
    let op = device.get_operand_8(operand);
    device.set_operand_8(operand, op.set_bit(bit_index));

    if operand.is_memref() {
        16
    } else {
        8
    }
}

/// RES n,operand: bit n of the operand clears; no flag changes.
pub open spec fn spec_clear_bit_op(d: DeviceView, operand: Operand8, n: u8) -> (DeviceView, u32) {
    let op = spec_operand8_value(d, operand);
    (spec_set_operand8(d, operand, op.spec_clear_bit(n)), spec_cb_cycles(operand))
}

pub fn clear_bit(device: &mut Device, operand: Operand8, bit_index: u8) -> (cycles: u32)
    requires
        old(device)@.wf(),
        !operand.spec_is_immediate(),
        bit_index < 8,
    ensures
        (final (device)@, cycles) == spec_clear_bit_op(old(device)@, operand, bit_index),
        final (device)@.wf(),
{
    let op = device.get_operand_8(operand);
    device.set_operand_8(operand, op.clear_bit(bit_index));

    if operand.is_memref() {
        16
    } else {
        8
    }
}

/// CPL: A complements; no flag changes.
pub open spec fn spec_complement_a(d: DeviceView) -> (DeviceView, u32) {
    (DeviceView { regs: Registers { a: !d.regs.a, ..d.regs }, ..d }, 4u32)
}

pub fn complement_a(device: &mut Device) -> (cycles: u32)
    ensures
        (final (device)@, cycles) == spec_complement_a(old(device)@),
        old(device)@.wf() ==> final (device)@.wf(),
{
    let a = device.regs.a;
    device.regs.a = !a;
    4
}

/// SWAP operand: the nibbles trade places; Z reports a zero result, the
/// other flags clear.
pub open spec fn spec_swap_nibbles(d: DeviceView, operand: Operand8) -> (DeviceView, u32) {
    let op = spec_operand8_value(d, operand);
    let swapped = ((op % 16) * 16 + op / 16) as u8;
    let d1 = spec_set_operand8(d, operand, swapped);
    let f1 = spec_set_flag_to(d1.regs.f, StatusFlag::Z, swapped == 0);
    let f2 = spec_set_flag_to(f1, StatusFlag::N, false);
    let f3 = spec_set_flag_to(f2, StatusFlag::H, false);
    let f4 = spec_set_flag_to(f3, StatusFlag::C, false);
    (DeviceView { regs: Registers { f: f4, ..d1.regs }, ..d1 }, spec_cb_cycles(operand))
}

pub fn swap_nibbles(device: &mut Device, operand: Operand8) -> (cycles: u32)
    requires
        old(device)@.wf(),
        !operand.spec_is_immediate(),
    ensures
        (final (device)@, cycles) == spec_swap_nibbles(old(device)@, operand),
        final (device)@.wf(),
{
    let op = device.get_operand_8(operand);
    let swapped = (op % 16) * 16 + op / 16;

    device.set_operand_8(operand, swapped);
    device.regs.set_flag_to(StatusFlag::Z, swapped == 0);
    device.regs.clear_flag(StatusFlag::N);
    device.regs.clear_flag(StatusFlag::H);
    device.regs.clear_flag(StatusFlag::C);

    if operand.is_memref() {
        16
    } else {
        8
    }
}

/// RL: the byte shifts left, the old carry enters at bit 0, the old bit 7
/// leaves through the carry; H and N clear, Z as asked.
pub open spec fn spec_rotate_left(d: DeviceView, operand: Operand8, modify_zero: bool) -> DeviceView {
    let op = spec_operand8_value(d, operand);
    let cin: u8 = if d.regs.spec_get_flag(StatusFlag::C) {
        1
    } else {
        0
    };
    let rotated = ((op % 128) * 2 + cin) as u8;
    let f1 = spec_set_flag_to(d.regs.f, StatusFlag::C, op >= 128);
    let f2 = spec_set_flag_to(f1, StatusFlag::H, false);
    let f3 = spec_set_flag_to(f2, StatusFlag::N, false);
    let f4 = if modify_zero {
        spec_set_flag_to(f3, StatusFlag::Z, rotated == 0)
    } else {
        f3
    };
    spec_set_operand8(DeviceView { regs: Registers { f: f4, ..d.regs }, ..d }, operand, rotated)
}

fn rotate_left_internal(device: &mut Device, operand: Operand8, modify_zero: bool)
    requires
        old(device)@.wf(),
        !operand.spec_is_immediate(),
    ensures
        final (device)@ == spec_rotate_left(old(device)@, operand, modify_zero),
        final (device)@.wf(),
{
    let op = device.get_operand_8(operand);
    let carry_bit = device.regs.get_flag(StatusFlag::C);

    let rotated = (op % 128) * 2 + (if carry_bit {
        1
    } else {
        0
    });

    device.regs.set_flag_to(StatusFlag::C, op >= 128);
    device.regs.clear_flag(StatusFlag::H);
    device.regs.clear_flag(StatusFlag::N);

    if modify_zero {
        device.regs.set_flag_to(StatusFlag::Z, rotated == 0);
    }

    device.set_operand_8(operand, rotated);
}

pub fn rotate_left(device: &mut Device, operand: Operand8) -> (cycles: u32)
    requires
        old(device)@.wf(),
        !operand.spec_is_immediate(),
    ensures
        final (device)@ == spec_rotate_left(old(device)@, operand, true),
        cycles == if operand.spec_is_memref() {
            12u32
        } else {
            8u32
        },
        final (device)@.wf(),
{
    rotate_left_internal(device, operand, true);
    if operand.is_memref() {
        12
    } else {
        8
    }
}

pub fn rotate_left_a(device: &mut Device) -> (cycles: u32)
    requires
        old(device)@.wf(),
    ensures
        final (device)@ == spec_rotate_left(old(device)@, Operand8::A, false),
        cycles == 4,
        final (device)@.wf(),
{
    rotate_left_internal(device, Operand8::A, false);
    4
}

/// RR: the byte shifts right, the old carry enters at bit 7, the old bit 0
/// leaves through the carry; H and N clear, Z as asked.
pub open spec fn spec_rotate_right(d: DeviceView, operand: Operand8, modify_zero: bool) -> DeviceView {
    let op = spec_operand8_value(d, operand);
    let cin: u8 = if d.regs.spec_get_flag(StatusFlag::C) {
        128
    } else {
        0
    };
    let rotated = (op / 2 + cin) as u8;
    let f1 = spec_set_flag_to(d.regs.f, StatusFlag::C, op % 2 == 1);
    let f2 = spec_set_flag_to(f1, StatusFlag::H, false);
    let f3 = spec_set_flag_to(f2, StatusFlag::N, false);
    let f4 = if modify_zero {
        spec_set_flag_to(f3, StatusFlag::Z, rotated == 0)
    } else {
        f3
    };
    spec_set_operand8(DeviceView { regs: Registers { f: f4, ..d.regs }, ..d }, operand, rotated)
}

fn rotate_right_internal(device: &mut Device, operand: Operand8, modify_zero: bool)
    requires
        old(device)@.wf(),
        !operand.spec_is_immediate(),
    ensures
        final (device)@ == spec_rotate_right(old(device)@, operand, modify_zero),
        final (device)@.wf(),
{
    let op = device.get_operand_8(operand);
    let carry_bit = device.regs.get_flag(StatusFlag::C);

    let rotated = op / 2 + (if carry_bit {
        128
    } else {
        0
    });

    device.regs.set_flag_to(StatusFlag::C, op % 2 == 1);
    device.regs.clear_flag(StatusFlag::H);
    device.regs.clear_flag(StatusFlag::N);

    if modify_zero {
        device.regs.set_flag_to(StatusFlag::Z, rotated == 0);
    }

    device.set_operand_8(operand, rotated);
}

pub fn rotate_right(device: &mut Device, operand: Operand8) -> (cycles: u32)
    requires
        old(device)@.wf(),
        !operand.spec_is_immediate(),
    ensures
        final (device)@ == spec_rotate_right(old(device)@, operand, true),
        cycles == if operand.spec_is_memref() {
            12u32
        } else {
            8u32
        },
        final (device)@.wf(),
{
    rotate_right_internal(device, operand, true);
    if operand.is_memref() {
        12
    } else {
        8
    }
}

pub fn rotate_right_a(device: &mut Device) -> (cycles: u32)
    requires
        old(device)@.wf(),
    ensures
        final (device)@ == spec_rotate_right(old(device)@, Operand8::A, false),
        cycles == 4,
        final (device)@.wf(),
{
    rotate_right_internal(device, Operand8::A, false);
    4
}

/// RLC: the byte rotates left circularly, bit 7 both wrapping to bit 0 and
/// setting the carry; H and N clear, Z as asked.
pub open spec fn spec_rotate_left_circular(
    d: DeviceView,
    operand: Operand8,
    modify_zero: bool,
) -> DeviceView {
    let op = spec_operand8_value(d, operand);
    let rotated = ((op % 128) * 2 + op / 128) as u8;
    let f1 = spec_set_flag_to(d.regs.f, StatusFlag::C, op >= 128);
    let f2 = spec_set_flag_to(f1, StatusFlag::H, false);
    let f3 = spec_set_flag_to(f2, StatusFlag::N, false);
    let f4 = if modify_zero {
        spec_set_flag_to(f3, StatusFlag::Z, rotated == 0)
    } else {
        f3
    };
    spec_set_operand8(DeviceView { regs: Registers { f: f4, ..d.regs }, ..d }, operand, rotated)
}

fn rotate_left_carry_internal(device: &mut Device, operand: Operand8, modify_zero: bool)
    requires
        old(device)@.wf(),
        !operand.spec_is_immediate(),
    ensures
        final (device)@ == spec_rotate_left_circular(old(device)@, operand, modify_zero),
        final (device)@.wf(),
{
    let op = device.get_operand_8(operand);
    let rotated = (op % 128) * 2 + op / 128;

    device.regs.set_flag_to(StatusFlag::C, op >= 128);
    device.regs.clear_flag(StatusFlag::H);
    device.regs.clear_flag(StatusFlag::N);

    if modify_zero {
        device.regs.set_flag_to(StatusFlag::Z, rotated == 0);
    }

    device.set_operand_8(operand, rotated);
}

pub fn rotate_left_carry(device: &mut Device, operand: Operand8) -> (cycles: u32)
    requires
        old(device)@.wf(),
        !operand.spec_is_immediate(),
    ensures
        final (device)@ == spec_rotate_left_circular(old(device)@, operand, true),
        cycles == spec_cb_cycles(operand),
        final (device)@.wf(),
{
    rotate_left_carry_internal(device, operand, true);
    if operand.is_memref() {
        16
    } else {
        8
    }
}

pub fn rotate_left_carry_a(device: &mut Device) -> (cycles: u32)
    requires
        old(device)@.wf(),
    ensures
        final (device)@ == spec_rotate_left_circular(old(device)@, Operand8::A, false),
        cycles == 4,
        final (device)@.wf(),
{
    rotate_left_carry_internal(device, Operand8::A, false);
    4
}

/// RRC: the byte rotates right circularly, bit 0 both wrapping to bit 7 and
/// setting the carry; H clears, Z is driven (false in the A form).
pub open spec fn spec_rotate_right_circular(
    d: DeviceView,
    operand: Operand8,
    modify_zero: bool,
) -> DeviceView {
    let op = spec_operand8_value(d, operand);
    let rotated = (op / 2 + (op % 2) * 128) as u8;
    let f1 = spec_set_flag_to(d.regs.f, StatusFlag::C, op % 2 == 1);
    let f2 = spec_set_flag_to(f1, StatusFlag::Z, modify_zero && rotated == 0);
    let f3 = spec_set_flag_to(f2, StatusFlag::H, false);
    spec_set_operand8(DeviceView { regs: Registers { f: f3, ..d.regs }, ..d }, operand, rotated)
}

fn rotate_right_carry_internal(device: &mut Device, operand: Operand8, modify_zero: bool)
    requires
        old(device)@.wf(),
        !operand.spec_is_immediate(),
    ensures
        final (device)@ == spec_rotate_right_circular(old(device)@, operand, modify_zero),
        final (device)@.wf(),
{
    let op = device.get_operand_8(operand);
    let rotated = op / 2 + (op % 2) * 128;

    device.regs.set_flag_to(StatusFlag::C, op % 2 == 1);
    device.regs.set_flag_to(StatusFlag::Z, modify_zero && rotated == 0);
    device.regs.clear_flag(StatusFlag::H);

    device.set_operand_8(operand, rotated);
}

pub fn rotate_right_carry(device: &mut Device, operand: Operand8) -> (cycles: u32)
    requires
        old(device)@.wf(),
        !operand.spec_is_immediate(),
    ensures
        final (device)@ == spec_rotate_right_circular(old(device)@, operand, true),
        cycles == spec_cb_cycles(operand),
        final (device)@.wf(),
{
    rotate_right_carry_internal(device, operand, true);
    if operand.is_memref() {
        16
    } else {
        8
    }
}

pub fn rotate_right_carry_a(device: &mut Device) -> (cycles: u32)
    requires
        old(device)@.wf(),
    ensures
        final (device)@ == spec_rotate_right_circular(old(device)@, Operand8::A, false),
        cycles == 4,
        final (device)@.wf(),
{
    rotate_right_carry_internal(device, Operand8::A, false);
    4
}

/// SLA: the byte shifts left, bit 7 leaves through the carry, bit 0 fills
/// with zero; Z reports a zero result, H clears.
pub open spec fn spec_shift_left(d: DeviceView, operand: Operand8) -> (DeviceView, u32) {
    let op = spec_operand8_value(d, operand);
    let res = ((op % 128) * 2) as u8;
    let f1 = spec_set_flag_to(d.regs.f, StatusFlag::C, op >= 128);
    let f2 = spec_set_flag_to(f1, StatusFlag::Z, res == 0);
    let f3 = spec_set_flag_to(f2, StatusFlag::H, false);
    (
        spec_set_operand8(DeviceView { regs: Registers { f: f3, ..d.regs }, ..d }, operand, res),
        if operand.spec_is_memref() {
            12u32
        } else {
            8u32
        },
    )
}

pub fn shift_left(device: &mut Device, operand: Operand8) -> (cycles: u32)
    requires
        old(device)@.wf(),
        !operand.spec_is_immediate(),
    ensures
        (final (device)@, cycles) == spec_shift_left(old(device)@, operand),
        final (device)@.wf(),
{
    let op = device.get_operand_8(operand);
    let res = (op % 128) * 2;

    device.regs.set_flag_to(StatusFlag::C, op >= 128);
    device.regs.set_flag_to(StatusFlag::Z, res == 0);
    device.regs.clear_flag(StatusFlag::H);

    device.set_operand_8(operand, res);

    if operand.is_memref() {
        12
    } else {
        8
    }
}

/// The undocumented left shift that fills bit 0 with one.
pub open spec fn spec_shift_left_logical(d: DeviceView, operand: Operand8) -> (DeviceView, u32) {
    let op = spec_operand8_value(d, operand);
    let res = ((op % 128) * 2 + 1) as u8;
    let f1 = spec_set_flag_to(d.regs.f, StatusFlag::C, op >= 128);
    let f2 = spec_set_flag_to(f1, StatusFlag::Z, res == 0);
    let f3 = spec_set_flag_to(f2, StatusFlag::H, false);
    (
        spec_set_operand8(DeviceView { regs: Registers { f: f3, ..d.regs }, ..d }, operand, res),
        if operand.spec_is_memref() {
            12u32
        } else {
            8u32
        },
    )
}

pub fn shift_left_logical(device: &mut Device, operand: Operand8) -> (cycles: u32)
    requires
        old(device)@.wf(),
        !operand.spec_is_immediate(),
    ensures
        (final (device)@, cycles) == spec_shift_left_logical(old(device)@, operand),
        final (device)@.wf(),
{
    let op = device.get_operand_8(operand);
    let res = (op % 128) * 2 + 1;

    device.regs.set_flag_to(StatusFlag::C, op >= 128);
    device.regs.set_flag_to(StatusFlag::Z, res == 0);
    device.regs.clear_flag(StatusFlag::H);

    device.set_operand_8(operand, res);

    if operand.is_memref() {
        12
    } else {
        8
    }
}

/// SRA and SRL: the byte shifts right, bit 0 leaves through the carry; bit
/// 7 keeps its value in the arithmetic form and fills with zero in the
/// logical one. Z reports a zero result, H clears.
pub open spec fn spec_shift_right(d: DeviceView, operand: Operand8, keep_bit_7: bool) -> (
    DeviceView,
    u32,
) {
    let op = spec_operand8_value(d, operand);
    let res = (op / 2 + if keep_bit_7 {
        (op / 128) * 128
    } else {
        0
    }) as u8;
    let f1 = spec_set_flag_to(d.regs.f, StatusFlag::C, op % 2 == 1);
    let f2 = spec_set_flag_to(f1, StatusFlag::Z, res == 0);
    let f3 = spec_set_flag_to(f2, StatusFlag::H, false);
    (
        spec_set_operand8(DeviceView { regs: Registers { f: f3, ..d.regs }, ..d }, operand, res),
        if operand.spec_is_memref() {
            12u32
        } else {
            8u32
        },
    )
}

fn shift_right_internal(device: &mut Device, operand: Operand8, keep_bit_7: bool) -> (cycles: u32)
    requires
        old(device)@.wf(),
        !operand.spec_is_immediate(),
    ensures
        (final (device)@, cycles) == spec_shift_right(old(device)@, operand, keep_bit_7),
        final (device)@.wf(),
{
    let op = device.get_operand_8(operand);
    let res = op / 2 + (if keep_bit_7 {
        (op / 128) * 128
    } else {
        0
    });

    device.regs.set_flag_to(StatusFlag::C, op % 2 == 1);
    device.regs.set_flag_to(StatusFlag::Z, res == 0);
    device.regs.clear_flag(StatusFlag::H);

    device.set_operand_8(operand, res);

    if operand.is_memref() {
        12
    } else {
        8
    }
}

pub fn shift_right_logical(device: &mut Device, operand: Operand8) -> (cycles: u32)
    requires
        old(device)@.wf(),
        !operand.spec_is_immediate(),
    ensures
        (final (device)@, cycles) == spec_shift_right(old(device)@, operand, false),
        final (device)@.wf(),
{
    shift_right_internal(device, operand, false)
}

pub fn shift_right(device: &mut Device, operand: Operand8) -> (cycles: u32)
    requires
        old(device)@.wf(),
        !operand.spec_is_immediate(),
    ensures
        (final (device)@, cycles) == spec_shift_right(old(device)@, operand, true),
        final (device)@.wf(),
{
    shift_right_internal(device, operand, true)
}

} // verus!
