//! Arithmetic instructions: 8-bit add, subtract and compare with their
//! carry variants, increments and decrements, the 16-bit HL adder, and the
//! carry-flag instructions. Each function's contract gives the exact result
//! and flag values; the flag register's low nibble never changes.

use vstd::prelude::*;

use crate::bitutils::{carry_add_16, carry_add_8, carry_add_8_prev_carry, borrow_sub_8};
use crate::device::{
    spec_operand8_value, spec_set_operand8, spec_set_operand16, Device, DeviceView,
};
use crate::instruction::{Operand16, Operand8};
use crate::registers::{spec_set_flag_to, Registers, StatusFlag};

verus! {

/// Cycles of an 8-bit arithmetic instruction: 8 through memory or an
/// immediate, 4 register to register.
pub open spec fn spec_alu8_cycles(operand: Operand8) -> u32 {
    if operand.spec_is_memref() || operand.spec_is_immediate() {
        8u32
    } else {
        4u32
    }
}

/// ADD A,operand: A takes the wrapped sum; Z, H and C report zero, nibble
/// carry and byte carry; N clears.
pub open spec fn spec_add_8_to_a(d: DeviceView, operand: Operand8) -> (DeviceView, u32) {
    let a = d.regs.a;
    let b = spec_operand8_value(d, operand);
    let result = ((a + b) % 256) as u8;
    let f1 = spec_set_flag_to(d.regs.f, StatusFlag::N, false);
    let f2 = spec_set_flag_to(f1, StatusFlag::Z, result == 0);
    let f3 = spec_set_flag_to(f2, StatusFlag::H, a % 16 + b % 16 > 0xF);
    let f4 = spec_set_flag_to(f3, StatusFlag::C, a + b > 0xFF);
    (
        DeviceView { regs: Registers { a: result, f: f4, ..d.regs }, ..d },
        spec_alu8_cycles(operand),
    )
}

pub fn add_operand_8_to_a(device: &mut Device, operand: Operand8) -> (cycles: u32)
    requires
        old(device)@.wf(),
    ensures
        (final (device)@, cycles) == spec_add_8_to_a(old(device)@, operand),
        final (device)@.wf(),
{
    let a = device.get_operand_8(Operand8::A);
    let b = device.get_operand_8(operand);

    let r = carry_add_8(a, b);

    device.regs.clear_flag(StatusFlag::N);
    device.regs.set_flag_to(StatusFlag::Z, r.result == 0);
    device.regs.set_flag_to(StatusFlag::H, r.half_carry);
    device.regs.set_flag_to(StatusFlag::C, r.carry);

    device.set_operand_8(Operand8::A, r.result);

    if operand.is_memref() || operand.is_immediate() {
        8
    } else {
        4
    }
}

/// SUB A,operand: A takes the wrapped difference; Z reports zero, H the
/// nibble borrow, C the borrow; N sets.
pub open spec fn spec_sub_8_from_a(d: DeviceView, operand: Operand8) -> (DeviceView, u32) {
    let a = d.regs.a;
    let b = spec_operand8_value(d, operand);
    let result = ((a - b + 256) % 256) as u8;
    let f1 = spec_set_flag_to(d.regs.f, StatusFlag::N, true);
    let f2 = spec_set_flag_to(f1, StatusFlag::Z, result == 0);
    let f3 = spec_set_flag_to(f2, StatusFlag::C, a < b);
    let f4 = spec_set_flag_to(f3, StatusFlag::H, a % 16 < b % 16);
    (
        DeviceView { regs: Registers { a: result, f: f4, ..d.regs }, ..d },
        spec_alu8_cycles(operand),
    )
}

pub fn subtract_operand_8_from_a(device: &mut Device, operand: Operand8) -> (cycles: u32)
    requires
        old(device)@.wf(),
    ensures
        (final (device)@, cycles) == spec_sub_8_from_a(old(device)@, operand),
        final (device)@.wf(),
{
    let a = device.get_operand_8(Operand8::A);
    let op = device.get_operand_8(operand);

    let r = borrow_sub_8(a, op);

    device.regs.set_flag(StatusFlag::N);
    device.regs.set_flag_to(StatusFlag::Z, r.result == 0);
    device.regs.set_flag_to(StatusFlag::C, r.carry);
    device.regs.set_flag_to(StatusFlag::H, r.half_carry);

    device.set_operand_8(Operand8::A, r.result);

    if operand.is_memref() || operand.is_immediate() {
        8
    } else {
        4
    }
}

/// SBC A,operand: the subtraction also takes the incoming carry flag as a
/// borrow.
pub open spec fn spec_sub_8_from_a_borrow(d: DeviceView, operand: Operand8) -> (DeviceView, u32) {
    let a = d.regs.a;
    let b = spec_operand8_value(d, operand);
    let cin: int = if d.regs.spec_get_flag(StatusFlag::C) {
        1
    } else {
        0
    };
    let result = ((a - b - cin + 256) % 256) as u8;
    let f1 = spec_set_flag_to(d.regs.f, StatusFlag::N, true);
    let f2 = spec_set_flag_to(f1, StatusFlag::Z, result == 0);
    let f3 = spec_set_flag_to(f2, StatusFlag::C, a < b + cin);
    let f4 = spec_set_flag_to(f3, StatusFlag::H, a % 16 < b % 16 + cin);
    (
        DeviceView { regs: Registers { a: result, f: f4, ..d.regs }, ..d },
        spec_alu8_cycles(operand),
    )
}

#[verifier::rlimit(100)]
pub fn subtract_operand_and_borrow_from_a(device: &mut Device, operand: Operand8) -> (cycles: u32)
    requires
        old(device)@.wf(),
    ensures
        (final (device)@, cycles) == spec_sub_8_from_a_borrow(old(device)@, operand),
        final (device)@.wf(),
{
    let a = device.get_operand_8(Operand8::A);
    let b = device.get_operand_8(operand);
    let cin: u8 = if device.regs.get_flag(StatusFlag::C) {
        1
    } else {
        0
    };

    let result = a.wrapping_sub(b).wrapping_sub(cin);
    let carry = (a as u16) < (b as u16) + (cin as u16);
    let half_carry = a % 16 < b % 16 + cin;

    device.regs.set_flag(StatusFlag::N);
    device.regs.set_flag_to(StatusFlag::Z, result == 0);
    device.regs.set_flag_to(StatusFlag::C, carry);
    device.regs.set_flag_to(StatusFlag::H, half_carry);

    device.set_operand_8(Operand8::A, result);

    if operand.is_memref() || operand.is_immediate() {
        8
    } else {
        4
    }
}

/// CP A,operand: the flags of the subtraction, with A kept.
pub open spec fn spec_compare_with_a(d: DeviceView, operand: Operand8) -> (DeviceView, u32) {
    let a = d.regs.a;
    let b = spec_operand8_value(d, operand);
    let result = ((a - b + 256) % 256) as u8;
    let f1 = spec_set_flag_to(d.regs.f, StatusFlag::N, true);
    let f2 = spec_set_flag_to(f1, StatusFlag::Z, result == 0);
    let f3 = spec_set_flag_to(f2, StatusFlag::C, a < b);
    let f4 = spec_set_flag_to(f3, StatusFlag::H, a % 16 < b % 16);
    (DeviceView { regs: Registers { f: f4, ..d.regs }, ..d }, spec_alu8_cycles(operand))
}

pub fn compare_operand_with_a(device: &mut Device, operand: Operand8) -> (cycles: u32)
    requires
        old(device)@.wf(),
    ensures
        (final (device)@, cycles) == spec_compare_with_a(old(device)@, operand),
        final (device)@.wf(),
{
    let a = device.get_operand_8(Operand8::A);
    let op = device.get_operand_8(operand);

    let r = borrow_sub_8(a, op);

    device.regs.set_flag(StatusFlag::N);
    device.regs.set_flag_to(StatusFlag::Z, r.result == 0);
    device.regs.set_flag_to(StatusFlag::C, r.carry);
    device.regs.set_flag_to(StatusFlag::H, r.half_carry);

    if operand.is_memref() || operand.is_immediate() {
        8
    } else {
        4
    }
}

/// ADC A,operand: the sum also takes the incoming carry flag.
pub open spec fn spec_add_8_to_a_carry(d: DeviceView, operand: Operand8) -> (DeviceView, u32) {
    let a = d.regs.a;
    let b = spec_operand8_value(d, operand);
    let cin: int = if d.regs.spec_get_flag(StatusFlag::C) {
        1
    } else {
        0
    };
    let result = ((a + b + cin) % 256) as u8;
    let f1 = spec_set_flag_to(d.regs.f, StatusFlag::N, false);
    let f2 = spec_set_flag_to(f1, StatusFlag::Z, result == 0);
    let f3 = spec_set_flag_to(f2, StatusFlag::C, a + b + cin > 0xFF);
    let f4 = spec_set_flag_to(f3, StatusFlag::H, a % 16 + b % 16 + cin > 0xF);
    (
        DeviceView { regs: Registers { a: result, f: f4, ..d.regs }, ..d },
        spec_alu8_cycles(operand),
    )
}

pub fn add_operand_and_carry_to_a(device: &mut Device, operand: Operand8) -> (cycles: u32)
    requires
        old(device)@.wf(),
    ensures
        (final (device)@, cycles) == spec_add_8_to_a_carry(old(device)@, operand),
        final (device)@.wf(),
{
    let a = device.get_operand_8(Operand8::A);
    let op = device.get_operand_8(operand);
    let carry_in = device.regs.get_flag(StatusFlag::C);

    let r = carry_add_8_prev_carry(a, op, carry_in);

    device.regs.clear_flag(StatusFlag::N);
    device.regs.set_flag_to(StatusFlag::Z, r.result == 0);
    device.regs.set_flag_to(StatusFlag::C, r.carry);
    device.regs.set_flag_to(StatusFlag::H, r.half_carry);

    device.set_operand_8(Operand8::A, r.result);

    if operand.is_memref() || operand.is_immediate() {
        8
    } else {
        4
    }
}

/// Law: for all bytes a and b, adding b to A holding a sets C exactly when
/// `a + b > 0xFF`, H exactly when `(a & 0xF) + (b & 0xF) > 0xF`, and Z
/// exactly when `(a + b) % 256 == 0`; N clears and A takes the wrapped sum.
pub proof fn lemma_add_flag_law(d: DeviceView, operand: Operand8)
    ensures
        ({
            let a = d.regs.a;
            let b = spec_operand8_value(d, operand);
            let r = spec_add_8_to_a(d, operand).0.regs;
            &&& r.spec_get_flag(StatusFlag::C) == (a + b > 0xFF)
            &&& r.spec_get_flag(StatusFlag::H) == ((a & 0xF) + (b & 0xF) > 0xF)
            &&& r.spec_get_flag(StatusFlag::Z) == ((a + b) % 256 == 0)
            &&& !r.spec_get_flag(StatusFlag::N)
            &&& r.a == (a + b) % 256
        }),
{
    let a = d.regs.a;
    let b = spec_operand8_value(d, operand);
    let result = ((a + b) % 256) as u8;
    let f1 = spec_set_flag_to(d.regs.f, StatusFlag::N, false);
    let f2 = spec_set_flag_to(f1, StatusFlag::Z, result == 0);
    let f3 = spec_set_flag_to(f2, StatusFlag::H, a % 16 + b % 16 > 0xF);
    crate::registers::lemma_set_flag_to_get(d.regs.f, StatusFlag::N, false);
    crate::registers::lemma_set_flag_to_get(f1, StatusFlag::Z, result == 0);
    crate::registers::lemma_set_flag_to_get(f2, StatusFlag::H, a % 16 + b % 16 > 0xF);
    crate::registers::lemma_set_flag_to_get(f3, StatusFlag::C, a + b > 0xFF);
    crate::registers::lemma_low_nibble_mask(a);
    crate::registers::lemma_low_nibble_mask(b);
}

/// Law: for all bytes a and b, subtracting b from A holding a sets C
/// exactly when `a < b` and H exactly when `(a & 0xF) < (b & 0xF)`; N sets
/// and A takes the wrapped difference.
pub proof fn lemma_sub_flag_law(d: DeviceView, operand: Operand8)
    ensures
        ({
            let a = d.regs.a;
            let b = spec_operand8_value(d, operand);
            let r = spec_sub_8_from_a(d, operand).0.regs;
            &&& r.spec_get_flag(StatusFlag::C) == (a < b)
            &&& r.spec_get_flag(StatusFlag::H) == ((a & 0xF) < (b & 0xF))
            &&& r.spec_get_flag(StatusFlag::Z) == (a == b)
            &&& r.spec_get_flag(StatusFlag::N)
            &&& r.a == (a - b + 256) % 256
        }),
{
    let a = d.regs.a;
    let b = spec_operand8_value(d, operand);
    let result = ((a - b + 256) % 256) as u8;
    let f1 = spec_set_flag_to(d.regs.f, StatusFlag::N, true);
    let f2 = spec_set_flag_to(f1, StatusFlag::Z, result == 0);
    let f3 = spec_set_flag_to(f2, StatusFlag::C, a < b);
    crate::registers::lemma_set_flag_to_get(d.regs.f, StatusFlag::N, true);
    crate::registers::lemma_set_flag_to_get(f1, StatusFlag::Z, result == 0);
    crate::registers::lemma_set_flag_to_get(f2, StatusFlag::C, a < b);
    crate::registers::lemma_set_flag_to_get(f3, StatusFlag::H, a % 16 < b % 16);
    crate::registers::lemma_low_nibble_mask(a);
    crate::registers::lemma_low_nibble_mask(b);
}

/// INC operand: the wrapped increment is stored back; Z and H report zero
/// and nibble carry, N clears, C is untouched.
pub open spec fn spec_increment_8(d: DeviceView, operand: Operand8) -> (DeviceView, u32) {
    let a = spec_operand8_value(d, operand);
    let result = ((a + 1) % 256) as u8;
    let d1 = spec_set_operand8(d, operand, result);
    let f1 = spec_set_flag_to(d1.regs.f, StatusFlag::N, false);
    let f2 = spec_set_flag_to(f1, StatusFlag::Z, result == 0);
    let f3 = spec_set_flag_to(f2, StatusFlag::H, a % 16 + 1 > 0xF);
    (
        DeviceView { regs: Registers { f: f3, ..d1.regs }, ..d1 },
        if operand.spec_is_memref() {
            12u32
        } else {
            4u32
        },
    )
}

pub fn increment_operand_8(device: &mut Device, operand: Operand8) -> (cycles: u32)
    requires
        old(device)@.wf(),
        !operand.spec_is_immediate(),
    ensures
        (final (device)@, cycles) == spec_increment_8(old(device)@, operand),
        final (device)@.wf(),
{
    let a = device.get_operand_8(operand);

    let r = carry_add_8(a, 1);

    device.set_operand_8(operand, r.result);

    device.regs.clear_flag(StatusFlag::N);
    device.regs.set_flag_to(StatusFlag::Z, r.result == 0);
    device.regs.set_flag_to(StatusFlag::H, r.half_carry);

    if operand.is_memref() {
        12
    } else {
        4
    }
}

/// DEC operand: the wrapped decrement is stored back; Z reports zero, H the
/// nibble borrow, N sets, C is untouched.
pub open spec fn spec_decrement_8(d: DeviceView, operand: Operand8) -> (DeviceView, u32) {
    let a = spec_operand8_value(d, operand);
    let result = ((a - 1 + 256) % 256) as u8;
    let f1 = spec_set_flag_to(d.regs.f, StatusFlag::N, true);
    let f2 = spec_set_flag_to(f1, StatusFlag::Z, result == 0);
    let f3 = spec_set_flag_to(f2, StatusFlag::H, a % 16 == 0);
    let d1 = DeviceView { regs: Registers { f: f3, ..d.regs }, ..d };
    (
        spec_set_operand8(d1, operand, result),
        if operand.spec_is_memref() {
            12u32
        } else {
            4u32
        },
    )
}

pub fn decrement_operand_8(device: &mut Device, operand: Operand8) -> (cycles: u32)
    requires
        old(device)@.wf(),
        !operand.spec_is_immediate(),
    ensures
        (final (device)@, cycles) == spec_decrement_8(old(device)@, operand),
        final (device)@.wf(),
{
    let op = device.get_operand_8(operand);

    let r = borrow_sub_8(op, 1);

    device.regs.set_flag(StatusFlag::N);
    device.regs.set_flag_to(StatusFlag::Z, r.result == 0);
    device.regs.set_flag_to(StatusFlag::H, op % 16 == 0);

    device.set_operand_8(operand, r.result);

    if operand.is_memref() {
        12
    } else {
        4
    }
}

/// ADD HL,operand: HL takes the wrapped 16-bit sum; C and H report the
/// 16-bit and lowest-nibble carries, N clears, Z is untouched.
pub open spec fn spec_add_to_hl(d: DeviceView, operand: Operand16) -> (DeviceView, u32) {
    let hl = d.regs.spec_hl();
    let op = crate::device::spec_operand16_value(d, operand);
    let result = ((hl + op) % 65536) as u16;
    let f1 = spec_set_flag_to(d.regs.f, StatusFlag::N, false);
    let f2 = spec_set_flag_to(f1, StatusFlag::C, hl + op > 0xFFFF);
    let f3 = spec_set_flag_to(f2, StatusFlag::H, hl % 16 + op % 16 > 0xF);
    (
        DeviceView {
            regs: Registers {
                h: (result / 256) as u8,
                l: (result % 256) as u8,
                f: f3,
                ..d.regs
            },
            ..d
        },
        8u32,
    )
}

pub fn add_operand_to_hl(device: &mut Device, operand: Operand16) -> (cycles: u32)
    requires
        old(device)@.wf(),
    ensures
        (final (device)@, cycles) == spec_add_to_hl(old(device)@, operand),
        final (device)@.wf(),
{
    let op = device.get_operand_16(operand);
    let hl = device.regs.hl();

    let r = carry_add_16(hl, op);

    device.regs.set_hl(r.result);
    device.regs.clear_flag(StatusFlag::N);
    device.regs.set_flag_to(StatusFlag::C, r.carry);
    device.regs.set_flag_to(StatusFlag::H, r.half_carry);
    8
}

/// SCF: the carry flag sets, N and H clear, Z is untouched.
pub open spec fn spec_set_carry(d: DeviceView) -> (DeviceView, u32) {
    let f1 = spec_set_flag_to(d.regs.f, StatusFlag::C, true);
    let f2 = spec_set_flag_to(f1, StatusFlag::N, false);
    let f3 = spec_set_flag_to(f2, StatusFlag::H, false);
    (DeviceView { regs: Registers { f: f3, ..d.regs }, ..d }, 4u32)
}

pub fn set_carry_flag(device: &mut Device) -> (cycles: u32)
    ensures
        (final (device)@, cycles) == spec_set_carry(old(device)@),
        old(device)@.wf() ==> final (device)@.wf(),
{
    device.regs.set_flag(StatusFlag::C);
    device.regs.clear_flag(StatusFlag::N);
    device.regs.clear_flag(StatusFlag::H);
    4
}

/// CCF: the carry flag flips, N and H clear, Z is untouched.
pub open spec fn spec_flip_carry(d: DeviceView) -> (DeviceView, u32) {
    let f1 = spec_set_flag_to(d.regs.f, StatusFlag::C, !d.regs.spec_get_flag(StatusFlag::C));
    let f2 = spec_set_flag_to(f1, StatusFlag::N, false);
    let f3 = spec_set_flag_to(f2, StatusFlag::H, false);
    (DeviceView { regs: Registers { f: f3, ..d.regs }, ..d }, 4u32)
}

pub fn flip_carry_flag(device: &mut Device) -> (cycles: u32)
    ensures
        (final (device)@, cycles) == spec_flip_carry(old(device)@),
        old(device)@.wf() ==> final (device)@.wf(),
{
    let carry = device.regs.get_flag(StatusFlag::C);
    device.regs.set_flag_to(StatusFlag::C, !carry);
    device.regs.clear_flag(StatusFlag::N);
    device.regs.clear_flag(StatusFlag::H);
    4
}

/// INC rr: the pair takes its wrapped 16-bit increment; no flag changes.
pub open spec fn spec_increment_16(d: DeviceView, operand: Operand16) -> (DeviceView, u32) {
    let op = crate::device::spec_operand16_value(d, operand);
    (spec_set_operand16(d, operand, ((op + 1) % 65536) as u16), 8u32)
}

pub fn increment_operand_16(device: &mut Device, operand: Operand16) -> (cycles: u32)
    ensures
        (final (device)@, cycles) == spec_increment_16(old(device)@, operand),
        old(device)@.wf() ==> final (device)@.wf(),
{
    let op = device.get_operand_16(operand);
    proof {
        assert(op.wrapping_add(1) == ((op + 1) % 65536) as u16);
    }
    device.set_operand_16(operand, op.wrapping_add(1));
    8
}

/// DEC rr: the pair takes its wrapped 16-bit decrement; no flag changes.
pub open spec fn spec_decrement_16(d: DeviceView, operand: Operand16) -> (DeviceView, u32) {
    let op = crate::device::spec_operand16_value(d, operand);
    (spec_set_operand16(d, operand, ((op + 65535) % 65536) as u16), 8u32)
}

pub fn decrement_operand_16(device: &mut Device, operand: Operand16) -> (cycles: u32)
    ensures
        (final (device)@, cycles) == spec_decrement_16(old(device)@, operand),
        old(device)@.wf() ==> final (device)@.wf(),
{
    let op = device.get_operand_16(operand);
    proof {
        assert(op.wrapping_sub(1) == ((op + 65535) % 65536) as u16);
    }
    device.set_operand_16(operand, op.wrapping_sub(1));
    8
}

} // verus!
