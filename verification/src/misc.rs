//! The interrupt-enable instructions and the decimal adjust DAA, which
//! corrects A after BCD addition or subtraction.

use vstd::prelude::*;

use crate::device::{Device, DeviceView};
use crate::registers::{spec_set_flag_to, Registers, StatusFlag};

verus! {

/// EI: the master interrupt enable turns on; 4 cycles.
pub fn enable_interrupts(device: &mut Device) -> (cycles: u32)
    ensures
        final (device)@ == (DeviceView { interrupts_enabled: true, ..old(device)@ }),
        cycles == 4,
        old(device)@.wf() ==> final (device)@.wf(),
{
    device.interrupts_enabled = true;
    4
}

/// DI: the master interrupt enable turns off; 4 cycles.
pub fn disable_interrupts(device: &mut Device) -> (cycles: u32)
    ensures
        final (device)@ == (DeviceView { interrupts_enabled: false, ..old(device)@ }),
        cycles == 4,
        old(device)@.wf() ==> final (device)@.wf(),
{
    device.interrupts_enabled = false;
    4
}

/// The BCD correction added to or subtracted from A: 0x06 for the low
/// nibble when H is set or (outside subtraction) the nibble exceeds 9, plus
/// 0x60 when C is set or (outside subtraction) A exceeds 0x99.
pub open spec fn spec_daa_correction(a: u8, n: bool, h: bool, c: bool) -> u8 {
    (if h || (!n && a % 16 > 9) {
        0x06u8
    } else {
        0u8
    } + if c || (!n && a > 0x99) {
        0x60u8
    } else {
        0u8
    }) as u8
}

/// The adjusted accumulator: the correction is subtracted after a
/// subtraction (N set) and added otherwise, wrapping.
pub open spec fn spec_daa_value(a: u8, n: bool, h: bool, c: bool) -> u8 {
    let correction = spec_daa_correction(a, n, h, c);
    if n {
        ((a - correction + 256) % 256) as u8
    } else {
        ((a + correction) % 256) as u8
    }
}

/// DAA: A takes its decimal adjustment; C sets when the high correction was
/// applied (and is never cleared), H clears, Z reports a zero result, N is
/// untouched.
pub open spec fn spec_daa(d: DeviceView) -> (DeviceView, u32) {
    let a = d.regs.a;
    let n = d.regs.spec_get_flag(StatusFlag::N);
    let h = d.regs.spec_get_flag(StatusFlag::H);
    let c = d.regs.spec_get_flag(StatusFlag::C);
    let value = spec_daa_value(a, n, h, c);
    let f1 = if c || (!n && a > 0x99) {
        spec_set_flag_to(d.regs.f, StatusFlag::C, true)
    } else {
        d.regs.f
    };
    let f2 = spec_set_flag_to(f1, StatusFlag::H, false);
    let f3 = spec_set_flag_to(f2, StatusFlag::Z, value == 0);
    (DeviceView { regs: Registers { a: value, f: f3, ..d.regs }, ..d }, 8u32)
}

pub fn bcd_correct_a(device: &mut Device) -> (cycles: u32)
    ensures
        (final (device)@, cycles) == spec_daa(old(device)@),
        old(device)@.wf() ==> final (device)@.wf(),
{
    let value = device.regs.a;
    let h = device.regs.get_flag(StatusFlag::H);
    let n = device.regs.get_flag(StatusFlag::N);
    let c = device.regs.get_flag(StatusFlag::C);

    let mut correction: u8 = 0;
    if h || (!n && value % 16 > 9) {
        correction = correction + 0x06;
    }
    if c || (!n && value > 0x99) {
        correction = correction + 0x60;
        device.regs.set_flag(StatusFlag::C);
    }

    let corrected = if n {
        value.wrapping_sub(correction)
    } else {
        value.wrapping_add(correction)
    };
    device.regs.a = corrected;

    device.regs.clear_flag(StatusFlag::H);
    device.regs.set_flag_to(StatusFlag::Z, corrected == 0);

    8
}

proof fn lemma_daa_add_arith(d1: u8, d2: u8, e1: u8, e2: u8)
    by (bit_vector)
    requires
        d1 < 10,
        d2 < 10,
        e1 < 10,
        e2 < 10,
    ensures
        ({
            let a = (16 * d1 + d2) as u8;
            let b = (16 * e1 + e2) as u8;
            let s = 10 * d1 + d2 + 10 * e1 + e2;
            let r = ((a + b) % 256) as u8;
            let carry = a + b > 255;
            let half = a % 16 + b % 16 > 15;
            spec_daa_value(r, false, half, carry) == 16 * ((s % 100) / 10) + s % 10 && (carry || r
                > 0x99) == (s >= 100)
        }),
{
}

proof fn lemma_daa_sub_arith(d1: u8, d2: u8, e1: u8, e2: u8)
    by (bit_vector)
    requires
        d1 < 10,
        d2 < 10,
        e1 < 10,
        e2 < 10,
    ensures
        ({
            let a = (16 * d1 + d2) as u8;
            let b = (16 * e1 + e2) as u8;
            let r = ((a - b + 256) % 256) as u8;
            let half = a % 16 < b % 16;
            let carry = a < b;
            let diff = (10 * d1 + d2 - 10 * e1 - e2 + 100) % 100;
            spec_daa_value(r, true, half, carry) == 16 * (diff / 10) + diff % 10 && carry == (10
                * d1 + d2 < 10 * e1 + e2)
        }),
{
}

/// Law: with A holding the BCD encoding of a two-digit number, adding the
/// BCD encoding of another and applying the decimal adjust leaves in A the
/// BCD encoding of the decimal sum modulo 100, with C set exactly when the
/// sum reached 100.
#[verifier::rlimit(100)]
pub proof fn lemma_daa_add_round_trip(d: DeviceView, d1: u8, d2: u8, e1: u8, e2: u8)
    requires
        d1 < 10,
        d2 < 10,
        e1 < 10,
        e2 < 10,
        d.regs.a == 16 * d1 + d2,
    ensures
        ({
            let added = crate::alu::spec_add_8_to_a(
                d,
                crate::instruction::Operand8::Immediate((16 * e1 + e2) as u8),
            ).0;
            let adjusted = spec_daa(added).0;
            let s = 10 * d1 + d2 + 10 * e1 + e2;
            &&& adjusted.regs.a == 16 * ((s % 100) / 10) + s % 10
            &&& adjusted.regs.spec_get_flag(StatusFlag::C) == (s >= 100)
        }),
{
    let a = d.regs.a;
    let b = (16 * e1 + e2) as u8;
    let result = ((a + b) % 256) as u8;
    let f1 = spec_set_flag_to(d.regs.f, StatusFlag::N, false);
    let f2 = spec_set_flag_to(f1, StatusFlag::Z, result == 0);
    let f3 = spec_set_flag_to(f2, StatusFlag::H, a % 16 + b % 16 > 0xF);
    let f4 = spec_set_flag_to(f3, StatusFlag::C, a + b > 0xFF);
    crate::registers::lemma_set_flag_to_get(d.regs.f, StatusFlag::N, false);
    crate::registers::lemma_set_flag_to_get(f1, StatusFlag::Z, result == 0);
    crate::registers::lemma_set_flag_to_get(f2, StatusFlag::H, a % 16 + b % 16 > 0xF);
    crate::registers::lemma_set_flag_to_get(f3, StatusFlag::C, a + b > 0xFF);

    let half = a % 16 + b % 16 > 0xF;
    let carry = a + b > 0xFF;
    let cond = carry || (result > 0x99);
    let g1 = if cond {
        spec_set_flag_to(f4, StatusFlag::C, true)
    } else {
        f4
    };
    if cond {
        crate::registers::lemma_set_flag_to_get(f4, StatusFlag::C, true);
    }
    let g2 = spec_set_flag_to(g1, StatusFlag::H, false);
    crate::registers::lemma_set_flag_to_get(g1, StatusFlag::H, false);
    let value = spec_daa_value(result, false, half, carry);
    crate::registers::lemma_set_flag_to_get(g2, StatusFlag::Z, value == 0);

    lemma_daa_add_arith(d1, d2, e1, e2);
}

/// Law: the decimal adjust after a BCD subtraction likewise leaves in A the
/// BCD encoding of the decimal difference modulo 100, with C set exactly
/// when the subtraction borrowed.
#[verifier::rlimit(100)]
#[verifier::spinoff_prover]
pub proof fn lemma_daa_sub_round_trip(d: DeviceView, d1: u8, d2: u8, e1: u8, e2: u8)
    requires
        d1 < 10,
        d2 < 10,
        e1 < 10,
        e2 < 10,
        d.regs.a == 16 * d1 + d2,
    ensures
        ({
            let subtracted = crate::alu::spec_sub_8_from_a(
                d,
                crate::instruction::Operand8::Immediate((16 * e1 + e2) as u8),
            ).0;
            let adjusted = spec_daa(subtracted).0;
            let diff = (10 * d1 + d2 - 10 * e1 - e2 + 100) % 100;
            &&& adjusted.regs.a == 16 * (diff / 10) + diff % 10
            &&& adjusted.regs.spec_get_flag(StatusFlag::C) == (10 * d1 + d2 < 10 * e1 + e2)
        }),
{
    let a = d.regs.a;
    let b = (16 * e1 + e2) as u8;
    let result = ((a - b + 256) % 256) as u8;
    let f1 = spec_set_flag_to(d.regs.f, StatusFlag::N, true);
    let f2 = spec_set_flag_to(f1, StatusFlag::Z, result == 0);
    let f3 = spec_set_flag_to(f2, StatusFlag::C, a < b);
    let f4 = spec_set_flag_to(f3, StatusFlag::H, a % 16 < b % 16);
    crate::registers::lemma_set_flag_to_get(d.regs.f, StatusFlag::N, true);
    crate::registers::lemma_set_flag_to_get(f1, StatusFlag::Z, result == 0);
    crate::registers::lemma_set_flag_to_get(f2, StatusFlag::C, a < b);
    crate::registers::lemma_set_flag_to_get(f3, StatusFlag::H, a % 16 < b % 16);

    assert(f4 & crate::registers::flag_mask(StatusFlag::N) != 0);
    assert((f4 & crate::registers::flag_mask(StatusFlag::C) != 0) == (a < b));
    assert((f4 & crate::registers::flag_mask(StatusFlag::H) != 0) == (a % 16 < b % 16));

    let half = a % 16 < b % 16;
    let carry = a < b;
    let g1 = if carry {
        spec_set_flag_to(f4, StatusFlag::C, true)
    } else {
        f4
    };
    if carry {
        crate::registers::lemma_set_flag_to_get(f4, StatusFlag::C, true);
    }
    let g2 = spec_set_flag_to(g1, StatusFlag::H, false);
    crate::registers::lemma_set_flag_to_get(g1, StatusFlag::H, false);
    let value = spec_daa_value(result, true, half, carry);
    crate::registers::lemma_set_flag_to_get(g2, StatusFlag::Z, value == 0);

    lemma_daa_sub_arith(d1, d2, e1, e2);
}

} // verus!
