//! Splitting and joining 8/16-bit values, single-bit access, and the
//! carry / half-carry arithmetic that feeds the CPU flag register.

use vstd::prelude::*;

verus! {

/// High and low byte of a 16-bit value.
pub struct BytePair {
    pub high: u8,
    pub low: u8,
}

/// Result of an addition or subtraction together with the carry and
/// half-carry information the flag register needs.
pub struct CarryAddResult<T> {
    pub result: T,
    pub carry: bool,
    pub half_carry: bool,
}

pub fn u16_to_pair(value: u16) -> (r: BytePair)
    ensures
        r.high == value / 256,
        r.low == value % 256,
{
    BytePair { high: (value / 256) as u8, low: (value % 256) as u8 }
}

pub fn u16_from_bytes(high: u8, low: u8) -> (r: u16)
    ensures
        r == high * 256 + low,
{
    (high as u16) * 256 + (low as u16)
}

/// The eight bits of a byte, most significant first, each as 0 or 1.
pub fn to_bit_tuple(byte: u8) -> (r: (u8, u8, u8, u8, u8, u8, u8, u8))
    ensures
        r.0 == (byte / 128) % 2,
        r.1 == (byte / 64) % 2,
        r.2 == (byte / 32) % 2,
        r.3 == (byte / 16) % 2,
        r.4 == (byte / 8) % 2,
        r.5 == (byte / 4) % 2,
        r.6 == (byte / 2) % 2,
        r.7 == byte % 2,
{
    (
        (byte / 128) % 2,
        (byte / 64) % 2,
        (byte / 32) % 2,
        (byte / 16) % 2,
        (byte / 8) % 2,
        (byte / 4) % 2,
        (byte / 2) % 2,
        byte % 2,
    )
}

pub fn to_byte_2(b1: u8, b0: u8) -> (r: u8)
    requires
        b1 < 2,
        b0 < 2,
    ensures
        r == 2 * b1 + b0,
{
    2 * b1 + b0
}

pub fn to_byte_3(b2: u8, b1: u8, b0: u8) -> (r: u8)
    requires
        b2 < 2,
        b1 < 2,
        b0 < 2,
    ensures
        r == 4 * b2 + 2 * b1 + b0,
{
    4 * b2 + 2 * b1 + b0
}

/// Single-bit access on a byte; bit 0 is the least significant.
pub trait BitExtensions: Sized {
    spec fn spec_get_bit(self, n: u8) -> bool;

    spec fn spec_set_bit(self, n: u8) -> Self;

    spec fn spec_clear_bit(self, n: u8) -> Self;

    fn get_bit(self, n: u8) -> (r: bool)
        requires
            n < 8,
        ensures
            r == self.spec_get_bit(n),
    ;

    fn set_bit(self, n: u8) -> (r: Self)
        requires
            n < 8,
        ensures
            r == self.spec_set_bit(n),
    ;

    fn clear_bit(self, n: u8) -> (r: Self)
        requires
            n < 8,
        ensures
            r == self.spec_clear_bit(n),
    ;

    fn set_bit_to(self, n: u8, value: bool) -> (r: Self)
        requires
            n < 8,
        ensures
            r == if value {
                self.spec_set_bit(n)
            } else {
                self.spec_clear_bit(n)
            },
    ;
}

impl BitExtensions for u8 {
    open spec fn spec_get_bit(self, n: u8) -> bool {
        self & (1u8 << n) != 0
    }

    open spec fn spec_set_bit(self, n: u8) -> u8 {
        self | (1u8 << n)
    }

    open spec fn spec_clear_bit(self, n: u8) -> u8 {
        self & !(1u8 << n)
    }

    fn get_bit(self, n: u8) -> (r: bool) {
        self & (1u8 << n) != 0
    }

    fn set_bit(self, n: u8) -> (r: u8) {
        self | (1u8 << n)
    }

    fn clear_bit(self, n: u8) -> (r: u8) {
        self & !(1u8 << n)
    }

    fn set_bit_to(self, n: u8, value: bool) -> (r: u8) {
        if value {
            self.set_bit(n)
        } else {
            self.clear_bit(n)
        }
    }
}

pub trait BoolExtensions {
    fn to_u8(self) -> (r: u8)
        ensures
            r <= 1,
    ;
}

impl BoolExtensions for bool {
    fn to_u8(self) -> (r: u8)
        ensures
            r == if self {
                1u8
            } else {
                0u8
            },
    {
        if self {
            1
        } else {
            0
        }
    }
}

/// 8-bit addition: wrapped sum, 8-bit carry, and carry out of the low nibble.
pub fn carry_add_8(a: u8, b: u8) -> (r: CarryAddResult<u8>)
    ensures
        r.result == (a + b) % 256,
        r.carry == (a + b > 0xFF),
        r.half_carry == (a % 16 + b % 16 > 0xF),
{
    let result = a.wrapping_add(b);
    let carry = (a as u16) + (b as u16) > 0xFF;
    let half_carry = a % 16 + b % 16 > 0xF;
    CarryAddResult { result, carry, half_carry }
}

/// 8-bit subtraction: wrapped difference, borrow, and borrow into the low nibble.
pub fn borrow_sub_8(a: u8, b: u8) -> (r: CarryAddResult<u8>)
    ensures
        r.result == (a - b + 256) % 256,
        r.carry == (a < b),
        r.half_carry == (a % 16 < b % 16),
{
    let result = a.wrapping_sub(b);
    let carry = a < b;
    let half_carry = a % 16 < b % 16;
    CarryAddResult { result, carry, half_carry }
}

/// 8-bit addition with an incoming carry bit.
pub fn carry_add_8_prev_carry(a: u8, b: u8, prev_carry: bool) -> (r: CarryAddResult<u8>)
    ensures
        r.result == (a + b + (if prev_carry { 1int } else { 0int })) % 256,
        r.carry == (a + b + (if prev_carry { 1int } else { 0int }) > 0xFF),
        r.half_carry == (a % 16 + b % 16 + (if prev_carry { 1int } else { 0int }) > 0xF),
{
    let c: u8 = prev_carry.to_u8();
    let result = a.wrapping_add(b).wrapping_add(c);
    let carry = (a as u16) + (b as u16) + (c as u16) > 0xFF;
    let half_carry = a % 16 + b % 16 + c > 0xF;
    CarryAddResult { result, carry, half_carry }
}

/// 16-bit addition: wrapped sum, 16-bit carry, and carry out of the lowest nibble.
pub fn carry_add_16(a: u16, b: u16) -> (r: CarryAddResult<u16>)
    ensures
        r.result == (a + b) % 65536,
        r.carry == (a + b > 0xFFFF),
        r.half_carry == (a % 16 + b % 16 > 0xF),
{
    let result = a.wrapping_add(b);
    let carry = (a as u32) + (b as u32) > 0xFFFF;
    let half_carry = a % 16 + b % 16 > 0xF;
    CarryAddResult { result, carry, half_carry }
}

} // verus!
