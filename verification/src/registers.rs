//! The CPU register file: eight 8-bit registers, SP and PC, the four status
//! flags at fixed positions in F, and the 16-bit pair views AF/BC/DE/HL.

use vstd::prelude::*;

verus! {

/// The four status flags and their fixed bit positions in F:
/// Z = bit 7, N = bit 6, H = bit 5, C = bit 4.
#[derive(Clone, Copy, Debug, PartialEq, Eq, Structural)]
pub enum StatusFlag {
    Z,
    N,
    H,
    C,
}

pub open spec fn flag_mask(flag: StatusFlag) -> u8 {
    match flag {
        StatusFlag::Z => 0x80,
        StatusFlag::N => 0x40,
        StatusFlag::H => 0x20,
        StatusFlag::C => 0x10,
    }
}

/// The flag byte after one flag is driven to a value.
pub open spec fn spec_set_flag_to(f: u8, flag: StatusFlag, to: bool) -> u8 {
    if to {
        f | flag_mask(flag)
    } else {
        f & !flag_mask(flag)
    }
}

impl StatusFlag {
    pub fn mask(self) -> (r: u8)
        ensures
            r == flag_mask(self),
    {
        match self {
            StatusFlag::Z => 0x80,
            StatusFlag::N => 0x40,
            StatusFlag::H => 0x20,
            StatusFlag::C => 0x10,
        }
    }
}

/// Bit facts about the four flag masks: setting or clearing one flag leaves
/// every other flag and the low nibble of F unchanged.
proof fn lemma_flag_bit_ops(f: u8, m: u8, g: u8)
    by (bit_vector)
    requires
        m == 0x80 || m == 0x40 || m == 0x20 || m == 0x10,
        g == 0x80 || g == 0x40 || g == 0x20 || g == 0x10,
    ensures
        (f | m) & m != 0,
        (f & !m) & m == 0,
        g != m ==> (f | m) & g == f & g,
        g != m ==> (f & !m) & g == f & g,
        (f | m) % 16 == f % 16,
        (f & !m) % 16 == f % 16,
{
}

proof fn lemma_flag_ops_all(f: u8, m: u8)
    requires
        m == 0x80 || m == 0x40 || m == 0x20 || m == 0x10,
    ensures
        (f | m) & m != 0,
        (f & !m) & m == 0,
        forall|g: StatusFlag|
            flag_mask(g) != m ==> (f | m) & flag_mask(g) == f & flag_mask(g),
        forall|g: StatusFlag|
            flag_mask(g) != m ==> (f & !m) & flag_mask(g) == f & flag_mask(g),
        (f | m) % 16 == f % 16,
        (f & !m) % 16 == f % 16,
{
    lemma_flag_bit_ops(f, m, 0x80);
    lemma_flag_bit_ops(f, m, 0x40);
    lemma_flag_bit_ops(f, m, 0x20);
    lemma_flag_bit_ops(f, m, 0x10);
    assert forall|g: StatusFlag| flag_mask(g) != m implies (f | m) & flag_mask(g) == f
        & flag_mask(g) by {
        assert(flag_mask(g) == 0x80 || flag_mask(g) == 0x40 || flag_mask(g) == 0x20 || flag_mask(g)
            == 0x10);
    }
    assert forall|g: StatusFlag| flag_mask(g) != m implies (f & !m) & flag_mask(g) == f
        & flag_mask(g) by {
        assert(flag_mask(g) == 0x80 || flag_mask(g) == 0x40 || flag_mask(g) == 0x20 || flag_mask(g)
            == 0x10);
    }
}

/// Driving one flag reads back as written, leaves every other flag alone,
/// and keeps the low nibble of F.
pub proof fn lemma_set_flag_to_get(f: u8, flag: StatusFlag, to: bool)
    ensures
        (spec_set_flag_to(f, flag, to) & flag_mask(flag) != 0) == to,
        forall|g: StatusFlag|
            g != flag ==> (spec_set_flag_to(f, flag, to) & flag_mask(g) != 0) == (f & flag_mask(g)
                != 0),
        spec_set_flag_to(f, flag, to) % 16 == f % 16,
{
    lemma_flag_ops_all(f, flag_mask(flag));
    assert forall|g: StatusFlag| g != flag implies flag_mask(g) != flag_mask(flag) by {}
}

/// The low nibble of a byte, as a mask and as a remainder.
pub proof fn lemma_low_nibble_mask(x: u8)
    by (bit_vector)
    ensures
        x & 0xF == x % 16,
{
}

#[derive(Debug, Clone)]
pub struct Registers {
    pub a: u8,
    pub f: u8,
    pub b: u8,
    pub c: u8,
    pub d: u8,
    pub e: u8,
    pub h: u8,
    pub l: u8,
    pub sp: u16,
    pub pc: u16,
}

impl Registers {
    /// The flag register keeps its low nibble clear.
    pub open spec fn wf(self) -> bool {
        self.f % 16 == 0
    }

    pub open spec fn spec_get_flag(self, flag: StatusFlag) -> bool {
        self.f & flag_mask(flag) != 0
    }

    pub open spec fn spec_af(self) -> u16 {
        (self.a * 256 + self.f) as u16
    }

    pub open spec fn spec_bc(self) -> u16 {
        (self.b * 256 + self.c) as u16
    }

    pub open spec fn spec_de(self) -> u16 {
        (self.d * 256 + self.e) as u16
    }

    pub open spec fn spec_hl(self) -> u16 {
        (self.h * 256 + self.l) as u16
    }

    pub fn new() -> (r: Registers)
        ensures
            r.a == 0 && r.f == 0 && r.b == 0 && r.c == 0,
            r.d == 0 && r.e == 0 && r.h == 0 && r.l == 0,
            r.sp == 0 && r.pc == 0,
            r.wf(),
    {
        Registers { a: 0, f: 0, b: 0, c: 0, d: 0, e: 0, h: 0, l: 0, sp: 0, pc: 0 }
    }

    pub fn get_flag(&self, flag: StatusFlag) -> (r: bool)
        ensures
            r == self.spec_get_flag(flag),
    {
        self.f & flag.mask() != 0
    }

    pub fn set_flag(&mut self, flag: StatusFlag)
        ensures
            final (self).f == old(self).f | flag_mask(flag),
            forall|g: StatusFlag|
                final (self).spec_get_flag(g) == if g == flag {
                    true
                } else {
                    old(self).spec_get_flag(g)
                },
            final (self).f % 16 == old(self).f % 16,
            *final (self) == (Registers { f: final (self).f, ..*old(self) }),
    {
        let m = flag.mask();
        proof {
            lemma_flag_ops_all(self.f, m);
            assert forall|g: StatusFlag| g != flag implies flag_mask(g) != flag_mask(flag) by {}
        }
        self.f = self.f | m;
    }

    pub fn clear_flag(&mut self, flag: StatusFlag)
        ensures
            final (self).f == old(self).f & !flag_mask(flag),
            forall|g: StatusFlag|
                final (self).spec_get_flag(g) == if g == flag {
                    false
                } else {
                    old(self).spec_get_flag(g)
                },
            final (self).f % 16 == old(self).f % 16,
            *final (self) == (Registers { f: final (self).f, ..*old(self) }),
    {
        let m = flag.mask();
        proof {
            lemma_flag_ops_all(self.f, m);
            assert forall|g: StatusFlag| g != flag implies flag_mask(g) != flag_mask(flag) by {}
        }
        self.f = self.f & !m;
    }

    pub fn set_flag_to(&mut self, flag: StatusFlag, to: bool)
        ensures
            final (self).f == if to {
                old(self).f | flag_mask(flag)
            } else {
                old(self).f & !flag_mask(flag)
            },
            forall|g: StatusFlag|
                final (self).spec_get_flag(g) == if g == flag {
                    to
                } else {
                    old(self).spec_get_flag(g)
                },
            final (self).f % 16 == old(self).f % 16,
            *final (self) == (Registers { f: final (self).f, ..*old(self) }),
    {
        if to {
            self.set_flag(flag)
        } else {
            self.clear_flag(flag)
        }
    }

    pub fn af(&self) -> (r: u16)
        ensures
            r == self.spec_af(),
    {
        (self.a as u16) * 256 + (self.f as u16)
    }

    pub fn bc(&self) -> (r: u16)
        ensures
            r == self.spec_bc(),
    {
        (self.b as u16) * 256 + (self.c as u16)
    }

    pub fn de(&self) -> (r: u16)
        ensures
            r == self.spec_de(),
    {
        (self.d as u16) * 256 + (self.e as u16)
    }

    pub fn hl(&self) -> (r: u16)
        ensures
            r == self.spec_hl(),
    {
        (self.h as u16) * 256 + (self.l as u16)
    }

    /// Writing AF keeps only the flag bits of the low byte: the low nibble
    /// of F always reads back as zero.
    pub fn set_af(&mut self, value: u16)
        ensures
            final (self).a == value / 256,
            final (self).f == value % 256 / 16 * 16,
            final (self).spec_af() == value / 16 * 16,
            final (self).wf(),
            *final (self) == (Registers { a: final (self).a, f: final (self).f, ..*old(self) }),
    {
        self.a = (value / 256) as u8;
        let low = (value % 256) as u8;
        self.f = low / 16 * 16;
    }

    pub fn set_bc(&mut self, value: u16)
        ensures
            final (self).b == value / 256,
            final (self).c == value % 256,
            final (self).spec_bc() == value,
            *final (self) == (Registers { b: final (self).b, c: final (self).c, ..*old(self) }),
    {
        self.b = (value / 256) as u8;
        self.c = (value % 256) as u8;
    }

    pub fn set_de(&mut self, value: u16)
        ensures
            final (self).d == value / 256,
            final (self).e == value % 256,
            final (self).spec_de() == value,
            *final (self) == (Registers { d: final (self).d, e: final (self).e, ..*old(self) }),
    {
        self.d = (value / 256) as u8;
        self.e = (value % 256) as u8;
    }

    pub fn set_hl(&mut self, value: u16)
        ensures
            final (self).h == value / 256,
            final (self).l == value % 256,
            final (self).spec_hl() == value,
            *final (self) == (Registers { h: final (self).h, l: final (self).l, ..*old(self) }),
    {
        self.h = (value / 256) as u8;
        self.l = (value % 256) as u8;
    }
}

/// Law: a value stored in a register pair reads back unchanged for BC, DE
/// and HL; for AF the low nibble of F is forced to zero, so reading back
/// yields the value with its low four bits cleared.
pub proof fn lemma_pair_round_trip(v: u16)
    ensures
        forall|r: Registers| #[trigger] pair_set_bc(r, v).spec_bc() == v,
        forall|r: Registers| #[trigger] pair_set_de(r, v).spec_de() == v,
        forall|r: Registers| #[trigger] pair_set_hl(r, v).spec_hl() == v,
        forall|r: Registers| #[trigger] pair_set_af(r, v).spec_af() == v & 0xFFF0,
        forall|r: Registers| pair_set_af(r, v).wf(),
{
    assert(v / 16 * 16 == v & 0xFFF0) by (bit_vector);
}

/// The state after `set_bc(v)`, as the contract of `set_bc` describes it.
pub open spec fn pair_set_bc(r: Registers, v: u16) -> Registers {
    Registers { b: (v / 256) as u8, c: (v % 256) as u8, ..r }
}

pub open spec fn pair_set_de(r: Registers, v: u16) -> Registers {
    Registers { d: (v / 256) as u8, e: (v % 256) as u8, ..r }
}

pub open spec fn pair_set_hl(r: Registers, v: u16) -> Registers {
    Registers { h: (v / 256) as u8, l: (v % 256) as u8, ..r }
}

pub open spec fn pair_set_af(r: Registers, v: u16) -> Registers {
    Registers { a: (v / 256) as u8, f: (v % 256 / 16 * 16) as u8, ..r }
}

} // verus!
