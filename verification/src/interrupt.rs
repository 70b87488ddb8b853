//! The interrupt controller: two 5-bit registers, IE (enable) and IF
//! (request), and priority-ordered dispatch. VBlank has the highest
//! priority (lowest bit), joypad the lowest.

use vstd::prelude::*;

use crate::constants::{
    INTERRUPT_HANDLER_JOYPAD, INTERRUPT_HANDLER_LCD, INTERRUPT_HANDLER_SERIAL,
    INTERRUPT_HANDLER_TIMER, INTERRUPT_HANDLER_VBLANK,
};

verus! {

#[derive(Debug, Clone, Copy, PartialEq, Eq, Structural)]
pub enum Interrupt {
    LCDVBlank,
    LCDController,
    TimerOverflow,
    EndOfSerialIO,
    JoyPad,
}

/// The bit each interrupt source occupies in IE and IF.
pub open spec fn interrupt_mask(interrupt: Interrupt) -> u8 {
    match interrupt {
        Interrupt::LCDVBlank => 0x01,
        Interrupt::LCDController => 0x02,
        Interrupt::TimerOverflow => 0x04,
        Interrupt::EndOfSerialIO => 0x08,
        Interrupt::JoyPad => 0x10,
    }
}

/// The handler address each interrupt source jumps to.
pub open spec fn spec_handler_address(interrupt: Interrupt) -> u16 {
    match interrupt {
        Interrupt::LCDVBlank => 0x0040,
        Interrupt::LCDController => 0x0048,
        Interrupt::TimerOverflow => 0x0050,
        Interrupt::EndOfSerialIO => 0x0058,
        Interrupt::JoyPad => 0x0060,
    }
}

impl Interrupt {
    pub fn to_mask_bit(self) -> (r: u8)
        ensures
            r == interrupt_mask(self),
    {
        match self {
            Interrupt::LCDVBlank => 0x01,
            Interrupt::LCDController => 0x02,
            Interrupt::TimerOverflow => 0x04,
            Interrupt::EndOfSerialIO => 0x08,
            Interrupt::JoyPad => 0x10,
        }
    }

    pub fn get_handler_address(self) -> (r: u16)
        ensures
            r == spec_handler_address(self),
    {
        match self {
            Interrupt::LCDVBlank => INTERRUPT_HANDLER_VBLANK,
            Interrupt::LCDController => INTERRUPT_HANDLER_LCD,
            Interrupt::TimerOverflow => INTERRUPT_HANDLER_TIMER,
            Interrupt::EndOfSerialIO => INTERRUPT_HANDLER_SERIAL,
            Interrupt::JoyPad => INTERRUPT_HANDLER_JOYPAD,
        }
    }
}

/// The pending interrupt with the highest priority: the lowest set bit of
/// `enabled & requested`, or nothing when no enabled interrupt is requested.
pub open spec fn spec_next_interrupt(enabled: u8, requested: u8) -> Option<Interrupt> {
    let pending = enabled & requested;
    if pending & 0x01 != 0 {
        Some(Interrupt::LCDVBlank)
    } else if pending & 0x02 != 0 {
        Some(Interrupt::LCDController)
    } else if pending & 0x04 != 0 {
        Some(Interrupt::TimerOverflow)
    } else if pending & 0x08 != 0 {
        Some(Interrupt::EndOfSerialIO)
    } else if pending & 0x10 != 0 {
        Some(Interrupt::JoyPad)
    } else {
        None
    }
}

proof fn lemma_five_bit_ops(r: u8, v: u8, m: u8)
    by (bit_vector)
    requires
        r < 32,
        m == 0x01 || m == 0x02 || m == 0x04 || m == 0x08 || m == 0x10,
    ensures
        (r | m) < 32,
        (r & !m) < 32,
        v % 32 == v & 0x1F,
{
}

pub struct InterruptRegisters {
    pub enabled: u8,
    pub requested: u8,
}

impl InterruptRegisters {
    /// IE and IF hold five bits each.
    pub open spec fn wf(self) -> bool {
        self.enabled < 32 && self.requested < 32
    }

    pub open spec fn spec_enabled(self) -> u8 {
        self.enabled
    }

    pub open spec fn spec_requested(self) -> u8 {
        self.requested
    }

    pub fn new() -> (r: InterruptRegisters)
        ensures
            r.enabled == 0 && r.requested == 0,
            r.wf(),
    {
        InterruptRegisters { enabled: 0, requested: 0 }
    }

    pub fn get_enable(&self) -> (r: u8)
        ensures
            r == self.enabled,
    {
        self.enabled
    }

    /// Writing IE keeps the five interrupt bits of the value.
    pub fn set_enable(&mut self, value: u8)
        ensures
            final (self).enabled == value % 32,
            final (self).requested == old(self).requested,
            old(self).wf() ==> final (self).wf(),
    {
        self.enabled = value % 32;
    }

    pub fn enable_interrupt(&mut self, interrupt: Interrupt)
        requires
            old(self).wf(),
        ensures
            final (self).enabled == old(self).enabled | interrupt_mask(interrupt),
            final (self).requested == old(self).requested,
            final (self).wf(),
    {
        let m = interrupt.to_mask_bit();
        proof {
            lemma_five_bit_ops(self.enabled, 0, m);
        }
        self.enabled = self.enabled | m;
    }

    pub fn disable_interrupt(&mut self, interrupt: Interrupt)
        requires
            old(self).wf(),
        ensures
            final (self).enabled == old(self).enabled & !interrupt_mask(interrupt),
            final (self).requested == old(self).requested,
            final (self).wf(),
    {
        let m = interrupt.to_mask_bit();
        proof {
            lemma_five_bit_ops(self.enabled, 0, m);
        }
        self.enabled = self.enabled & !m;
    }

    pub fn request_interrupt(&mut self, interrupt: Interrupt)
        requires
            old(self).wf(),
        ensures
            final (self).requested == old(self).requested | interrupt_mask(interrupt),
            final (self).enabled == old(self).enabled,
            final (self).wf(),
    {
        let m = interrupt.to_mask_bit();
        proof {
            lemma_five_bit_ops(self.requested, 0, m);
        }
        self.requested = self.requested | m;
    }

    pub fn unrequest_interrupt(&mut self, interrupt: Interrupt)
        requires
            old(self).wf(),
        ensures
            final (self).requested == old(self).requested & !interrupt_mask(interrupt),
            final (self).enabled == old(self).enabled,
            final (self).wf(),
    {
        let m = interrupt.to_mask_bit();
        proof {
            lemma_five_bit_ops(self.requested, 0, m);
        }
        self.requested = self.requested & !m;
    }

    pub fn get_request(&self) -> (r: u8)
        ensures
            r == self.requested,
    {
        self.requested
    }

    /// Writing IF keeps the five interrupt bits of the value.
    pub fn set_request(&mut self, value: u8)
        ensures
            final (self).requested == value % 32,
            final (self).enabled == old(self).enabled,
            old(self).wf() ==> final (self).wf(),
    {
        self.requested = value % 32;
    }

    /// Picks the highest-priority pending-and-enabled interrupt and clears
    /// its request bit; IE is never changed here.
    pub fn handle_next_interrupt(&mut self) -> (r: Option<Interrupt>)
        requires
            old(self).wf(),
        ensures
            r == spec_next_interrupt(old(self).enabled, old(self).requested),
            r is Some <==> old(self).enabled & old(self).requested != 0,
            final (self).enabled == old(self).enabled,
            final (self).requested == match r {
                Some(interrupt) => old(self).requested & !interrupt_mask(interrupt),
                None => old(self).requested,
            },
            final (self).wf(),
    {
        let pending = self.enabled & self.requested;
        proof {
            let e = self.enabled;
            let q = self.requested;
            assert(e < 32 && q < 32 ==> ((e & q) & 0x01 == 0 && (e & q) & 0x02 == 0 && (e & q)
                & 0x04 == 0 && (e & q) & 0x08 == 0 && (e & q) & 0x10 == 0 ==> e & q == 0))
                by (bit_vector);
            assert(((e & q) & 0x01 != 0 || (e & q) & 0x02 != 0 || (e & q) & 0x04 != 0 || (e & q)
                & 0x08 != 0 || (e & q) & 0x10 != 0) ==> e & q != 0) by (bit_vector);
        }
        if pending & 0x01 != 0 {
            proof {
                lemma_five_bit_ops(self.requested, 0, 0x01);
            }
            self.requested = self.requested & !0x01;
            Some(Interrupt::LCDVBlank)
        } else if pending & 0x02 != 0 {
            proof {
                lemma_five_bit_ops(self.requested, 0, 0x02);
            }
            self.requested = self.requested & !0x02;
            Some(Interrupt::LCDController)
        } else if pending & 0x04 != 0 {
            proof {
                lemma_five_bit_ops(self.requested, 0, 0x04);
            }
            self.requested = self.requested & !0x04;
            Some(Interrupt::TimerOverflow)
        } else if pending & 0x08 != 0 {
            proof {
                lemma_five_bit_ops(self.requested, 0, 0x08);
            }
            self.requested = self.requested & !0x08;
            Some(Interrupt::EndOfSerialIO)
        } else if pending & 0x10 != 0 {
            proof {
                lemma_five_bit_ops(self.requested, 0, 0x10);
            }
            self.requested = self.requested & !0x10;
            Some(Interrupt::JoyPad)
        } else {
            None
        }
    }
}

/// Law: with every interrupt enabled and every interrupt requested, the next
/// serviced interrupt is VBlank, the lowest bit.
pub proof fn lemma_interrupt_priority()
    ensures
        spec_next_interrupt(0x1F, 0x1F) == Some(Interrupt::LCDVBlank),
{
    assert(0x1Fu8 & 0x1Fu8 == 0x1F && 0x1Fu8 & 0x01 != 0) by (bit_vector);
}

} // verus!
