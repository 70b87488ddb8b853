//! The programmable timer: the free-running divider DIV, the counter TIMA
//! with its reload value TMA and control register TAC. DIV advances every
//! 256 CPU cycles; TIMA, when enabled, advances with the period TAC selects
//! and requests the timer interrupt when it wraps, reloading from TMA.

use vstd::prelude::*;

use crate::internal_message::InternalMessage;
use crate::interrupt::Interrupt;

verus! {

#[derive(Debug, Clone, Copy, PartialEq, Eq, Structural)]
pub enum TimerRegister {
    Divider,
    Counter,
    Modulo,
    Control,
}

/// TAC: bit 2 enables TIMA, bits 1-0 select its input period.
#[derive(Debug, Clone, Copy, PartialEq, Eq, Structural)]
pub struct TimerControlRegister(pub u8);

/// The TIMA period, in CPU cycles, selected by the low two bits of TAC.
pub open spec fn spec_counter_tick_target(control: TimerControlRegister) -> u16 {
    if control.0 % 4 == 0 {
        1024
    } else if control.0 % 4 == 1 {
        16
    } else if control.0 % 4 == 2 {
        64
    } else {
        256
    }
}

pub open spec fn spec_timer_enabled(control: TimerControlRegister) -> bool {
    (control.0 / 4) % 2 == 1
}

impl TimerControlRegister {
    pub fn get_input_clock(self) -> (r: u8)
        ensures
            r == self.0 % 4,
    {
        self.0 % 4
    }

    pub fn get_timer_enabled(self) -> (r: bool)
        ensures
            r == spec_timer_enabled(self),
    {
        (self.0 / 4) % 2 == 1
    }

    pub fn get_counter_tick_target(self) -> (r: u16)
        ensures
            r == spec_counter_tick_target(self),
    {
        match self.0 % 4 {
            0b00 => 1024,
            0b01 => 16,
            0b10 => 64,
            _ => 256,
        }
    }
}

#[derive(Debug, Clone, Copy, PartialEq, Eq, Structural)]
pub struct TimerRegisters {
    pub divider_tick: u16,
    pub counter_tick: u16,
    pub modulo: u8,
    pub control: TimerControlRegister,
    pub divider: u8,
    pub counter: u8,
}

/// One CPU cycle of timer time: DIV always advances on its fixed 256-cycle
/// period; TIMA advances only when enabled, on the period TAC selects, and
/// on wrapping past 0xFF reloads from TMA and requests the timer interrupt.
pub open spec fn spec_timer_step(t: TimerRegisters) -> (TimerRegisters, InternalMessage) {
    let t1 = if t.divider_tick + 1 >= 256 {
        TimerRegisters { divider_tick: 0, divider: ((t.divider + 1) % 256) as u8, ..t }
    } else {
        TimerRegisters { divider_tick: (t.divider_tick + 1) as u16, ..t }
    };
    if !spec_timer_enabled(t.control) {
        (t1, InternalMessage::NoEffect)
    } else {
        if t1.counter_tick + 1 >= spec_counter_tick_target(t1.control) {
            if t1.counter == 255 {
                (
                    TimerRegisters { counter_tick: 0, counter: t1.modulo, ..t1 },
                    InternalMessage::TriggerInterrupt(Interrupt::TimerOverflow),
                )
            } else {
                (
                    TimerRegisters {
                        counter_tick: 0,
                        counter: (t1.counter + 1) as u8,
                        ..t1
                    },
                    InternalMessage::NoEffect,
                )
            }
        } else {
            (
                TimerRegisters { counter_tick: (t1.counter_tick + 1) as u16, ..t1 },
                InternalMessage::NoEffect,
            )
        }
    }
}

impl TimerRegisters {
    /// The prescaler counters stay below their largest periods.
    pub open spec fn wf(self) -> bool {
        self.divider_tick < 256 && self.counter_tick < 1024
    }

    pub fn new() -> (r: TimerRegisters)
        ensures
            r.divider_tick == 0 && r.counter_tick == 0 && r.modulo == 0,
            r.control.0 == 0 && r.divider == 0 && r.counter == 0,
            r.wf(),
    {
        TimerRegisters {
            divider_tick: 0,
            counter_tick: 0,
            modulo: 0,
            control: TimerControlRegister(0),
            divider: 0,
            counter: 0,
        }
    }

    /// Advances the timer by one CPU cycle.
    pub fn update(&mut self) -> (msg: InternalMessage)
        requires
            old(self).wf(),
        ensures
            (*final (self), msg) == spec_timer_step(*old(self)),
            final (self).wf(),
    {
        if self.divider_tick + 1 >= 256 {
            self.divider_tick = 0;
            self.divider = self.divider.wrapping_add(1);
        } else {
            self.divider_tick = self.divider_tick + 1;
        }

        if !self.control.get_timer_enabled() {
            return InternalMessage::NoEffect;
        }

        if self.counter_tick + 1 >= self.control.get_counter_tick_target() {
            self.counter_tick = 0;
            if self.counter == 255 {
                self.counter = self.modulo;
                InternalMessage::TriggerInterrupt(Interrupt::TimerOverflow)
            } else {
                self.counter = self.counter + 1;
                InternalMessage::NoEffect
            }
        } else {
            self.counter_tick = self.counter_tick + 1;
            InternalMessage::NoEffect
        }
    }

    pub fn read_8(&self, register: TimerRegister) -> (r: u8)
        ensures
            r == spec_timer_read(*self, register),
    {
        match register {
            TimerRegister::Divider => self.divider,
            TimerRegister::Counter => self.counter,
            TimerRegister::Modulo => self.modulo,
            TimerRegister::Control => self.control.0,
        }
    }

    /// Writing DIV or TIMA resets both counters to zero, whatever the value;
    /// TMA and TAC store the value written.
    pub fn write_8(&mut self, register: TimerRegister, value: u8)
        ensures
            *final (self) == spec_timer_write(*old(self), register, value),
            old(self).wf() ==> final (self).wf(),
    {
        match register {
            TimerRegister::Divider | TimerRegister::Counter => {
                self.divider = 0;
                self.counter = 0;
            },
            TimerRegister::Modulo => {
                self.modulo = value;
            },
            TimerRegister::Control => {
                self.control = TimerControlRegister(value);
            },
        }
    }

    pub fn resolve_address(&self, addr: u16) -> (r: TimerRegister)
        requires
            0xFF04 <= addr <= 0xFF07,
        ensures
            r == spec_timer_register(addr),
    {
        match addr {
            0xFF04 => TimerRegister::Divider,
            0xFF05 => TimerRegister::Counter,
            0xFF06 => TimerRegister::Modulo,
            _ => TimerRegister::Control,
        }
    }
}

/// What each timer register reads back.
pub open spec fn spec_timer_read(t: TimerRegisters, register: TimerRegister) -> u8 {
    match register {
        TimerRegister::Divider => t.divider,
        TimerRegister::Counter => t.counter,
        TimerRegister::Modulo => t.modulo,
        TimerRegister::Control => t.control.0,
    }
}

/// What a timer register write leaves behind: DIV and TIMA writes reset both
/// counters, TMA and TAC store the value.
pub open spec fn spec_timer_write(t: TimerRegisters, register: TimerRegister, value: u8) -> TimerRegisters {
    match register {
        TimerRegister::Divider | TimerRegister::Counter => TimerRegisters {
            divider: 0,
            counter: 0,
            ..t
        },
        TimerRegister::Modulo => TimerRegisters { modulo: value, ..t },
        TimerRegister::Control => TimerRegisters { control: TimerControlRegister(value), ..t },
    }
}

pub open spec fn spec_timer_register(addr: u16) -> TimerRegister {
    if addr == 0xFF04 {
        TimerRegister::Divider
    } else if addr == 0xFF05 {
        TimerRegister::Counter
    } else if addr == 0xFF06 {
        TimerRegister::Modulo
    } else {
        TimerRegister::Control
    }
}

/// The timer state after `n` CPU cycles.
pub open spec fn spec_timer_run(t: TimerRegisters, n: nat) -> TimerRegisters
    decreases n,
{
    if n == 0 {
        t
    } else {
        spec_timer_step(spec_timer_run(t, (n - 1) as nat)).0
    }
}

proof fn lemma_timer_counts_up_to_16(t: TimerRegisters, k: nat)
    requires
        t.control.0 == 5,
        t.counter_tick == 0,
        k <= 15,
    ensures
        spec_timer_run(t, k).counter == t.counter,
        spec_timer_run(t, k).counter_tick == k,
        spec_timer_run(t, k).control == t.control,
        spec_timer_run(t, k).modulo == t.modulo,
    decreases k,
{
    if k > 0 {
        lemma_timer_counts_up_to_16(t, (k - 1) as nat);
    }
}

/// Law: with TAC selecting an enabled timer of period 16 and the prescaler
/// at zero, TIMA is unchanged for the first 15 cycles and increments by one
/// on exactly the 16th, with the prescaler back at zero.
pub proof fn lemma_timer_period_16_increment(t: TimerRegisters, k: nat)
    requires
        t.control.0 == 5,
        t.counter_tick == 0,
        t.counter < 255,
        1 <= k <= 15,
    ensures
        spec_timer_run(t, k).counter == t.counter,
        spec_timer_run(t, 16).counter == t.counter + 1,
        spec_timer_run(t, 16).counter_tick == 0,
        spec_timer_step(spec_timer_run(t, 15)).1 == InternalMessage::NoEffect,
{
    lemma_timer_counts_up_to_16(t, k);
    lemma_timer_counts_up_to_16(t, 15);
    assert(spec_timer_run(t, 16) == spec_timer_step(spec_timer_run(t, 15)).0);
}

/// Law: in the same configuration with TIMA at 0xFF, the 16th cycle wraps
/// the counter, reloads it from TMA and requests the timer interrupt.
pub proof fn lemma_timer_overflow_reload(t: TimerRegisters)
    requires
        t.control.0 == 5,
        t.counter_tick == 0,
        t.counter == 255,
    ensures
        spec_timer_run(t, 16).counter == t.modulo,
        spec_timer_run(t, 16).counter_tick == 0,
        spec_timer_step(spec_timer_run(t, 15)).1 == InternalMessage::TriggerInterrupt(
            Interrupt::TimerOverflow,
        ),
{
    lemma_timer_counts_up_to_16(t, 15);
    assert(spec_timer_run(t, 16) == spec_timer_step(spec_timer_run(t, 15)).0);
}

} // verus!
