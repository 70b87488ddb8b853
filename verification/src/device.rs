//! The outer device aggregate: CPU registers, the bus that owns every
//! peripheral, the master interrupt-enable latch and the execution state.
//! The tick loop decodes and runs one instruction, advances the PPU and the
//! timer by the cycles consumed, applies the internal messages they return,
//! and services at most one pending interrupt.

use vstd::prelude::*;

use crate::bus::{spec_bus_read8, spec_bus_write8, spec_dma, Bus, BusView};
use crate::instruction::{Operand16, Operand8};
use crate::internal_message::{InternalMessage, RendererMessage};
use crate::interrupt::{interrupt_mask, spec_handler_address, spec_next_interrupt, Interrupt, InterruptRegisters};
use crate::registers::Registers;

verus! {

#[derive(Debug, Clone, Copy, PartialEq, Eq, Structural)]
pub enum DeviceType {
    GameBoy,
    GameBoyColor,
}

pub struct DeviceInfo {
    pub ram_size: usize,
    pub vram_size: usize,
}

pub open spec fn spec_ram_size(device: DeviceType) -> usize {
    match device {
        DeviceType::GameBoy => 8192,
        DeviceType::GameBoyColor => 32768,
    }
}

pub open spec fn spec_vram_size(device: DeviceType) -> usize {
    match device {
        DeviceType::GameBoy => 8192,
        DeviceType::GameBoyColor => 16384,
    }
}

impl DeviceType {
    pub fn get_device_info(&self) -> (r: DeviceInfo)
        ensures
            r.ram_size == spec_ram_size(*self),
            r.vram_size == spec_vram_size(*self),
    {
        match *self {
            DeviceType::GameBoy => DeviceInfo { ram_size: 8192, vram_size: 8192 },
            DeviceType::GameBoyColor => DeviceInfo { ram_size: 32768, vram_size: 16384 },
        }
    }

    pub fn get_ram_size(&self) -> (r: usize)
        ensures
            r == spec_ram_size(*self),
    {
        self.get_device_info().ram_size
    }

    pub fn get_vram_size(&self) -> (r: usize)
        ensures
            r == spec_vram_size(*self),
    {
        self.get_device_info().vram_size
    }

    pub fn get_ram_bank_count(&self) -> (r: usize)
        ensures
            r == spec_ram_size(*self) / 4096,
    {
        self.get_ram_size() / 4096
    }

    pub fn get_vram_bank_count(&self) -> (r: usize)
        ensures
            r == spec_vram_size(*self) / 8192,
    {
        self.get_vram_size() / 8192
    }
}

/// Whether the CPU is running, halted waiting for an interrupt, or paused
/// for good after a fatal error (an undefined opcode).
#[derive(PartialEq, Eq, Structural, Clone, Copy, Debug)]
pub enum ExecutionState {
    Halted,
    Paused,
    Running,
}

pub struct Device {
    pub regs: Registers,
    pub bus: Bus,
    pub execution_state: ExecutionState,
    pub interrupts_enabled: bool,
    pub breakpoints: Vec<u16>,
    pub renderer_messages: Vec<RendererMessage>,
}

/// The device as mathematics.
#[verifier::ext_equal]
pub struct DeviceView {
    pub regs: Registers,
    pub bus: BusView,
    pub execution_state: ExecutionState,
    pub interrupts_enabled: bool,
    pub breakpoints: Seq<u16>,
    pub renderer_messages: Seq<RendererMessage>,
}

impl View for Device {
    type V = DeviceView;

    open spec fn view(&self) -> DeviceView {
        DeviceView {
            regs: self.regs,
            bus: self.bus@,
            execution_state: self.execution_state,
            interrupts_enabled: self.interrupts_enabled,
            breakpoints: self.breakpoints@,
            renderer_messages: self.renderer_messages@,
        }
    }
}

impl DeviceView {
    pub open spec fn wf(self) -> bool {
        self.bus.wf()
    }
}

/// The device after an internal message is applied: an interrupt request
/// sets its IF bit (VBlank also queues the present-frame message), a
/// renderer message is queued, and a DMA message copies 160 bytes into OAM.
pub open spec fn spec_handle_message(d: DeviceView, message: InternalMessage) -> DeviceView {
    match message {
        InternalMessage::NoEffect => d,
        InternalMessage::TriggerInterrupt(interrupt) => {
            let d1 = if interrupt is LCDVBlank {
                DeviceView {
                    renderer_messages: d.renderer_messages.push(RendererMessage::PresentFrame),
                    ..d
                }
            } else {
                d
            };
            DeviceView {
                bus: BusView {
                    interrupt: InterruptRegisters {
                        requested: d.bus.interrupt.requested | interrupt_mask(interrupt),
                        ..d.bus.interrupt
                    },
                    ..d1.bus
                },
                ..d1
            }
        },
        InternalMessage::RendererMessage(msg) => DeviceView {
            renderer_messages: d.renderer_messages.push(msg),
            ..d
        },
        InternalMessage::DMATransfer { from } => DeviceView {
            bus: spec_dma(d.bus, from, 160),
            ..d
        },
    }
}

/// The device after one bus write, its message applied.
#[verifier::opaque]
pub open spec fn spec_device_write8(d: DeviceView, address: u16, value: u8) -> DeviceView {
    let (bus2, msg) = spec_bus_write8(d.bus, address, value);
    spec_handle_message(DeviceView { bus: bus2, ..d }, msg)
}

/// The device after a 16-bit store: low byte at the address, high byte just
/// above it.
pub open spec fn spec_device_write16(d: DeviceView, address: u16, value: u16) -> DeviceView {
    let d1 = spec_device_write8(d, address, (value % 256) as u8);
    spec_device_write8(d1, ((address + 1) % 65536) as u16, (value / 256) as u8)
}

/// The device after a 16-bit push: the low byte goes to the address SP
/// holds, the high byte one below it, and SP drops by two.
pub open spec fn spec_push16(d: DeviceView, value: u16) -> DeviceView {
    let sp = d.regs.sp;
    let d1 = spec_device_write8(d, sp, (value % 256) as u8);
    let d2 = spec_device_write8(d1, ((sp + 65535) % 65536) as u16, (value / 256) as u8);
    DeviceView { regs: Registers { sp: ((sp + 65534) % 65536) as u16, ..d2.regs }, ..d2 }
}

/// The value a 16-bit pop reads: the high byte one above SP, the low byte
/// two above it.
pub open spec fn spec_pop16_value(d: DeviceView) -> u16 {
    let sp = d.regs.sp;
    let high = spec_bus_read8(d.bus, ((sp + 1) % 65536) as u16);
    let low = spec_bus_read8(d.bus, ((sp + 2) % 65536) as u16);
    (high * 256 + low) as u16
}

/// An address in plain writable memory: work RAM, its echo, or high RAM.
pub open spec fn spec_plain_ram(addr: u16) -> bool {
    (0xC000 <= addr <= 0xFDFF) || (0xFF80 <= addr <= 0xFFFE)
}

/// Law: with SP and the byte below it in plain RAM, pushing any 16-bit
/// value and popping it back yields the value again and restores SP.
#[verifier::rlimit(100)]
#[verifier::spinoff_prover]
pub proof fn lemma_push_pop_round_trip(d: DeviceView, v: u16)
    requires
        d.wf(),
        spec_plain_ram(d.regs.sp),
        spec_plain_ram(((d.regs.sp + 65535) % 65536) as u16),
    ensures
        ({
            let pushed = spec_push16(d, v);
            &&& spec_pop16_value(pushed) == v
            &&& pushed.regs.sp == ((d.regs.sp + 65534) % 65536) as u16
            &&& ((pushed.regs.sp + 2) % 65536) as u16 == d.regs.sp
        }),
{
    reveal(crate::device::spec_device_write8);
    let sp = d.regs.sp;
    let below = ((sp + 65535) % 65536) as u16;
    let pushed = spec_push16(d, v);
    assert(((pushed.regs.sp + 1) % 65536) as u16 == below);
    assert(((pushed.regs.sp + 2) % 65536) as u16 == sp);
}

/// The value an 8-bit operand denotes: a register, the byte HL addresses,
/// or the immediate itself.
pub open spec fn spec_operand8_value(d: DeviceView, operand: Operand8) -> u8 {
    match operand {
        Operand8::A => d.regs.a,
        Operand8::B => d.regs.b,
        Operand8::C => d.regs.c,
        Operand8::D => d.regs.d,
        Operand8::E => d.regs.e,
        Operand8::H => d.regs.h,
        Operand8::L => d.regs.l,
        Operand8::MemoryReference => spec_bus_read8(d.bus, d.regs.spec_hl()),
        Operand8::Immediate(value) => value,
    }
}

/// The device after a store into an 8-bit operand: a register write, or a
/// bus write through HL.
pub open spec fn spec_set_operand8(d: DeviceView, operand: Operand8, value: u8) -> DeviceView {
    match operand {
        Operand8::A => DeviceView { regs: Registers { a: value, ..d.regs }, ..d },
        Operand8::B => DeviceView { regs: Registers { b: value, ..d.regs }, ..d },
        Operand8::C => DeviceView { regs: Registers { c: value, ..d.regs }, ..d },
        Operand8::D => DeviceView { regs: Registers { d: value, ..d.regs }, ..d },
        Operand8::E => DeviceView { regs: Registers { e: value, ..d.regs }, ..d },
        Operand8::H => DeviceView { regs: Registers { h: value, ..d.regs }, ..d },
        Operand8::L => DeviceView { regs: Registers { l: value, ..d.regs }, ..d },
        Operand8::MemoryReference => spec_device_write8(d, d.regs.spec_hl(), value),
        Operand8::Immediate(_) => d,
    }
}

/// The value a 16-bit operand denotes.
pub open spec fn spec_operand16_value(d: DeviceView, operand: Operand16) -> u16 {
    match operand {
        Operand16::BC => d.regs.spec_bc(),
        Operand16::DE => d.regs.spec_de(),
        Operand16::HL => d.regs.spec_hl(),
        Operand16::SP => d.regs.sp,
        Operand16::AF => d.regs.spec_af(),
    }
}

/// The device after a store into a 16-bit operand; storing to AF clears the
/// low nibble of F.
pub open spec fn spec_set_operand16(d: DeviceView, operand: Operand16, value: u16) -> DeviceView {
    match operand {
        Operand16::BC => DeviceView { regs: crate::registers::pair_set_bc(d.regs, value), ..d },
        Operand16::DE => DeviceView { regs: crate::registers::pair_set_de(d.regs, value), ..d },
        Operand16::HL => DeviceView { regs: crate::registers::pair_set_hl(d.regs, value), ..d },
        Operand16::SP => DeviceView { regs: Registers { sp: value, ..d.regs }, ..d },
        Operand16::AF => DeviceView { regs: crate::registers::pair_set_af(d.regs, value), ..d },
    }
}

/// The device after the interrupt check at the end of a tick: when an
/// enabled interrupt is requested, its IF bit clears, a halted CPU wakes,
/// the master enable drops, PC is pushed, and control moves to the handler.
pub open spec fn spec_check_interrupts(d: DeviceView) -> DeviceView {
    match spec_next_interrupt(d.bus.interrupt.enabled, d.bus.interrupt.requested) {
        None => d,
        Some(interrupt) => {
            let d1 = DeviceView {
                bus: BusView {
                    interrupt: InterruptRegisters {
                        requested: d.bus.interrupt.requested & !interrupt_mask(interrupt),
                        ..d.bus.interrupt
                    },
                    ..d.bus
                },
                execution_state: if d.execution_state is Halted {
                    ExecutionState::Running
                } else {
                    d.execution_state
                },
                interrupts_enabled: false,
                ..d
            };
            let d2 = spec_push16(d1, d.regs.pc);
            DeviceView { regs: Registers { pc: spec_handler_address(interrupt), ..d2.regs }, ..d2 }
        },
    }
}

impl Device {
    pub fn write_addr_8(&mut self, addr: u16, value: u8)
        requires
            old(self)@.wf(),
        ensures
            final (self)@ == spec_device_write8(old(self)@, addr, value),
            final (self)@.wf(),
    {
        proof {
            reveal(crate::device::spec_device_write8);
        }
        let msg = self.bus.write_addr_8(addr, value);
        self.handle_message(msg);
    }

    #[verifier::rlimit(60)]
    pub fn write_addr_16(&mut self, addr: u16, value: u16)
        requires
            old(self)@.wf(),
        ensures
            final (self)@ == spec_device_write16(old(self)@, addr, value),
            final (self)@.wf(),
    {
        let pair = crate::bitutils::u16_to_pair(value);
        self.write_addr_8(addr, pair.low);
        let next = addr.wrapping_add(1);
        proof {
            assert(next == ((addr + 1) % 65536) as u16);
        }
        self.write_addr_8(next, pair.high);
    }

    #[verifier::rlimit(60)]
    pub fn push_16(&mut self, value: u16)
        requires
            old(self)@.wf(),
        ensures
            final (self)@ == spec_push16(old(self)@, value),
            final (self)@.wf(),
    {
        let pair = crate::bitutils::u16_to_pair(value);
        let sp = self.regs.sp;
        self.write_addr_8(sp, pair.low);
        let below = sp.wrapping_sub(1);
        proof {
            assert(below == ((sp + 65535) % 65536) as u16);
            assert(sp.wrapping_sub(2) == ((sp + 65534) % 65536) as u16);
        }
        self.write_addr_8(below, pair.high);
        self.regs.sp = sp.wrapping_sub(2);
    }

    pub fn pop_16(&mut self) -> (r: u16)
        requires
            old(self)@.wf(),
        ensures
            r == spec_pop16_value(old(self)@),
            final (self)@ == (DeviceView {
                regs: (Registers { sp: ((old(self)@.regs.sp + 2) % 65536) as u16, ..old(self)@.regs }),
                ..old(self)@
            }),
            final (self)@.wf(),
    {
        let sp = self.regs.sp;
        proof {
            assert(sp.wrapping_add(1) == ((sp + 1) % 65536) as u16);
            assert(sp.wrapping_add(2) == ((sp + 2) % 65536) as u16);
        }
        let high = self.bus.read_addr_8(sp.wrapping_add(1));
        let low = self.bus.read_addr_8(sp.wrapping_add(2));
        self.regs.sp = sp.wrapping_add(2);
        crate::bitutils::u16_from_bytes(high, low)
    }

    pub fn handle_message(&mut self, message: InternalMessage)
        requires
            old(self)@.wf(),
        ensures
            final (self)@ == spec_handle_message(old(self)@, message),
            final (self)@.wf(),
    {
        match message {
            InternalMessage::NoEffect => {},
            InternalMessage::TriggerInterrupt(interrupt) => {
                let is_vblank = match interrupt {
                    Interrupt::LCDVBlank => true,
                    _ => false,
                };
                if is_vblank {
                    self.renderer_messages.push(RendererMessage::PresentFrame);
                }
                self.bus.interrupt.request_interrupt(interrupt);
            },
            InternalMessage::RendererMessage(msg) => {
                self.renderer_messages.push(msg);
            },
            InternalMessage::DMATransfer { from } => {
                self.bus.oam_dma_transfer(from);
            },
        }
    }

    pub fn get_operand_8(&self, operand: Operand8) -> (r: u8)
        requires
            self@.wf(),
        ensures
            r == spec_operand8_value(self@, operand),
    {
        match operand {
            Operand8::A => self.regs.a,
            Operand8::B => self.regs.b,
            Operand8::C => self.regs.c,
            Operand8::D => self.regs.d,
            Operand8::E => self.regs.e,
            Operand8::H => self.regs.h,
            Operand8::L => self.regs.l,
            Operand8::MemoryReference => self.bus.read_addr_8(self.regs.hl()),
            Operand8::Immediate(value) => value,
        }
    }

    pub fn set_operand_8(&mut self, operand: Operand8, value: u8)
        requires
            old(self)@.wf(),
            !operand.spec_is_immediate(),
        ensures
            final (self)@ == spec_set_operand8(old(self)@, operand, value),
            final (self)@.wf(),
    {
        match operand {
            Operand8::A => self.regs.a = value,
            Operand8::B => self.regs.b = value,
            Operand8::C => self.regs.c = value,
            Operand8::D => self.regs.d = value,
            Operand8::E => self.regs.e = value,
            Operand8::H => self.regs.h = value,
            Operand8::L => self.regs.l = value,
            Operand8::MemoryReference => {
                let addr = self.regs.hl();
                self.write_addr_8(addr, value);
            },
            Operand8::Immediate(_) => {},
        }
    }

    pub fn get_operand_16(&self, operand: Operand16) -> (r: u16)
        ensures
            r == spec_operand16_value(self@, operand),
    {
        match operand {
            Operand16::BC => self.regs.bc(),
            Operand16::DE => self.regs.de(),
            Operand16::HL => self.regs.hl(),
            Operand16::SP => self.regs.sp,
            Operand16::AF => self.regs.af(),
        }
    }

    pub fn set_operand_16(&mut self, operand: Operand16, value: u16)
        ensures
            final (self)@ == spec_set_operand16(old(self)@, operand, value),
            old(self)@.wf() ==> final (self)@.wf(),
    {
        match operand {
            Operand16::BC => self.regs.set_bc(value),
            Operand16::DE => self.regs.set_de(value),
            Operand16::HL => self.regs.set_hl(value),
            Operand16::SP => self.regs.sp = value,
            Operand16::AF => self.regs.set_af(value),
        }
    }

    /// Reads the byte at PC and advances PC past it.
    pub fn read_next_byte(&mut self) -> (r: u8)
        requires
            old(self)@.wf(),
        ensures
            r == spec_bus_read8(old(self)@.bus, old(self)@.regs.pc),
            final (self)@ == (DeviceView {
                regs: (Registers { pc: ((old(self)@.regs.pc + 1) % 65536) as u16, ..old(self)@.regs }),
                ..old(self)@
            }),
            final (self)@.wf(),
    {
        let pc = self.regs.pc;
        proof {
            assert(pc.wrapping_add(1) == ((pc + 1) % 65536) as u16);
        }
        self.regs.pc = pc.wrapping_add(1);
        self.bus.read_addr_8(pc)
    }

    /// Services the highest-priority pending-and-enabled interrupt, if any.
    pub fn check_interrupts(&mut self)
        requires
            old(self)@.wf(),
        ensures
            final (self)@ == spec_check_interrupts(old(self)@),
            final (self)@.wf(),
    {
        let next = self.bus.interrupt.handle_next_interrupt();
        match next {
            Some(interrupt) => {
                match self.execution_state {
                    ExecutionState::Halted => {
                        self.execution_state = ExecutionState::Running;
                    },
                    _ => {},
                }
                self.interrupts_enabled = false;
                let pc = self.regs.pc;
                self.push_16(pc);
                self.regs.pc = interrupt.get_handler_address();
            },
            None => {},
        }
    }

    pub fn next_renderer_message(&mut self) -> (r: Option<RendererMessage>)
        ensures
            old(self)@.renderer_messages.len() == 0 ==> r is None && final (self)@ == old(self)@,
            old(self)@.renderer_messages.len() > 0 ==> r == Some(
                old(self)@.renderer_messages.last(),
            ) && final (self)@ == (DeviceView {
                renderer_messages: old(self)@.renderer_messages.drop_last(),
                ..old(self)@
            }),
    {
        self.renderer_messages.pop()
    }

    pub fn set_breakpoint(&mut self, addr: u16)
        ensures
            final (self)@ == (DeviceView {
                breakpoints: old(self)@.breakpoints.push(addr),
                ..old(self)@
            }),
    {
        self.breakpoints.push(addr);
    }

    pub fn update_input(&mut self, state: crate::input::InputState)
        ensures
            final (self)@ == (DeviceView {
                bus: (BusView {
                    input: (crate::input::InputRegister {
                        input_state: state,
                        ..old(self)@.bus.input
                    }),
                    ..old(self)@.bus
                }),
                ..old(self)@
            }),
            old(self)@.wf() ==> final (self)@.wf(),
    {
        self.bus.input.update(state)
    }

    pub fn halt(&mut self)
        ensures
            final (self)@ == (DeviceView { execution_state: ExecutionState::Halted, ..old(self)@ }),
    {
        self.execution_state = ExecutionState::Halted;
    }

    /// Fetches, decodes and executes the instruction at PC.
    pub fn run_instruction(&mut self) -> (cycles: u32)
        requires
            old(self)@.wf(),
        ensures
            (final (self)@, cycles) == crate::interpreter::spec_run_instruction(old(self)@),
            final (self)@.wf(),
    {
        crate::interpreter::run_instruction(self)
    }

    /// One tick of the outer loop: one instruction when the CPU is running
    /// (a halted or paused CPU idles for 4 cycles), the PPU advanced by the
    /// cycles consumed when the LCD is on, the timer advanced cycle by
    /// cycle, every returned message applied in order, and at most one
    /// interrupt serviced when the master enable is on.
    pub fn run_tick(&mut self) -> (cycles: u32)
        requires
            old(self)@.wf(),
        ensures
            (final (self)@, cycles) == spec_run_tick(old(self)@),
            final (self)@.wf(),
    {
        let running = match self.execution_state {
            ExecutionState::Running => true,
            _ => false,
        };
        let elapsed_cycles: u32 = if running {
            self.run_instruction()
        } else {
            4
        };

        if self.bus.video.is_lcd_on() {
            let gpu_message = self.bus.video.update(elapsed_cycles);
            self.handle_message(gpu_message);
        }

        let ghost mid = self@;
        let mut i: u32 = 0;
        while i < elapsed_cycles
            invariant
                i <= elapsed_cycles,
                self@.wf(),
                self@ == spec_timer_ticks(mid, i as nat),
            decreases elapsed_cycles - i,
        {
            let timer_message = self.bus.timer.update();
            self.handle_message(timer_message);
            i = i + 1;
        }

        if self.interrupts_enabled {
            self.check_interrupts();
        }

        elapsed_cycles
    }

    /// Puts the machine in the state the boot ROM leaves behind: the
    /// documented register values, the boot ROM unmapped, and the boot
    /// defaults in the peripheral registers. Memory, the cartridge and the
    /// queues are untouched.
    #[verifier::rlimit(100)]
    pub fn simulate_bootrom(&mut self)
        requires
            old(self)@.wf(),
        ensures
            final (self)@.wf(),
            final (self)@.regs == (Registers {
                a: 0x01,
                f: 0xB0,
                b: 0x00,
                c: 0x13,
                d: 0x00,
                e: 0xD8,
                h: 0x01,
                l: 0x4D,
                sp: 0xFFFE,
                pc: 0x0100,
            }),
            !final (self)@.bus.is_booting,
            final (self)@.bus.video == (crate::video::VideoView {
                vram_bank: 0,
                lcd_control: 0x91,
                scroll_y: 0,
                scroll_x: 0,
                comparison_scanline: 0,
                background_palette: 0xFC,
                sprite_palette_0: 0xFF,
                sprite_palette_1: 0xFF,
                window_y: 0,
                window_x: 0,
                ..old(self)@.bus.video
            }),
            final (self)@.bus.timer == (crate::timers::TimerRegisters {
                divider: 0,
                counter: 0,
                modulo: 0,
                control: crate::timers::TimerControlRegister(0),
                ..old(self)@.bus.timer
            }),
            final (self)@.bus.interrupt.enabled == 0,
            final (self)@.bus.interrupt.requested == old(self)@.bus.interrupt.requested,
            final (self)@.bus.ram == old(self)@.bus.ram,
            final (self)@.bus.high_ram == old(self)@.bus.high_ram,
            final (self)@.bus.cartridge == old(self)@.bus.cartridge,
            final (self)@.bus.bootrom == old(self)@.bus.bootrom,
            final (self)@.bus.input == old(self)@.bus.input,
            final (self)@.bus.serial_buffer == old(self)@.bus.serial_buffer,
            final (self)@.bus.audio.len() == 0x30,
            forall|i: int|
                0 <= i < 0x30 ==> final (self)@.bus.audio[i] == spec_boot_audio_byte(
                    old(self)@.bus.audio[i],
                    i,
                ),
            final (self)@.execution_state == old(self)@.execution_state,
            final (self)@.interrupts_enabled == old(self)@.interrupts_enabled,
            final (self)@.breakpoints == old(self)@.breakpoints,
            final (self)@.renderer_messages == old(self)@.renderer_messages,
    {
        self.regs.a = 0x01;
        self.regs.f = 0xB0;
        self.regs.b = 0x00;
        self.regs.c = 0x13;
        self.regs.d = 0x00;
        self.regs.e = 0xD8;
        self.regs.h = 0x01;
        self.regs.l = 0x4D;
        self.regs.sp = 0xFFFE;
        self.regs.pc = 0x0100;

        self.bus.is_booting = false;

        self.bus.timer.write_8(crate::timers::TimerRegister::Counter, 0x00);
        self.bus.timer.write_8(crate::timers::TimerRegister::Modulo, 0x00);
        self.bus.timer.write_8(crate::timers::TimerRegister::Control, 0x00);

        self.bus.audio.write_8(Ok(0x00), 0x80);
        self.bus.audio.write_8(Ok(0x01), 0xBF);
        self.bus.audio.write_8(Ok(0x02), 0xF3);
        self.bus.audio.write_8(Ok(0x04), 0xBF);
        self.bus.audio.write_8(Ok(0x06), 0x3F);
        self.bus.audio.write_8(Ok(0x07), 0x00);
        self.bus.audio.write_8(Ok(0x09), 0xBF);
        self.bus.audio.write_8(Ok(0x0A), 0x7F);
        self.bus.audio.write_8(Ok(0x0B), 0xFF);
        self.bus.audio.write_8(Ok(0x0C), 0x9F);
        self.bus.audio.write_8(Ok(0x0E), 0xBF);
        self.bus.audio.write_8(Ok(0x10), 0xFF);
        self.bus.audio.write_8(Ok(0x11), 0x00);
        self.bus.audio.write_8(Ok(0x12), 0x00);
        self.bus.audio.write_8(Ok(0x13), 0xBF);
        self.bus.audio.write_8(Ok(0x14), 0x77);
        self.bus.audio.write_8(Ok(0x15), 0xF3);
        self.bus.audio.write_8(Ok(0x16), 0xF1);

        self.bus.video.lcd_control = 0x91;
        self.bus.video.scroll_y = 0x00;
        self.bus.video.scroll_x = 0x00;
        self.bus.video.comparison_scanline = 0x00;
        self.bus.video.background_palette = crate::video::GbPalette(0xFC);
        self.bus.video.sprite_palette_0 = crate::video::GbPalette(0xFF);
        self.bus.video.sprite_palette_1 = crate::video::GbPalette(0xFF);
        self.bus.video.window_y = 0x00;
        self.bus.video.window_x = 0x00;
        self.bus.video.vram_bank = 0x00;

        self.bus.interrupt.set_enable(0x00);
    }

    /// Builds a device around a fresh bus. With a boot ROM the machine
    /// starts booting at address 0; without one, the state the boot ROM
    /// would leave behind is installed and execution starts at 0x0100.
    pub fn new(device: DeviceType, bootrom: Option<Vec<u8>>) -> (r: Device)
        ensures
            r@.wf(),
            r@.execution_state is Running,
            r@.interrupts_enabled,
            r@.breakpoints.len() == 0,
            r@.renderer_messages.len() == 0,
            r@.bus.cartridge is None,
            r@.bus.device_type == device,
            bootrom is None ==> {
                &&& r@.regs == (Registers {
                    a: 0x01,
                    f: 0xB0,
                    b: 0x00,
                    c: 0x13,
                    d: 0x00,
                    e: 0xD8,
                    h: 0x01,
                    l: 0x4D,
                    sp: 0xFFFE,
                    pc: 0x0100,
                })
                &&& !r@.bus.is_booting
                &&& r@.bus.video.lcd_control == 0x91
                &&& r@.bus.interrupt.enabled == 0 && r@.bus.interrupt.requested == 0
                &&& forall|i: int| 0 <= i < r@.bus.ram.len() ==> r@.bus.ram[i] == 0
                &&& forall|i: int| 0 <= i < 128 ==> r@.bus.high_ram[i] == 0
                &&& r@.bus.timer == (crate::timers::TimerRegisters {
                    divider_tick: 0,
                    counter_tick: 0,
                    modulo: 0,
                    control: crate::timers::TimerControlRegister(0),
                    divider: 0,
                    counter: 0,
                })
            },
            bootrom matches Some(b) ==> {
                &&& r@.regs == (Registers {
                    a: 0,
                    f: 0,
                    b: 0,
                    c: 0,
                    d: 0,
                    e: 0,
                    h: 0,
                    l: 0,
                    sp: 0,
                    pc: 0,
                })
                &&& r@.bus.is_booting
                &&& r@.bus.bootrom == Some(b@)
            },
    {
        let has_bootrom = match &bootrom {
            Some(_) => true,
            None => false,
        };
        let mut device = Device {
            regs: Registers::new(),
            bus: Bus::new(device, bootrom),
            execution_state: ExecutionState::Running,
            interrupts_enabled: true,
            breakpoints: Vec::new(),
            renderer_messages: Vec::new(),
        };

        if !has_bootrom {
            device.simulate_bootrom();
        }

        device
    }

    pub fn new_gb(bootrom: Option<Vec<u8>>) -> (r: Device)
        ensures
            r@.wf(),
            r@.execution_state is Running,
            r@.interrupts_enabled,
            r@.bus.cartridge is None,
            r@.bus.device_type is GameBoy,
            bootrom is None ==> r@.regs.pc == 0x0100 && r@.regs.sp == 0xFFFE
                && !r@.bus.is_booting,
    {
        Device::new(DeviceType::GameBoy, bootrom)
    }
}

impl Operand8 {
    pub fn get(self, device: &Device) -> (r: u8)
        requires
            device@.wf(),
        ensures
            r == spec_operand8_value(device@, self),
    {
        device.get_operand_8(self)
    }

    pub fn set(self, device: &mut Device, value: u8)
        requires
            old(device)@.wf(),
            !self.spec_is_immediate(),
        ensures
            final (device)@ == spec_set_operand8(old(device)@, self, value),
            final (device)@.wf(),
    {
        device.set_operand_8(self, value);
    }
}

impl Operand16 {
    pub fn get(self, device: &Device) -> (r: u16)
        ensures
            r == spec_operand16_value(device@, self),
    {
        device.get_operand_16(self)
    }
}

/// The audio register file after the boot defaults are installed: the
/// written registers hold their default, every other byte keeps its value.
pub open spec fn spec_boot_audio_byte(old_byte: u8, i: int) -> u8 {
    if i == 0x00 {
        0x80
    } else if i == 0x01 {
        0xBF
    } else if i == 0x02 {
        0xF3
    } else if i == 0x04 {
        0xBF
    } else if i == 0x06 {
        0x3F
    } else if i == 0x07 {
        0x00
    } else if i == 0x09 {
        0xBF
    } else if i == 0x0A {
        0x7F
    } else if i == 0x0B {
        0xFF
    } else if i == 0x0C {
        0x9F
    } else if i == 0x0E {
        0xBF
    } else if i == 0x10 {
        0xFF
    } else if i == 0x11 {
        0x00
    } else if i == 0x12 {
        0x00
    } else if i == 0x13 {
        0xBF
    } else if i == 0x14 {
        0x77
    } else if i == 0x15 {
        0xF3
    } else if i == 0x16 {
        0xF1
    } else {
        old_byte
    }
}

/// The device after `n` single-cycle timer steps, each message applied.
pub open spec fn spec_timer_ticks(d: DeviceView, n: nat) -> DeviceView
    decreases n,
{
    if n == 0 {
        d
    } else {
        let prev = spec_timer_ticks(d, (n - 1) as nat);
        let (timer2, msg) = crate::timers::spec_timer_step(prev.bus.timer);
        spec_handle_message(
            DeviceView { bus: BusView { timer: timer2, ..prev.bus }, ..prev },
            msg,
        )
    }
}

/// One tick of the outer loop, in order: the instruction (or a 4-cycle
/// idle), the PPU when the LCD is on, one timer step per elapsed cycle, and
/// the interrupt check when the master enable is on.
pub open spec fn spec_run_tick(d: DeviceView) -> (DeviceView, u32) {
    let (d1, elapsed) = if d.execution_state is Running {
        crate::interpreter::spec_run_instruction(d)
    } else {
        (d, 4u32)
    };
    let d2 = if d1.bus.video.lcd_control & 0x80 != 0 {
        let (video2, msg) = crate::video::spec_ppu_step(d1.bus.video, elapsed);
        spec_handle_message(DeviceView { bus: BusView { video: video2, ..d1.bus }, ..d1 }, msg)
    } else {
        d1
    };
    let d3 = spec_timer_ticks(d2, elapsed as nat);
    let d4 = if d3.interrupts_enabled {
        spec_check_interrupts(d3)
    } else {
        d3
    };
    (d4, elapsed)
}

} // verus!
