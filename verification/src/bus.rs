//! The system bus: it resolves every 16-bit address to the region that owns
//! it, dispatches byte reads and writes, owns work RAM, high RAM, the boot
//! ROM and the peripherals, and performs the OAM-DMA block copy. A write
//! returns an internal message describing any deferred effect; reads are
//! pure. Reads of an unmapped address or an absent cartridge return defined
//! sentinel bytes, and such writes are dropped.

use vstd::prelude::*;
use vstd::pervasive::VecAdditionalExecFns;

use crate::audio::{spec_audio_location, AudioController, AudioRamLocation};
use crate::cartridge::{Cartridge, CartridgeView};
use crate::device::{spec_ram_size, DeviceType};
use crate::input::{spec_encode_joypad, spec_selected_set, InputRegister};
use crate::internal_message::InternalMessage;
use crate::interrupt::{Interrupt, InterruptRegisters};
use crate::mappers::{spec_byte_at, spec_mapper_addr, spec_mapper_read, spec_mapper_write};
use crate::timers::{
    spec_timer_read, spec_timer_register, spec_timer_write, TimerRegister, TimerRegisters,
};
use crate::video::{
    spec_video_read, spec_video_register, spec_video_write, VideoController, VideoMemoryLocation,
    VideoView,
};

verus! {

#[derive(Debug, Clone, Copy, PartialEq, Eq, Structural)]
pub enum SerialRegister {
    Data,
    Control,
}

#[derive(Debug, Clone, Copy, PartialEq, Eq)]
pub enum MemoryLocation {
    Invalid(u16),
    Ignored(u16),
    Bootrom(u8),
    RamBank0(u16),
    RamBankN(u16),
    Cartridge(u16),
    Joypad,
    Serial(SerialRegister),
    Timer(TimerRegister),
    Audio(AudioRamLocation),
    Video(VideoMemoryLocation),
    BootromUnmap,
    HighRam(u8),
    InterruptEnable,
    InterruptRequest,
}

pub struct Bus {
    pub device_type: DeviceType,
    pub cartridge: Option<Cartridge>,
    pub bootrom: Option<Vec<u8>>,
    pub is_booting: bool,
    pub ram: Vec<u8>,
    pub high_ram: Vec<u8>,
    pub selected_ram_bank: usize,
    pub input: InputRegister,
    pub timer: TimerRegisters,
    pub audio: AudioController,
    pub video: VideoController,
    pub interrupt: InterruptRegisters,
    pub serial_buffer: u8,
}

/// The bus as mathematics: every memory as a sequence, every peripheral by
/// its own state.
#[verifier::ext_equal]
pub struct BusView {
    pub device_type: DeviceType,
    pub cartridge: Option<CartridgeView>,
    pub bootrom: Option<Seq<u8>>,
    pub is_booting: bool,
    pub ram: Seq<u8>,
    pub high_ram: Seq<u8>,
    pub selected_ram_bank: usize,
    pub input: InputRegister,
    pub timer: TimerRegisters,
    pub audio: Seq<u8>,
    pub video: VideoView,
    pub interrupt: InterruptRegisters,
    pub serial_buffer: u8,
}

impl View for Bus {
    type V = BusView;

    open spec fn view(&self) -> BusView {
        BusView {
            device_type: self.device_type,
            cartridge: match self.cartridge {
                Some(c) => Some(c@),
                None => None,
            },
            bootrom: match self.bootrom {
                Some(b) => Some(b@),
                None => None,
            },
            is_booting: self.is_booting,
            ram: self.ram@,
            high_ram: self.high_ram@,
            selected_ram_bank: self.selected_ram_bank,
            input: self.input,
            timer: self.timer,
            audio: self.audio.ram@,
            video: self.video@,
            interrupt: self.interrupt,
            serial_buffer: self.serial_buffer,
        }
    }
}

impl BusView {
    pub open spec fn wf(self) -> bool {
        &&& self.ram.len() == spec_ram_size(self.device_type)
        &&& self.high_ram.len() == 128
        &&& self.audio.len() == 0x30
        &&& self.video.wf()
        &&& self.interrupt.wf()
        &&& self.timer.wf()
        &&& self.selected_ram_bank == 1
    }
}

/// The region a 16-bit address belongs to. The echo region 0xE000-0xFDFF
/// resolves to the work-RAM byte it mirrors 0x2000 below; while booting,
/// the low 256 bytes go to the boot ROM instead of the cartridge.
pub open spec fn spec_resolve(is_booting: bool, address: u16) -> MemoryLocation {
    if address <= 0x00FF && is_booting {
        MemoryLocation::Bootrom(address as u8)
    } else if address <= 0x7FFF || (0xA000 <= address && address <= 0xBFFF) {
        MemoryLocation::Cartridge(address)
    } else if address <= 0x9FFF {
        MemoryLocation::Video(VideoMemoryLocation::Vram((address - 0x8000) as u16))
    } else if address <= 0xCFFF {
        MemoryLocation::RamBank0((address - 0xC000) as u16)
    } else if address <= 0xDFFF {
        MemoryLocation::RamBankN((address - 0xD000) as u16)
    } else if address <= 0xEFFF {
        MemoryLocation::RamBank0((address - 0xE000) as u16)
    } else if address <= 0xFDFF {
        MemoryLocation::RamBankN((address - 0xF000) as u16)
    } else if address <= 0xFE9F {
        MemoryLocation::Video(VideoMemoryLocation::Oam((address - 0xFE00) as u8))
    } else if address <= 0xFEFF {
        MemoryLocation::Ignored(address)
    } else if address == 0xFF00 {
        MemoryLocation::Joypad
    } else if address == 0xFF01 {
        MemoryLocation::Serial(SerialRegister::Data)
    } else if address == 0xFF02 {
        MemoryLocation::Serial(SerialRegister::Control)
    } else if 0xFF04 <= address && address <= 0xFF07 {
        MemoryLocation::Timer(spec_timer_register(address))
    } else if address == 0xFF0F {
        MemoryLocation::InterruptRequest
    } else if 0xFF10 <= address && address <= 0xFF3F {
        MemoryLocation::Audio(Ok((address - 0xFF10) as u8))
    } else if (0xFF40 <= address && address <= 0xFF4B) || address == 0xFF4F {
        MemoryLocation::Video(spec_video_register(address))
    } else if address == 0xFF4C || address == 0xFF4D || address == 0xFF4E {
        MemoryLocation::Ignored(address)
    } else if address == 0xFF50 {
        MemoryLocation::BootromUnmap
    } else if address == 0xFF7F {
        MemoryLocation::Ignored(address)
    } else if 0xFF80 <= address && address <= 0xFFFE {
        MemoryLocation::HighRam((address - 0xFF80) as u8)
    } else if address == 0xFFFF {
        MemoryLocation::InterruptEnable
    } else {
        MemoryLocation::Invalid(address)
    }
}

/// Whether a location's offsets lie inside the memories they index.
pub open spec fn spec_loc_wf(b: BusView, location: MemoryLocation) -> bool {
    match location {
        MemoryLocation::RamBank0(offset) => offset < 4096,
        MemoryLocation::RamBankN(offset) => offset < 4096,
        MemoryLocation::HighRam(offset) => offset < 128,
        MemoryLocation::Audio(loc) => loc matches Ok(offset) ==> offset < 0x30,
        MemoryLocation::Video(vloc) => b.video.location_wf(vloc),
        MemoryLocation::Cartridge(address) => spec_mapper_addr(address),
        _ => true,
    }
}

/// The byte a location reads. Unmapped addresses and an absent cartridge
/// read 0xFF; the ignored region reads 0.
pub open spec fn spec_bus_read(b: BusView, location: MemoryLocation) -> u8 {
    match location {
        MemoryLocation::Invalid(_) => 0xFF,
        MemoryLocation::Ignored(_) => 0,
        MemoryLocation::Bootrom(offset) => match b.bootrom {
            Some(rom) => spec_byte_at(rom, offset as int),
            None => 0,
        },
        MemoryLocation::RamBank0(offset) => b.ram[offset as int],
        MemoryLocation::RamBankN(offset) => b.ram[b.selected_ram_bank * 4096 + offset],
        MemoryLocation::Cartridge(address) => match b.cartridge {
            Some(c) => spec_mapper_read(c.mapper, c.memory, address),
            None => 0xFF,
        },
        MemoryLocation::Joypad => spec_encode_joypad(b.input.input_state, b.input.selected_set),
        MemoryLocation::Serial(_) => 0,
        MemoryLocation::Timer(register) => spec_timer_read(b.timer, register),
        MemoryLocation::Audio(loc) => match loc {
            Ok(offset) => b.audio[offset as int],
            Err(_) => 0xFF,
        },
        MemoryLocation::Video(vloc) => spec_video_read(b.video, vloc),
        MemoryLocation::BootromUnmap => if b.is_booting {
            1
        } else {
            0
        },
        MemoryLocation::HighRam(offset) => b.high_ram[offset as int],
        MemoryLocation::InterruptEnable => b.interrupt.enabled,
        MemoryLocation::InterruptRequest => b.interrupt.requested,
    }
}

/// The state and message a write to a location produces. Serial control
/// value 0x81 "sends" the buffered byte and requests the serial interrupt;
/// the boot-ROM unmap latch can only ever be turned off; writes to unmapped
/// addresses, the ignored region, the boot ROM and an absent cartridge are
/// dropped.
pub open spec fn spec_bus_write(b: BusView, location: MemoryLocation, value: u8) -> (
    BusView,
    InternalMessage,
) {
    match location {
        MemoryLocation::Invalid(_) => (b, InternalMessage::NoEffect),
        MemoryLocation::Ignored(_) => (b, InternalMessage::NoEffect),
        MemoryLocation::Bootrom(_) => (b, InternalMessage::NoEffect),
        MemoryLocation::RamBank0(offset) => (
            BusView { ram: b.ram.update(offset as int, value), ..b },
            InternalMessage::NoEffect,
        ),
        MemoryLocation::RamBankN(offset) => (
            BusView { ram: b.ram.update(b.selected_ram_bank * 4096 + offset, value), ..b },
            InternalMessage::NoEffect,
        ),
        MemoryLocation::Cartridge(address) => match b.cartridge {
            Some(c) => {
                let (mapper2, memory2) = spec_mapper_write(c.mapper, c.memory, address, value);
                (
                    BusView {
                        cartridge: Some(
                            CartridgeView { mapper: mapper2, memory: memory2, header: c.header },
                        ),
                        ..b
                    },
                    InternalMessage::NoEffect,
                )
            },
            None => (b, InternalMessage::NoEffect),
        },
        MemoryLocation::Joypad => (
            BusView {
                input: InputRegister { selected_set: spec_selected_set(value), ..b.input },
                ..b
            },
            InternalMessage::NoEffect,
        ),
        MemoryLocation::Serial(SerialRegister::Data) => (
            BusView { serial_buffer: value, ..b },
            InternalMessage::NoEffect,
        ),
        MemoryLocation::Serial(SerialRegister::Control) => if value == 0x81 {
            (b, InternalMessage::TriggerInterrupt(Interrupt::EndOfSerialIO))
        } else {
            (b, InternalMessage::NoEffect)
        },
        MemoryLocation::Timer(register) => (
            BusView { timer: spec_timer_write(b.timer, register, value), ..b },
            InternalMessage::NoEffect,
        ),
        MemoryLocation::Audio(loc) => match loc {
            Ok(offset) => (
                BusView { audio: b.audio.update(offset as int, value), ..b },
                InternalMessage::NoEffect,
            ),
            Err(_) => (b, InternalMessage::NoEffect),
        },
        MemoryLocation::Video(vloc) => {
            let (video2, msg) = spec_video_write(b.video, vloc, value);
            (BusView { video: video2, ..b }, msg)
        },
        MemoryLocation::BootromUnmap => (
            BusView { is_booting: b.is_booting && value != 1, ..b },
            InternalMessage::NoEffect,
        ),
        MemoryLocation::HighRam(offset) => (
            BusView { high_ram: b.high_ram.update(offset as int, value), ..b },
            InternalMessage::NoEffect,
        ),
        MemoryLocation::InterruptEnable => (
            BusView {
                interrupt: InterruptRegisters { enabled: (value % 32) as u8, ..b.interrupt },
                ..b
            },
            InternalMessage::NoEffect,
        ),
        MemoryLocation::InterruptRequest => (
            BusView {
                interrupt: InterruptRegisters { requested: (value % 32) as u8, ..b.interrupt },
                ..b
            },
            InternalMessage::NoEffect,
        ),
    }
}

/// The byte the bus reads at an address.
pub open spec fn spec_bus_read8(b: BusView, address: u16) -> u8 {
    spec_bus_read(b, spec_resolve(b.is_booting, address))
}

/// The state and message a bus write at an address produces.
pub open spec fn spec_bus_write8(b: BusView, address: u16, value: u8) -> (BusView, InternalMessage) {
    spec_bus_write(b, spec_resolve(b.is_booting, address), value)
}

/// The bus after the OAM-DMA copy of `n` bytes: byte `i` of OAM becomes the
/// byte read at `address + i` of the state after the first `i` copies.
pub open spec fn spec_dma(b: BusView, address: u16, n: nat) -> BusView
    decreases n,
{
    if n == 0 {
        b
    } else {
        let prev = spec_dma(b, address, (n - 1) as nat);
        let source = ((address + n - 1) % 65536) as u16;
        BusView {
            video: VideoView {
                oam: prev.video.oam.update(n - 1, spec_bus_read8(prev, source)),
                ..prev.video
            },
            ..prev
        }
    }
}

impl Bus {
    pub fn new(device: DeviceType, bootrom: Option<Vec<u8>>) -> (r: Bus)
        ensures
            r@.wf(),
            r@.device_type == device,
            r@.cartridge is None,
            r@.bootrom == match bootrom {
                Some(b) => Some(b@),
                None => None::<Seq<u8>>,
            },
            r@.is_booting,
            forall|i: int| 0 <= i < r@.ram.len() ==> r@.ram[i] == 0,
            forall|i: int| 0 <= i < 128 ==> r@.high_ram[i] == 0,
            r@.input.selected_set is Neither,
            r@.timer == (TimerRegisters {
                divider_tick: 0,
                counter_tick: 0,
                modulo: 0,
                control: crate::timers::TimerControlRegister(0),
                divider: 0,
                counter: 0,
            }),
            forall|i: int| 0 <= i < 0x30 ==> r@.audio[i] == 0,
            r@.video.lcd_control == 0 && r@.video.rendering_state == (
            crate::video::RenderingState {
                mode: crate::video::RenderingMode::OamRead,
                line: 0,
                clock: 0,
            }),
            forall|i: int| 0 <= i < r@.video.vram.len() ==> r@.video.vram[i] == 0,
            forall|i: int| 0 <= i < 160 ==> r@.video.oam[i] == 0,
            r@.interrupt.enabled == 0 && r@.interrupt.requested == 0,
            r@.serial_buffer == 0,
    {
        let ram_size = device.get_ram_size();
        let mut ram: Vec<u8> = Vec::new();
        let mut i: usize = 0;
        while i < ram_size
            invariant
                i <= ram_size,
                ram@.len() == i,
                forall|j: int| 0 <= j < i ==> ram@[j] == 0,
            decreases ram_size - i,
        {
            ram.push(0);
            i = i + 1;
        }
        let mut high_ram: Vec<u8> = Vec::new();
        let mut j: usize = 0;
        while j < 128
            invariant
                j <= 128,
                high_ram@.len() == j,
                forall|k: int| 0 <= k < j ==> high_ram@[k] == 0,
            decreases 128 - j,
        {
            high_ram.push(0);
            j = j + 1;
        }
        Bus {
            device_type: device,
            cartridge: None,
            bootrom,
            is_booting: true,
            ram,
            high_ram,
            selected_ram_bank: 1,
            input: InputRegister::new(),
            timer: TimerRegisters::new(),
            audio: AudioController::new(),
            video: VideoController::new(device),
            interrupt: InterruptRegisters::new(),
            serial_buffer: 0,
        }
    }

    pub fn resolve_address(&self, address: u16) -> (r: MemoryLocation)
        requires
            self@.wf(),
        ensures
            r == spec_resolve(self.is_booting, address),
            spec_loc_wf(self@, r),
    {
        if address <= 0x00FF && self.is_booting {
            MemoryLocation::Bootrom(address as u8)
        } else if address <= 0x7FFF || (0xA000 <= address && address <= 0xBFFF) {
            MemoryLocation::Cartridge(address)
        } else if address <= 0x9FFF {
            MemoryLocation::Video(VideoMemoryLocation::Vram(address - 0x8000))
        } else if address <= 0xCFFF {
            MemoryLocation::RamBank0(address - 0xC000)
        } else if address <= 0xDFFF {
            MemoryLocation::RamBankN(address - 0xD000)
        } else if address <= 0xEFFF {
            MemoryLocation::RamBank0(address - 0xE000)
        } else if address <= 0xFDFF {
            MemoryLocation::RamBankN(address - 0xF000)
        } else if address <= 0xFE9F {
            MemoryLocation::Video(VideoMemoryLocation::Oam((address - 0xFE00) as u8))
        } else if address <= 0xFEFF {
            MemoryLocation::Ignored(address)
        } else if address == 0xFF00 {
            MemoryLocation::Joypad
        } else if address == 0xFF01 {
            MemoryLocation::Serial(SerialRegister::Data)
        } else if address == 0xFF02 {
            MemoryLocation::Serial(SerialRegister::Control)
        } else if 0xFF04 <= address && address <= 0xFF07 {
            MemoryLocation::Timer(self.timer.resolve_address(address))
        } else if address == 0xFF0F {
            MemoryLocation::InterruptRequest
        } else if 0xFF10 <= address && address <= 0xFF3F {
            MemoryLocation::Audio(self.audio.resolve_address(address))
        } else if (0xFF40 <= address && address <= 0xFF4B) || address == 0xFF4F {
            MemoryLocation::Video(self.video.resolve_address(address))
        } else if address == 0xFF4C || address == 0xFF4D || address == 0xFF4E {
            MemoryLocation::Ignored(address)
        } else if address == 0xFF50 {
            MemoryLocation::BootromUnmap
        } else if address == 0xFF7F {
            MemoryLocation::Ignored(address)
        } else if 0xFF80 <= address && address <= 0xFFFE {
            MemoryLocation::HighRam((address - 0xFF80) as u8)
        } else if address == 0xFFFF {
            MemoryLocation::InterruptEnable
        } else {
            MemoryLocation::Invalid(address)
        }
    }

    pub fn read_8(&self, location: MemoryLocation) -> (r: u8)
        requires
            self@.wf(),
            spec_loc_wf(self@, location),
        ensures
            r == spec_bus_read(self@, location),
    {
        match location {
            MemoryLocation::Invalid(_) => 0xFF,
            MemoryLocation::Ignored(_) => 0,
            MemoryLocation::Bootrom(offset) => match &self.bootrom {
                Some(rom) => {
                    if (offset as usize) < rom.len() {
                        rom[offset as usize]
                    } else {
                        0xFF
                    }
                },
                None => 0,
            },
            MemoryLocation::RamBank0(offset) => self.ram[offset as usize],
            MemoryLocation::RamBankN(offset) => self.ram[self.selected_ram_bank * 4096 + (
            offset as usize)],
            MemoryLocation::Cartridge(address) => match &self.cartridge {
                Some(c) => c.read_8(address),
                None => 0xFF,
            },
            MemoryLocation::Joypad => self.input.read_8(),
            MemoryLocation::Serial(_) => 0,
            MemoryLocation::Timer(register) => self.timer.read_8(register),
            MemoryLocation::Audio(loc) => match loc {
                Ok(offset) => self.audio.read_8(Ok(offset)),
                Err(_) => 0xFF,
            },
            MemoryLocation::Video(vloc) => self.video.read_8(vloc),
            MemoryLocation::BootromUnmap => {
                if self.is_booting {
                    1
                } else {
                    0
                }
            },
            MemoryLocation::HighRam(offset) => self.high_ram[offset as usize],
            MemoryLocation::InterruptEnable => self.interrupt.get_enable(),
            MemoryLocation::InterruptRequest => self.interrupt.get_request(),
        }
    }

    pub fn write_8(&mut self, location: MemoryLocation, value: u8) -> (msg: InternalMessage)
        requires
            old(self)@.wf(),
            spec_loc_wf(old(self)@, location),
        ensures
            (final (self)@, msg) == spec_bus_write(old(self)@, location, value),
            final (self)@.wf(),
    {
        match location {
            MemoryLocation::Invalid(_) => InternalMessage::NoEffect,
            MemoryLocation::Ignored(_) => InternalMessage::NoEffect,
            MemoryLocation::Bootrom(_) => InternalMessage::NoEffect,
            MemoryLocation::RamBank0(offset) => {
                self.ram.set(offset as usize, value);
                InternalMessage::NoEffect
            },
            MemoryLocation::RamBankN(offset) => {
                let idx = self.selected_ram_bank * 4096 + (offset as usize);
                self.ram.set(idx, value);
                InternalMessage::NoEffect
            },
            MemoryLocation::Cartridge(address) => {
                match &mut self.cartridge {
                    Some(c) => c.write_8(address, value),
                    None => {},
                }
                InternalMessage::NoEffect
            },
            MemoryLocation::Joypad => {
                self.input.write_8(value);
                InternalMessage::NoEffect
            },
            MemoryLocation::Serial(SerialRegister::Data) => {
                self.serial_buffer = value;
                InternalMessage::NoEffect
            },
            MemoryLocation::Serial(SerialRegister::Control) => {
                if value == 0x81 {
                    InternalMessage::TriggerInterrupt(Interrupt::EndOfSerialIO)
                } else {
                    InternalMessage::NoEffect
                }
            },
            MemoryLocation::Timer(register) => {
                self.timer.write_8(register, value);
                InternalMessage::NoEffect
            },
            MemoryLocation::Audio(loc) => {
                match loc {
                    Ok(offset) => {
                        self.audio.write_8(Ok(offset), value);
                    },
                    Err(_) => {},
                }
                InternalMessage::NoEffect
            },
            MemoryLocation::Video(vloc) => self.video.write_8(vloc, value),
            MemoryLocation::BootromUnmap => {
                self.is_booting = self.is_booting && value != 1;
                InternalMessage::NoEffect
            },
            MemoryLocation::HighRam(offset) => {
                self.high_ram.set(offset as usize, value);
                InternalMessage::NoEffect
            },
            MemoryLocation::InterruptEnable => {
                self.interrupt.set_enable(value);
                InternalMessage::NoEffect
            },
            MemoryLocation::InterruptRequest => {
                self.interrupt.set_request(value);
                InternalMessage::NoEffect
            },
        }
    }

    /// Resolves and reads in one step.
    pub fn read_addr_8(&self, address: u16) -> (r: u8)
        requires
            self@.wf(),
        ensures
            r == spec_bus_read8(self@, address),
    {
        let location = self.resolve_address(address);
        self.read_8(location)
    }

    /// Resolves and writes in one step.
    pub fn write_addr_8(&mut self, address: u16, value: u8) -> (msg: InternalMessage)
        requires
            old(self)@.wf(),
        ensures
            (final (self)@, msg) == spec_bus_write8(old(self)@, address, value),
            final (self)@.wf(),
    {
        let location = self.resolve_address(address);
        self.write_8(location, value)
    }

    /// Copies 160 bytes starting at `address` into OAM, reading each source
    /// byte through the bus as the copy proceeds.
    pub fn oam_dma_transfer(&mut self, address: u16)
        requires
            old(self)@.wf(),
        ensures
            final (self)@ == spec_dma(old(self)@, address, 160),
            final (self)@.wf(),
    {
        let mut i: usize = 0;
        while i < 160
            invariant
                i <= 160,
                self@.wf(),
                self@ == spec_dma(old(self)@, address, i as nat),
            decreases 160 - i,
        {
            let source = address.wrapping_add(i as u16);
            let byte = self.read_addr_8(source);
            self.video.oam.set(i, byte);
            proof {
                assert(source == ((address + i) % 65536) as u16);
            }
            i = i + 1;
        }
    }

    /// Fills `buffer[0..length]` with the bytes the bus reads from `address`
    /// on; the rest of the buffer is untouched.
    pub fn read_to_buffer(&self, buffer: &mut Vec<u8>, address: u16, length: u16)
        requires
            self@.wf(),
            old(buffer)@.len() >= length,
        ensures
            final (buffer)@.len() == old(buffer)@.len(),
            forall|k: int|
                0 <= k < length ==> final (buffer)@[k] == spec_bus_read8(
                    self@,
                    ((address + k) % 65536) as u16,
                ),
            forall|k: int| length <= k < old(buffer)@.len() ==> final (buffer)@[k] == old(buffer)@[k],
    {
        let mut i: u16 = 0;
        while i < length
            invariant
                i <= length,
                self@.wf(),
                buffer@.len() == old(buffer)@.len() >= length,
                forall|k: int|
                    0 <= k < i ==> buffer@[k] == spec_bus_read8(self@, ((address + k) % 65536) as u16),
                forall|k: int| i <= k < old(buffer)@.len() ==> buffer@[k] == old(buffer)@[k],
            decreases length - i,
        {
            let source = address.wrapping_add(i);
            let byte = self.read_addr_8(source);
            buffer.set(i as usize, byte);
            proof {
                assert(source == ((address + i) % 65536) as u16);
            }
            i = i + 1;
        }
    }

    pub fn read_to_buffer_mut(&self, buffer: &mut Vec<u8>, address: u16, length: u16)
        requires
            self@.wf(),
            old(buffer)@.len() >= length,
        ensures
            final (buffer)@.len() == old(buffer)@.len(),
            forall|k: int|
                0 <= k < length ==> final (buffer)@[k] == spec_bus_read8(
                    self@,
                    ((address + k) % 65536) as u16,
                ),
            forall|k: int| length <= k < old(buffer)@.len() ==> final (buffer)@[k] == old(buffer)@[k],
    {
        self.read_to_buffer(buffer, address, length)
    }
}

} // verus!
