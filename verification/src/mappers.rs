//! Cartridge mappers: the chip between the console and the cartridge's ROM
//! and RAM. ROM-only carts map their 32 KiB straight through; MBC1 and MBC2
//! intercept writes into the ROM area to select banks and to gate RAM.
//! Reads out of range, and reads of disabled or absent RAM, return 0xFF.

use vstd::prelude::*;
use vstd::pervasive::VecAdditionalExecFns;

use crate::cartridge::{CartridgeMemory, CartridgeType, MemoryView};

verus! {

#[derive(Debug, Clone, Copy, PartialEq, Eq, Structural)]
pub enum MapperType {
    RomOnly,
    MBC1,
    MBC2,
    MBC3,
}

/// An address a mapper is asked about: the ROM area or the RAM window.
pub open spec fn spec_mapper_addr(address: u16) -> bool {
    address < 0x8000 || 0xA000 <= address <= 0xBFFF
}

/// The byte at `idx` of a sequence, or 0xFF out of range.
pub open spec fn spec_byte_at(bytes: Seq<u8>, idx: int) -> u8 {
    if 0 <= idx < bytes.len() {
        bytes[idx]
    } else {
        0xFF
    }
}

fn rom_byte_at(bytes: &Vec<u8>, idx: usize) -> (r: u8)
    ensures
        r == spec_byte_at(bytes@, idx as int),
{
    if idx < bytes.len() {
        bytes[idx]
    } else {
        0xFF
    }
}

/// A cartridge without banking: 32 KiB of ROM mapped straight through,
/// writes to ROM ignored, and an optional fixed RAM window.
#[derive(Debug, Clone, Copy, PartialEq, Eq, Structural)]
pub struct RomOnly {}

pub open spec fn spec_rom_only_read(mem: MemoryView, address: u16) -> u8 {
    if address < 0x8000 {
        spec_byte_at(mem.rom, address as int)
    } else {
        spec_byte_at(mem.ram, address - 0xA000)
    }
}

/// A ROM-only write: stores into the RAM window when it exists, and is
/// dropped anywhere in ROM.
pub open spec fn spec_rom_only_write(mem: MemoryView, address: u16, value: u8) -> MemoryView {
    if address < 0x8000 {
        mem
    } else {
        if address - 0xA000 < mem.ram.len() {
            MemoryView { ram: mem.ram.update(address - 0xA000, value), ..mem }
        } else {
            mem
        }
    }
}

impl RomOnly {
    pub fn new() -> (r: RomOnly) {
        RomOnly {  }
    }

    pub fn read_8(&self, memory: &CartridgeMemory, address: u16) -> (r: u8)
        requires
            spec_mapper_addr(address),
        ensures
            r == spec_rom_only_read(memory@, address),
    {
        if address < 0x8000 {
            rom_byte_at(&memory.rom, address as usize)
        } else {
            rom_byte_at(&memory.ram, (address - 0xA000) as usize)
        }
    }

    pub fn write_8(&mut self, memory: &mut CartridgeMemory, address: u16, value: u8)
        requires
            spec_mapper_addr(address),
        ensures
            *final (self) == *old(self),
            final (memory)@ == spec_rom_only_write(old(memory)@, address, value),
    {
        if address >= 0xA000 {
            let offset = (address - 0xA000) as usize;
            if offset < memory.ram.len() {
                memory.ram.set(offset, value);
            }
        }
    }
}

/// MBC1 banking state: the RAM gate, the banking-mode latch, the low five
/// ROM-bank bits and the two upper bits shared between ROM and RAM banking.
#[derive(Debug, Clone, Copy, PartialEq, Eq, Structural)]
pub struct MBC1 {
    pub cartridge_type: CartridgeType,
    pub ram_enabled: bool,
    pub rom_banking_mode: bool,
    pub rom_bank: u8,
    pub ram_bank_or_upper_rom_bits: u8,
}

/// The ROM bank mapped at 0x4000-0x7FFF: the upper bits join the low five
/// only in ROM-banking mode.
pub open spec fn spec_mbc1_rom_bank(m: MBC1) -> int {
    if m.rom_banking_mode {
        (m.ram_bank_or_upper_rom_bits % 4) * 32 + m.rom_bank
    } else {
        m.rom_bank as int
    }
}

/// The RAM bank mapped at 0xA000-0xBFFF: the upper bits select it only in
/// RAM-banking mode.
pub open spec fn spec_mbc1_ram_bank(m: MBC1) -> int {
    if m.rom_banking_mode {
        0
    } else {
        (m.ram_bank_or_upper_rom_bits % 4) as int
    }
}

pub open spec fn spec_mbc1_read(m: MBC1, mem: MemoryView, address: u16) -> u8 {
    if address < 0x4000 {
        spec_byte_at(mem.rom, address as int)
    } else if address < 0x8000 {
        spec_byte_at(mem.rom, spec_mbc1_rom_bank(m) * 16384 + (address - 0x4000))
    } else {
        if m.ram_enabled {
            spec_byte_at(mem.ram, spec_mbc1_ram_bank(m) * 8192 + (address - 0xA000))
        } else {
            0xFF
        }
    }
}

/// An MBC1 write: the four control regions set the RAM gate, the ROM bank
/// (never 0), the upper bits and the mode latch; the RAM window stores the
/// value when RAM is enabled and the bank offset is in range.
pub open spec fn spec_mbc1_write(m: MBC1, mem: MemoryView, address: u16, value: u8) -> (
    MBC1,
    MemoryView,
) {
    if address < 0x2000 {
        (MBC1 { ram_enabled: value % 16 == 0x0A, ..m }, mem)
    } else if address < 0x4000 {
        (
            MBC1 {
                rom_bank: if value == 0 {
                    1u8
                } else {
                    (value % 32) as u8
                },
                ..m
            },
            mem,
        )
    } else if address < 0x6000 {
        (MBC1 { ram_bank_or_upper_rom_bits: value, ..m }, mem)
    } else if address < 0x8000 {
        if value == 0 {
            (MBC1 { rom_banking_mode: true, ..m }, mem)
        } else if value == 1 {
            (MBC1 { rom_banking_mode: false, ..m }, mem)
        } else {
            (m, mem)
        }
    } else {
        let offset = spec_mbc1_ram_bank(m) * 8192 + (address - 0xA000);
        if m.ram_enabled && 0 <= offset < mem.ram.len() {
            (m, MemoryView { ram: mem.ram.update(offset, value), ..mem })
        } else {
            (m, mem)
        }
    }
}

impl MBC1 {
    pub fn new(cartridge_type: CartridgeType) -> (r: MBC1)
        ensures
            r == (MBC1 {
                cartridge_type,
                ram_enabled: false,
                rom_banking_mode: true,
                rom_bank: 1,
                ram_bank_or_upper_rom_bits: 0,
            }),
    {
        MBC1 {
            cartridge_type,
            ram_enabled: false,
            rom_banking_mode: true,
            rom_bank: 1,
            ram_bank_or_upper_rom_bits: 0,
        }
    }

    pub fn get_rom_bank(&self) -> (r: usize)
        ensures
            r == spec_mbc1_rom_bank(*self),
    {
        if self.rom_banking_mode {
            (self.ram_bank_or_upper_rom_bits % 4) as usize * 32 + self.rom_bank as usize
        } else {
            self.rom_bank as usize
        }
    }

    pub fn get_ram_bank(&self) -> (r: usize)
        ensures
            r == spec_mbc1_ram_bank(*self),
    {
        if self.rom_banking_mode {
            0
        } else {
            (self.ram_bank_or_upper_rom_bits % 4) as usize
        }
    }

    pub fn read_8(&self, memory: &CartridgeMemory, address: u16) -> (r: u8)
        requires
            spec_mapper_addr(address),
        ensures
            r == spec_mbc1_read(*self, memory@, address),
    {
        if address < 0x4000 {
            rom_byte_at(&memory.rom, address as usize)
        } else if address < 0x8000 {
            let bank = self.get_rom_bank();
            rom_byte_at(&memory.rom, bank * 16384 + (address - 0x4000) as usize)
        } else {
            if self.ram_enabled {
                let bank = self.get_ram_bank();
                rom_byte_at(&memory.ram, bank * 8192 + (address - 0xA000) as usize)
            } else {
                0xFF
            }
        }
    }

    pub fn write_8(&mut self, memory: &mut CartridgeMemory, address: u16, value: u8)
        requires
            spec_mapper_addr(address),
        ensures
            (*final (self), final (memory)@) == spec_mbc1_write(*old(self), old(memory)@, address, value),
    {
        if address < 0x2000 {
            self.ram_enabled = value % 16 == 0x0A;
        } else if address < 0x4000 {
            self.rom_bank = if value == 0 {
                1
            } else {
                value % 32
            };
        } else if address < 0x6000 {
            self.ram_bank_or_upper_rom_bits = value;
        } else if address < 0x8000 {
            if value == 0 {
                self.rom_banking_mode = true;
            } else if value == 1 {
                self.rom_banking_mode = false;
            }
        } else {
            let offset = self.get_ram_bank() * 8192 + (address - 0xA000) as usize;
            if self.ram_enabled && offset < memory.ram.len() {
                memory.ram.set(offset, value);
            }
        }
    }
}

/// MBC2 banking state: the RAM gate and a 4-bit ROM bank. Its RAM is 512
/// 4-bit entries carried in the cartridge's RAM buffer.
#[derive(Debug, Clone, Copy, PartialEq, Eq, Structural)]
pub struct MBC2 {
    pub ram_enabled: bool,
    pub rom_bank: u8,
}

pub open spec fn spec_mbc2_read(m: MBC2, mem: MemoryView, address: u16) -> u8 {
    if address < 0x4000 {
        spec_byte_at(mem.rom, address as int)
    } else if address < 0x8000 {
        spec_byte_at(mem.rom, m.rom_bank * 16384 + (address - 0x4000))
    } else {
        if m.ram_enabled && address - 0xA000 < 512 {
            spec_byte_at(mem.ram, address - 0xA000) % 16
        } else {
            0xFF
        }
    }
}

/// An MBC2 write into the ROM area selects the bank when bit 8 of the
/// address is set, and gates RAM (low nibble 0x0A enables) when it is not;
/// the nibble RAM stores the low four bits of the value.
pub open spec fn spec_mbc2_write(m: MBC2, mem: MemoryView, address: u16, value: u8) -> (
    MBC2,
    MemoryView,
) {
    if address < 0x4000 {
        if address / 256 % 2 == 1 {
            (
                MBC2 {
                    rom_bank: if value % 16 == 0 {
                        1u8
                    } else {
                        (value % 16) as u8
                    },
                    ..m
                },
                mem,
            )
        } else {
            (MBC2 { ram_enabled: value % 16 == 0x0A, ..m }, mem)
        }
    } else if address < 0x8000 {
        (m, mem)
    } else {
        if m.ram_enabled && address - 0xA000 < 512 && address - 0xA000 < mem.ram.len() {
            (m, MemoryView { ram: mem.ram.update(address - 0xA000, (value % 16) as u8), ..mem })
        } else {
            (m, mem)
        }
    }
}

impl MBC2 {
    pub fn new() -> (r: MBC2)
        ensures
            r == (MBC2 { ram_enabled: false, rom_bank: 1 }),
    {
        MBC2 { ram_enabled: false, rom_bank: 1 }
    }

    pub fn read_8(&self, memory: &CartridgeMemory, address: u16) -> (r: u8)
        requires
            spec_mapper_addr(address),
        ensures
            r == spec_mbc2_read(*self, memory@, address),
    {
        if address < 0x4000 {
            rom_byte_at(&memory.rom, address as usize)
        } else if address < 0x8000 {
            rom_byte_at(&memory.rom, self.rom_bank as usize * 16384 + (address - 0x4000) as usize)
        } else {
            if self.ram_enabled && address - 0xA000 < 512 {
                rom_byte_at(&memory.ram, (address - 0xA000) as usize) % 16
            } else {
                0xFF
            }
        }
    }

    pub fn write_8(&mut self, memory: &mut CartridgeMemory, address: u16, value: u8)
        requires
            spec_mapper_addr(address),
        ensures
            (*final (self), final (memory)@) == spec_mbc2_write(*old(self), old(memory)@, address, value),
    {
        if address < 0x4000 {
            if (address / 256) % 2 == 1 {
                self.rom_bank = if value % 16 == 0 {
                    1
                } else {
                    value % 16
                };
            } else {
                self.ram_enabled = value % 16 == 0x0A;
            }
        } else if address < 0x8000 {
        } else {
            let offset = (address - 0xA000) as usize;
            if self.ram_enabled && offset < 512 && offset < memory.ram.len() {
                memory.ram.set(offset, value % 16);
            }
        }
    }
}

/// The closed set of mappers, dispatched by the cartridge-type tag.
#[derive(Debug, Clone, Copy, PartialEq, Eq, Structural)]
pub enum Mapper {
    RomOnly(RomOnly),
    MBC1(MBC1),
    MBC2(MBC2),
}

pub open spec fn spec_mapper_read(m: Mapper, mem: MemoryView, address: u16) -> u8 {
    match m {
        Mapper::RomOnly(inner) => spec_rom_only_read(mem, address),
        Mapper::MBC1(inner) => spec_mbc1_read(inner, mem, address),
        Mapper::MBC2(inner) => spec_mbc2_read(inner, mem, address),
    }
}

pub open spec fn spec_mapper_write(m: Mapper, mem: MemoryView, address: u16, value: u8) -> (
    Mapper,
    MemoryView,
) {
    match m {
        Mapper::RomOnly(inner) => (m, spec_rom_only_write(mem, address, value)),
        Mapper::MBC1(inner) => {
            let (inner2, mem2) = spec_mbc1_write(inner, mem, address, value);
            (Mapper::MBC1(inner2), mem2)
        },
        Mapper::MBC2(inner) => {
            let (inner2, mem2) = spec_mbc2_write(inner, mem, address, value);
            (Mapper::MBC2(inner2), mem2)
        },
    }
}

impl Mapper {
    pub fn from_cartridge_type(cartridge_type: CartridgeType) -> (r: Mapper)
        requires
            !(cartridge_type.mapper is MBC3),
        ensures
            r == match cartridge_type.mapper {
                MapperType::RomOnly => Mapper::RomOnly(RomOnly {  }),
                MapperType::MBC1 => Mapper::MBC1(MBC1 {
                    cartridge_type,
                    ram_enabled: false,
                    rom_banking_mode: true,
                    rom_bank: 1,
                    ram_bank_or_upper_rom_bits: 0,
                }),
                _ => Mapper::MBC2(MBC2 { ram_enabled: false, rom_bank: 1 }),
            },
    {
        match cartridge_type.mapper {
            MapperType::RomOnly => Mapper::RomOnly(RomOnly::new()),
            MapperType::MBC1 => Mapper::MBC1(MBC1::new(cartridge_type)),
            _ => Mapper::MBC2(MBC2::new()),
        }
    }

    pub fn read_8(&self, memory: &CartridgeMemory, address: u16) -> (r: u8)
        requires
            spec_mapper_addr(address),
        ensures
            r == spec_mapper_read(*self, memory@, address),
    {
        match self {
            Mapper::RomOnly(inner) => inner.read_8(memory, address),
            Mapper::MBC1(inner) => inner.read_8(memory, address),
            Mapper::MBC2(inner) => inner.read_8(memory, address),
        }
    }

    pub fn write_8(&mut self, memory: &mut CartridgeMemory, address: u16, value: u8)
        requires
            spec_mapper_addr(address),
        ensures
            (*final (self), final (memory)@) == spec_mapper_write(*old(self), old(memory)@, address, value),
    {
        match self {
            Mapper::RomOnly(inner) => inner.write_8(memory, address, value),
            Mapper::MBC1(inner) => inner.write_8(memory, address, value),
            Mapper::MBC2(inner) => inner.write_8(memory, address, value),
        }
    }
}

} // verus!
