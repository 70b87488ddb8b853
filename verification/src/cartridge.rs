//! The cartridge: its ROM and RAM buffers, the header parsed from bytes
//! 0x134-0x14F of the image, and the mapper the type code selects. An
//! unsupported type, size code or too-short image is reported at
//! construction; reads and writes afterwards go through the mapper.

use vstd::prelude::*;

use crate::mappers::{
    spec_mapper_read, spec_mapper_write, Mapper, MapperType, spec_mapper_addr,
};

verus! {

pub struct CartridgeMemory {
    pub rom: Vec<u8>,
    pub ram: Vec<u8>,
}

/// The cartridge's two buffers as sequences.
#[verifier::ext_equal]
pub struct MemoryView {
    pub rom: Seq<u8>,
    pub ram: Seq<u8>,
}

impl View for CartridgeMemory {
    type V = MemoryView;

    open spec fn view(&self) -> MemoryView {
        MemoryView { rom: self.rom@, ram: self.ram@ }
    }
}

impl CartridgeMemory {
    pub fn new(rom_size: usize, ram_size: usize) -> (r: CartridgeMemory)
        ensures
            r.rom@.len() == rom_size,
            r.ram@.len() == ram_size,
            forall|i: int| 0 <= i < rom_size ==> r.rom@[i] == 0,
            forall|i: int| 0 <= i < ram_size ==> r.ram@[i] == 0,
    {
        let mut rom: Vec<u8> = Vec::new();
        let mut i: usize = 0;
        while i < rom_size
            invariant
                i <= rom_size,
                rom@.len() == i,
                forall|j: int| 0 <= j < i ==> rom@[j] == 0,
            decreases rom_size - i,
        {
            rom.push(0);
            i = i + 1;
        }
        let mut ram: Vec<u8> = Vec::new();
        let mut j: usize = 0;
        while j < ram_size
            invariant
                j <= ram_size,
                ram@.len() == j,
                forall|k: int| 0 <= k < j ==> ram@[k] == 0,
            decreases ram_size - j,
        {
            ram.push(0);
            j = j + 1;
        }
        CartridgeMemory { rom, ram }
    }
}

#[derive(Debug, Clone, Copy, PartialEq, Eq, Structural)]
pub struct CartridgeType {
    pub mapper: MapperType,
    pub has_ram: bool,
    pub has_battery: bool,
    pub rom_size: usize,
    pub ram_size: usize,
}

/// Whether a ROM-size code is one the header format defines.
pub open spec fn spec_rom_size_id_valid(id: u8) -> bool {
    id <= 7 || id == 0x52 || id == 0x53 || id == 0x54
}

/// The ROM size in bytes: 32 KiB doubled per step, plus three named
/// 72/80/96-bank sizes.
pub open spec fn spec_rom_size(id: u8) -> usize {
    if id == 0 {
        32768
    } else if id == 1 {
        65536
    } else if id == 2 {
        131072
    } else if id == 3 {
        262144
    } else if id == 4 {
        524288
    } else if id == 5 {
        1048576
    } else if id == 6 {
        2097152
    } else if id == 7 {
        4194304
    } else if id == 0x52 {
        1179648
    } else if id == 0x53 {
        1310720
    } else {
        1572864
    }
}

/// The RAM size in bytes a RAM-size code names.
pub open spec fn spec_ram_size_of_id(id: u8) -> usize {
    if id == 0 {
        0
    } else if id == 1 {
        2048
    } else if id == 2 {
        8192
    } else if id == 3 {
        32768
    } else if id == 4 {
        131072
    } else {
        65536
    }
}

/// The mapper, RAM flag and battery flag a cartridge-type code names, for
/// the codes this core supports.
pub open spec fn spec_mapper_of_id(id: u8) -> Option<(MapperType, bool, bool)> {
    if id == 0x00 {
        Some((MapperType::RomOnly, false, false))
    } else if id == 0x01 {
        Some((MapperType::MBC1, false, false))
    } else if id == 0x02 {
        Some((MapperType::MBC1, true, false))
    } else if id == 0x03 {
        Some((MapperType::MBC1, true, true))
    } else if id == 0x05 {
        Some((MapperType::MBC2, false, false))
    } else if id == 0x06 {
        Some((MapperType::MBC2, true, true))
    } else if id == 0x08 {
        Some((MapperType::RomOnly, true, false))
    } else if id == 0x09 {
        Some((MapperType::RomOnly, true, true))
    } else {
        None
    }
}

impl CartridgeType {
    /// Decodes the three header codes. An unsupported cartridge-type, ROM or
    /// RAM size code yields nothing, exactly then.
    pub fn new(id: u8, rom_size_id: u8, ram_size_id: u8) -> (r: Option<CartridgeType>)
        ensures
            r is Some <==> spec_mapper_of_id(id) is Some && spec_rom_size_id_valid(rom_size_id)
                && ram_size_id <= 5,
            r matches Some(t) ==> {
                &&& Some((t.mapper, t.has_ram, t.has_battery)) == spec_mapper_of_id(id)
                &&& t.rom_size == spec_rom_size(rom_size_id)
                &&& t.ram_size == spec_ram_size_of_id(ram_size_id)
                &&& !(t.mapper is MBC3)
            },
    {
        let rom_size: usize = match rom_size_id {
            0 => 32768,
            1 => 65536,
            2 => 131072,
            3 => 262144,
            4 => 524288,
            5 => 1048576,
            6 => 2097152,
            7 => 4194304,
            0x52 => 1179648,
            0x53 => 1310720,
            0x54 => 1572864,
            _ => {
                return None;
            },
        };

        let ram_size: usize = match ram_size_id {
            0x0 => 0,
            0x1 => 2048,
            0x2 => 8192,
            0x3 => 32768,
            0x4 => 131072,
            0x5 => 65536,
            _ => {
                return None;
            },
        };

        let (mapper, has_ram, has_battery) = match id {
            0x00 => (MapperType::RomOnly, false, false),
            0x01 => (MapperType::MBC1, false, false),
            0x02 => (MapperType::MBC1, true, false),
            0x03 => (MapperType::MBC1, true, true),
            0x05 => (MapperType::MBC2, false, false),
            0x06 => (MapperType::MBC2, true, true),
            0x08 => (MapperType::RomOnly, true, false),
            0x09 => (MapperType::RomOnly, true, true),
            _ => {
                return None;
            },
        };

        Some(CartridgeType { mapper, has_ram, has_battery, rom_size, ram_size })
    }
}

#[derive(Debug, Clone)]
pub struct CartridgeHeader {
    /// The title bytes up to the first NUL, present when they are ASCII.
    pub title: Option<Vec<u8>>,
    pub supports_gbc: bool,
    pub supports_sgb: bool,
    pub cartridge_type: CartridgeType,
    pub is_japanese: bool,
}

impl CartridgeHeader {
    /// Parses the header of a ROM image. Yields nothing exactly when the
    /// image is shorter than 0x14F bytes or one of the three codes at
    /// 0x147-0x149 is unsupported.
    pub fn parse(bytes: &Vec<u8>) -> (r: Option<CartridgeHeader>)
        ensures
            r is Some <==> bytes@.len() >= 0x14F && spec_mapper_of_id(bytes@[0x147]) is Some
                && spec_rom_size_id_valid(bytes@[0x148]) && bytes@[0x149] <= 5,
            r matches Some(h) ==> {
                &&& Some((h.cartridge_type.mapper, h.cartridge_type.has_ram, h.cartridge_type.has_battery))
                    == spec_mapper_of_id(bytes@[0x147])
                &&& h.cartridge_type.rom_size == spec_rom_size(bytes@[0x148])
                &&& h.cartridge_type.ram_size == spec_ram_size_of_id(bytes@[0x149])
                &&& !(h.cartridge_type.mapper is MBC3)
                &&& !h.supports_gbc && !h.supports_sgb && !h.is_japanese
                &&& (h.title matches Some(t) ==> {
                    &&& t@.len() <= 15
                    &&& forall|i: int| 0 <= i < t@.len() ==> t@[i] == bytes@[0x134 + i] && t@[i]
                        != 0 && t@[i] < 128
                    &&& (t@.len() == 15 || bytes@[0x134 + t@.len() as int] == 0)
                })
            },
    {
        if bytes.len() < 0x14F {
            return None;
        }

        let mut title: Vec<u8> = Vec::new();
        let mut i: usize = 0;
        let mut ascii = true;
        let mut stopped = false;
        while i < 15
            invariant
                i <= 15,
                bytes@.len() >= 0x14F,
                !stopped ==> title@.len() == i,
                stopped ==> title@.len() < 15 && bytes@[0x134 + title@.len() as int] == 0,
                title@.len() <= i,
                forall|j: int| 0 <= j < title@.len() ==> title@[j] == bytes@[0x134 + j] && title@[j]
                    != 0,
                ascii ==> (forall|j: int| 0 <= j < title@.len() ==> title@[j] < 128),
            decreases 15 - i,
        {
            if !stopped {
                let b = bytes[0x134 + i];
                if b == 0 {
                    stopped = true;
                } else {
                    if b >= 128 {
                        ascii = false;
                    }
                    title.push(b);
                }
            }
            i = i + 1;
        }

        let cartridge_type_id = bytes[0x147];
        let rom_size_id = bytes[0x148];
        let ram_size_id = bytes[0x149];
        let cartridge_type = match CartridgeType::new(cartridge_type_id, rom_size_id, ram_size_id) {
            Some(t) => t,
            None => {
                return None;
            },
        };

        Some(
            CartridgeHeader {
                title: if ascii {
                    Some(title)
                } else {
                    None
                },
                supports_gbc: false,
                supports_sgb: false,
                cartridge_type,
                is_japanese: false,
            },
        )
    }
}

/// The header as mathematics: the title as a sequence of bytes.
#[verifier::ext_equal]
pub struct HeaderView {
    pub title: Option<Seq<u8>>,
    pub supports_gbc: bool,
    pub supports_sgb: bool,
    pub cartridge_type: CartridgeType,
    pub is_japanese: bool,
}

impl View for CartridgeHeader {
    type V = HeaderView;

    open spec fn view(&self) -> HeaderView {
        HeaderView {
            title: match self.title {
                Some(t) => Some(t@),
                None => None,
            },
            supports_gbc: self.supports_gbc,
            supports_sgb: self.supports_sgb,
            cartridge_type: self.cartridge_type,
            is_japanese: self.is_japanese,
        }
    }
}

pub struct Cartridge {
    pub memory: CartridgeMemory,
    pub mapper: Mapper,
    pub header: CartridgeHeader,
}

/// The cartridge as mathematics: its buffers as sequences, the mapper state
/// as itself.
#[verifier::ext_equal]
pub struct CartridgeView {
    pub memory: MemoryView,
    pub mapper: Mapper,
    pub header: HeaderView,
}

impl View for Cartridge {
    type V = CartridgeView;

    open spec fn view(&self) -> CartridgeView {
        CartridgeView { memory: self.memory@, mapper: self.mapper, header: self.header@ }
    }
}

impl Cartridge {
    /// Builds a cartridge from a raw ROM image: parses the header, sizes the
    /// buffers it names, and copies the image into the ROM buffer (padding
    /// with zeroes when the image is shorter than the header's ROM size).
    /// Yields nothing exactly when the header does.
    pub fn from_bytes(buffer: &Vec<u8>) -> (r: Option<Cartridge>)
        ensures
            r is Some <==> buffer@.len() >= 0x14F && spec_mapper_of_id(buffer@[0x147]) is Some
                && spec_rom_size_id_valid(buffer@[0x148]) && buffer@[0x149] <= 5,
            r matches Some(cart) ==> {
                &&& cart.memory.rom@.len() == cart.header.cartridge_type.rom_size
                &&& cart.memory.ram@.len() == cart.header.cartridge_type.ram_size
                &&& forall|i: int|
                    0 <= i < cart.memory.rom@.len() ==> cart.memory.rom@[i] == (if i
                        < buffer@.len() {
                        buffer@[i]
                    } else {
                        0
                    })
                &&& cart.header.cartridge_type.rom_size == spec_rom_size(buffer@[0x148])
                &&& cart.header.cartridge_type.ram_size == spec_ram_size_of_id(buffer@[0x149])
            },
    {
        let header = match CartridgeHeader::parse(buffer) {
            Some(h) => h,
            None => {
                return None;
            },
        };

        let rom_size = header.cartridge_type.rom_size;
        let ram_size = header.cartridge_type.ram_size;

        let mut rom: Vec<u8> = Vec::new();
        let mut i: usize = 0;
        while i < rom_size
            invariant
                i <= rom_size,
                rom@.len() == i,
                forall|j: int|
                    0 <= j < i ==> rom@[j] == (if j < buffer@.len() {
                        buffer@[j]
                    } else {
                        0
                    }),
            decreases rom_size - i,
        {
            if i < buffer.len() {
                let b = buffer[i];
                rom.push(b);
            } else {
                rom.push(0);
            }
            i = i + 1;
        }

        let mut ram: Vec<u8> = Vec::new();
        let mut j: usize = 0;
        while j < ram_size
            invariant
                j <= ram_size,
                ram@.len() == j,
            decreases ram_size - j,
        {
            ram.push(0);
            j = j + 1;
        }

        let mapper = Mapper::from_cartridge_type(header.cartridge_type);
        Some(Cartridge { memory: CartridgeMemory { rom, ram }, mapper, header })
    }

    pub fn read_8(&self, address: u16) -> (r: u8)
        requires
            spec_mapper_addr(address),
        ensures
            r == spec_mapper_read(self.mapper, self.memory@, address),
    {
        self.mapper.read_8(&self.memory, address)
    }

    pub fn write_8(&mut self, address: u16, value: u8)
        requires
            spec_mapper_addr(address),
        ensures
            (final (self).mapper, final (self).memory@) == spec_mapper_write(
                old(self).mapper,
                old(self).memory@,
                address,
                value,
            ),
            final (self).header == old(self).header,
    {
        self.mapper.write_8(&mut self.memory, address, value)
    }
}

} // verus!
