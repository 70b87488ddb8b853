use rgbemu::bus::Bus;
use rgbemu::cartridge::{Cartridge, CartridgeHeader, CartridgeMemory, CartridgeType};
use rgbemu::device::{Device, DeviceType};
use rgbemu::mappers::{Mapper, MapperType};
use rgbemu::registers::Registers;

#[test]
fn echo_ram_mirrors_work_ram() {
    let mut bus = Bus::new(DeviceType::GameBoy, None);
    bus.write_addr_8(0xC123, 0x42);
    assert_eq!(0x42, bus.read_addr_8(0xE123));

    bus.write_addr_8(0xE234, 0x17);
    assert_eq!(0x17, bus.read_addr_8(0xC234));

    bus.write_addr_8(0xD456, 0x55);
    assert_eq!(0x55, bus.read_addr_8(0xF456));
}

#[test]
fn high_ram_and_unmapped_reads() {
    let mut bus = Bus::new(DeviceType::GameBoy, None);
    bus.write_addr_8(0xFF80, 0x99);
    assert_eq!(0x99, bus.read_addr_8(0xFF80));
    assert_eq!(0, bus.read_addr_8(0xFEA5), "ignored region reads 0");
    assert_eq!(0xFF, bus.read_addr_8(0xFF7E), "unmapped register reads 0xFF");
}

#[test]
fn bootrom_unmap_is_permanent() {
    let mut bus = Bus::new(DeviceType::GameBoy, Some(vec![0xAB; 256]));
    assert!(bus.is_booting);
    assert_eq!(0xAB, bus.read_addr_8(0x0000), "boot ROM shadows the cartridge");

    bus.write_addr_8(0xFF50, 1);
    assert!(!bus.is_booting);

    bus.write_addr_8(0xFF50, 0);
    assert!(!bus.is_booting, "the latch never turns back on");
}

#[test]
fn serial_control_requests_interrupt() {
    let mut device = Device::new(DeviceType::GameBoy, None);
    device.write_addr_8(0xFF01, 42);
    device.write_addr_8(0xFF02, 0x81);
    assert_eq!(0x08, device.bus.interrupt.get_request() & 0x08, "serial IF bit set");
}

#[test]
fn oam_dma_copies_from_work_ram() {
    let mut device = Device::new(DeviceType::GameBoy, None);
    for i in 0..160u16 {
        device.write_addr_8(0xC100 + i, (i as u8).wrapping_add(3));
    }
    device.write_addr_8(0xFF46, 0xC1);

    for i in 0..160u16 {
        assert_eq!(
            (i as u8).wrapping_add(3),
            device.bus.read_addr_8(0xFE00 + i),
            "OAM byte copied by DMA"
        );
    }
}

#[test]
fn cartridge_type_rejects_unsupported_codes() {
    assert!(CartridgeType::new(0x04, 0, 0).is_none(), "unsupported mapper code");
    assert!(CartridgeType::new(0x00, 0x08, 0).is_none(), "bad ROM size code");
    assert!(CartridgeType::new(0x00, 0x00, 6).is_none(), "bad RAM size code");

    let t = CartridgeType::new(0x03, 2, 3).unwrap();
    assert_eq!(MapperType::MBC1, t.mapper);
    assert!(t.has_ram);
    assert!(t.has_battery);
    assert_eq!(131072, t.rom_size);
    assert_eq!(32768, t.ram_size);
}

#[test]
fn header_parse_reads_title_and_sizes() {
    let mut image = vec![0u8; 0x150];
    image[0x134..0x138].copy_from_slice(b"PONG");
    image[0x147] = 0x00;
    image[0x148] = 0x00;
    image[0x149] = 0x00;

    let header = CartridgeHeader::parse(&image).unwrap();
    assert_eq!(Some(b"PONG".to_vec()), header.title);
    assert_eq!(MapperType::RomOnly, header.cartridge_type.mapper);
    assert_eq!(32768, header.cartridge_type.rom_size);
    assert_eq!(0, header.cartridge_type.ram_size);

    assert!(CartridgeHeader::parse(&vec![0u8; 0x100]).is_none(), "short image");

    let cartridge = Cartridge::from_bytes(&image).unwrap();
    assert_eq!(32768, cartridge.memory.rom.len());
}

#[test]
fn mbc1_rom_banking() {
    let cartridge_type = CartridgeType::new(0x02, 2, 2).unwrap();
    let mut memory = CartridgeMemory::new(cartridge_type.rom_size, cartridge_type.ram_size);
    memory.rom[4 * 16384 + 0x10] = 0xAB;
    memory.rom[1 * 16384 + 0x10] = 0xCD;
    let mapper = Mapper::from_cartridge_type(cartridge_type);
    let header = CartridgeHeader {
        title: None,
        supports_gbc: false,
        supports_sgb: false,
        cartridge_type,
        is_japanese: false,
    };
    let mut cartridge = Cartridge {
        memory,
        mapper,
        header,
    };

    // Bank 1 is selected out of reset; bank 0 writes select another.
    assert_eq!(0xCD, cartridge.read_8(0x4010));
    cartridge.write_8(0x2000, 0x04);
    assert_eq!(0xAB, cartridge.read_8(0x4010));

    // RAM is gated: disabled reads are 0xFF, enabled reads stick.
    assert_eq!(0xFF, cartridge.read_8(0xA000));
    cartridge.write_8(0x0000, 0x0A);
    cartridge.write_8(0xA000, 0x5A);
    assert_eq!(0x5A, cartridge.read_8(0xA000));
    cartridge.write_8(0x0000, 0x00);
    assert_eq!(0xFF, cartridge.read_8(0xA000), "disabled RAM reads 0xFF");
}

#[test]
fn register_pairs_round_trip() {
    let mut regs = Registers::new();
    regs.set_bc(0xABCD);
    assert_eq!(0xABCD, regs.bc());
    regs.set_de(0x1357);
    assert_eq!(0x1357, regs.de());
    regs.set_hl(0xFEDC);
    assert_eq!(0xFEDC, regs.hl());

    regs.set_af(0x1234);
    assert_eq!(0x1230, regs.af(), "the low nibble of F reads back zero");
    assert_eq!(0, regs.f % 16);
}
