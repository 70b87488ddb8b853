use rgbemu::cartridge::{Cartridge, CartridgeHeader, CartridgeMemory, CartridgeType};
use rgbemu::device::{Device, DeviceType, ExecutionState};
use rgbemu::mappers::Mapper;
use rgbemu::registers::StatusFlag;

fn create_test_cartridge(rom: &[u8]) -> Cartridge {
    let mut memory = CartridgeMemory::new(16384, 0);
    for (i, b) in rom.iter().enumerate() {
        memory.rom[0x100 + i] = *b;
    }

    let cartridge_type = CartridgeType::new(0, 0, 0).unwrap();
    let mapper = Mapper::from_cartridge_type(cartridge_type);
    let header = CartridgeHeader {
        title: None,
        supports_gbc: false,
        supports_sgb: false,
        cartridge_type,
        is_japanese: false,
    };

    Cartridge {
        memory,
        mapper,
        header,
    }
}

pub fn run_program(code: &[u8]) -> Device {
    let mut device = Device::new(DeviceType::GameBoy, None);
    let cartridge = create_test_cartridge(code);

    device.bus.cartridge = Some(cartridge);

    let mut guard = 0;
    while device.execution_state != ExecutionState::Halted {
        device.run_tick();
        guard += 1;
        assert!(guard < 100000, "program did not halt");
    }

    device
}

pub fn read_address(device: &Device, address: u16) -> u8 {
    device.bus.read_addr_8(address)
}

#[test]
fn store_sp() {
    let device = run_program(&[
        0x31, 0x34, 0x12, // LD SP, 0x1234
        0x08, 0xAA, 0xCA, // LD 0xCAAA, SP
        0x76, // HALT
    ]);

    assert_eq!(0x34, read_address(&device, 0xCAAA));
    assert_eq!(0x12, read_address(&device, 0xCAAB));
}

#[test]
fn load_sp_offset_to_hl() {
    let device = run_program(&[
        0x31, 0x33, 0x12, // LD SP, 0x1233
        0xF8, 0x1, // LD HL, SP+1
        0x76, // HALT
    ]);

    assert_eq!(0x1234, device.regs.hl());
    assert_eq!(false, device.regs.get_flag(StatusFlag::H));
    assert_eq!(false, device.regs.get_flag(StatusFlag::C));
}

#[test]
fn load_sp_offset_to_hl_carry() {
    let device = run_program(&[
        0x31, 0xFE, 0xFF, // LD SP, 0xFFFF
        0xF8, 0x2, // LD HL, SP+1
        0x76, // HALT
    ]);

    assert_eq!(0x0000, device.regs.hl());
    assert_eq!(true, device.regs.get_flag(StatusFlag::H));
    assert_eq!(true, device.regs.get_flag(StatusFlag::C));
}

#[test]
fn push_de() {
    let device = run_program(&[
        0x11, 0xAD, 0xDE, // LD DE, 0xDEAD
        0xD5, // PUSH DE
        0x76, // HALT
    ]);

    assert_eq!(0xAD, read_address(&device, device.regs.sp + 2));
    assert_eq!(0xDE, read_address(&device, device.regs.sp + 1));
}

#[test]
fn push_pop_round_trip() {
    let device = run_program(&[
        0x01, 0x34, 0x12, // LD BC, 0x1234
        0xC5, // PUSH BC
        0xD1, // POP DE
        0x76, // HALT
    ]);

    assert_eq!(0x1234, device.regs.de());
    assert_eq!(0xFFFE, device.regs.sp);
}

#[test]
fn add_overflow_program() {
    let device = run_program(&[
        0x3E, 0x80, // LD A, 0x80
        0x87, // ADD A, A
        0x76, // HALT
    ]);

    assert_eq!(0x00, device.regs.a);
    assert!(device.regs.get_flag(StatusFlag::Z));
    assert!(device.regs.get_flag(StatusFlag::C));
    assert!(!device.regs.get_flag(StatusFlag::H));
}

#[test]
fn bit_set_res_programs() {
    let device = run_program(&[
        0x3E, 0x00, // LD A, 0
        0xCB, 0xC7, // SET 0, A
        0x76, // HALT
    ]);
    assert_eq!(0x01, device.regs.a);

    let device = run_program(&[
        0x3E, 0x00, // LD A, 0
        0xCB, 0xC7, // SET 0, A
        0xCB, 0x87, // RES 0, A
        0x76, // HALT
    ]);
    assert_eq!(0x00, device.regs.a);

    let device = run_program(&[
        0x3E, 0x00, // LD A, 0
        0xCB, 0x47, // BIT 0, A
        0x76, // HALT
    ]);
    assert!(device.regs.get_flag(StatusFlag::Z));
}

#[test]
fn memory_move_program() {
    let device = run_program(&[
        0x21, 0x00, 0xC0, // LD HL, 0xC000
        0x36, 0x5A, // LD (HL), 0x5A
        0x7E, // LD A, (HL)
        0x76, // HALT
    ]);

    assert_eq!(0x5A, read_address(&device, 0xC000));
    assert_eq!(0x5A, device.regs.a);
}

#[test]
fn call_and_return_program() {
    // CALL a routine at 0x0110 that loads B and returns.
    let device = run_program(&[
        0xCD, 0x10, 0x01, // 0x0100: CALL 0x0110
        0x76, // 0x0103: HALT
        0x00, 0x00, 0x00, 0x00, 0x00, 0x00, 0x00, 0x00, 0x00, 0x00, 0x00,
        0x00, // padding to 0x0110
        0x06, 0x77, // 0x0110: LD B, 0x77
        0xC9, // RET
    ]);

    assert_eq!(0x77, device.regs.b);
    assert_eq!(0xFFFE, device.regs.sp);
}
