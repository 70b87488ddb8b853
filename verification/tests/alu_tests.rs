use rgbemu::alu::{
    add_operand_8_to_a, add_operand_and_carry_to_a, compare_operand_with_a,
    subtract_operand_8_from_a, subtract_operand_and_borrow_from_a,
};
use rgbemu::device::{Device, DeviceType};
use rgbemu::instruction::Operand8;
use rgbemu::misc::bcd_correct_a;
use rgbemu::registers::StatusFlag;

fn get_device() -> Device {
    let mut device = Device::new(DeviceType::GameBoy, None);

    device.regs.set_af(0);
    device.regs.set_bc(0);
    device.regs.set_de(0);
    device.regs.set_hl(0);

    device
}

#[test]
fn simple_add() {
    let mut device = get_device();
    device.regs.a = 100;
    let initial_flags = device.regs.f;

    add_operand_8_to_a(&mut device, Operand8::A);

    assert_eq!(200, Operand8::A.get(&device));
    assert_eq!(initial_flags, device.regs.f);
}

#[test]
fn simple_add_overflow() {
    let mut device = get_device();
    device.regs.a = 128;

    add_operand_8_to_a(&mut device, Operand8::A);

    assert_eq!(0, Operand8::A.get(&device));
    assert_eq!(true, device.regs.get_flag(StatusFlag::Z), "Zero should be set");
    assert_eq!(true, device.regs.get_flag(StatusFlag::C), "Carry should be set");
    assert_eq!(false, device.regs.get_flag(StatusFlag::H), "Half carry should not be set");
}

#[test]
fn add_sets_half_carry() {
    let mut device = get_device();
    device.regs.a = 0x0F;

    add_operand_8_to_a(&mut device, Operand8::Immediate(0x01));

    assert_eq!(0x10, device.regs.a);
    assert!(device.regs.get_flag(StatusFlag::H));
    assert!(!device.regs.get_flag(StatusFlag::C));
    assert!(!device.regs.get_flag(StatusFlag::Z));
}

#[test]
fn add_with_carry_in() {
    let mut device = get_device();
    device.regs.a = 0x10;
    device.regs.set_flag(StatusFlag::C);

    add_operand_and_carry_to_a(&mut device, Operand8::Immediate(0x05));

    assert_eq!(0x16, device.regs.a);
    assert!(!device.regs.get_flag(StatusFlag::C));
}

#[test]
fn subtract_sets_borrow_flags() {
    let mut device = get_device();
    device.regs.a = 0x10;

    subtract_operand_8_from_a(&mut device, Operand8::Immediate(0x20));

    assert_eq!(0xF0, device.regs.a);
    assert!(device.regs.get_flag(StatusFlag::C), "borrow sets C");
    assert!(!device.regs.get_flag(StatusFlag::H), "no nibble borrow here");
    assert!(device.regs.get_flag(StatusFlag::N));
}

#[test]
fn subtract_nibble_borrow() {
    let mut device = get_device();
    device.regs.a = 0x20;

    subtract_operand_8_from_a(&mut device, Operand8::Immediate(0x01));

    assert_eq!(0x1F, device.regs.a);
    assert!(!device.regs.get_flag(StatusFlag::C));
    assert!(device.regs.get_flag(StatusFlag::H), "nibble borrow sets H");
}

#[test]
fn subtract_with_borrow_in() {
    let mut device = get_device();
    device.regs.a = 0x10;
    device.regs.set_flag(StatusFlag::C);

    subtract_operand_and_borrow_from_a(&mut device, Operand8::Immediate(0x05));

    assert_eq!(0x0A, device.regs.a);
    assert!(!device.regs.get_flag(StatusFlag::C));
}

#[test]
fn compare_leaves_a() {
    let mut device = get_device();
    device.regs.a = 0x42;

    compare_operand_with_a(&mut device, Operand8::Immediate(0x42));

    assert_eq!(0x42, device.regs.a);
    assert!(device.regs.get_flag(StatusFlag::Z));
    assert!(!device.regs.get_flag(StatusFlag::C));
}

#[test]
fn daa_corrects_bcd_addition() {
    // 19 + 28 = 47 in BCD
    let mut device = get_device();
    device.regs.a = 0x19;
    add_operand_8_to_a(&mut device, Operand8::Immediate(0x28));
    bcd_correct_a(&mut device);

    assert_eq!(0x47, device.regs.a);
    assert!(!device.regs.get_flag(StatusFlag::C));

    // 90 + 20 = 110: the decimal sum wraps past 100 and sets C.
    let mut device = get_device();
    device.regs.a = 0x90;
    add_operand_8_to_a(&mut device, Operand8::Immediate(0x20));
    bcd_correct_a(&mut device);

    assert_eq!(0x10, device.regs.a);
    assert!(device.regs.get_flag(StatusFlag::C));
}

#[test]
fn daa_corrects_bcd_subtraction() {
    // 42 - 19 = 23 in BCD
    let mut device = get_device();
    device.regs.a = 0x42;
    subtract_operand_8_from_a(&mut device, Operand8::Immediate(0x19));
    bcd_correct_a(&mut device);

    assert_eq!(0x23, device.regs.a);
    assert!(!device.regs.get_flag(StatusFlag::C));

    // 5 - 9 borrows: 96 with C set.
    let mut device = get_device();
    device.regs.a = 0x05;
    subtract_operand_8_from_a(&mut device, Operand8::Immediate(0x09));
    bcd_correct_a(&mut device);

    assert_eq!(0x96, device.regs.a);
    assert!(device.regs.get_flag(StatusFlag::C));
}
