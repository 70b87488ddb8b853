use rgbemu::device::{Device, DeviceType};
use rgbemu::input::{ButtonSet, InputRegister, InputState};
use rgbemu::internal_message::{InternalMessage, RendererMessage};
use rgbemu::interrupt::{Interrupt, InterruptRegisters};
use rgbemu::timers::{TimerRegister, TimerRegisters};
use rgbemu::video::{RenderingMode, VideoController};

#[test]
fn timer_period_16_increments_tima() {
    let mut timer = TimerRegisters::new();
    timer.write_8(TimerRegister::Control, 0b101);

    for _ in 0..15 {
        assert_eq!(InternalMessage::NoEffect, timer.update());
        assert_eq!(0, timer.counter);
    }
    timer.update();
    assert_eq!(1, timer.counter, "TIMA increments on exactly the 16th tick");
}

#[test]
fn timer_overflow_reloads_and_interrupts() {
    let mut timer = TimerRegisters::new();
    timer.write_8(TimerRegister::Control, 0b101);
    timer.write_8(TimerRegister::Modulo, 0x80);

    let mut overflow_messages = 0;
    for _ in 0..(16 * 256) {
        match timer.update() {
            InternalMessage::TriggerInterrupt(Interrupt::TimerOverflow) => {
                overflow_messages += 1;
            }
            InternalMessage::NoEffect => {}
            other => panic!("unexpected message {:?}", other),
        }
    }

    assert_eq!(1, overflow_messages, "one overflow per 16*256 ticks from zero");
    assert_eq!(0x80, timer.counter, "TIMA reloads from TMA");
}

#[test]
fn timer_div_advances_every_256_cycles() {
    let mut timer = TimerRegisters::new();
    for _ in 0..256 {
        timer.update();
    }
    assert_eq!(1, timer.divider);
    assert_eq!(0, timer.read_8(TimerRegister::Counter), "TIMA disabled");
}

#[test]
fn ppu_mode_sequence() {
    let mut video = VideoController::new(DeviceType::GameBoy);
    assert_eq!(RenderingMode::OamRead, video.rendering_state.mode);
    assert_eq!(0, video.rendering_state.line);

    let msg = video.update(80);
    assert_eq!(InternalMessage::NoEffect, msg);
    assert_eq!(RenderingMode::VramRead, video.rendering_state.mode);

    let msg = video.update(172);
    assert_eq!(
        InternalMessage::RendererMessage(RendererMessage::RenderScanline(0)),
        msg
    );
    assert_eq!(RenderingMode::Hblank, video.rendering_state.mode);

    let msg = video.update(204);
    assert_eq!(InternalMessage::NoEffect, msg);
    assert_eq!(RenderingMode::OamRead, video.rendering_state.mode);
    assert_eq!(1, video.rendering_state.line);
}

#[test]
fn ppu_full_frame() {
    let mut video = VideoController::new(DeviceType::GameBoy);
    let mut vblank_interrupts = 0;
    let mut prepare_messages = 0;
    let mut scanlines = 0;

    // One full frame is 154 lines of 456 cycles.
    for _ in 0..(154 * 456 / 4) {
        match video.update(4) {
            InternalMessage::TriggerInterrupt(Interrupt::LCDVBlank) => {
                vblank_interrupts += 1;
            }
            InternalMessage::RendererMessage(RendererMessage::RenderScanline(_)) => {
                scanlines += 1;
            }
            InternalMessage::RendererMessage(RendererMessage::PrepareNextFrame) => {
                prepare_messages += 1;
            }
            _ => {}
        }
    }

    assert_eq!(1, vblank_interrupts, "one VBlank interrupt per frame");
    assert_eq!(1, prepare_messages, "one prepare-next-frame per frame");
    assert_eq!(144, scanlines, "one scanline message per visible line");
    assert_eq!(RenderingMode::OamRead, video.rendering_state.mode);
    assert_eq!(0, video.rendering_state.line);
    assert_eq!(0, video.rendering_state.clock);
}

#[test]
fn interrupt_priority_is_vblank_first() {
    let mut registers = InterruptRegisters::new();
    registers.set_enable(0x1F);
    registers.set_request(0x1F);

    assert_eq!(Some(Interrupt::LCDVBlank), registers.handle_next_interrupt());
    assert_eq!(0x1E, registers.get_request(), "the VBlank bit clears");
    assert_eq!(
        Some(Interrupt::LCDController),
        registers.handle_next_interrupt()
    );
}

#[test]
fn interrupt_none_when_masked() {
    let mut registers = InterruptRegisters::new();
    registers.set_request(0x1F);
    assert_eq!(None, registers.handle_next_interrupt());
    assert_eq!(0x1F, registers.get_request());
}

#[test]
fn joypad_encoding() {
    let mut joypad = InputRegister::new();
    assert_eq!(0xFF, joypad.read_8(), "nothing selected reads all high");

    let mut state = InputState::new();
    state.right = true;
    state.start = true;
    joypad.update(state);

    joypad.write_8(0x20);
    assert_eq!(ButtonSet::Arrows, joypad.selected_set);
    assert_eq!(0xEE, joypad.read_8(), "right pressed reads bit 0 low");

    joypad.write_8(0x10);
    assert_eq!(ButtonSet::Actions, joypad.selected_set);
    assert_eq!(0xD7, joypad.read_8(), "start pressed reads bit 3 low");

    joypad.write_8(0x30);
    assert_eq!(ButtonSet::Neither, joypad.selected_set);
}

#[test]
fn device_services_vblank_interrupt() {
    let mut device = Device::new(DeviceType::GameBoy, None);
    // Enable the VBlank interrupt and request it by hand.
    device.bus.write_addr_8(0xFFFF, 0x01);
    device.bus.write_addr_8(0xFF0F, 0x01);
    let pc_before = device.regs.pc;
    device.check_interrupts();

    assert_eq!(0x0040, device.regs.pc, "control moves to the VBlank handler");
    assert_eq!(false, device.interrupts_enabled);
    assert_eq!(0, device.bus.interrupt.get_request());
    // The pushed return address sits above the new SP.
    assert_eq!(0xFFFC, device.regs.sp);
    let low = device.bus.read_addr_8(0xFFFE);
    let high = device.bus.read_addr_8(0xFFFD);
    assert_eq!(pc_before, (high as u16) * 256 + (low as u16));
}
