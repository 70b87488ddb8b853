//! The picture-processing unit: its registers, VRAM and OAM, and the
//! scanline state machine. Per visible line the PPU spends 80 cycles
//! scanning OAM, 172 transferring pixels (emitting the scanline at the end)
//! and 204 in horizontal blank; after line 143 it spends ten 456-cycle
//! lines in vertical blank, requesting the VBlank interrupt on entry.

use vstd::prelude::*;
use vstd::pervasive::VecAdditionalExecFns;

use crate::device::{spec_vram_size, DeviceType};
use crate::internal_message::{InternalMessage, RendererMessage};
use crate::interrupt::Interrupt;

verus! {

/// A palette byte: four 2-bit color indices, entry 0 in the low bits.
#[derive(Debug, Default, Clone, Copy, PartialEq, Eq, Structural)]
pub struct GbPalette(pub u8);

impl GbPalette {
    pub fn get_color_0(self) -> (r: u8)
        ensures
            r == self.0 % 4,
    {
        self.0 % 4
    }

    pub fn get_color_1(self) -> (r: u8)
        ensures
            r == self.0 / 4 % 4,
    {
        self.0 / 4 % 4
    }

    pub fn get_color_2(self) -> (r: u8)
        ensures
            r == self.0 / 16 % 4,
    {
        self.0 / 16 % 4
    }

    pub fn get_color_3(self) -> (r: u8)
        ensures
            r == self.0 / 64,
    {
        self.0 / 64
    }
}

#[derive(Debug, Clone, Copy, PartialEq, Eq, Structural)]
pub enum VideoMemoryLocation {
    Vram(u16),
    Oam(u8),
    LCDControlRegister,
    LCDStatusRegister,
    ScrollY,
    ScrollX,
    CurrentScanline,
    ComparisonScanline,
    BackgroundPalette,
    SpritePalette0,
    SpritePalette1,
    WindowY,
    WindowX,
    DMATransferControl,
    VramBank,
}

#[derive(Debug, Clone, Copy, PartialEq, Eq, Structural)]
pub enum RenderingMode {
    OamRead,
    VramRead,
    Hblank,
    Vblank,
}

#[derive(Debug, Clone, Copy, PartialEq, Eq, Structural)]
pub struct RenderingState {
    pub mode: RenderingMode,
    pub line: u8,
    pub clock: u32,
}

impl RenderingState {
    pub fn new() -> (r: RenderingState)
        ensures
            r == (RenderingState { mode: RenderingMode::OamRead, line: 0, clock: 0 }),
    {
        RenderingState { mode: RenderingMode::OamRead, line: 0, clock: 0 }
    }
}

pub struct VideoController {
    pub device_type: DeviceType,
    pub vram: Vec<u8>,
    pub oam: Vec<u8>,
    pub vram_bank: u8,
    pub lcd_control: u8,
    pub lcd_status: u8,
    pub scroll_y: u8,
    pub scroll_x: u8,
    pub comparison_scanline: u8,
    pub background_palette: GbPalette,
    pub sprite_palette_0: GbPalette,
    pub sprite_palette_1: GbPalette,
    pub window_y: u8,
    pub window_x: u8,
    pub rendering_state: RenderingState,
}

/// The PPU's state as mathematics: its memories as sequences, its registers
/// as plain values.
#[verifier::ext_equal]
pub struct VideoView {
    pub device_type: DeviceType,
    pub vram: Seq<u8>,
    pub oam: Seq<u8>,
    pub vram_bank: u8,
    pub lcd_control: u8,
    pub lcd_status: u8,
    pub scroll_y: u8,
    pub scroll_x: u8,
    pub comparison_scanline: u8,
    pub background_palette: u8,
    pub sprite_palette_0: u8,
    pub sprite_palette_1: u8,
    pub window_y: u8,
    pub window_x: u8,
    pub rendering_state: RenderingState,
}

impl View for VideoController {
    type V = VideoView;

    open spec fn view(&self) -> VideoView {
        VideoView {
            device_type: self.device_type,
            vram: self.vram@,
            oam: self.oam@,
            vram_bank: self.vram_bank,
            lcd_control: self.lcd_control,
            lcd_status: self.lcd_status,
            scroll_y: self.scroll_y,
            scroll_x: self.scroll_x,
            comparison_scanline: self.comparison_scanline,
            background_palette: self.background_palette.0,
            sprite_palette_0: self.sprite_palette_0.0,
            sprite_palette_1: self.sprite_palette_1.0,
            window_y: self.window_y,
            window_x: self.window_x,
            rendering_state: self.rendering_state,
        }
    }
}

impl VideoView {
    pub open spec fn wf(self) -> bool {
        self.vram.len() == spec_vram_size(self.device_type) && self.oam.len() == 160
    }

    /// Whether a location's offset lies inside the memory it names.
    pub open spec fn location_wf(self, location: VideoMemoryLocation) -> bool {
        match location {
            VideoMemoryLocation::Vram(offset) => offset < self.vram.len(),
            VideoMemoryLocation::Oam(offset) => offset < 160,
            _ => true,
        }
    }
}

/// The video register an I/O address selects. Addresses 0xFF4C-0xFF4E map
/// to nothing and are handled by the bus.
pub open spec fn spec_video_register(address: u16) -> VideoMemoryLocation {
    if address == 0xFF40 {
        VideoMemoryLocation::LCDControlRegister
    } else if address == 0xFF41 {
        VideoMemoryLocation::LCDStatusRegister
    } else if address == 0xFF42 {
        VideoMemoryLocation::ScrollY
    } else if address == 0xFF43 {
        VideoMemoryLocation::ScrollX
    } else if address == 0xFF44 {
        VideoMemoryLocation::CurrentScanline
    } else if address == 0xFF45 {
        VideoMemoryLocation::ComparisonScanline
    } else if address == 0xFF46 {
        VideoMemoryLocation::DMATransferControl
    } else if address == 0xFF47 {
        VideoMemoryLocation::BackgroundPalette
    } else if address == 0xFF48 {
        VideoMemoryLocation::SpritePalette0
    } else if address == 0xFF49 {
        VideoMemoryLocation::SpritePalette1
    } else if address == 0xFF4A {
        VideoMemoryLocation::WindowY
    } else if address == 0xFF4B {
        VideoMemoryLocation::WindowX
    } else {
        VideoMemoryLocation::VramBank
    }
}

/// The byte a video location reads: memory, a register, or 0 for the
/// write-only DMA trigger.
pub open spec fn spec_video_read(v: VideoView, location: VideoMemoryLocation) -> u8 {
    match location {
        VideoMemoryLocation::Vram(offset) => v.vram[offset as int],
        VideoMemoryLocation::Oam(offset) => v.oam[offset as int],
        VideoMemoryLocation::LCDControlRegister => v.lcd_control,
        VideoMemoryLocation::LCDStatusRegister => v.lcd_status,
        VideoMemoryLocation::ScrollY => v.scroll_y,
        VideoMemoryLocation::ScrollX => v.scroll_x,
        VideoMemoryLocation::CurrentScanline => v.rendering_state.line,
        VideoMemoryLocation::ComparisonScanline => v.comparison_scanline,
        VideoMemoryLocation::BackgroundPalette => v.background_palette,
        VideoMemoryLocation::SpritePalette0 => v.sprite_palette_0,
        VideoMemoryLocation::SpritePalette1 => v.sprite_palette_1,
        VideoMemoryLocation::WindowY => v.window_y,
        VideoMemoryLocation::WindowX => v.window_x,
        VideoMemoryLocation::DMATransferControl => 0,
        VideoMemoryLocation::VramBank => v.vram_bank,
    }
}

/// The state and message a video write produces: registers store the value,
/// and a write to the DMA trigger requests an OAM transfer from
/// `value * 256`.
pub open spec fn spec_video_write(v: VideoView, location: VideoMemoryLocation, value: u8) -> (
    VideoView,
    InternalMessage,
) {
    match location {
        VideoMemoryLocation::Vram(offset) => (
            VideoView { vram: v.vram.update(offset as int, value), ..v },
            InternalMessage::NoEffect,
        ),
        VideoMemoryLocation::Oam(offset) => (
            VideoView { oam: v.oam.update(offset as int, value), ..v },
            InternalMessage::NoEffect,
        ),
        VideoMemoryLocation::LCDControlRegister => (
            VideoView { lcd_control: value, ..v },
            InternalMessage::NoEffect,
        ),
        VideoMemoryLocation::LCDStatusRegister => (
            VideoView { lcd_status: value, ..v },
            InternalMessage::NoEffect,
        ),
        VideoMemoryLocation::ScrollY => (VideoView { scroll_y: value, ..v }, InternalMessage::NoEffect),
        VideoMemoryLocation::ScrollX => (VideoView { scroll_x: value, ..v }, InternalMessage::NoEffect),
        VideoMemoryLocation::CurrentScanline => (
            VideoView {
                rendering_state: RenderingState { line: value, ..v.rendering_state },
                ..v
            },
            InternalMessage::NoEffect,
        ),
        VideoMemoryLocation::ComparisonScanline => (
            VideoView { comparison_scanline: value, ..v },
            InternalMessage::NoEffect,
        ),
        VideoMemoryLocation::BackgroundPalette => (
            VideoView { background_palette: value, ..v },
            InternalMessage::NoEffect,
        ),
        VideoMemoryLocation::SpritePalette0 => (
            VideoView { sprite_palette_0: value, ..v },
            InternalMessage::NoEffect,
        ),
        VideoMemoryLocation::SpritePalette1 => (
            VideoView { sprite_palette_1: value, ..v },
            InternalMessage::NoEffect,
        ),
        VideoMemoryLocation::WindowY => (VideoView { window_y: value, ..v }, InternalMessage::NoEffect),
        VideoMemoryLocation::WindowX => (VideoView { window_x: value, ..v }, InternalMessage::NoEffect),
        VideoMemoryLocation::DMATransferControl => (
            v,
            InternalMessage::DMATransfer { from: (value * 256) as u16 },
        ),
        VideoMemoryLocation::VramBank => (
            VideoView { vram_bank: value, ..v },
            InternalMessage::NoEffect,
        ),
    }
}

pub open spec fn ppu_with(v: VideoView, mode: RenderingMode, line: u8, clock: u32) -> VideoView {
    VideoView { rendering_state: RenderingState { mode, line, clock }, ..v }
}

/// The PPU state machine advanced by the cycles one instruction consumed:
/// the per-mode clock accumulates (saturating) and each mode hands over when
/// its budget (OAM scan 80, pixel transfer 172, horizontal blank 204, one
/// vertical blank line 456) is reached, resetting the clock.
pub open spec fn spec_ppu_step(v: VideoView, elapsed: u32) -> (VideoView, InternalMessage) {
    let clock = if v.rendering_state.clock + elapsed > 0xFFFF_FFFF {
        0xFFFF_FFFFu32
    } else {
        (v.rendering_state.clock + elapsed) as u32
    };
    let line = v.rendering_state.line;
    match v.rendering_state.mode {
        RenderingMode::OamRead => {
            if clock >= 80 {
                (ppu_with(v, RenderingMode::VramRead, line, 0), InternalMessage::NoEffect)
            } else {
                (ppu_with(v, RenderingMode::OamRead, line, clock), InternalMessage::NoEffect)
            }
        },
        RenderingMode::VramRead => {
            if clock >= 172 {
                (
                    ppu_with(v, RenderingMode::Hblank, line, 0),
                    InternalMessage::RendererMessage(RendererMessage::RenderScanline(line)),
                )
            } else {
                (ppu_with(v, RenderingMode::VramRead, line, clock), InternalMessage::NoEffect)
            }
        },
        RenderingMode::Hblank => {
            if clock >= 204 {
                let next_line = ((line + 1) % 256) as u8;
                if next_line == 144 {
                    (
                        ppu_with(v, RenderingMode::Vblank, next_line, 0),
                        InternalMessage::TriggerInterrupt(Interrupt::LCDVBlank),
                    )
                } else {
                    (ppu_with(v, RenderingMode::OamRead, next_line, 0), InternalMessage::NoEffect)
                }
            } else {
                (ppu_with(v, RenderingMode::Hblank, line, clock), InternalMessage::NoEffect)
            }
        },
        RenderingMode::Vblank => {
            if clock >= 456 {
                let next_line = ((line + 1) % 256) as u8;
                if next_line > 153 {
                    (
                        ppu_with(v, RenderingMode::OamRead, 0, 0),
                        InternalMessage::RendererMessage(RendererMessage::PrepareNextFrame),
                    )
                } else {
                    (ppu_with(v, RenderingMode::Vblank, next_line, 0), InternalMessage::NoEffect)
                }
            } else {
                (ppu_with(v, RenderingMode::Vblank, line, clock), InternalMessage::NoEffect)
            }
        },
    }
}

impl VideoController {
    pub fn new(device: DeviceType) -> (r: VideoController)
        ensures
            r@.wf(),
            r@.device_type == device,
            r@.vram_bank == 0 && r@.lcd_control == 0 && r@.lcd_status == 0,
            r@.scroll_y == 0 && r@.scroll_x == 0 && r@.comparison_scanline == 0,
            r@.background_palette == 0xFC && r@.sprite_palette_0 == 0xFC && r@.sprite_palette_1
                == 0xFC,
            r@.window_y == 0 && r@.window_x == 0,
            r@.rendering_state == (RenderingState { mode: RenderingMode::OamRead, line: 0, clock: 0 }),
            forall|i: int| 0 <= i < r@.vram.len() ==> r@.vram[i] == 0,
            forall|i: int| 0 <= i < 160 ==> r@.oam[i] == 0,
    {
        let vram_size = device.get_vram_size();
        let mut vram: Vec<u8> = Vec::new();
        let mut i: usize = 0;
        while i < vram_size
            invariant
                i <= vram_size,
                vram@.len() == i,
                forall|j: int| 0 <= j < i ==> vram@[j] == 0,
            decreases vram_size - i,
        {
            vram.push(0);
            i = i + 1;
        }
        let mut oam: Vec<u8> = Vec::new();
        let mut j: usize = 0;
        while j < 160
            invariant
                j <= 160,
                oam@.len() == j,
                forall|k: int| 0 <= k < j ==> oam@[k] == 0,
            decreases 160 - j,
        {
            oam.push(0);
            j = j + 1;
        }
        VideoController {
            device_type: device,
            vram,
            oam,
            vram_bank: 0,
            lcd_control: 0,
            lcd_status: 0,
            scroll_y: 0,
            scroll_x: 0,
            comparison_scanline: 0,
            background_palette: GbPalette(0xFC),
            sprite_palette_0: GbPalette(0xFC),
            sprite_palette_1: GbPalette(0xFC),
            window_y: 0,
            window_x: 0,
            rendering_state: RenderingState::new(),
        }
    }

    pub fn resolve_address(&self, address: u16) -> (r: VideoMemoryLocation)
        requires
            0xFF40 <= address <= 0xFF4B || address == 0xFF4F,
        ensures
            r == spec_video_register(address),
    {
        match address {
            0xFF40 => VideoMemoryLocation::LCDControlRegister,
            0xFF41 => VideoMemoryLocation::LCDStatusRegister,
            0xFF42 => VideoMemoryLocation::ScrollY,
            0xFF43 => VideoMemoryLocation::ScrollX,
            0xFF44 => VideoMemoryLocation::CurrentScanline,
            0xFF45 => VideoMemoryLocation::ComparisonScanline,
            0xFF46 => VideoMemoryLocation::DMATransferControl,
            0xFF47 => VideoMemoryLocation::BackgroundPalette,
            0xFF48 => VideoMemoryLocation::SpritePalette0,
            0xFF49 => VideoMemoryLocation::SpritePalette1,
            0xFF4A => VideoMemoryLocation::WindowY,
            0xFF4B => VideoMemoryLocation::WindowX,
            _ => VideoMemoryLocation::VramBank,
        }
    }

    pub fn read_8(&self, location: VideoMemoryLocation) -> (r: u8)
        requires
            self@.wf(),
            self@.location_wf(location),
        ensures
            r == spec_video_read(self@, location),
    {
        match location {
            VideoMemoryLocation::Vram(offset) => self.vram[offset as usize],
            VideoMemoryLocation::Oam(offset) => self.oam[offset as usize],
            VideoMemoryLocation::LCDControlRegister => self.lcd_control,
            VideoMemoryLocation::LCDStatusRegister => self.lcd_status,
            VideoMemoryLocation::ScrollY => self.scroll_y,
            VideoMemoryLocation::ScrollX => self.scroll_x,
            VideoMemoryLocation::CurrentScanline => self.rendering_state.line,
            VideoMemoryLocation::ComparisonScanline => self.comparison_scanline,
            VideoMemoryLocation::BackgroundPalette => self.background_palette.0,
            VideoMemoryLocation::SpritePalette0 => self.sprite_palette_0.0,
            VideoMemoryLocation::SpritePalette1 => self.sprite_palette_1.0,
            VideoMemoryLocation::WindowY => self.window_y,
            VideoMemoryLocation::WindowX => self.window_x,
            VideoMemoryLocation::DMATransferControl => 0,
            VideoMemoryLocation::VramBank => self.vram_bank,
        }
    }

    pub fn write_8(&mut self, location: VideoMemoryLocation, value: u8) -> (msg: InternalMessage)
        requires
            old(self)@.wf(),
            old(self)@.location_wf(location),
        ensures
            (final (self)@, msg) == spec_video_write(old(self)@, location, value),
            final (self)@.wf(),
    {
        match location {
            VideoMemoryLocation::Vram(offset) => {
                self.vram.set(offset as usize, value);
                InternalMessage::NoEffect
            },
            VideoMemoryLocation::Oam(offset) => {
                self.oam.set(offset as usize, value);
                InternalMessage::NoEffect
            },
            VideoMemoryLocation::LCDControlRegister => {
                self.lcd_control = value;
                InternalMessage::NoEffect
            },
            VideoMemoryLocation::LCDStatusRegister => {
                self.lcd_status = value;
                InternalMessage::NoEffect
            },
            VideoMemoryLocation::ScrollY => {
                self.scroll_y = value;
                InternalMessage::NoEffect
            },
            VideoMemoryLocation::ScrollX => {
                self.scroll_x = value;
                InternalMessage::NoEffect
            },
            VideoMemoryLocation::CurrentScanline => {
                self.rendering_state.line = value;
                InternalMessage::NoEffect
            },
            VideoMemoryLocation::ComparisonScanline => {
                self.comparison_scanline = value;
                InternalMessage::NoEffect
            },
            VideoMemoryLocation::BackgroundPalette => {
                self.background_palette = GbPalette(value);
                InternalMessage::NoEffect
            },
            VideoMemoryLocation::SpritePalette0 => {
                self.sprite_palette_0 = GbPalette(value);
                InternalMessage::NoEffect
            },
            VideoMemoryLocation::SpritePalette1 => {
                self.sprite_palette_1 = GbPalette(value);
                InternalMessage::NoEffect
            },
            VideoMemoryLocation::WindowY => {
                self.window_y = value;
                InternalMessage::NoEffect
            },
            VideoMemoryLocation::WindowX => {
                self.window_x = value;
                InternalMessage::NoEffect
            },
            VideoMemoryLocation::DMATransferControl => {
                InternalMessage::DMATransfer { from: (value as u16) * 256 }
            },
            VideoMemoryLocation::VramBank => {
                self.vram_bank = value;
                InternalMessage::NoEffect
            },
        }
    }

    pub fn is_lcd_on(&self) -> (r: bool)
        ensures
            r == (self.lcd_control & 0x80 != 0),
    {
        self.lcd_control & 0x80 != 0
    }

    pub fn is_window_enabled(&self) -> (r: bool)
        ensures
            r == (self.lcd_control & 0x20 != 0),
    {
        self.lcd_control & 0x20 != 0
    }

    pub fn is_bg_enabled(&self) -> (r: bool)
        ensures
            r == (self.lcd_control & 0x01 != 0),
    {
        self.lcd_control & 0x01 != 0
    }

    pub fn get_tile_pattern_table_addr(&self) -> (r: u16)
        ensures
            r == if self.lcd_control & 0x10 != 0 {
                0x8000u16
            } else {
                0x8800u16
            },
    {
        if self.lcd_control & 0x10 != 0 {
            0x8000
        } else {
            0x8800
        }
    }

    pub fn get_bg_tile_table_addr(&self) -> (r: u16)
        ensures
            r == if self.lcd_control & 0x08 != 0 {
                0x9C00u16
            } else {
                0x9800u16
            },
    {
        if self.lcd_control & 0x08 != 0 {
            0x9C00
        } else {
            0x9800
        }
    }

    pub fn get_window_tile_table_addr(&self) -> (r: u16)
        ensures
            r == if self.lcd_control & 0x40 != 0 {
                0x9C00u16
            } else {
                0x9800u16
            },
    {
        if self.lcd_control & 0x40 != 0 {
            0x9C00
        } else {
            0x9800
        }
    }

    pub fn get_sprite_height(&self) -> (r: u8)
        ensures
            r == if self.lcd_control & 0x04 != 0 {
                16u8
            } else {
                8u8
            },
    {
        if self.lcd_control & 0x04 != 0 {
            16
        } else {
            8
        }
    }

    /// Advances the state machine by the cycles one instruction consumed.
    pub fn update(&mut self, elapsed_clocks: u32) -> (msg: InternalMessage)
        requires
            old(self)@.wf(),
        ensures
            (final (self)@, msg) == spec_ppu_step(old(self)@, elapsed_clocks),
            final (self)@.wf(),
    {
        let clock = if elapsed_clocks > 0xFFFF_FFFF - self.rendering_state.clock {
            0xFFFF_FFFF
        } else {
            self.rendering_state.clock + elapsed_clocks
        };
        self.rendering_state.clock = clock;

        match self.rendering_state.mode {
            RenderingMode::OamRead => {
                if clock >= 80 {
                    self.rendering_state.clock = 0;
                    self.rendering_state.mode = RenderingMode::VramRead;
                }
                InternalMessage::NoEffect
            },
            RenderingMode::VramRead => {
                if clock >= 172 {
                    self.rendering_state.clock = 0;
                    self.rendering_state.mode = RenderingMode::Hblank;
                    InternalMessage::RendererMessage(
                        RendererMessage::RenderScanline(self.rendering_state.line),
                    )
                } else {
                    InternalMessage::NoEffect
                }
            },
            RenderingMode::Hblank => {
                if clock >= 204 {
                    self.rendering_state.clock = 0;
                    self.rendering_state.line = self.rendering_state.line.wrapping_add(1);
                    if self.rendering_state.line == 144 {
                        self.rendering_state.mode = RenderingMode::Vblank;
                        InternalMessage::TriggerInterrupt(Interrupt::LCDVBlank)
                    } else {
                        self.rendering_state.mode = RenderingMode::OamRead;
                        InternalMessage::NoEffect
                    }
                } else {
                    InternalMessage::NoEffect
                }
            },
            RenderingMode::Vblank => {
                if clock >= 456 {
                    self.rendering_state.clock = 0;
                    self.rendering_state.line = self.rendering_state.line.wrapping_add(1);
                    if self.rendering_state.line > 153 {
                        self.rendering_state.mode = RenderingMode::OamRead;
                        self.rendering_state.line = 0;
                        InternalMessage::RendererMessage(RendererMessage::PrepareNextFrame)
                    } else {
                        InternalMessage::NoEffect
                    }
                } else {
                    InternalMessage::NoEffect
                }
            },
        }
    }
}

/// Law: one visible scanline is 80 + 172 + 204 = 456 cycles. From the start
/// of a line's OAM scan, 80 cycles reach pixel transfer, 172 more reach
/// horizontal blank and emit that line's scanline message, and 204 more
/// advance to the next line: its OAM scan, or — leaving line 143 — vertical
/// blank with the one VBlank interrupt request of the frame.
pub proof fn lemma_ppu_scanline(v: VideoView)
    requires
        v.rendering_state.mode is OamRead,
        v.rendering_state.clock == 0,
        v.rendering_state.line < 144,
    ensures
        ({
            let line = v.rendering_state.line;
            let s1 = spec_ppu_step(v, 80);
            let s2 = spec_ppu_step(s1.0, 172);
            let s3 = spec_ppu_step(s2.0, 204);
            s1.0.rendering_state == (RenderingState {
                mode: RenderingMode::VramRead,
                line,
                clock: 0,
            }) && s1.1 == InternalMessage::NoEffect && s2.0.rendering_state == (RenderingState {
                mode: RenderingMode::Hblank,
                line,
                clock: 0,
            }) && s2.1 == InternalMessage::RendererMessage(RendererMessage::RenderScanline(line))
                && s3.0.rendering_state.line == line + 1 && s3.0.rendering_state.clock == 0
                && if line == 143 {
                s3.0.rendering_state.mode is Vblank && s3.1 == InternalMessage::TriggerInterrupt(
                    Interrupt::LCDVBlank,
                )
            } else {
                s3.0.rendering_state.mode is OamRead && s3.1 == InternalMessage::NoEffect
            }
        }),
{
}

/// Law: each of the ten vertical-blank lines lasts 456 cycles; leaving line
/// 153 wraps to line 0, returns to OAM scan, and emits the frame's one
/// prepare-next-frame message. A full frame is thus 154 lines of 456 cycles.
pub proof fn lemma_ppu_vblank_line(v: VideoView)
    requires
        v.rendering_state.mode is Vblank,
        v.rendering_state.clock == 0,
        144 <= v.rendering_state.line <= 153,
    ensures
        ({
            let line = v.rendering_state.line;
            let s = spec_ppu_step(v, 456);
            s.0.rendering_state.clock == 0 && if line == 153 {
                s.0.rendering_state.line == 0 && s.0.rendering_state.mode is OamRead && s.1
                    == InternalMessage::RendererMessage(RendererMessage::PrepareNextFrame)
            } else {
                s.0.rendering_state.line == line + 1 && s.0.rendering_state.mode is Vblank && s.1
                    == InternalMessage::NoEffect
            }
        }),
{
}

} // verus!
