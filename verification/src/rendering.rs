//! What the renderer consumes: 2-bits-per-pixel tile data unpacked to one
//! color index per pixel, sprite attribute records, and block reads of the
//! tables the PPU draws from. Pixel presentation itself is the host's work.

use vstd::prelude::*;
use vstd::array::ArrayAdditionalExecFns;
use vstd::pervasive::VecAdditionalExecFns;

use crate::bitutils::BitExtensions;
use crate::bus::{spec_bus_read8, Bus};

verus! {

/// One 8x8 tile as stored: 16 bytes, two per row; the first byte of a row
/// holds the low bit of each pixel's color index, the second the high bit,
/// leftmost pixel in the most significant bits.
#[derive(Default, Clone, Copy)]
pub struct TileData(pub [u8; 16]);

/// The 2-bit color index of a tile pixel.
pub open spec fn spec_tile_pixel(tile: Seq<u8>, row: int, col: int) -> u8 {
    let low = tile[2 * row];
    let high = tile[2 * row + 1];
    ((if high.spec_get_bit((7 - col) as u8) {
        2u8
    } else {
        0u8
    }) + (if low.spec_get_bit((7 - col) as u8) {
        1u8
    } else {
        0u8
    })) as u8
}

impl TileData {
    /// Unpacks row `n` of the tile into eight color indices at `offset`.
    pub fn unpack_row_to(&self, n: u8, buffer: &mut Vec<u8>, offset: usize)
        requires
            n < 8,
            offset + 8 <= old(buffer)@.len(),
        ensures
            final (buffer)@.len() == old(buffer)@.len(),
            forall|j: int|
                0 <= j < 8 ==> final (buffer)@[offset + j] == spec_tile_pixel(
                    self.0@,
                    n as int,
                    j,
                ),
            forall|k: int|
                0 <= k < old(buffer)@.len() && !(offset <= k < offset + 8) ==> final (buffer)@[k]
                    == old(buffer)@[k],
    {
        let low = self.0[(n * 2) as usize];
        let high = self.0[(n * 2 + 1) as usize];

        let buffer_len = buffer.len();
        proof {
            assert(offset + 8 <= buffer_len);
        }
        let mut i: usize = 0;
        while i < 8
            invariant
                i <= 8,
                offset + 8 <= usize::MAX,
                offset + 8 <= buffer@.len(),
                buffer@.len() == old(buffer)@.len(),
                low == self.0@[2 * n],
                high == self.0@[2 * n + 1],
                forall|j: int|
                    0 <= j < i ==> buffer@[offset + j] == spec_tile_pixel(self.0@, n as int, j),
                forall|k: int|
                    0 <= k < old(buffer)@.len() && !(offset <= k < offset + i) ==> buffer@[k]
                        == old(buffer)@[k],
            decreases 8 - i,
        {
            let low_bit = low.get_bit(7 - (i as u8));
            let high_bit = high.get_bit(7 - (i as u8));
            let index = (if high_bit {
                2u8
            } else {
                0u8
            }) + (if low_bit {
                1u8
            } else {
                0u8
            });
            buffer.set(offset + i, index);
            i = i + 1;
        }
    }

    /// Unpacks the whole tile into 64 color indices, row-major.
    pub fn unpack_to(&self, buffer: &mut Vec<u8>)
        requires
            old(buffer)@.len() >= 64,
        ensures
            final (buffer)@.len() == old(buffer)@.len(),
            forall|r: int, c: int|
                0 <= r < 8 && 0 <= c < 8 ==> final (buffer)@[r * 8 + c] == spec_tile_pixel(
                    self.0@,
                    r,
                    c,
                ),
            forall|k: int|
                64 <= k < old(buffer)@.len() ==> final (buffer)@[k] == old(buffer)@[k],
    {
        let mut row: usize = 0;
        while row < 8
            invariant
                row <= 8,
                buffer@.len() == old(buffer)@.len() >= 64,
                forall|r: int, c: int|
                    0 <= r < row && 0 <= c < 8 ==> buffer@[r * 8 + c] == spec_tile_pixel(
                        self.0@,
                        r,
                        c,
                    ),
                forall|k: int|
                    row * 8 <= k < old(buffer)@.len() ==> buffer@[k] == old(buffer)@[k],
            decreases 8 - row,
        {
            self.unpack_row_to(row as u8, buffer, row * 8);
            row = row + 1;
        }
    }
}

/// One OAM record: a sprite's position, tile index and attribute flags.
#[derive(Default, Debug, Clone, Copy, PartialEq, Eq, Structural)]
pub struct SpriteAttributes {
    pub y: u8,
    pub x: u8,
    pub pattern: u8,
    pub flags: u8,
}

impl SpriteAttributes {
    pub fn from_bytes(bytes: [u8; 4]) -> (r: SpriteAttributes)
        ensures
            r == (SpriteAttributes {
                y: bytes@[0],
                x: bytes@[1],
                pattern: bytes@[2],
                flags: bytes@[3],
            }),
    {
        let y = bytes[0];
        let x = bytes[1];
        let pattern = bytes[2];
        let flags = bytes[3];
        SpriteAttributes { x, y, pattern, flags }
    }
}

/// Block reads of the tables the renderer draws from, through the bus.
pub struct CommonRenderer {}

impl CommonRenderer {
    /// Fills the first 40 entries with the sprite records OAM holds.
    pub fn read_sprites(bus: &Bus, sprite_buffer: &mut Vec<SpriteAttributes>)
        requires
            bus@.wf(),
            old(sprite_buffer)@.len() >= 40,
        ensures
            final (sprite_buffer)@.len() == old(sprite_buffer)@.len(),
            forall|i: int|
                0 <= i < 40 ==> final (sprite_buffer)@[i] == (SpriteAttributes {
                    y: spec_bus_read8(bus@, (0xFE00 + 4 * i) as u16),
                    x: spec_bus_read8(bus@, (0xFE00 + 4 * i + 1) as u16),
                    pattern: spec_bus_read8(bus@, (0xFE00 + 4 * i + 2) as u16),
                    flags: spec_bus_read8(bus@, (0xFE00 + 4 * i + 3) as u16),
                }),
    {
        let mut i: usize = 0;
        while i < 40
            invariant
                i <= 40,
                bus@.wf(),
                sprite_buffer@.len() == old(sprite_buffer)@.len() >= 40,
                forall|j: int|
                    0 <= j < i ==> sprite_buffer@[j] == (SpriteAttributes {
                        y: spec_bus_read8(bus@, (0xFE00 + 4 * j) as u16),
                        x: spec_bus_read8(bus@, (0xFE00 + 4 * j + 1) as u16),
                        pattern: spec_bus_read8(bus@, (0xFE00 + 4 * j + 2) as u16),
                        flags: spec_bus_read8(bus@, (0xFE00 + 4 * j + 3) as u16),
                    }),
            decreases 40 - i,
        {
            let addr = (0xFE00 + 4 * i) as u16;
            let y = bus.read_addr_8(addr);
            let x = bus.read_addr_8(addr + 1);
            let pattern = bus.read_addr_8(addr + 2);
            let flags = bus.read_addr_8(addr + 3);
            sprite_buffer.set(i, SpriteAttributes { y, x, pattern, flags });
            i = i + 1;
        }
    }

    /// Fills the first 256 entries with the tiles of the selected pattern
    /// table.
    pub fn read_tiles(bus: &Bus, tiles_buffer: &mut Vec<TileData>)
        requires
            bus@.wf(),
            old(tiles_buffer)@.len() >= 256,
        ensures
            final (tiles_buffer)@.len() == old(tiles_buffer)@.len(),
            forall|i: int, j: int|
                0 <= i < 256 && 0 <= j < 16 ==> final (tiles_buffer)@[i].0@[j] == spec_bus_read8(
                    bus@,
                    ((if bus@.video.lcd_control & 0x10 != 0 {
                        0x8000int
                    } else {
                        0x8800int
                    }) + 16 * i + j) as u16,
                ),
    {
        let base_addr = bus.video.get_tile_pattern_table_addr();

        let mut i: usize = 0;
        while i < 256
            invariant
                i <= 256,
                bus@.wf(),
                base_addr == if bus@.video.lcd_control & 0x10 != 0 {
                    0x8000u16
                } else {
                    0x8800u16
                },
                tiles_buffer@.len() == old(tiles_buffer)@.len() >= 256,
                forall|k: int, j: int|
                    0 <= k < i && 0 <= j < 16 ==> tiles_buffer@[k].0@[j] == spec_bus_read8(
                        bus@,
                        ((if bus@.video.lcd_control & 0x10 != 0 {
                            0x8000int
                        } else {
                            0x8800int
                        }) + 16 * k + j) as u16,
                    ),
            decreases 256 - i,
        {
            let mut tile: [u8; 16] = [0;16];
            let mut j: usize = 0;
            while j < 16
                invariant
                    j <= 16,
                    bus@.wf(),
                    i < 256,
                    base_addr == if bus@.video.lcd_control & 0x10 != 0 {
                        0x8000u16
                    } else {
                        0x8800u16
                    },
                    forall|m: int|
                        0 <= m < j ==> tile@[m] == spec_bus_read8(
                            bus@,
                            (base_addr + 16 * i + m) as u16,
                        ),
                decreases 16 - j,
            {
                let byte = bus.read_addr_8(base_addr + (16 * i + j) as u16);
                tile.set(j, byte);
                j = j + 1;
            }
            tiles_buffer.set(i, TileData(tile));
            i = i + 1;
        }
    }

    /// Fills the first 1024 entries with the background tile-index table.
    pub fn read_background_tile_indices(bus: &Bus, bg_buffer: &mut Vec<u8>)
        requires
            bus@.wf(),
            old(bg_buffer)@.len() >= 1024,
        ensures
            final (bg_buffer)@.len() == old(bg_buffer)@.len(),
            forall|k: int|
                0 <= k < 1024 ==> final (bg_buffer)@[k] == spec_bus_read8(
                    bus@,
                    ((if bus@.video.lcd_control & 0x08 != 0 {
                        0x9C00int
                    } else {
                        0x9800int
                    }) + k) as u16,
                ),
    {
        let base = bus.video.get_bg_tile_table_addr();
        bus.read_to_buffer(bg_buffer, base, 1024);
        proof {
            assert forall|k: int| 0 <= k < 1024 implies bg_buffer@[k] == spec_bus_read8(
                bus@,
                ((if bus@.video.lcd_control & 0x08 != 0 {
                    0x9C00int
                } else {
                    0x9800int
                }) + k) as u16,
            ) by {
                assert(((base + k) % 65536) as u16 == (base + k) as u16);
            }
        }
    }

    /// Fills the first 1024 entries with the window tile-index table.
    pub fn read_window_tile_indices(bus: &Bus, bg_buffer: &mut Vec<u8>)
        requires
            bus@.wf(),
            old(bg_buffer)@.len() >= 1024,
        ensures
            final (bg_buffer)@.len() == old(bg_buffer)@.len(),
            forall|k: int|
                0 <= k < 1024 ==> final (bg_buffer)@[k] == spec_bus_read8(
                    bus@,
                    ((if bus@.video.lcd_control & 0x40 != 0 {
                        0x9C00int
                    } else {
                        0x9800int
                    }) + k) as u16,
                ),
    {
        let base = bus.video.get_window_tile_table_addr();
        bus.read_to_buffer(bg_buffer, base, 1024);
        proof {
            assert forall|k: int| 0 <= k < 1024 implies bg_buffer@[k] == spec_bus_read8(
                bus@,
                ((if bus@.video.lcd_control & 0x40 != 0 {
                    0x9C00int
                } else {
                    0x9800int
                }) + k) as u16,
            ) by {
                assert(((base + k) % 65536) as u16 == (base + k) as u16);
            }
        }
    }
}

} // verus!
