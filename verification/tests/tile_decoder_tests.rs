use rgbemu::bitutils::{borrow_sub_8, carry_add_8, to_bit_tuple, u16_from_bytes, u16_to_pair};
use rgbemu::rendering::TileData;

#[test]
fn check_copyright_symbol() {
    let copyright_symbol = [
        0x3C, 0x00, 0x42, 0x00, 0xB9, 0x00, 0xA5, 0x00, 0xB9, 0x00, 0xA5, 0x00, 0x42, 0x00, 0x3C,
        0x00,
    ];

    let mut decompressed_buffer = vec![0u8; 64];
    let copyright_tile_data = TileData(copyright_symbol);

    copyright_tile_data.unpack_to(&mut decompressed_buffer);

    // With every high-bit byte zero the pixels are the bits of the low
    // bytes: row 0 of 0x3C is 0,0,1,1,1,1,0,0.
    assert_eq!(&[0, 0, 1, 1, 1, 1, 0, 0], &decompressed_buffer[0..8]);
    assert_eq!(&[0, 1, 0, 0, 0, 0, 1, 0], &decompressed_buffer[8..16]);
    assert_eq!(&[1, 0, 1, 1, 1, 0, 0, 1], &decompressed_buffer[16..24]);
    assert_eq!(&[1, 0, 1, 0, 0, 1, 0, 1], &decompressed_buffer[24..32]);
    assert_eq!(&[1, 0, 1, 1, 1, 0, 0, 1], &decompressed_buffer[32..40]);
    assert_eq!(&[1, 0, 1, 0, 0, 1, 0, 1], &decompressed_buffer[40..48]);
    assert_eq!(&[0, 1, 0, 0, 0, 0, 1, 0], &decompressed_buffer[48..56]);
    assert_eq!(&[0, 0, 1, 1, 1, 1, 0, 0], &decompressed_buffer[56..64]);
}

#[test]
fn two_bit_pixels_combine_both_planes() {
    let mut tile_bytes = [0u8; 16];
    tile_bytes[0] = 0b1010_0000; // low plane of row 0
    tile_bytes[1] = 0b1100_0000; // high plane of row 0
    let tile = TileData(tile_bytes);

    let mut buffer = vec![9u8; 64];
    tile.unpack_to(&mut buffer);

    assert_eq!(&[3, 2, 1, 0, 0, 0, 0, 0], &buffer[0..8]);
}

#[test]
fn byte_splits_and_joins() {
    let pair = u16_to_pair(0xBEEF);
    assert_eq!(0xBE, pair.high);
    assert_eq!(0xEF, pair.low);
    assert_eq!(0xBEEF, u16_from_bytes(0xBE, 0xEF));

    assert_eq!((1, 0, 1, 1, 1, 1, 1, 0), to_bit_tuple(0xBE));
}

#[test]
fn carry_arithmetic() {
    let r = carry_add_8(0xFF, 0x01);
    assert_eq!(0, r.result);
    assert!(r.carry);
    assert!(r.half_carry);

    let r = carry_add_8(0x0F, 0x01);
    assert_eq!(0x10, r.result);
    assert!(!r.carry);
    assert!(r.half_carry);

    let r = borrow_sub_8(0x10, 0x01);
    assert_eq!(0x0F, r.result);
    assert!(!r.carry);
    assert!(r.half_carry);

    let r = borrow_sub_8(0x01, 0x02);
    assert_eq!(0xFF, r.result);
    assert!(r.carry);
    assert!(r.half_carry);
}
