use gb_core::bus::MemoryBus;
use gb_core::display::{
    advance_scanline, load_objects, prefix_bits, split_u16_into_2bit_numbers, suffix_bits, Tile,
    LCDC,
};

#[test]
fn prefix_bits_spreads_over_even_positions() {
    assert_eq!(prefix_bits(0x00), 0x0000);
    assert_eq!(prefix_bits(0x01), 0x0001);
    assert_eq!(prefix_bits(0x80), 0x4000);
    assert_eq!(prefix_bits(0xFF), 0x5555);
}

#[test]
fn suffix_bits_spreads_over_odd_positions() {
    assert_eq!(suffix_bits(0x00), 0x0000);
    assert_eq!(suffix_bits(0x01), 0x0002);
    assert_eq!(suffix_bits(0x80), 0x8000);
    assert_eq!(suffix_bits(0xFF), 0xAAAA);
}

#[test]
fn split_reads_two_bits_per_pixel_leftmost_first() {
    assert_eq!(split_u16_into_2bit_numbers(0xFFFF), vec![3; 8]);
    assert_eq!(split_u16_into_2bit_numbers(0x0000), vec![0; 8]);
    assert_eq!(
        split_u16_into_2bit_numbers(0x001B),
        vec![0, 0, 0, 0, 0, 1, 2, 3]
    );
}

#[test]
fn tile_from_rows() {
    let mut rows = vec![0u16; 8];
    rows[0] = 0x001B;
    let tile = Tile::load_from_mem(&rows, 4);
    assert_eq!(tile.size, 4);
    assert_eq!(tile.pixels.len(), 64);
    assert_eq!(tile.pixel_at(7, 0), 3);
    assert_eq!(tile.pixel_at(6, 0), 2);
    assert_eq!(tile.pixel_at(5, 0), 1);
    assert_eq!(tile.pixel_at(4, 0), 0);
    assert_eq!(tile.pixel_at(0, 1), 0);
}

#[test]
fn load_objects_interleaves_the_two_row_bytes() {
    // Tile 0, row 0: low-bit byte 0x33, high-bit byte 0x55 decode to
    // the pixel run 0,2,1,3,0,2,1,3.
    let mut vram = vec![0u8; 2048];
    vram[0] = 0x33;
    vram[1] = 0x55;
    let tiles = load_objects(&vram, 2);
    assert_eq!(tiles.len(), 128);
    let expected = [0u8, 2, 1, 3, 0, 2, 1, 3];
    for x in 0..8 {
        assert_eq!(tiles[0].pixel_at(x, 0), expected[x]);
    }
    for x in 0..8 {
        assert_eq!(tiles[0].pixel_at(x, 1), 0);
        assert_eq!(tiles[1].pixel_at(x, 0), 0);
    }
}

#[test]
fn load_objects_reads_each_tile_at_sixteen_byte_strides() {
    let mut vram = vec![0u8; 2048];
    // Tile 5, row 3: all pixels at value 3.
    vram[5 * 16 + 6] = 0xFF;
    vram[5 * 16 + 7] = 0xFF;
    let tiles = load_objects(&vram, 1);
    for x in 0..8 {
        assert_eq!(tiles[5].pixel_at(x, 3), 3);
        assert_eq!(tiles[5].pixel_at(x, 2), 0);
    }
}

#[test]
fn lcdc_decodes_bit_by_bit() {
    let r = LCDC::from(0x91);
    assert!(r.lcd_enabled);
    assert!(!r.w_tm_area);
    assert!(!r.w_enabled);
    assert!(r.bg_w_td_area);
    assert!(!r.bg_tm_area);
    assert!(!r.obj_size);
    assert!(!r.obj_enabled);
    assert!(r.bg_w_enabled);

    let all = LCDC::from(0xFF);
    assert!(all.lcd_enabled && all.w_tm_area && all.w_enabled && all.bg_w_td_area);
    assert!(all.bg_tm_area && all.obj_size && all.obj_enabled && all.bg_w_enabled);
}

#[test]
fn scanline_advances_only_while_display_is_enabled() {
    let mut bus = MemoryBus::new();
    bus.write(0xFF40, 0x91);
    bus.write(0xFF44, 0);
    assert!(advance_scanline(&mut bus));
    assert_eq!(bus.read(0xFF44), 1);

    bus.write(0xFF44, 153);
    assert!(advance_scanline(&mut bus));
    assert_eq!(bus.read(0xFF44), 0);

    bus.write(0xFF40, 0x00);
    bus.write(0xFF44, 42);
    assert!(!advance_scanline(&mut bus));
    assert_eq!(bus.read(0xFF44), 42);
}
