//! What the renderer computes from bus bytes: the display-control
//! register, tile decoding from video memory, and the scanline counter.
//!
//! Video memory stores a tile as 16 bytes: two bytes per row of eight
//! pixels, the first byte carrying the low bit of every pixel and the
//! second the high bit.  Decoding interleaves the two bytes into one
//! 16-bit row word — low-bit byte at the even bit positions, high-bit
//! byte at the odd ones — and then reads two bits per pixel off that
//! word, leftmost pixel from the top bits.  A pixel value is 0 to 3;
//! value 0 is background and is skipped when drawing.

use vstd::prelude::*;

use crate::bus::MemoryBus;
use crate::words::wrap8;

verus! {

/// The display-control register, decoded bit by bit from its byte at
/// the documented hardware address.
#[derive(Debug, Clone, Copy, PartialEq, Eq, Structural)]
pub struct LCDC {
    pub lcd_enabled: bool,
    pub w_tm_area: bool,
    pub w_enabled: bool,
    pub bg_w_td_area: bool,
    pub bg_tm_area: bool,
    pub obj_size: bool,
    pub obj_enabled: bool,
    pub bg_w_enabled: bool,
}

/// The display-control register read out of its byte: bit 7 down to
/// bit 0.
pub open spec fn lcdc_from_byte(b: u8) -> LCDC {
    LCDC {
        lcd_enabled: b / 128 % 2 == 1,
        w_tm_area: b / 64 % 2 == 1,
        w_enabled: b / 32 % 2 == 1,
        bg_w_td_area: b / 16 % 2 == 1,
        bg_tm_area: b / 8 % 2 == 1,
        obj_size: b / 4 % 2 == 1,
        obj_enabled: b / 2 % 2 == 1,
        bg_w_enabled: b % 2 == 1,
    }
}

impl From<u8> for LCDC {
    fn from(b: u8) -> (r: LCDC)
    {
        LCDC {
            lcd_enabled: b / 128 % 2 == 1,
            w_tm_area: b / 64 % 2 == 1,
            w_enabled: b / 32 % 2 == 1,
            bg_w_td_area: b / 16 % 2 == 1,
            bg_tm_area: b / 8 % 2 == 1,
            obj_size: b / 4 % 2 == 1,
            obj_enabled: b / 2 % 2 == 1,
            bg_w_enabled: b % 2 == 1,
        }
    }
}

impl vstd::std_specs::convert::FromSpecImpl<u8> for LCDC {
    open spec fn obeys_from_spec() -> bool {
        true
    }

    open spec fn from_spec(b: u8) -> LCDC {
        lcdc_from_byte(b)
    }
}

/// A byte spread over the even bit positions of a 16-bit word: bit `i`
/// of the byte lands at bit `2 * i`.
pub open spec fn spread_bits(b: u8) -> u16 {
    (b % 2 + 4 * (b / 2 % 2) + 16 * (b / 4 % 2) + 64 * (b / 8 % 2) + 256 * (b / 16 % 2) + 1024 * (
    b / 32 % 2) + 4096 * (b / 64 % 2) + 16384 * (b / 128 % 2)) as u16
}

/// The interleaved row word of tile `t`, row `y`, in a video-memory
/// image: the low-bit byte on the even positions plus the high-bit
/// byte on the odd ones.
pub open spec fn tile_row(vram: Seq<u8>, t: int, y: int) -> u16 {
    (spread_bits(vram[t * 16 + 2 * y]) + 2 * spread_bits(vram[t * 16 + 2 * y + 1])) as u16
}

/// The 2-bit pixel at column `x` of a row word, leftmost column from
/// the top bits.
pub open spec fn pixel_of_row(v: u16, x: int) -> u8 {
    if x == 0 {
        (v / 16384 % 4) as u8
    } else if x == 1 {
        (v / 4096 % 4) as u8
    } else if x == 2 {
        (v / 1024 % 4) as u8
    } else if x == 3 {
        (v / 256 % 4) as u8
    } else if x == 4 {
        (v / 64 % 4) as u8
    } else if x == 5 {
        (v / 16 % 4) as u8
    } else if x == 6 {
        (v / 4 % 4) as u8
    } else {
        (v % 4) as u8
    }
}

/// Spreads a byte over the even bit positions of a 16-bit word.
pub fn prefix_bits(u8_value: u8) -> (r: u16)
    ensures
        r == spread_bits(u8_value),
{
    let b = u8_value as u16;
    b % 2 + 4 * (b / 2 % 2) + 16 * (b / 4 % 2) + 64 * (b / 8 % 2) + 256 * (b / 16 % 2) + 1024 * (b
        / 32 % 2) + 4096 * (b / 64 % 2) + 16384 * (b / 128 % 2)
}

/// Spreads a byte over the odd bit positions of a 16-bit word.
pub fn suffix_bits(u8_value: u8) -> (r: u16)
    ensures
        r == 2 * spread_bits(u8_value),
{
    2 * prefix_bits(u8_value)
}

/// Splits a row word into its eight 2-bit pixels, leftmost first.
pub fn split_u16_into_2bit_numbers(u16_value: u16) -> (r: Vec<u8>)
    ensures
        r@.len() == 8,
        forall|x: int| 0 <= x < 8 ==> r@[x] == pixel_of_row(u16_value, x),
{
    let v = u16_value;
    vec![
        (v / 16384 % 4) as u8,
        (v / 4096 % 4) as u8,
        (v / 1024 % 4) as u8,
        (v / 256 % 4) as u8,
        (v / 64 % 4) as u8,
        (v / 16 % 4) as u8,
        (v / 4 % 4) as u8,
        (v % 4) as u8,
    ]
}

/// One decoded 8-by-8 tile: 64 pixel values of 0 to 3 in row-major
/// order, and the integer scale the renderer draws it at.
pub struct Tile {
    pub pixels: Vec<u8>,
    pub size: u8,
}

/// Whether a tile holds exactly the pixels of the given row words.
pub open spec fn tile_matches_rows(tile: Tile, rows: Seq<u16>, size: u8) -> bool {
    &&& tile.size == size
    &&& tile.pixels@.len() == 64
    &&& forall|y: int, x: int|
        0 <= y < 8 && 0 <= x < 8 ==> tile.pixels@[y * 8 + x] == pixel_of_row(rows[y], x)
}

/// Whether a tile holds exactly the pixels of tile `t` of a
/// video-memory image.
pub open spec fn tile_matches_vram(tile: Tile, vram: Seq<u8>, t: int, size: u8) -> bool {
    tile_matches_rows(tile, Seq::new(8, |y: int| tile_row(vram, t, y)), size)
}

impl Tile {
    /// Decodes a tile from its eight interleaved row words.
    pub fn load_from_mem(mem: &Vec<u16>, size: u8) -> (tile: Tile)
        requires
            mem@.len() == 8,
        ensures
            tile_matches_rows(tile, mem@, size),
    {
        let mut pixels: Vec<u8> = Vec::new();
        let mut y: usize = 0;
        while y < 8
            invariant
                mem@.len() == 8,
                y <= 8,
                pixels@.len() == y * 8,
                forall|yy: int, x: int|
                    0 <= yy < y && 0 <= x < 8 ==> pixels@[yy * 8 + x] == pixel_of_row(
                        mem@[yy],
                        x,
                    ),
            decreases 8 - y,
        {
            let mut row = split_u16_into_2bit_numbers(mem[y]);
            pixels.append(&mut row);
            y += 1;
        }
        Tile { pixels, size }
    }

    /// The pixel at a column and row of the tile.
    pub fn pixel_at(&self, x: usize, y: usize) -> (p: u8)
        requires
            x < 8,
            y < 8,
            self.pixels@.len() == 64,
        ensures
            p == self.pixels@[y * 8 + x],
    {
        self.pixels[y * 8 + x]
    }
}

/// Decodes the 128 tiles of a video-memory image, 16 bytes each.
pub fn load_objects(vram: &Vec<u8>, size: u8) -> (tiles: Vec<Tile>)
    requires
        vram@.len() >= 2048,
    ensures
        tiles@.len() == 128,
        forall|t: int| 0 <= t < 128 ==> tile_matches_vram(#[trigger] tiles@[t], vram@, t, size),
{
    let mut tiles: Vec<Tile> = Vec::new();
    let mut t: usize = 0;
    while t < 128
        invariant
            vram@.len() >= 2048,
            t <= 128,
            tiles@.len() == t,
            forall|tt: int| 0 <= tt < t ==> tile_matches_vram(#[trigger] tiles@[tt], vram@, tt, size),
        decreases 128 - t,
    {
        let address: usize = t * 16;
        let mut rows: Vec<u16> = Vec::new();
        let mut y: usize = 0;
        while y < 8
            invariant
                vram@.len() >= 2048,
                t < 128,
                address == t * 16,
                y <= 8,
                rows@.len() == y,
                forall|yy: int| 0 <= yy < y ==> rows@[yy] == tile_row(vram@, t as int, yy),
            decreases 8 - y,
        {
            let least = prefix_bits(vram[address + y * 2]);
            let first = suffix_bits(vram[address + y * 2 + 1]);
            rows.push(least + first);
            y += 1;
        }
        let tile = Tile::load_from_mem(&rows, size);
        proof {
            assert(rows@ =~= Seq::new(8, |yy: int| tile_row(vram@, t as int, yy)));
        }
        tiles.push(tile);
        t += 1;
    }
    tiles
}

/// The scanline counter after one renderer poll: it climbs by one,
/// wrapping at 8 bits, and falls back to zero past the last line, 153.
pub open spec fn next_scanline(ly: u8) -> u8 {
    if wrap8(ly + 1) > 153 {
        0
    } else {
        wrap8(ly + 1)
    }
}

/// One renderer poll of the bus: reads the display-control register
/// and, when the display is enabled, advances the scanline counter at
/// its documented address.  Returns whether the display is enabled.
pub fn advance_scanline(bus: &mut MemoryBus) -> (enabled: bool)
    ensures
        enabled == lcdc_from_byte(old(bus)@[0xFF40]).lcd_enabled,
        !enabled ==> final(bus)@ == old(bus)@,
        enabled ==> final(bus)@ == old(bus)@.update(0xFF44, next_scanline(old(bus)@[0xFF44])),
{
    let lcdc = LCDC::from(bus.read(0xFF40));
    if !lcdc.lcd_enabled {
        return false;
    }
    let ly = bus.read(0xFF44);
    let mut next: u8 = ly.wrapping_add(1);
    if next > 153 {
        next = 0;
    }
    bus.write(0xFF44, next);
    true
}

} // verus!
