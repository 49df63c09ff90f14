use vstd::prelude::*;

use super::registers::ControlRegister;
use crate::tools::{bit_of, nth_bit};

verus! {

/// The tile byte of a sprite's OAM entry.
#[derive(Debug, Clone, Copy, PartialEq, Eq, Structural)]
pub struct SpriteTileIndex(pub u8);

impl SpriteTileIndex {
    /// For 8x16 sprites: the pattern table the tile comes from, chosen by bit 0.
    pub fn base(&self) -> (base: u16)
        ensures
            base == 0x1000 * (self.0 % 2) as u16,
    {
        0x1000 * (self.0 % 2) as u16
    }

    /// For 8x16 sprites: the offset of the top tile (the index with bit 0 cleared) in its table.
    pub fn large_offset(&self) -> (offset: u16)
        ensures
            offset == (self.0 / 2) as u16 * 32,
    {
        let i: u8 = self.0;
        let offset: u16 = ((i & 0b1111_1110) as u16) << 4;
        assert(offset == (i / 2) as u16 * 32) by (bit_vector)
            requires
                offset == ((i & 0b1111_1110u8) as u16) << 4u16,
        ;
        offset
    }

    /// For 8x8 sprites: the offset of the tile in its table.
    pub fn small_offset(&self) -> (offset: u16)
        ensures
            offset == self.0 as u16 * 16,
    {
        let i: u8 = self.0;
        let offset: u16 = (i as u16) << 4;
        assert(offset == i as u16 * 16) by (bit_vector)
            requires
                offset == (i as u16) << 4u16,
        ;
        offset
    }
}

/// A sprite as decoded from its four OAM bytes, with the pattern row fetched for it.
#[derive(Debug, Copy, Clone, PartialEq, Eq, Structural)]
pub struct Sprite {
    pub x: u8,
    pub y: u8,
    pub status_flip_y: bool,
    pub status_flip_x: bool,
    pub status_behind_background: bool,
    pub status_palette: u8,
    pub tile_index: SpriteTileIndex,
    pub data_lo: u8,
    pub data_hi: u8,
    pub oam_index: usize,
}

/// The sprite that OAM entry `oam_index` with bytes `b` (Y, tile, attributes, X) describes.
pub open spec fn decoded_sprite(oam_index: usize, b: Seq<u8>) -> Sprite {
    Sprite {
        x: b[3],
        y: b[0],
        status_flip_y: b[2] & 0b1000_0000u8 != 0,
        status_flip_x: b[2] & 0b0100_0000u8 != 0,
        status_behind_background: b[2] & 0b0010_0000u8 != 0,
        status_palette: b[2] & 0b0000_0011u8,
        tile_index: SpriteTileIndex(b[1]),
        data_lo: 0,
        data_hi: 0,
        oam_index,
    }
}

impl Sprite {
    /// The row of the sprite, counted from its top, that scanline `scanline` crosses.
    pub open spec fn row(self, scanline: usize, control: ControlRegister) -> u16 {
        let size: u16 = control.spec_sprite_size() as u16;
        let offset: u16 = (((scanline as u16) - self.y as u16) % size as int) as u16;
        if self.status_flip_y { (size - 1 - offset) as u16 } else { offset }
    }

    /// The pattern address of that row's low plane.
    pub open spec fn spec_tile_address(self, scanline: usize, control: ControlRegister) -> u16 {
        let tile: u16 = if control.spec_sprite_size() == 16 {
            (0x1000 * (self.tile_index.0 % 2) as u16 + (self.tile_index.0 / 2) as u16 * 32) as u16
        } else {
            (control.spec_sprite_pattern_addr() + self.tile_index.0 as u16 * 16) as u16
        };
        let row: u16 = self.row(scanline, control);
        (tile + row + if row < 8 { 0u16 } else { 8u16 }) as u16
    }

    /// The column of the sprite that screen column `x` falls in (wrapping to a large value
    /// left of the sprite).
    pub open spec fn column(self, x: usize) -> u16 {
        ((x as int - self.x as int) % 65536) as u16
    }

    /// The 2-bit colour index of the sprite at screen column `x` (0 where it does not cover `x`).
    pub open spec fn spec_color_index(self, x: usize) -> u8 {
        let c: u16 = self.column(x);
        if c < 8 {
            let bit: u16 = if self.status_flip_x { c } else { (7 - c) as u16 };
            (2 * bit_of(self.data_hi as u16, bit) + bit_of(self.data_lo as u16, bit)) as u8
        } else {
            0
        }
    }

    /// Decodes OAM entry `oam_index` from its four bytes (Y, tile, attributes, X).
    pub fn new(oam_index: usize, bytes: &[u8]) -> (sprite: Self)
        requires
            bytes@.len() >= 4,
        ensures
            sprite == decoded_sprite(oam_index, bytes@),
    {
        Sprite {
            x: bytes[3],
            y: bytes[0],
            status_flip_y: bytes[2] & 0b1000_0000 != 0,
            status_flip_x: bytes[2] & 0b0100_0000 != 0,
            status_behind_background: bytes[2] & 0b0010_0000 != 0,
            status_palette: bytes[2] & 0b0000_0011,
            tile_index: SpriteTileIndex(bytes[1]),
            data_lo: 0,
            data_hi: 0,
            oam_index,
        }
    }

    /// The pattern address of the row of this sprite that scanline `scanline` crosses.
    pub fn tile_address(&self, scanline: usize, control: ControlRegister) -> (addr: u16)
        requires
            (scanline as u16) >= self.y as u16,
        ensures
            addr == self.spec_tile_address(scanline, control),
            addr <= 0x1FFF,
    {
        let size: u8 = control.sprite_size();
        let tile_address: u16 = if size == 16 {
            let b: u16 = self.tile_index.base();
            let o: u16 = self.tile_index.large_offset();
            b + o
        } else {
            let b: u16 = control.sprite_pattern_addr();
            let o: u16 = self.tile_index.small_offset();
            b + o
        };
        let mut y_offset: u16 = (scanline as u16 - self.y as u16) % size as u16;
        if self.status_flip_y {
            y_offset = size as u16 - 1 - y_offset;
        }
        tile_address + y_offset + if y_offset < 8 { 0 } else { 8 }
    }

    /// The 2-bit colour index of the sprite at screen column `x`.
    pub fn color_index(&self, x: usize) -> (index: u8)
        ensures
            index == self.spec_color_index(x),
            index <= 3,
    {
        let sx: usize = x.wrapping_sub(self.x as usize);
        let mut sprite_x: u16 = sx as u16;
        proof {
            let d: int = x as int - self.x as int;
            assert(sx as int == if d < 0 { d + usize::MAX + 1 } else { d });
            assert(usize::MAX + 1 == 0x1_0000_0000 || usize::MAX + 1 == 0x1_0000_0000_0000_0000) by {
                assert(usize::BITS == 32 || usize::BITS == 64);
            }
            assert(sprite_x == sx % 65536) by (bit_vector)
                requires
                    sprite_x == sx as u16,
            ;
        }
        if sprite_x < 8 {
            if self.status_flip_x {
                sprite_x = 7 - sprite_x;
            }
            let hi: u8 = nth_bit(self.data_hi as u16, 7 - sprite_x);
            let lo: u8 = nth_bit(self.data_lo as u16, 7 - sprite_x);
            assert(hi <= 1 && lo <= 1);
            assert((hi << 1u8 | lo) == 2 * hi + lo) by (bit_vector)
                requires
                    hi <= 1,
                    lo <= 1,
            ;
            hi << 1 | lo
        } else {
            0
        }
    }
}

} // verus!
