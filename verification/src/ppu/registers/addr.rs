use vstd::prelude::*;

use crate::tools::bits::{lemma_word_fields, lemma_word_of};

use crate::tools::BitPlane;

verus! {

/// A 15-bit VRAM address register ("v"/"t" of the PPU scrolling logic).
/// ```plaintext
///  F E D C B A 9 8 __ 7 6 5 4 3 2 1 0
///    | | | | | | |    +-+-+-+-+-+-+-+---- Lo Byte
///    | +-+-+-+-+-+----------------------- Hi Byte
///    | | | | | | |    | | | +-+-+-+-+---- Coarse X
///    | | | | | +-+----+-+-+-------------- Coarse Y
///    | | | +-+--------------------------- Nametable
///    +-+-+------------------------------- Fine Y
/// ```
#[derive(Clone, Copy, Debug, PartialEq, Eq)]
pub struct AddrRegister {
    value: BitPlane<u8>,
}

pub open spec fn coarse_x_of(w: u16) -> u8 {
    (w & 0x001F) as u8
}

pub open spec fn coarse_y_of(w: u16) -> u8 {
    ((w & 0x03E0) >> 5u16) as u8
}

pub open spec fn nametable_of(w: u16) -> u8 {
    ((w & 0x0C00) >> 10u16) as u8
}

pub open spec fn fine_y_of(w: u16) -> u8 {
    ((w & 0x7000) >> 12u16) as u8
}

pub open spec fn with_coarse_x(w: u16, v: u8) -> u16 {
    (w & 0xFFE0) | ((v as u16) & 0x001F)
}

pub open spec fn with_coarse_y(w: u16, v: u8) -> u16 {
    (w & 0xFC1F) | (((v as u16) << 5u16) & 0x03E0)
}

pub open spec fn with_nametable(w: u16, v: u8) -> u16 {
    (w & 0xF3FF) | (((v as u16) << 10u16) & 0x0C00)
}

pub open spec fn with_fine_y(w: u16, v: u8) -> u16 {
    (w & 0x8FFF) | (((v as u16) << 12u16) & 0x7000)
}

/// The address after moving one tile to the right, wrapping into the next horizontal nametable.
pub open spec fn scrolled_x(w: u16) -> u16 {
    if coarse_x_of(w) == 31 {
        with_coarse_x(w, 0) ^ 0x0400
    } else {
        with_coarse_x(w, (coarse_x_of(w) + 1) as u8)
    }
}

/// The address after moving one pixel row down, wrapping fine Y into coarse Y and coarse Y
/// (at row 29) into the next vertical nametable; row 30 moves on to 31, and row 31 wraps to 0
/// without switching nametables.
pub open spec fn scrolled_y(w: u16) -> u16 {
    if fine_y_of(w) < 7 {
        with_fine_y(w, (fine_y_of(w) + 1) as u8)
    } else {
        let w0: u16 = with_fine_y(w, 0);
        if coarse_y_of(w0) == 29 {
            with_coarse_y(w0, 0) ^ 0x0800
        } else if coarse_y_of(w0) == 31 {
            with_coarse_y(w0, 0)
        } else {
            with_coarse_y(w0, (coarse_y_of(w0) + 1) as u8)
        }
    }
}

impl View for AddrRegister {
    type V = u16;

    /// The full 16-bit content.
    closed spec fn view(&self) -> u16 {
        (self.value.hi as nat * 256 + self.value.lo as nat) as u16
    }
}

impl AddrRegister {
    /// The power-up value: zero.
    pub fn new() -> (reg: Self)
        ensures
            reg@ == 0,
    {
        AddrRegister { value: BitPlane::new(0x00, 0x00) }
    }

    fn set(&mut self, data: u16)
        ensures
            final(self)@ == data,
    {
        let hi: u8 = (data >> 8) as u8;
        let lo: u8 = (data & 0b0000_0000_1111_1111) as u8;
        proof {
            lemma_word_fields(data);
        }
        self.value.hi = hi;
        self.value.lo = lo;
    }

    /// Adds `inc`, carrying from the low into the high byte; the whole word wraps at 2^16.
    pub fn increment(&mut self, inc: u8)
        ensures
            final(self)@ == (old(self)@ as nat + inc as nat) % 65536,
    {
        let lo: u8 = self.value.lo;
        self.value.lo = self.value.lo.wrapping_add(inc);
        if lo > self.value.lo {
            self.value.hi = self.value.hi.wrapping_add(1);
        }
    }

    /// The address as the PPU uses it, restricted to $0000-$3FFF.
    pub fn get(&self) -> (addr: u16)
        ensures
            addr == self@ & 0x3FFF,
            addr <= 0x3FFF,
    {
        let all: u16 = self.get_all();
        proof {
            lemma_word_fields(all);
        }
        all & 0b0011_1111_1111_1111
    }

    /// The whole 16-bit content.
    pub fn get_all(&self) -> (all: u16)
        ensures
            all == self@,
    {
        let hi: u8 = self.value.hi;
        let lo: u8 = self.value.lo;
        let all: u16 = ((hi as u16) << 8) | (lo as u16);
        proof {
            lemma_word_of(hi, lo);
        }
        all
    }

    pub fn get_hi_byte(&self) -> (hi: u8)
        ensures
            hi as nat == self@ as nat / 256,
    {
        self.value.hi
    }

    pub fn set_hi_byte(&mut self, value: u8)
        ensures
            final(self)@ == value as nat * 256 + old(self)@ as nat % 256,
    {
        self.value.hi = value
    }

    pub fn get_lo_byte(&self) -> (lo: u8)
        ensures
            lo as nat == self@ as nat % 256,
    {
        self.value.lo
    }

    pub fn set_lo_byte(&mut self, value: u8)
        ensures
            final(self)@ == (old(self)@ as nat / 256) * 256 + value as nat,
    {
        self.value.lo = value
    }

    pub fn get_nametable(&self) -> (nametable: u8)
        ensures
            nametable == nametable_of(self@),
            nametable <= 3,
    {
        let all: u16 = self.get_all();
        proof {
            lemma_word_fields(all);
        }
        ((all & 0b0000_1100_0000_0000) >> 10) as u8
    }

    pub fn set_nametable(&mut self, value: u8)
        ensures
            final(self)@ == with_nametable(old(self)@, value),
    {
        let all: u16 = self.get_all();
        self.set((all & 0b1111_0011_1111_1111) | (((value as u16) << 10) & 0b0000_1100_0000_0000));
    }

    pub fn get_coarse_x(&self) -> (coarse_x: u8)
        ensures
            coarse_x == coarse_x_of(self@),
            coarse_x <= 31,
    {
        let all: u16 = self.get_all();
        proof {
            lemma_word_fields(all);
        }
        (all & 0b0000_0000_0001_1111) as u8
    }

    pub fn set_coarse_x(&mut self, value: u8)
        ensures
            final(self)@ == with_coarse_x(old(self)@, value),
    {
        let all: u16 = self.get_all();
        self.set((all & 0b1111_1111_1110_0000) | (value as u16 & 0b0000_0000_0001_1111));
    }

    pub fn get_coarse_y(&self) -> (coarse_y: u8)
        ensures
            coarse_y == coarse_y_of(self@),
            coarse_y <= 31,
    {
        let all: u16 = self.get_all();
        proof {
            lemma_word_fields(all);
        }
        ((all & 0b0000_0011_1110_0000) >> 5) as u8
    }

    pub fn set_coarse_y(&mut self, value: u8)
        ensures
            final(self)@ == with_coarse_y(old(self)@, value),
    {
        let all: u16 = self.get_all();
        self.set((all & 0b1111_1100_0001_1111) | (((value as u16) << 5) & 0b0000_0011_1110_0000));
    }

    pub fn get_fine_y(&self) -> (fine_y: u8)
        ensures
            fine_y == fine_y_of(self@),
            fine_y <= 7,
    {
        let all: u16 = self.get_all();
        proof {
            lemma_word_fields(all);
        }
        ((all & 0b0111_0000_0000_0000) >> 12) as u8
    }

    pub fn set_fine_y(&mut self, value: u8)
        ensures
            final(self)@ == with_fine_y(old(self)@, value),
    {
        let all: u16 = self.get_all();
        self.set((all & 0b1000_1111_1111_1111) | (((value as u16) << 12) & 0b0111_0000_0000_0000));
    }

    /// The nametable byte the address points at (fine Y dropped), in $2000-$2FFF.
    pub fn get_nametable_addr(&self) -> (addr: u16)
        ensures
            addr == (self@ & 0x0FFF) | 0x2000,
            0x2000 <= addr <= 0x2FFF,
    {
        let all: u16 = self.get_all();
        proof {
            lemma_word_fields(all);
        }
        (all & 0b0000_1111_1111_1111) | 0b0010_0000_0000_0000
    }

    /// The attribute byte covering the tile the address points at: each attribute entry
    /// covers a 4x4 block of tiles.
    pub fn get_attribute_addr(&self) -> (addr: u16)
        ensures
            addr == ((nametable_of(self@) as u16) << 10u16) | (((coarse_y_of(self@) / 4) as u16) << 3u16)
                | ((coarse_x_of(self@) / 4) as u16) | 0x23C0,
            0x23C0 <= addr <= 0x2FFF,
    {
        let nametable: u16 = self.get_nametable() as u16;
        let coarse_y: u16 = self.get_coarse_y() as u16;
        let coarse_x: u16 = self.get_coarse_x() as u16;
        let addr: u16 = (nametable << 10) | ((coarse_y / 4) << 3) | (coarse_x / 4) | 0b0010_0011_1100_0000;
        assert(0x23C0 <= addr <= 0x2FFF) by (bit_vector)
            requires
                nametable <= 3,
                coarse_y <= 31,
                coarse_x <= 31,
                addr == (nametable << 10) | ((coarse_y / 4) << 3) | (coarse_x / 4) | 0x23C0,
        ;
        addr
    }

    /// The pattern-table offset of row `fine Y` of tile `tile_number`.
    pub fn get_tile_offset(&self, tile_number: u8) -> (offset: u16)
        ensures
            offset == ((tile_number as u16) << 4u16) | (fine_y_of(self@) as u16),
            offset <= 0x0FFF,
    {
        let fine_y: u16 = self.get_fine_y() as u16;
        let offset: u16 = ((tile_number as u16) << 4) | fine_y;
        assert(offset <= 0x0FFF) by (bit_vector)
            requires
                fine_y <= 7,
                offset == ((tile_number as u16) << 4) | fine_y,
        ;
        offset
    }

    /// Copies the horizontal position (coarse X and the horizontal nametable bit) of `other`.
    pub fn copy_x(&mut self, other: AddrRegister)
        ensures
            final(self)@ == (old(self)@ & 0xFBE0) | (other@ & 0x041F),
    {
        let all: u16 = self.get_all();
        let other_all: u16 = other.get_all();
        self.set((all & 0b1111_1011_1110_0000) | (other_all & 0b0000_0100_0001_1111))
    }

    /// Copies the vertical position (fine Y, coarse Y and the vertical nametable bit) of `other`.
    pub fn copy_y(&mut self, other: AddrRegister)
        ensures
            final(self)@ == (old(self)@ & 0x841F) | (other@ & 0x7BE0),
    {
        let all: u16 = self.get_all();
        let other_all: u16 = other.get_all();
        self.set((all & 0b1000_0100_0001_1111) | (other_all & 0b0111_1011_1110_0000))
    }

    /// Moves one tile to the right.
    pub fn scroll_x(&mut self)
        ensures
            final(self)@ == scrolled_x(old(self)@),
    {
        if self.get_coarse_x() == 0x1F {
            self.set_coarse_x(0x00);
            let all: u16 = self.get_all();
            self.set(all ^ 0b0000_0100_0000_0000)
        } else {
            let coarse_x: u8 = self.get_coarse_x();
            self.set_coarse_x(coarse_x + 1);
        }
    }

    /// Moves one pixel row down.
    pub fn scroll_y(&mut self)
        ensures
            final(self)@ == scrolled_y(old(self)@),
    {
        let fine_y: u8 = self.get_fine_y();
        if fine_y < 7 {
            self.set_fine_y(fine_y + 1);
        } else {
            self.set_fine_y(0x00);
            let coarse_y: u8 = self.get_coarse_y();
            if coarse_y == 29 {
                self.set_coarse_y(0x00);
                let all: u16 = self.get_all();
                self.set(all ^ 0b0000_1000_0000_0000);
            } else if coarse_y == 31 {
                self.set_coarse_y(0);
            } else {
                self.set_coarse_y(coarse_y + 1);
            }
        }
    }
}

} // verus!
