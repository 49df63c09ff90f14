use vstd::prelude::*;

use crate::tools::has_bits;

verus! {

/// The PPUCTRL register ($2000).
/// ```plaintext
/// 7  bit  0
/// VPHB SINN
/// |||| ||||
/// |||| ||++- Base nametable (0 = $2000; 1 = $2400; 2 = $2800; 3 = $2C00)
/// |||| |+--- VRAM address increment per PPUDATA access (0: add 1; 1: add 32)
/// |||| +---- Sprite pattern table for 8x8 sprites (0: $0000; 1: $1000)
/// |||+------ Background pattern table (0: $0000; 1: $1000)
/// ||+------- Sprite size (0: 8x8; 1: 8x16)
/// |+-------- PPU master/slave select
/// +--------- Generate an NMI at the start of vertical blanking
/// ```
#[derive(Clone, Copy, Debug, PartialEq, Eq, Structural)]
pub struct ControlRegister(pub u8);

impl ControlRegister {
    pub const NAMETABLE1: u8 = 0b0000_0001;
    pub const NAMETABLE2: u8 = 0b0000_0010;
    pub const VRAM_ADD_INCREMENT: u8 = 0b0000_0100;
    pub const SPRITE_PATTERN_ADDR: u8 = 0b0000_1000;
    pub const BACKROUND_PATTERN_ADDR: u8 = 0b0001_0000;
    pub const SPRITE_SIZE: u8 = 0b0010_0000;
    pub const MASTER_SLAVE_SELECT: u8 = 0b0100_0000;
    pub const GENERATE_NMI: u8 = 0b1000_0000;

    pub open spec fn spec_vram_addr_increment(self) -> u8 {
        if has_bits(self.0, Self::VRAM_ADD_INCREMENT) { 32 } else { 1 }
    }

    pub open spec fn spec_generate_vblank_nmi(self) -> bool {
        has_bits(self.0, Self::GENERATE_NMI)
    }

    pub open spec fn spec_sprite_size(self) -> u8 {
        if has_bits(self.0, Self::SPRITE_SIZE) { 16 } else { 8 }
    }

    pub open spec fn spec_sprite_pattern_addr(self) -> u16 {
        if has_bits(self.0, Self::SPRITE_PATTERN_ADDR) { 0x1000 } else { 0 }
    }

    pub open spec fn spec_background_pattern_addr(self) -> u16 {
        if has_bits(self.0, Self::BACKROUND_PATTERN_ADDR) { 0x1000 } else { 0 }
    }

    pub open spec fn spec_nametable(self) -> u8 {
        self.0 & 0b0000_0011
    }

    /// The power-up value: everything off.
    pub fn new() -> (ctrl: Self)
        ensures
            ctrl.0 == 0,
    {
        ControlRegister(0b0000_0000)
    }

    /// Clears every flag, as a reset does.
    pub fn reset(&mut self)
        ensures
            final(self).0 == 0,
    {
        self.0 = 0;
    }

    /// Every flag is defined, so no bit is dropped.
    pub fn from_bits_truncate(bits: u8) -> (ctrl: Self)
        ensures
            ctrl.0 == bits,
    {
        ControlRegister(bits)
    }

    pub fn bits(&self) -> (bits: u8)
        ensures
            bits == self.0,
    {
        self.0
    }

    /// How far the VRAM address moves after each PPUDATA access: 1 (across) or 32 (down).
    pub fn vram_addr_increment(&self) -> (inc: u8)
        ensures
            inc == self.spec_vram_addr_increment(),
    {
        if self.0 & ControlRegister::VRAM_ADD_INCREMENT == ControlRegister::VRAM_ADD_INCREMENT {
            32
        } else {
            1
        }
    }

    pub fn generate_vblank_nmi(&self) -> (r: bool)
        ensures
            r == self.spec_generate_vblank_nmi(),
    {
        self.0 & ControlRegister::GENERATE_NMI == ControlRegister::GENERATE_NMI
    }

    /// The base nametable selected by the two low bits.
    pub fn get_nametable(&self) -> (nametable: u8)
        ensures
            nametable == self.spec_nametable(),
            nametable <= 3,
    {
        let b: u8 = self.0;
        assert(b & 3u8 <= 3) by (bit_vector);
        b & 0b0000_0011
    }

    /// Sprite height in pixels: 8 or 16.
    pub fn sprite_size(&self) -> (size: u8)
        ensures
            size == self.spec_sprite_size(),
    {
        if self.0 & ControlRegister::SPRITE_SIZE == ControlRegister::SPRITE_SIZE {
            16
        } else {
            8
        }
    }

    pub fn sprite_pattern_addr(&self) -> (addr: u16)
        ensures
            addr == self.spec_sprite_pattern_addr(),
    {
        if self.0 & ControlRegister::SPRITE_PATTERN_ADDR == ControlRegister::SPRITE_PATTERN_ADDR {
            0x1000
        } else {
            0
        }
    }

    pub fn background_pattern_addr(&self) -> (addr: u16)
        ensures
            addr == self.spec_background_pattern_addr(),
    {
        if self.0 & ControlRegister::BACKROUND_PATTERN_ADDR == ControlRegister::BACKROUND_PATTERN_ADDR {
            0x1000
        } else {
            0
        }
    }
}

} // verus!
