use vstd::prelude::*;

use crate::tools::{has_bits, set_bits};

verus! {

/// The PPUMASK register ($2001).
/// ```plaintext
/// 7  bit  0
/// BGRs bMmG
/// |||| ||||
/// |||| |||+- Greyscale
/// |||| ||+-- Show background in leftmost 8 pixels of screen
/// |||| |+--- Show sprites in leftmost 8 pixels of screen
/// |||| +---- Show background
/// |||+------ Show sprites
/// ||+------- Emphasize red
/// |+-------- Emphasize green
/// +--------- Emphasize blue
/// ```
#[derive(Clone, Copy, Debug, PartialEq, Eq, Structural)]
pub struct MaskRegister(pub u8);

impl MaskRegister {
    pub const GREYSCALE: u8 = 0b0000_0001;
    pub const LEFTMOST_8PXL_BACKGROUND: u8 = 0b0000_0010;
    pub const LEFTMOST_8PXL_SPRITE: u8 = 0b0000_0100;
    pub const SHOW_BACKGROUND: u8 = 0b0000_1000;
    pub const SHOW_SPRITES: u8 = 0b0001_0000;
    pub const EMPHASISE_RED: u8 = 0b0010_0000;
    pub const EMPHASISE_GREEN: u8 = 0b0100_0000;
    pub const EMPHASISE_BLUE: u8 = 0b1000_0000;

    pub open spec fn spec_show_background(self) -> bool {
        has_bits(self.0, Self::SHOW_BACKGROUND)
    }

    pub open spec fn spec_show_sprites(self) -> bool {
        has_bits(self.0, Self::SHOW_SPRITES)
    }

    pub open spec fn spec_rendering(self) -> bool {
        self.spec_show_sprites() || self.spec_show_background()
    }

    pub open spec fn spec_rendering_background(self, x: usize) -> bool {
        self.spec_show_background() && (has_bits(self.0, Self::LEFTMOST_8PXL_BACKGROUND) || x >= 8)
    }

    pub open spec fn spec_rendering_sprites(self, x: usize) -> bool {
        self.spec_show_sprites() && (has_bits(self.0, Self::LEFTMOST_8PXL_SPRITE) || x >= 8)
    }

    /// The power-up value: everything off.
    pub fn new() -> (mask: Self)
        ensures
            mask.0 == 0,
    {
        MaskRegister(0b0000_0000)
    }

    /// Every flag is defined, so no bit is dropped.
    pub fn from_bits_truncate(bits: u8) -> (mask: Self)
        ensures
            mask.0 == bits,
    {
        MaskRegister(bits)
    }

    pub fn bits(&self) -> (bits: u8)
        ensures
            bits == self.0,
    {
        self.0
    }

    pub fn contains(&self, flag: u8) -> (r: bool)
        ensures
            r == has_bits(self.0, flag),
    {
        self.0 & flag == flag
    }

    pub fn insert(&mut self, flag: u8)
        ensures
            final(self).0 == set_bits(old(self).0, flag, true),
    {
        self.0 = self.0 | flag;
    }

    pub fn remove(&mut self, flag: u8)
        ensures
            final(self).0 == set_bits(old(self).0, flag, false),
    {
        self.0 = self.0 & !flag;
    }

    /// Clears every flag, as a reset does.
    pub fn reset(&mut self)
        ensures
            final(self).0 == 0,
    {
        let o: u8 = self.0;
        self.remove(MaskRegister::GREYSCALE);
        self.remove(MaskRegister::LEFTMOST_8PXL_BACKGROUND);
        self.remove(MaskRegister::LEFTMOST_8PXL_SPRITE);
        self.remove(MaskRegister::SHOW_BACKGROUND);
        self.remove(MaskRegister::SHOW_SPRITES);
        self.remove(MaskRegister::EMPHASISE_RED);
        self.remove(MaskRegister::EMPHASISE_GREEN);
        self.remove(MaskRegister::EMPHASISE_BLUE);
        let b: u8 = self.0;
        assert(b == 0) by (bit_vector)
            requires
                b == o & !1u8 & !2u8 & !4u8 & !8u8 & !16u8 & !32u8 & !64u8 & !128u8,
        ;
    }

    pub fn is_grayscale(&self) -> (r: bool)
        ensures
            r == has_bits(self.0, Self::GREYSCALE),
    {
        self.contains(MaskRegister::GREYSCALE)
    }

    pub fn leftmost_8pxl_background(&self) -> (r: bool)
        ensures
            r == has_bits(self.0, Self::LEFTMOST_8PXL_BACKGROUND),
    {
        self.contains(MaskRegister::LEFTMOST_8PXL_BACKGROUND)
    }

    pub fn leftmost_8pxl_sprite(&self) -> (r: bool)
        ensures
            r == has_bits(self.0, Self::LEFTMOST_8PXL_SPRITE),
    {
        self.contains(MaskRegister::LEFTMOST_8PXL_SPRITE)
    }

    pub fn show_background(&self) -> (r: bool)
        ensures
            r == self.spec_show_background(),
    {
        self.contains(MaskRegister::SHOW_BACKGROUND)
    }

    pub fn show_sprites(&self) -> (r: bool)
        ensures
            r == self.spec_show_sprites(),
    {
        self.contains(MaskRegister::SHOW_SPRITES)
    }

    /// Whether anything is drawn at all.
    pub fn rendering(&self) -> (r: bool)
        ensures
            r == self.spec_rendering(),
    {
        self.show_sprites() || self.show_background()
    }

    /// Whether the background is drawn at column `x`.
    pub fn rendering_background(&self, x: usize) -> (r: bool)
        ensures
            r == self.spec_rendering_background(x),
    {
        self.show_background() && (self.leftmost_8pxl_background() || x >= 8)
    }

    /// Whether sprites are drawn at column `x`.
    pub fn rendering_sprites(&self, x: usize) -> (r: bool)
        ensures
            r == self.spec_rendering_sprites(x),
    {
        self.show_sprites() && (self.leftmost_8pxl_sprite() || x >= 8)
    }
}

} // verus!
