use vstd::prelude::*;

use crate::tools::{has_bits, set_bits};

verus! {

/// The PPUSTATUS register ($2002).
/// ```plaintext
/// 7  bit  0
/// VSO. ....
/// |||
/// ||+------- Sprite overflow
/// |+-------- Sprite 0 hit
/// +--------- Vertical blank has started
/// ```
#[derive(Clone, Copy, Debug, PartialEq, Eq, Structural)]
pub struct StatusRegister(pub u8);

impl StatusRegister {
    pub const SPRITE_OVERFLOW: u8 = 0b0010_0000;
    pub const SPRITE_ZERO_HIT: u8 = 0b0100_0000;
    pub const VBLANK_STARTED: u8 = 0b1000_0000;

    pub open spec fn spec_in_vblank(self) -> bool {
        has_bits(self.0, Self::VBLANK_STARTED)
    }

    /// The power-up value: everything off.
    pub fn new() -> (status: Self)
        ensures
            status.0 == 0,
    {
        StatusRegister(0)
    }

    pub fn from_bits_truncate(bits: u8) -> (status: Self)
        ensures
            status.0 == bits,
    {
        StatusRegister(bits)
    }

    pub fn bits(&self) -> (bits: u8)
        ensures
            bits == self.0,
    {
        self.0
    }

    /// The value a read of $2002 sees.
    pub fn snapshot(&self) -> (bits: u8)
        ensures
            bits == self.0,
    {
        self.0
    }

    pub fn set_vblank_status(&mut self, status: bool)
        ensures
            final(self).0 == set_bits(old(self).0, Self::VBLANK_STARTED, status),
    {
        if status {
            self.0 = self.0 | StatusRegister::VBLANK_STARTED;
        } else {
            self.0 = self.0 & !StatusRegister::VBLANK_STARTED;
        }
    }

    pub fn reset_vblank_status(&mut self)
        ensures
            final(self).0 == set_bits(old(self).0, Self::VBLANK_STARTED, false),
    {
        self.set_vblank_status(false);
    }

    pub fn set_sprite_overflow(&mut self, status: bool)
        ensures
            final(self).0 == set_bits(old(self).0, Self::SPRITE_OVERFLOW, status),
    {
        if status {
            self.0 = self.0 | StatusRegister::SPRITE_OVERFLOW;
        } else {
            self.0 = self.0 & !StatusRegister::SPRITE_OVERFLOW;
        }
    }

    pub fn set_sprite_zero_hit(&mut self, status: bool)
        ensures
            final(self).0 == set_bits(old(self).0, Self::SPRITE_ZERO_HIT, status),
    {
        if status {
            self.0 = self.0 | StatusRegister::SPRITE_ZERO_HIT;
        } else {
            self.0 = self.0 & !StatusRegister::SPRITE_ZERO_HIT;
        }
    }

    pub fn is_in_vblank(&self) -> (r: bool)
        ensures
            r == self.spec_in_vblank(),
    {
        self.0 & StatusRegister::VBLANK_STARTED == StatusRegister::VBLANK_STARTED
    }

    pub fn is_sprite_overflow(&self) -> (r: bool)
        ensures
            r == has_bits(self.0, Self::SPRITE_OVERFLOW),
    {
        self.0 & StatusRegister::SPRITE_OVERFLOW == StatusRegister::SPRITE_OVERFLOW
    }

    pub fn is_sprite_0_hit(&self) -> (r: bool)
        ensures
            r == has_bits(self.0, Self::SPRITE_ZERO_HIT),
    {
        self.0 & StatusRegister::SPRITE_ZERO_HIT == StatusRegister::SPRITE_ZERO_HIT
    }
}

} // verus!
