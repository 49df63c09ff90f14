use vstd::prelude::*;

pub mod bits;
pub mod text;
pub mod trace;

pub use trace::{format_mem, trace};

use crate::bus::Bus;
use crate::cpu::CPU;
use crate::mapper::mapper000::Mapper000;
use crate::memory::Memory;
use crate::ppu::PPU;
use crate::ppu::renderer::Renderer;
use crate::NES;

verus! {


/// The 16-bit word whose high byte is `hi` and low byte is `lo`.
pub open spec fn word(lo: u8, hi: u8) -> u16 {
    (hi as nat * 256 + lo as nat) as u16
}

/// Low and high byte of a 16-bit word.
pub open spec fn lo_byte(value: u16) -> u8 {
    (value % 256) as u8
}

pub open spec fn hi_byte(value: u16) -> u8 {
    (value / 256) as u8
}

/// Two addresses lie on the same 256-byte page exactly when their high bytes agree.
pub open spec fn same_page(addr1: u16, addr2: u16) -> bool {
    addr1 / 256 == addr2 / 256
}

/// Bit `n` of `value`, counting from the least significant bit, as 0 or 1.
pub open spec fn bit_of(value: u16, n: u16) -> u8 {
    ((value >> n) & 1) as u8
}

/// `bits` with the bits of `mask` switched on when `on` holds and off otherwise.
pub open spec fn set_bits(bits: u8, mask: u8, on: bool) -> u8 {
    if on {
        bits | mask
    } else {
        bits & !mask
    }
}

/// Whether every bit of `mask` is on in `bits`.
pub open spec fn has_bits(bits: u8, mask: u8) -> bool {
    bits & mask == mask
}

/// Splits a word into its little-endian bytes: low byte first, high byte second.
pub fn u16_to_bytes(value: u16) -> (bytes: [u8; 2])
    ensures
        bytes[0] == lo_byte(value),
        bytes[1] == hi_byte(value),
{
    let lo: u8 = (value & 0x00FF) as u8;
    let hi: u8 = (value >> 8) as u8;
    assert(lo == value % 256 && hi == value / 256) by (bit_vector)
        requires
            lo == (value & 0x00FF) as u8,
            hi == (value >> 8) as u8,
    ;
    [lo, hi]
}

/// Joins little-endian bytes (low byte first) into a word.
pub fn bytes_to_u16(bytes: &[u8; 2]) -> (value: u16)
    ensures
        value == word(bytes[0], bytes[1]),
{
    let lo: u8 = bytes[0];
    let hi: u8 = bytes[1];
    let value: u16 = ((hi as u16) << 8) | (lo as u16);
    assert(value == hi as u16 * 256 + lo as u16) by (bit_vector)
        requires
            value == ((hi as u16) << 8) | (lo as u16),
    ;
    value
}

/// Joins a two-byte little-endian vector into a word.
pub fn vec_to_u16(bytes: &Vec<u8>) -> (value: u16)
    requires
        bytes.len() == 2,
    ensures
        value == word(bytes[0], bytes[1]),
{
    let pair: [u8; 2] = [bytes[0], bytes[1]];
    bytes_to_u16(&pair)
}

/// Whether two addresses lie on different 256-byte pages.
pub fn page_cross(addr1: u16, addr2: u16) -> (crossed: bool)
    ensures
        crossed == !same_page(addr1, addr2),
{
    let crossed: bool = addr1 & 0xFF00 != addr2 & 0xFF00;
    assert(crossed == (addr1 / 256 != addr2 / 256)) by (bit_vector)
        requires
            crossed == (addr1 & 0xFF00 != addr2 & 0xFF00),
    ;
    crossed
}

/// Bit `n` (counting from the least significant bit) of `value`, as 0 or 1.
pub fn nth_bit(value: u16, n: u16) -> (bit: u8)
    requires
        n < 16,
    ensures
        bit == bit_of(value, n),
        bit <= 1,
{
    let bit: u8 = ((value >> n) & 1) as u8;
    assert(((value >> n) & 1) <= 1) by (bit_vector);
    bit
}

/// A pair of planes of the same width, such as the low and high bit planes of a tile row.
#[derive(Clone, Copy, Debug, PartialEq, Eq)]
pub struct BitPlane<T> {
    pub lo: T,
    pub hi: T,
}

impl<T: Copy> BitPlane<T> {
    /// Builds a pair from its high and low halves (high first).
    pub fn new(hi: T, lo: T) -> (plane: Self)
        ensures
            plane.hi == hi,
            plane.lo == lo,
    {
        BitPlane { lo, hi }
    }
}

/// Access to the parts of the console a holder reaches: the bus and, through it, the board,
/// the PPU, the memory and the renderer.
pub trait NESAccess {
    fn bus(&self) -> &Bus;

    fn bus_mut(&mut self) -> &mut Bus;

    fn mapper(&self) -> &Mapper000;

    fn mapper_mut(&mut self) -> &mut Mapper000;

    fn ppu(&self) -> &PPU;

    fn ppu_mut(&mut self) -> &mut PPU;

    fn memory(&self) -> &Memory;

    fn memory_mut(&mut self) -> &mut Memory;

    fn renderer(&self) -> &Renderer;

    fn renderer_mut(&mut self) -> &mut Renderer;
}

impl NESAccess for CPU {
    fn bus(&self) -> (r: &Bus)
        ensures
            *r == self.bus,
    {
        &self.bus
    }

    fn bus_mut(&mut self) -> (r: &mut Bus)
        ensures
            *r == old(self).bus,
            *final(self) == (CPU { bus: *final(r), ..*old(self) }),
    {
        &mut self.bus
    }

    fn mapper(&self) -> (r: &Mapper000)
        ensures
            *r == self.bus.mapper,
    {
        &self.bus.mapper
    }

    fn mapper_mut(&mut self) -> (r: &mut Mapper000)
        ensures
            *r == old(self).bus.mapper,
            *final(self) == (CPU { bus: Bus { mapper: *final(r), ..old(self).bus }, ..*old(self) }),
    {
        &mut self.bus.mapper
    }

    fn ppu(&self) -> (r: &PPU)
        ensures
            *r == self.bus.mapper.ppu,
    {
        &self.bus.mapper.ppu
    }

    fn ppu_mut(&mut self) -> (r: &mut PPU)
        ensures
            *r == old(self).bus.mapper.ppu,
            *final(self) == (CPU {
                bus: Bus { mapper: Mapper000 { ppu: *final(r), ..old(self).bus.mapper }, ..old(self).bus },
                ..*old(self)
            }),
    {
        &mut self.bus.mapper.ppu
    }

    fn memory(&self) -> (r: &Memory)
        ensures
            *r == self.bus.mapper.ppu.memory,
    {
        &self.bus.mapper.ppu.memory
    }

    fn memory_mut(&mut self) -> (r: &mut Memory)
        ensures
            *r == old(self).bus.mapper.ppu.memory,
            *final(self) == (CPU {
                bus: Bus {
                    mapper: Mapper000 {
                        ppu: PPU { memory: *final(r), ..old(self).bus.mapper.ppu },
                        ..old(self).bus.mapper
                    },
                    ..old(self).bus
                },
                ..*old(self)
            }),
    {
        &mut self.bus.mapper.ppu.memory
    }

    fn renderer(&self) -> (r: &Renderer)
        ensures
            *r == self.bus.renderer,
    {
        &self.bus.renderer
    }

    fn renderer_mut(&mut self) -> (r: &mut Renderer)
        ensures
            *r == old(self).bus.renderer,
            *final(self) == (CPU { bus: Bus { renderer: *final(r), ..old(self).bus }, ..*old(self) }),
    {
        &mut self.bus.renderer
    }
}

impl NESAccess for NES {
    fn bus(&self) -> (r: &Bus)
        ensures
            *r == self.cpu.bus,
    {
        &self.cpu.bus
    }

    fn bus_mut(&mut self) -> (r: &mut Bus)
        ensures
            *r == old(self).cpu.bus,
            *final(self) == (NES { cpu: CPU { bus: *final(r), ..old(self).cpu }, ..*old(self) }),
    {
        &mut self.cpu.bus
    }

    fn mapper(&self) -> (r: &Mapper000)
        ensures
            *r == self.cpu.bus.mapper,
    {
        &self.cpu.bus.mapper
    }

    fn mapper_mut(&mut self) -> (r: &mut Mapper000)
        ensures
            *r == old(self).cpu.bus.mapper,
            *final(self) == (NES {
                cpu: CPU { bus: Bus { mapper: *final(r), ..old(self).cpu.bus }, ..old(self).cpu },
                ..*old(self)
            }),
    {
        &mut self.cpu.bus.mapper
    }

    fn ppu(&self) -> (r: &PPU)
        ensures
            *r == self.cpu.bus.mapper.ppu,
    {
        &self.cpu.bus.mapper.ppu
    }

    fn ppu_mut(&mut self) -> (r: &mut PPU)
        ensures
            *r == old(self).cpu.bus.mapper.ppu,
            *final(self) == (NES {
                cpu: CPU {
                    bus: Bus { mapper: Mapper000 { ppu: *final(r), ..old(self).cpu.bus.mapper }, ..old(self).cpu.bus },
                    ..old(self).cpu
                },
                ..*old(self)
            }),
    {
        &mut self.cpu.bus.mapper.ppu
    }

    fn memory(&self) -> (r: &Memory)
        ensures
            *r == self.cpu.bus.mapper.ppu.memory,
    {
        &self.cpu.bus.mapper.ppu.memory
    }

    fn memory_mut(&mut self) -> (r: &mut Memory)
        ensures
            *r == old(self).cpu.bus.mapper.ppu.memory,
            *final(self) == (NES {
                cpu: CPU {
                    bus: Bus {
                        mapper: Mapper000 {
                            ppu: PPU { memory: *final(r), ..old(self).cpu.bus.mapper.ppu },
                            ..old(self).cpu.bus.mapper
                        },
                        ..old(self).cpu.bus
                    },
                    ..old(self).cpu
                },
                ..*old(self)
            }),
    {
        &mut self.cpu.bus.mapper.ppu.memory
    }

    fn renderer(&self) -> (r: &Renderer)
        ensures
            *r == self.cpu.bus.renderer,
    {
        &self.cpu.bus.renderer
    }

    fn renderer_mut(&mut self) -> (r: &mut Renderer)
        ensures
            *r == old(self).cpu.bus.renderer,
            *final(self) == (NES {
                cpu: CPU { bus: Bus { renderer: *final(r), ..old(self).cpu.bus }, ..old(self).cpu },
                ..*old(self)
            }),
    {
        &mut self.cpu.bus.renderer
    }
}

} // verus!
