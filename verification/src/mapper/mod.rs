use vstd::prelude::*;

pub mod mapper000;

use crate::cartridge::Rom;
use crate::input_device::joypad::Joypad;
use crate::ppu::PPU;
use mapper000::Mapper000;

verus! {

/// A cartridge board as the CPU sees it: it decodes every CPU bus access.
pub trait Mapper {
    /// Whether a read of `addr` is served.
    spec fn read_ok(&self, addr: u16) -> bool;

    /// Whether a write of `data` to `addr` is served.
    spec fn write_ok(&self, addr: u16, data: u8) -> bool;

    /// Plugs `device` into controller port `slot` (1 or 2).
    fn connect_input_device(&mut self, slot: u8, device: Joypad)
        requires
            1 <= slot <= 2,
    ;

    /// Whether the board asserts an IRQ; a board without IRQ logic never does.
    fn poll_interrupt(&self) -> (irq: bool)
        default_ensures
            !irq,
    {
        false
    }

    /// Tells the board a scanline has been drawn.
    fn signal_scanline(&mut self) {
    }

    fn read(&mut self, addr: u16) -> u8
        requires
            old(self).read_ok(addr),
    ;

    fn write(&mut self, addr: u16, data: u8)
        requires
            old(self).write_ok(addr, data),
    ;
}

/// The board for a cartridge; only mapper 0 (NROM) exists.
pub fn init_mapper(rom: &Rom, ppu: PPU) -> (mapper: Mapper000)
    requires
        rom.mapper == 0,
    ensures
        mapper@.ppu == ppu@,
        mapper.device1.is_none(),
        mapper.device2.is_none(),
{
    Mapper000::new(ppu)
}

} // verus!
