use vstd::prelude::*;

pub mod nrom;

use crate::bus::Bus;
use crate::cartridge::Rom;
use nrom::NROM;

verus! {

/// A cartridge board that answers the CPU bus accesses it decodes, with the rest of the bus
/// at hand.
pub trait Mapper: Sized {
    /// The board for a cartridge.
    fn new(rom: Rom) -> Self;

    fn read(&mut self, bus: &mut Bus, addr: u16) -> u8;

    fn write(&mut self, bus: &mut Bus, addr: u16, data: u8);
}

/// The board for a cartridge; only mapper 0 (NROM) exists.
pub fn init_mapper(rom: Rom) -> (board: Box<NROM>)
    requires
        rom.mapper == 0,
    ensures
        board.prg_rom@ == rom.prg_rom@,
        board.chr_rom@ == rom.chr_rom@,
        board.prg_ram@ == Seq::new(rom.prg_ram_size as nat, |i: int| 0u8),
{
    Box::new(NROM::new(rom))
}

} // verus!
