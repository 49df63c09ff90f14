use vstd::prelude::*;

use super::Mapper;
use crate::bus::Bus;
use crate::cartridge::Rom;

verus! {

/// The NROM board (mapper 0): the cartridge's PRG-ROM and CHR-ROM and a zeroed PRG-RAM of
/// the size the cartridge asks for. Its bus accesses are not decoded yet: reads give 0 and
/// writes are dropped.
pub struct NROM {
    pub prg_rom: Vec<u8>,
    pub prg_ram: Vec<u8>,
    pub chr_rom: Vec<u8>,
}

impl Mapper for NROM {
    fn new(rom: Rom) -> (board: Self)
        ensures
            board.prg_rom@ == rom.prg_rom@,
            board.chr_rom@ == rom.chr_rom@,
            board.prg_ram@ == Seq::new(rom.prg_ram_size as nat, |i: int| 0u8),
    {
        let prg_ram: Vec<u8> = vec![0x00; rom.prg_ram_size];
        assert(prg_ram@ =~= Seq::new(rom.prg_ram_size as nat, |i: int| 0u8));
        NROM { prg_rom: rom.prg_rom, prg_ram, chr_rom: rom.chr_rom }
    }

    fn read(&mut self, bus: &mut Bus, addr: u16) -> (data: u8)
        ensures
            data == 0,
            *final(self) == *old(self),
            *final(bus) == *old(bus),
    {
        0
    }

    fn write(&mut self, bus: &mut Bus, addr: u16, data: u8)
        ensures
            *final(self) == *old(self),
            *final(bus) == *old(bus),
    {
    }
}

} // verus!
