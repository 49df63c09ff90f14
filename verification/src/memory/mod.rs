use vstd::prelude::*;

pub mod mem_map;

use crate::cartridge::Rom;

verus! {

/// The console's and cartridge's memories: 2 KiB of work RAM, PRG-ROM and PRG-RAM, and
/// the pattern memory (CHR-ROM, or CHR-RAM when the cartridge brings none).
pub struct Memory {
    pub cpu_vram: [u8; 2048],
    pub prg_rom: Vec<u8>,
    pub prg_ram: Vec<u8>,
    pub chr_mem: Vec<u8>,
    pub use_chr_ram: bool,
}

#[verifier::ext_equal]
pub ghost struct MemoryView {
    pub cpu_vram: Seq<u8>,
    pub prg_rom: Seq<u8>,
    pub prg_ram: Seq<u8>,
    pub chr_mem: Seq<u8>,
    pub use_chr_ram: bool,
}

impl View for Memory {
    type V = MemoryView;

    open spec fn view(&self) -> MemoryView {
        MemoryView {
            cpu_vram: self.cpu_vram@,
            prg_rom: self.prg_rom@,
            prg_ram: self.prg_ram@,
            chr_mem: self.chr_mem@,
            use_chr_ram: self.use_chr_ram,
        }
    }
}

impl Memory {
    /// Fresh memory for a cartridge: zeroed RAM, the cartridge's PRG-ROM, zeroed PRG-RAM of the
    /// cartridge's size, and its CHR-ROM, or zeroed CHR-RAM of its size when it has no CHR-ROM.
    pub fn new(rom: &Rom) -> (memory: Memory)
        ensures
            memory.cpu_vram@ == Seq::new(2048, |i: int| 0u8),
            memory.prg_rom@ == rom.prg_rom@,
            memory.prg_ram@ == Seq::new(rom.prg_ram_size as nat, |i: int| 0u8),
            memory.use_chr_ram == (rom.chr_rom@.len() == 0),
            memory.chr_mem@ == (if rom.chr_rom@.len() == 0 {
                Seq::new(rom.chr_ram_size as nat, |i: int| 0u8)
            } else {
                rom.chr_rom@
            }),
    {
        let prg_ram: Vec<u8> = vec![0x00; rom.prg_ram_size];
        let use_chr_ram: bool = rom.chr_rom.len() == 0;
        let chr_mem: Vec<u8> = if use_chr_ram {
            vec![0x00; rom.chr_ram_size]
        } else {
            rom.chr_rom.clone()
        };
        let memory = Memory {
            cpu_vram: [0x00; 2048],
            prg_rom: rom.prg_rom.clone(),
            prg_ram,
            chr_mem,
            use_chr_ram,
        };
        assert(memory.cpu_vram@ =~= Seq::new(2048, |i: int| 0u8));
        assert(memory.prg_ram@ =~= Seq::new(rom.prg_ram_size as nat, |i: int| 0u8));
        assert(use_chr_ram ==> memory.chr_mem@ =~= Seq::new(rom.chr_ram_size as nat, |i: int| 0u8));
        memory
    }
}

} // verus!
