use vstd::prelude::*;

use super::Mapper;
use crate::input_device::joypad::Joypad;
use crate::input_device::NESDevice;
use crate::memory::mem_map::{
    MMIO_JOY1, MMIO_JOY2, MMIO_OAMADDR, MMIO_OAMDATA, MMIO_OAMDMA, MMIO_PPUADDR, MMIO_PPUCTRL, MMIO_PPUDATA,
    MMIO_PPUMASK, MMIO_PPUSCROLL, MMIO_PPUSTATUS, PPU_REGISTERS_END, PRG_ROM, RAM_END,
};
use crate::ppu::{PPU, PpuView};
use crate::memory::MemoryView;

verus! {

/// Mapper 0 (NROM): 2 KiB of work RAM mirrored over $0000-$1FFF, the PPU registers
/// mirrored over $2000-$3FFF, the controllers at $4016/$4017, and 16 or 32 KiB of PRG-ROM
/// at $8000-$FFFF (16 KiB is mirrored).
pub struct Mapper000 {
    pub ppu: PPU,
    pub device1: Option<Joypad>,
    pub device2: Option<Joypad>,
}

#[verifier::ext_equal]
pub ghost struct MapperView {
    pub ppu: PpuView,
    pub device1: Option<Joypad>,
    pub device2: Option<Joypad>,
}

impl View for Mapper000 {
    type V = MapperView;

    open spec fn view(&self) -> MapperView {
        MapperView { ppu: self.ppu@, device1: self.device1, device2: self.device2 }
    }
}

/// Where a RAM address lands in the 2 KiB of work RAM.
pub open spec fn ram_index(addr: u16) -> int {
    (addr & 0x07FF) as int
}

/// Where a PRG-ROM address lands in the PRG-ROM: a 16 KiB ROM is mirrored.
pub open spec fn prg_index(prg_len: nat, addr: u16) -> int {
    let offset: int = addr - 0x8000;
    if prg_len == 0x4000 && offset >= 0x4000 { offset % 0x4000 } else { offset }
}

/// The PPU register a $2000-$3FFF address selects.
pub open spec fn ppu_register(addr: u16) -> u16 {
    addr & 0x2007
}

impl MapperView {
    pub open spec fn with_ppu(self, ppu: PpuView) -> MapperView {
        MapperView { ppu, ..self }
    }

    /// A read of PPU register `reg` ($2000-$2007); write-only registers read as 0.
    pub open spec fn read_register(self, reg: u16) -> (u8, MapperView) {
        if reg == MMIO_PPUSTATUS {
            let r: (u8, PpuView) = self.ppu.read_status();
            (r.0, self.with_ppu(r.1))
        } else if reg == MMIO_OAMDATA {
            (self.ppu.oam_data[self.ppu.oam_addr as int], self)
        } else if reg == MMIO_PPUDATA {
            let r: (u8, PpuView) = self.ppu.read_data();
            (r.0, self.with_ppu(r.1))
        } else {
            (0, self)
        }
    }

    /// A read of `addr` on the CPU bus: the value and the board after it.
    #[verifier::opaque]
    pub open spec fn read(self, addr: u16) -> (u8, MapperView) {
        if addr <= RAM_END {
            (self.ppu.memory.cpu_vram[ram_index(addr)], self)
        } else if addr <= PPU_REGISTERS_END {
            self.read_register(ppu_register(addr))
        } else if addr == MMIO_JOY1 {
            match self.device1 {
                Some(d) => (d.spec_read().0, MapperView { device1: Some(d.spec_read().1), ..self }),
                None => (0, self),
            }
        } else if addr == MMIO_JOY2 {
            match self.device2 {
                Some(d) => (d.spec_read().0, MapperView { device2: Some(d.spec_read().1), ..self }),
                None => (0, self),
            }
        } else if addr >= PRG_ROM {
            (self.ppu.memory.prg_rom[prg_index(self.ppu.memory.prg_rom.len(), addr)], self)
        } else {
            (0, self)
        }
    }

    /// Whether a read of `addr` is served: PPUDATA needs an addressable VRAM address and
    /// PRG-ROM reads must fall inside the ROM.
    #[verifier::opaque]
    pub open spec fn read_ok(self, addr: u16) -> bool {
        &&& (RAM_END < addr <= PPU_REGISTERS_END && ppu_register(addr) == MMIO_PPUDATA) ==> self.ppu.data_read_ok()
        &&& addr >= PRG_ROM ==> prg_index(self.ppu.memory.prg_rom.len(), addr) < self.ppu.memory.prg_rom.len()
    }

    /// A write to PPU register `reg` ($2000-$2007); PPUSTATUS ignores writes.
    pub open spec fn write_register(self, reg: u16, data: u8) -> MapperView {
        if reg == MMIO_PPUCTRL {
            self.with_ppu(self.ppu.write_ctrl(data))
        } else if reg == MMIO_PPUMASK {
            self.with_ppu(self.ppu.write_mask(data))
        } else if reg == MMIO_OAMADDR {
            self.with_ppu(PpuView { oam_addr: data, ..self.ppu })
        } else if reg == MMIO_OAMDATA {
            self.with_ppu(self.ppu.write_oam_data(data))
        } else if reg == MMIO_PPUSCROLL {
            self.with_ppu(self.ppu.write_scroll(data))
        } else if reg == MMIO_PPUADDR {
            self.with_ppu(self.ppu.write_ppu_addr(data))
        } else if reg == MMIO_PPUDATA {
            self.with_ppu(self.ppu.write_data(data))
        } else {
            self
        }
    }

    /// The 256 reads of an OAM DMA transfer from `page` starting at byte `i`: the bytes read
    /// and the board after them.
    pub open spec fn dma_reads(self, page: u8, i: nat) -> (Seq<u8>, MapperView)
        decreases 256 - i,
    {
        if i >= 256 {
            (Seq::empty(), self)
        } else {
            let r: (u8, MapperView) = self.read((page as nat * 256 + i) as u16);
            let rest: (Seq<u8>, MapperView) = r.1.dma_reads(page, i + 1);
            (seq![r.0] + rest.0, rest.1)
        }
    }

    /// Whether every read of that transfer is served.
    pub open spec fn dma_ok(self, page: u8, i: nat) -> bool
        decreases 256 - i,
    {
        if i >= 256 {
            true
        } else {
            let addr: u16 = (page as nat * 256 + i) as u16;
            self.read_ok(addr) && self.read(addr).1.dma_ok(page, i + 1)
        }
    }

    /// An OAM DMA transfer from CPU page `page`.
    pub open spec fn dma(self, page: u8) -> MapperView {
        let r: (Seq<u8>, MapperView) = self.dma_reads(page, 0);
        r.1.with_ppu(r.1.ppu.write_oam_dma(r.0))
    }

    /// A write of `data` to `addr` on the CPU bus.
    #[verifier::opaque]
    pub open spec fn write(self, addr: u16, data: u8) -> MapperView {
        if addr <= RAM_END {
            self.with_ppu(PpuView {
                memory: MemoryView { cpu_vram: self.ppu.memory.cpu_vram.update(ram_index(addr), data), ..self.ppu.memory },
                ..self.ppu
            })
        } else if addr <= PPU_REGISTERS_END {
            self.write_register(ppu_register(addr), data)
        } else if addr == MMIO_OAMDMA {
            self.dma(data)
        } else if addr == MMIO_JOY1 {
            MapperView {
                device1: match self.device1 { Some(d) => Some(d.spec_write(data)), None => None },
                device2: match self.device2 { Some(d) => Some(d.spec_write(data)), None => None },
                ..self
            }
        } else {
            self
        }
    }

    /// Whether a write of `data` to `addr` is served: PPUDATA needs an addressable VRAM
    /// address and an OAM DMA needs every read of its page served.
    #[verifier::opaque]
    pub open spec fn write_ok(self, addr: u16, data: u8) -> bool {
        &&& (RAM_END < addr <= PPU_REGISTERS_END && ppu_register(addr) == MMIO_PPUDATA) ==> self.ppu.data_write_ok()
        &&& addr == MMIO_OAMDMA ==> self.dma_ok(data, 0)
    }
}

impl Mapper000 {
    /// A board over `ppu` with no controllers plugged in.
    pub fn new(ppu: PPU) -> (mapper: Self)
        ensures
            mapper@.ppu == ppu@,
            mapper.device1.is_none(),
            mapper.device2.is_none(),
    {
        Mapper000 { ppu, device1: None, device2: None }
    }

    fn read_register(&mut self, reg: u16) -> (data: u8)
        requires
            0x2000 <= reg <= 0x2007,
            reg == MMIO_PPUDATA ==> old(self)@.ppu.data_read_ok(),
        ensures
            (data, final(self)@) == old(self)@.read_register(reg),
    {
        if reg == MMIO_PPUSTATUS {
            self.ppu.read_status()
        } else if reg == MMIO_OAMDATA {
            self.ppu.read_oam_data()
        } else if reg == MMIO_PPUDATA {
            self.ppu.read_data()
        } else {
            0
        }
    }

    fn write_register(&mut self, reg: u16, data: u8)
        requires
            0x2000 <= reg <= 0x2007,
            reg == MMIO_PPUDATA ==> old(self)@.ppu.data_write_ok(),
        ensures
            final(self)@ == old(self)@.write_register(reg, data),
    {
        if reg == MMIO_PPUCTRL {
            self.ppu.write_to_ctrl(data);
        } else if reg == MMIO_PPUMASK {
            self.ppu.write_to_mask(data);
        } else if reg == MMIO_OAMADDR {
            self.ppu.write_to_oam_addr(data);
        } else if reg == MMIO_OAMDATA {
            self.ppu.write_to_oam_data(data);
        } else if reg == MMIO_PPUSCROLL {
            self.ppu.write_to_scroll(data);
        } else if reg == MMIO_PPUADDR {
            self.ppu.write_to_ppu_addr(data);
        } else if reg == MMIO_PPUDATA {
            self.ppu.write_to_data(data);
        }
    }

    /// An OAM DMA transfer: the 256 bytes of CPU page `page` are read and copied into OAM.
    fn oam_dma(&mut self, page: u8)
        requires
            old(self)@.dma_ok(page, 0),
        ensures
            final(self)@ == old(self)@.dma(page),
    {
        reveal(MapperView::read_ok);
        let mut buffer: [u8; 256] = [0; 256];
        let hi: u16 = (page as u16) << 8;
        assert(hi == page as nat * 256) by (bit_vector)
            requires
                hi == (page as u16) << 8u16,
        ;
        let mut i: u16 = 0;
        while i < 256
            invariant
                0 <= i <= 256,
                hi == page as nat * 256,
                self@.dma_ok(page, i as nat),
                old(self)@.dma_reads(page, 0).0 =~= buffer@.subrange(0, i as int) + self@.dma_reads(page, i as nat).0,
                old(self)@.dma_reads(page, 0).1 == self@.dma_reads(page, i as nat).1,
                buffer@.len() == 256,
            decreases 256 - i,
        {
            let ghost before: MapperView = self@;
            let value: u8 = self.read(hi + i);
            buffer[i as usize] = value;
            proof {
                let r: (Seq<u8>, MapperView) = before.dma_reads(page, i as nat);
                assert(r.0 =~= seq![value] + self@.dma_reads(page, i as nat + 1).0);
                assert(buffer@.subrange(0, i as int + 1) =~= buffer@.subrange(0, i as int) + seq![value]);
            }
            i = i + 1;
        }
        assert(buffer@.subrange(0, 256) =~= buffer@);
        reveal(MapperView::write);
        self.ppu.write_oam_dma(&buffer);
    }
}

impl Mapper for Mapper000 {
    open spec fn read_ok(&self, addr: u16) -> bool {
        self@.read_ok(addr)
    }

    open spec fn write_ok(&self, addr: u16, data: u8) -> bool {
        self@.write_ok(addr, data)
    }

    fn connect_input_device(&mut self, slot: u8, device: Joypad)
        ensures
            slot == 1 ==> final(self)@ == (MapperView { device1: Some(device), ..old(self)@ }),
            slot == 2 ==> final(self)@ == (MapperView { device2: Some(device), ..old(self)@ }),
    {
        if slot == 1 {
            self.device1 = Some(device);
        } else {
            self.device2 = Some(device);
        }
    }

    fn read(&mut self, addr: u16) -> (data: u8)
        ensures
            (data, final(self)@) == old(self)@.read(addr),
    {
        reveal(MapperView::read);
        reveal(MapperView::read_ok);
        if addr <= RAM_END {
            let mirror_down_addr: u16 = addr & 0b0000_0111_1111_1111;
            assert(mirror_down_addr < 2048) by (bit_vector)
                requires
                    mirror_down_addr == addr & 0x07FF,
            ;
            self.ppu.memory.cpu_vram[mirror_down_addr as usize]
        } else if addr <= PPU_REGISTERS_END {
            let reg: u16 = addr & 0b0010_0000_0000_0111;
            assert(0x2000 <= reg <= 0x2007) by (bit_vector)
                requires
                    0x2000 <= addr <= 0x3FFF,
                    reg == addr & 0x2007,
            ;
            self.read_register(reg)
        } else if addr == MMIO_JOY1 {
            match self.device1 {
                Some(mut d) => {
                    let data: u8 = d.read();
                    self.device1 = Some(d);
                    data
                },
                None => 0x00,
            }
        } else if addr == MMIO_JOY2 {
            match self.device2 {
                Some(mut d) => {
                    let data: u8 = d.read();
                    self.device2 = Some(d);
                    data
                },
                None => 0x00,
            }
        } else if addr >= PRG_ROM {
            let mut mirror_down_addr: u16 = addr - 0x8000;
            if self.ppu.memory.prg_rom.len() == 0x4000 && mirror_down_addr >= 0x4000 {
                mirror_down_addr = mirror_down_addr % 0x4000;
            }
            self.ppu.memory.prg_rom[mirror_down_addr as usize]
        } else {
            0
        }
    }

    fn write(&mut self, addr: u16, data: u8)
        ensures
            final(self)@ == old(self)@.write(addr, data),
    {
        reveal(MapperView::write);
        reveal(MapperView::write_ok);
        if addr <= RAM_END {
            let mirror_down_addr: u16 = addr & 0b0000_0111_1111_1111;
            assert(mirror_down_addr < 2048) by (bit_vector)
                requires
                    mirror_down_addr == addr & 0x07FF,
            ;
            self.ppu.memory.cpu_vram[mirror_down_addr as usize] = data;
        } else if addr <= PPU_REGISTERS_END {
            let reg: u16 = addr & 0b0010_0000_0000_0111;
            assert(0x2000 <= reg <= 0x2007) by (bit_vector)
                requires
                    0x2000 <= addr <= 0x3FFF,
                    reg == addr & 0x2007,
            ;
            self.write_register(reg, data);
        } else if addr == MMIO_OAMDMA {
            self.oam_dma(data);
        } else if addr == MMIO_JOY1 {
            if let Some(mut d) = self.device1 {
                d.write(data);
                self.device1 = Some(d);
            }
            if let Some(mut d) = self.device2 {
                d.write(data);
                self.device2 = Some(d);
            }
        }
    }
}

impl Mapper000 {
    /// The controller in port 1, which must be plugged in.
    pub fn device1(&self) -> (d: &Joypad)
        requires
            self.device1.is_some(),
        ensures
            *d == self.device1.unwrap(),
    {
        self.device1.as_ref().unwrap()
    }

    /// The controller in port 1, which must be plugged in, for changing.
    pub fn device1_mut(&mut self) -> (d: &mut Joypad)
        requires
            old(self).device1.is_some(),
        ensures
            *d == old(self).device1.unwrap(),
            *final(self) == (Mapper000 { device1: Some(*final(d)), ..*old(self) }),
    {
        self.device1.as_mut().unwrap()
    }

    /// The controller in port 2, which must be plugged in.
    pub fn device2(&self) -> (d: &Joypad)
        requires
            self.device2.is_some(),
        ensures
            *d == self.device2.unwrap(),
    {
        self.device2.as_ref().unwrap()
    }

    /// The controller in port 2, which must be plugged in, for changing.
    pub fn device2_mut(&mut self) -> (d: &mut Joypad)
        requires
            old(self).device2.is_some(),
        ensures
            *d == old(self).device2.unwrap(),
            *final(self) == (Mapper000 { device2: Some(*final(d)), ..*old(self) }),
    {
        self.device2.as_mut().unwrap()
    }
}

} // verus!
