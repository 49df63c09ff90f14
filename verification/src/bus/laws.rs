use vstd::prelude::*;

use super::BusView;
use crate::mapper::mapper000::MapperView;
use crate::tools::bits::lemma_word_fields;

verus! {

/// The 2 KiB of work RAM at $0000-$07FF repeats up to $1FFF.
pub open spec fn same_ram_cell(a: u16, b: u16) -> bool {
    a <= 0x1FFF && b <= 0x1FFF && a % 0x0800 == b % 0x0800
}

/// A byte written to work RAM is read back at its address and at each of its mirrors;
/// the write and the read are always served, and the read changes nothing.
pub proof fn lemma_ram_write_read(b: BusView, addr: u16, mirror: u16, data: u8)
    requires
        same_ram_cell(addr, mirror),
        b.mapper.ppu.memory.cpu_vram.len() == 2048,
    ensures
        b.write_ok(addr, data),
        b.write(addr, data).read_ok(mirror),
        b.write(addr, data).read(mirror) == (data, b.write(addr, data)),
        b.write(addr, data).mapper.ppu.memory.cpu_vram.len() == 2048,
{
    reveal(MapperView::write);
    reveal(MapperView::write_ok);
    reveal(MapperView::read);
    reveal(MapperView::read_ok);
    lemma_word_fields(addr);
    lemma_word_fields(mirror);
}

/// A write to work RAM leaves every other RAM cell as it was, and RAM reads change nothing.
pub proof fn lemma_ram_write_other(b: BusView, addr: u16, other: u16, data: u8)
    requires
        addr <= 0x1FFF,
        other <= 0x1FFF,
        !same_ram_cell(addr, other),
        b.mapper.ppu.memory.cpu_vram.len() == 2048,
    ensures
        b.write(addr, data).read(other).0 == b.read(other).0,
        b.read(other).1 == b,
        b.write(addr, data).read(other).1 == b.write(addr, data),
        b.read_ok(other),
        b.write(addr, data).read_ok(other),
{
    reveal(MapperView::write);
    reveal(MapperView::read);
    reveal(MapperView::read_ok);
    lemma_word_fields(addr);
    lemma_word_fields(other);
}

/// A 16 KiB PRG-ROM appears twice: $C000-$FFFF reads as $8000-$BFFF.
pub proof fn lemma_prg_rom_mirror(b: BusView, offset: u16)
    requires
        offset < 0x4000,
        b.mapper.ppu.memory.prg_rom.len() == 0x4000,
    ensures
        b.read_ok((0x8000 + offset) as u16),
        b.read_ok((0xC000 + offset) as u16),
        b.read((0xC000 + offset) as u16) == b.read((0x8000 + offset) as u16),
        b.read((0x8000 + offset) as u16) == (b.mapper.ppu.memory.prg_rom[offset as int], b),
{
    reveal(MapperView::read);
    reveal(MapperView::read_ok);
}

/// Reads never change the memories: only PPU registers and controllers react to them.
pub proof fn lemma_read_keeps_memory(b: BusView, addr: u16)
    ensures
        b.read(addr).1.mapper.ppu.memory == b.mapper.ppu.memory,
{
    reveal(MapperView::read);
}

} // verus!
