use vstd::prelude::*;

use super::{mirrored_vram_index, palette_index, PpuView};
use crate::cartridge::Mirroring;
use crate::tools::bits::{lemma_ppu_window, lemma_scroll_fields};
use super::registers::addr::{coarse_x_of, coarse_y_of, fine_y_of};

verus! {

/// Horizontal mirroring: the two upper nametables are one, the two lower ones are the other.
pub proof fn lemma_horizontal_mirroring(offset: u16)
    requires
        offset < 0x0400,
    ensures
        mirrored_vram_index(Mirroring::Horizontal, (0x2000 + offset) as u16)
            == mirrored_vram_index(Mirroring::Horizontal, (0x2400 + offset) as u16),
        mirrored_vram_index(Mirroring::Horizontal, (0x2800 + offset) as u16)
            == mirrored_vram_index(Mirroring::Horizontal, (0x2C00 + offset) as u16),
        mirrored_vram_index(Mirroring::Horizontal, (0x2000 + offset) as u16)
            != mirrored_vram_index(Mirroring::Horizontal, (0x2800 + offset) as u16),
{
    lemma_ppu_window((0x2000 + offset) as u16);
    lemma_ppu_window((0x2400 + offset) as u16);
    lemma_ppu_window((0x2800 + offset) as u16);
    lemma_ppu_window((0x2C00 + offset) as u16);
}

/// Vertical mirroring: the two left nametables are one, the two right ones are the other.
pub proof fn lemma_vertical_mirroring(offset: u16)
    requires
        offset < 0x0400,
    ensures
        mirrored_vram_index(Mirroring::Vertical, (0x2000 + offset) as u16)
            == mirrored_vram_index(Mirroring::Vertical, (0x2800 + offset) as u16),
        mirrored_vram_index(Mirroring::Vertical, (0x2400 + offset) as u16)
            == mirrored_vram_index(Mirroring::Vertical, (0x2C00 + offset) as u16),
        mirrored_vram_index(Mirroring::Vertical, (0x2000 + offset) as u16)
            != mirrored_vram_index(Mirroring::Vertical, (0x2400 + offset) as u16),
{
    lemma_ppu_window((0x2000 + offset) as u16);
    lemma_ppu_window((0x2400 + offset) as u16);
    lemma_ppu_window((0x2800 + offset) as u16);
    lemma_ppu_window((0x2C00 + offset) as u16);
}

/// What is written at a served address of the PPU bus is read back there: pattern memory
/// when it is RAM, the nametables, and the palette entries.
pub proof fn lemma_write_read(p: PpuView, addr: u16, value: u8)
    requires
        p.wf(),
        p.write_ok(addr),
        p.read_ok(addr),
        addr >= 0x2000 || p.memory.use_chr_ram,
    ensures
        p.write(addr, value).read(addr) == value,
{
    if 0x2000 <= addr <= 0x2FFF {
        super::lemma_mirrored_vram_index(p.mirroring, addr);
    }
}

/// Whether PPU-bus addresses `a` and `b` name the same memory cell: the same pattern byte,
/// the same VRAM byte after nametable mirroring, or the same palette entry ($3F10, $3F14,
/// $3F18 and $3F1C alias $3F00, $3F04, $3F08 and $3F0C).
pub open spec fn same_cell(p: PpuView, a: u16, b: u16) -> bool {
    if a <= 0x1FFF {
        a == b
    } else if a <= 0x2FFF {
        0x2000 <= b <= 0x2FFF && mirrored_vram_index(p.mirroring, a) == mirrored_vram_index(p.mirroring, b)
    } else {
        0x3F00 <= b <= 0x3F1F && palette_index(a) == palette_index(b)
    }
}

/// A write at a served address is read back at every address of the same cell and changes
/// no other cell; a write to pattern memory that is ROM changes nothing at all.
pub proof fn lemma_write_cells(p: PpuView, addr: u16, a: u16, value: u8)
    requires
        p.wf(),
        p.write_ok(addr),
        p.read_ok(addr),
        p.read_ok(a),
    ensures
        p.write(addr, value).read(a) == if same_cell(p, addr, a) && (addr >= 0x2000 || p.memory.use_chr_ram) {
            value
        } else {
            p.read(a)
        },
        addr <= 0x1FFF && !p.memory.use_chr_ram ==> p.write(addr, value) == p,
{
    if 0x2000 <= addr <= 0x2FFF {
        super::lemma_mirrored_vram_index(p.mirroring, addr);
    }
    if 0x2000 <= a <= 0x2FFF {
        super::lemma_mirrored_vram_index(p.mirroring, a);
    }
}

/// A byte written through PPUDATA at a nametable address set through PPUADDR is what a
/// PPUDATA read returns after the address is set again and one read has filled the read
/// buffer.
pub proof fn lemma_ppudata_round_trip(p: PpuView, hi: u8, lo: u8, value: u8)
    requires
        p.wf(),
        p.warmed_up(),
        !p.register_latch,
        0x2000 <= hi as nat * 256 + lo as nat <= 0x2FFF,
    ensures
        ({
            let written: PpuView = p.write_ppu_addr(hi).write_ppu_addr(lo).write_data(value);
            let again: PpuView = written.write_ppu_addr(hi).write_ppu_addr(lo);
            again.read_data().1.read_data().0 == value
        }),
{
    let addr: u16 = (hi as nat * 256 + lo as nat) as u16;
    lemma_ppu_window(addr);
    super::lemma_mirrored_vram_index(p.mirroring, addr);
    let a1: PpuView = p.write_ppu_addr(hi).write_ppu_addr(lo);
    assert(a1.vram_addr == addr);
    let written: PpuView = a1.write_data(value);
    assert(written.read(addr) == value);
    let again: PpuView = written.write_ppu_addr(hi).write_ppu_addr(lo);
    assert(again.vram_addr == addr);
    assert(again.read(addr) == value);
    let first: (u8, PpuView) = again.read_data();
    assert(first.1.internal_data_buf == value);
    let next: u16 = again.advanced_vram_addr();
    assert(0x2000 <= next <= 0x3EFF);
    lemma_ppu_window(next);
    assert(first.1.vram_addr == next);
}

/// OAMDATA writes go to consecutive OAM cells from the OAM address.
pub proof fn lemma_oam_writes(p: PpuView, a: u8, v1: u8, v2: u8)
    requires
        p.wf(),
    ensures
        ({
            let q: PpuView = PpuView { oam_addr: a, ..p }.write_oam_data(v1).write_oam_data(v2);
            &&& q.oam_data[a as int] == v1
            &&& q.oam_data[(a as int + 1) % 256] == v2
            &&& q.oam_addr == (a as int + 2) % 256
        }),
{
}

/// An OAM DMA transfer puts byte `i` of the page at OAM cell `oam_addr + i`, wrapping around.
pub proof fn lemma_oam_dma(p: PpuView, data: Seq<u8>, i: int)
    requires
        data.len() == 256,
        0 <= i < 256,
    ensures
        p.write_oam_dma(data).oam_data[(p.oam_addr + i) % 256] == data[i],
        p.write_oam_dma(data).oam_data.len() == 256,
{
}

/// PPUSCROLL writes, once the PPU has warmed up: the first write (latch clear) sets fine X to
/// the low three bits of the value and coarse X of the temporary address to its high five
/// bits; the second (latch set) sets fine Y of the temporary address to the low three bits and
/// coarse Y to the high five. No other bit of the temporary address changes, and each write
/// flips the latch.
pub proof fn lemma_scroll_writes(p: PpuView, v: u8)
    requires
        p.warmed_up(),
    ensures
        ({
            let q: PpuView = p.write_scroll(v);
            &&& q.register_latch == !p.register_latch
            &&& !p.register_latch ==> {
                &&& q.scroll_fine_x == v & 7
                &&& coarse_x_of(q.temp_addr) == v >> 3u8
                &&& q.temp_addr & 0xFFE0u16 == p.temp_addr & 0xFFE0u16
            }
            &&& p.register_latch ==> {
                &&& q.scroll_fine_x == p.scroll_fine_x
                &&& coarse_y_of(q.temp_addr) == v >> 3u8
                &&& fine_y_of(q.temp_addr) == v & 7
                &&& q.temp_addr & 0x8C1Fu16 == p.temp_addr & 0x8C1Fu16
            }
            &&& q.vram_addr == p.vram_addr
        }),
{
    lemma_scroll_fields(p.temp_addr, v);
}

/// Two PPUADDR writes from a clear latch, once the PPU has warmed up, point the VRAM
/// address (and the temporary address) at the word made of the first value as high byte and
/// the second as low byte, and leave the latch clear.
pub proof fn lemma_ppu_addr_writes(p: PpuView, hi: u8, lo: u8)
    requires
        p.warmed_up(),
        !p.register_latch,
    ensures
        ({
            let q: PpuView = p.write_ppu_addr(hi).write_ppu_addr(lo);
            &&& q.vram_addr == hi as int * 256 + lo as int
            &&& q.temp_addr == q.vram_addr
            &&& !q.register_latch
        }),
{
}

} // verus!
