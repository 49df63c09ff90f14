use vstd::prelude::*;

pub mod laws;
pub mod mapper;

use crate::cpu::interrupt::Interrupt;
use crate::mapper::Mapper;
use crate::mapper::mapper000::{Mapper000, MapperView};
use crate::ppu::renderer::{Renderer, RendererView, lemma_tick_keeps_wf};
use crate::ppu::PpuView;

verus! {

/// The CPU bus: the board that decodes it, the renderer the PPU draws with, the CPU cycle
/// count, and the number of frames finished (a frame finishes when the PPU raises its
/// vertical-blank NMI).
pub struct Bus {
    pub cpu_cycles: usize,
    pub mapper: Mapper000,
    pub renderer: Renderer,
    pub frame_count: u64,
}

#[verifier::ext_equal]
pub ghost struct BusView {
    pub cpu_cycles: usize,
    pub mapper: MapperView,
    pub renderer: RendererView,
    pub frame_count: u64,
}

impl View for Bus {
    type V = BusView;

    open spec fn view(&self) -> BusView {
        BusView {
            cpu_cycles: self.cpu_cycles,
            mapper: self.mapper@,
            renderer: self.renderer@,
            frame_count: self.frame_count,
        }
    }
}

impl BusView {
    pub open spec fn ppu(self) -> PpuView {
        self.mapper.ppu
    }

    /// The renderer and PPU are well formed.
    pub open spec fn wf(self) -> bool {
        self.renderer.wf(self.mapper.ppu)
    }

    pub open spec fn read(self, addr: u16) -> (u8, BusView) {
        let r: (u8, MapperView) = self.mapper.read(addr);
        (r.0, BusView { mapper: r.1, ..self })
    }

    pub open spec fn read_ok(self, addr: u16) -> bool {
        self.mapper.read_ok(addr)
    }

    pub open spec fn write(self, addr: u16, data: u8) -> BusView {
        BusView { mapper: self.mapper.write(addr, data), ..self }
    }

    pub open spec fn write_ok(self, addr: u16, data: u8) -> bool {
        self.mapper.write_ok(addr, data)
    }

    /// A little-endian word read from `pos` and `pos + 1` (wrapping at $FFFF).
    pub open spec fn read_u16(self, pos: u16) -> (u16, BusView) {
        let lo: (u8, BusView) = self.read(pos);
        let hi: (u8, BusView) = lo.1.read(((pos as nat + 1) % 65536) as u16);
        ((hi.0 as nat * 256 + lo.0 as nat) as u16, hi.1)
    }

    pub open spec fn read_u16_ok(self, pos: u16) -> bool {
        self.read_ok(pos) && self.read(pos).1.read_ok(((pos as nat + 1) % 65536) as u16)
    }

    /// A little-endian word written to `pos` and `pos + 1` (wrapping at $FFFF).
    pub open spec fn write_u16(self, pos: u16, data: u16) -> BusView {
        self.write(pos, (data % 256) as u8).write(((pos as nat + 1) % 65536) as u16, (data / 256) as u8)
    }

    pub open spec fn write_u16_ok(self, pos: u16, data: u16) -> bool {
        self.write_ok(pos, (data % 256) as u8) && self.write(pos, (data % 256) as u8).write_ok(
            ((pos as nat + 1) % 65536) as u16,
            (data / 256) as u8,
        )
    }

    /// One PPU clock (renderer then PPU); the frame count goes up when the NMI is raised.
    #[verifier::opaque]
    pub open spec fn ppu_ticked(self) -> BusView {
        let t: (RendererView, PpuView) = self.renderer.ticked(self.mapper.ppu);
        let p: PpuView = t.1.stepped().0;
        BusView {
            mapper: MapperView { ppu: p, ..self.mapper },
            renderer: t.0,
            frame_count: if self.mapper.ppu.nmi_interrupt.is_none() && p.nmi_interrupt.is_some() {
                if self.frame_count == u64::MAX { 0 } else { (self.frame_count + 1) as u64 }
            } else {
                self.frame_count
            },
            ..self
        }
    }

    /// `n` PPU clocks.
    pub open spec fn ppu_ticks(self, n: nat) -> BusView
        decreases n,
    {
        if n == 0 {
            self
        } else {
            self.ppu_ticked().ppu_ticks((n - 1) as nat)
        }
    }

    /// `cycles` CPU cycles: the cycle count goes up and the PPU runs three clocks per cycle.
    pub open spec fn ticked(self, cycles: usize) -> BusView {
        BusView { cpu_cycles: (self.cpu_cycles + cycles) as usize, ..self }.ppu_ticks(3 * cycles as nat)
    }

    /// Whether there is room in the cycle counters for `cycles` more CPU cycles.
    pub open spec fn room_for(self, cycles: nat) -> bool {
        &&& self.cpu_cycles + cycles <= usize::MAX
        &&& self.mapper.ppu.cycles + 3 * cycles < usize::MAX
    }
}

/// PPU clocking keeps the bus well formed, moves the PPU cycle count on by one per clock
/// and touches nothing but the PPU, the renderer and the frame count.
pub proof fn lemma_ppu_ticks(b: BusView, n: nat)
    requires
        b.wf(),
        b.mapper.ppu.cycles + n < usize::MAX,
    ensures
        b.ppu_ticks(n).wf(),
        b.ppu_ticks(n).mapper.ppu.cycles == b.mapper.ppu.cycles + n,
        b.ppu_ticks(n).cpu_cycles == b.cpu_cycles,
        b.ppu_ticks(n).mapper.device1 == b.mapper.device1,
        b.ppu_ticks(n).mapper.device2 == b.mapper.device2,
        b.ppu_ticks(n).mapper.ppu.memory == b.mapper.ppu.memory,
    decreases n,
{
    if n > 0 {
        reveal(BusView::ppu_ticked);
        lemma_tick_keeps_wf(b.renderer, b.mapper.ppu);
        lemma_ppu_ticks(b.ppu_ticked(), (n - 1) as nat);
    }
}

impl Bus {
    /// A bus over `mapper` and `renderer`, at cycle 0 with no frame finished.
    pub fn new(mapper: Mapper000, renderer: Renderer) -> (bus: Bus)
        ensures
            bus@ == (BusView { cpu_cycles: 0, mapper: mapper@, renderer: renderer@, frame_count: 0 }),
    {
        Bus { cpu_cycles: 0, mapper, renderer, frame_count: 0 }
    }

    /// Runs the PPU for `cpu_cycles` CPU cycles (three PPU clocks each).
    pub fn tick(&mut self, cpu_cycles: usize)
        requires
            old(self)@.wf(),
            old(self)@.room_for(cpu_cycles as nat),
        ensures
            final(self)@ == old(self)@.ticked(cpu_cycles),
            final(self)@.wf(),
            final(self)@.mapper.ppu.cycles == old(self)@.mapper.ppu.cycles + 3 * cpu_cycles,
    {
        self.cpu_cycles = self.cpu_cycles + cpu_cycles;
        let n: usize = cpu_cycles * 3;
        let ghost start: BusView = self@;
        proof {
            lemma_ppu_ticks(start, n as nat);
        }
        let mut i: usize = 0;
        while i < n
            invariant
                i <= n,
                start.wf(),
                start.mapper.ppu.cycles + n < usize::MAX,
                start.ppu_ticks(n as nat) == self@.ppu_ticks((n - i) as nat),
                self@ == start.ppu_ticks(i as nat),
                self@.wf(),
                self@.mapper.ppu.cycles == start.mapper.ppu.cycles + i,
            decreases n - i,
        {
            let ghost before: BusView = self@;
            let nmi_before: bool = self.mapper.ppu.nmi_interrupt.is_some();
            self.mapper.ppu.tick(&mut self.renderer);
            let nmi_after: bool = self.mapper.ppu.nmi_interrupt.is_some();
            if !nmi_before && nmi_after {
                self.frame_count = self.frame_count.wrapping_add(1);
            }
            proof {
                reveal(BusView::ppu_ticked);
                assert(self@ == before.ppu_ticked());
                lemma_ppu_ticks_step(start, i as nat);
                lemma_ppu_ticks(start, (i + 1) as nat);
            }
            i = i + 1;
        }
    }

    /// Takes a pending interrupt: the NMI when the PPU raised one.
    pub fn poll_interrupts(&mut self) -> (interrupt: Option<Interrupt>)
        ensures
            interrupt == (if old(self)@.mapper.ppu.nmi_interrupt.is_some() {
                Some(Interrupt { itype: crate::cpu::interrupt::InterruptType::NMI, vector_addr: 0xFFFA, cpu_cycles: 2 })
            } else {
                None
            }),
            final(self)@ == (BusView {
                mapper: MapperView { ppu: PpuView { nmi_interrupt: None, ..old(self)@.mapper.ppu }, ..old(self)@.mapper },
                ..old(self)@
            }),
    {
        if self.mapper.ppu.poll_nmi_interrupt().is_some() {
            return Some(Interrupt::nmi());
        }
        None
    }

    /// Reads a little-endian word at `pos`, `pos + 1`.
    pub fn read_u16(&mut self, pos: u16) -> (value: u16)
        requires
            old(self)@.read_u16_ok(pos),
        ensures
            (value, final(self)@) == old(self)@.read_u16(pos),
            old(self)@.wf() ==> final(self)@.wf(),
    {
        let lo: u16 = self.read(pos) as u16;
        let hi: u16 = self.read(pos.wrapping_add(1)) as u16;
        assert((hi << 8u16) | lo == hi * 256 + lo) by (bit_vector)
            requires
                hi <= 255,
                lo <= 255,
        ;
        (hi << 8) | lo
    }

    /// Writes a little-endian word at `pos`, `pos + 1`.
    pub fn write_u16(&mut self, pos: u16, data: u16)
        requires
            old(self)@.write_u16_ok(pos, data),
        ensures
            final(self)@ == old(self)@.write_u16(pos, data),
            old(self)@.wf() ==> final(self)@.wf(),
    {
        let hi: u8 = (data >> 8) as u8;
        let lo: u8 = (data & 0xFF) as u8;
        assert(hi == data / 256 && lo == data % 256) by (bit_vector)
            requires
                hi == (data >> 8) as u8,
                lo == (data & 0xFF) as u8,
        ;
        self.write(pos, lo);
        self.write(pos.wrapping_add(1), hi);
    }

    pub fn read(&mut self, addr: u16) -> (data: u8)
        requires
            old(self)@.read_ok(addr),
        ensures
            (data, final(self)@) == old(self)@.read(addr),
            old(self)@.wf() ==> final(self)@.wf(),
    {
        proof {
            if self@.wf() {
                lemma_bus_access_keeps_wf(self@, addr, 0);
            }
        }
        self.mapper.read(addr)
    }

    pub fn write(&mut self, addr: u16, data: u8)
        requires
            old(self)@.write_ok(addr, data),
        ensures
            final(self)@ == old(self)@.write(addr, data),
            old(self)@.wf() ==> final(self)@.wf(),
    {
        proof {
            if self@.wf() {
                lemma_bus_access_keeps_wf(self@, addr, data);
            }
        }
        self.mapper.write(addr, data);
    }
}

/// `i + 1` clocks are `i` clocks followed by one.
pub proof fn lemma_ppu_ticks_step(b: BusView, i: nat)
    ensures
        b.ppu_ticks(i + 1) == b.ppu_ticks(i).ppu_ticked(),
    decreases i,
{
    assert(b.ppu_ticks(i + 1) == b.ppu_ticked().ppu_ticks(i));
    if i > 0 {
        lemma_ppu_ticks_step(b.ppu_ticked(), (i - 1) as nat);
        assert(b.ppu_ticks(i) == b.ppu_ticked().ppu_ticks((i - 1) as nat));
    }
}


/// A read through the board keeps the renderer and PPU well formed.
pub proof fn lemma_mapper_read_keeps_wf(m: MapperView, r: RendererView, addr: u16)
    requires
        r.wf(m.ppu),
    ensures
        r.wf(m.read(addr).1.ppu),
{
    reveal(MapperView::read);
}

/// The reads of an OAM DMA transfer keep the renderer and PPU well formed.
pub proof fn lemma_dma_reads_keep_wf(m: MapperView, r: RendererView, page: u8, i: nat)
    requires
        r.wf(m.ppu),
    ensures
        r.wf(m.dma_reads(page, i).1.ppu),
    decreases 256 - i,
{
    reveal(MapperView::read);
    if i < 256 {
        let addr: u16 = (page as nat * 256 + i) as u16;
        lemma_mapper_read_keeps_wf(m, r, addr);
        lemma_dma_reads_keep_wf(m.read(addr).1, r, page, i + 1);
    }
}

/// A write through the board keeps the renderer and PPU well formed.
pub proof fn lemma_mapper_write_keeps_wf(m: MapperView, r: RendererView, addr: u16, data: u8)
    requires
        r.wf(m.ppu),
        m.write_ok(addr, data),
    ensures
        r.wf(m.write(addr, data).ppu),
{
    reveal(MapperView::write);
    reveal(MapperView::write_ok);
    assert(data & 0b0000_0111u8 <= 7) by (bit_vector);
    let v: u16 = m.ppu.vram_addr & 0x3FFF;
    if 0x2000 <= v <= 0x2FFF {
        crate::ppu::lemma_mirrored_vram_index(m.ppu.mirroring, v);
    }
    if addr == crate::memory::mem_map::MMIO_OAMDMA {
        lemma_dma_reads_keep_wf(m, r, data, 0);
    }
}

/// Bus reads and writes keep the bus well formed.
pub proof fn lemma_bus_access_keeps_wf(b: BusView, addr: u16, data: u8)
    requires
        b.wf(),
    ensures
        b.read(addr).1.wf(),
        b.write_ok(addr, data) ==> b.write(addr, data).wf(),
        b.read(addr).1.cpu_cycles == b.cpu_cycles,
        b.write(addr, data).cpu_cycles == b.cpu_cycles,
        b.read(addr).1.mapper.ppu.cycles == b.mapper.ppu.cycles,
{
    reveal(MapperView::read);
    lemma_mapper_read_keeps_wf(b.mapper, b.renderer, addr);
    if b.write_ok(addr, data) {
        lemma_mapper_write_keeps_wf(b.mapper, b.renderer, addr, data);
    }
}
} // verus!
