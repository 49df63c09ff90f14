use vstd::prelude::*;

pub mod laws;
pub mod palette;
pub mod registers;
pub mod renderer;
pub mod sprite;

use crate::Region;
use crate::cartridge::Mirroring;
use crate::memory::{Memory, MemoryView};
use registers::addr::AddrRegister;
use registers::control::ControlRegister;
use registers::mask::MaskRegister;
use registers::status::StatusRegister;
use crate::tools::set_bits;
use renderer::{Renderer, RendererView, lemma_tick_keeps_wf};

verus! {

/// The number of PPU cycles after power-up before the PPU accepts writes to PPUCTRL,
/// PPUMASK, PPUSCROLL and PPUADDR.
pub const WARM_UP_CYCLES: usize = 9886;

/// The picture processing unit: its memories, registers and position in the frame.
///
/// It also holds the console's `Memory`, whose pattern memory it reads and whose RAM and
/// PRG-ROM the mapper reaches through it.
pub struct PPU {
    pub memory: Memory,
    pub vram: [u8; 2048],
    pub mirroring: Mirroring,
    pub oam_addr: u8,
    pub oam_data: [u8; 256],
    pub palette_table: [u8; 32],
    pub register_latch: bool,
    pub ctrl: ControlRegister,
    pub mask: MaskRegister,
    pub status: StatusRegister,
    pub vram_addr: AddrRegister,
    pub temp_addr: AddrRegister,
    pub scroll_fine_x: u8,
    /// The byte a PPUDATA read returns next (reads below $3F00 are delayed by one).
    pub internal_data_buf: u8,
    pub scanline: usize,
    pub odd_frame: bool,
    pub dot: usize,
    pub cycles: usize,
    pub nmi_interrupt: Option<u8>,
    pub region: Region,
}

#[verifier::ext_equal]
pub ghost struct PpuView {
    pub memory: MemoryView,
    pub vram: Seq<u8>,
    pub mirroring: Mirroring,
    pub oam_addr: u8,
    pub oam_data: Seq<u8>,
    pub palette_table: Seq<u8>,
    pub register_latch: bool,
    pub ctrl: ControlRegister,
    pub mask: MaskRegister,
    pub status: StatusRegister,
    pub vram_addr: u16,
    pub temp_addr: u16,
    pub scroll_fine_x: u8,
    pub internal_data_buf: u8,
    pub scanline: usize,
    pub odd_frame: bool,
    pub dot: usize,
    pub cycles: usize,
    pub nmi_interrupt: Option<u8>,
    pub region: Region,
}

impl View for PPU {
    type V = PpuView;

    open spec fn view(&self) -> PpuView {
        PpuView {
            memory: self.memory@,
            vram: self.vram@,
            mirroring: self.mirroring,
            oam_addr: self.oam_addr,
            oam_data: self.oam_data@,
            palette_table: self.palette_table@,
            register_latch: self.register_latch,
            ctrl: self.ctrl,
            mask: self.mask,
            status: self.status,
            vram_addr: self.vram_addr@,
            temp_addr: self.temp_addr@,
            scroll_fine_x: self.scroll_fine_x,
            internal_data_buf: self.internal_data_buf,
            scanline: self.scanline,
            odd_frame: self.odd_frame,
            dot: self.dot,
            cycles: self.cycles,
            nmi_interrupt: self.nmi_interrupt,
            region: self.region,
        }
    }
}

/// Where a nametable address in $2000-$3FFF lands in the 2 KiB of VRAM.
///
/// Horizontal mirroring:    Vertical mirroring:
///   [ A ] [ a ]              [ A ] [ B ]
///   [ B ] [ b ]              [ a ] [ b ]
pub open spec fn mirrored_vram_index(mirroring: Mirroring, addr: u16) -> u16 {
    let index: u16 = ((addr & 0x2FFF) - 0x2000) as u16;
    let table: u16 = index / 0x0400;
    match mirroring {
        Mirroring::Vertical => if table >= 2 { (index - 0x0800) as u16 } else { index },
        Mirroring::Horizontal => if table == 1 || table == 2 {
            (index - 0x0400) as u16
        } else if table == 3 {
            (index - 0x0800) as u16
        } else {
            index
        },
    }
}

/// The palette entry an address in $3F00-$3FFF selects; $3F10/$3F14/$3F18/$3F1C are
/// mirrors of $3F00/$3F04/$3F08/$3F0C.
pub open spec fn palette_index(addr: u16) -> int {
    if addr == 0x3F10 || addr == 0x3F14 || addr == 0x3F18 || addr == 0x3F1C {
        addr - 0x3F10
    } else {
        addr - 0x3F00
    }
}

/// A nametable address always lands inside the 2 KiB of VRAM.
pub proof fn lemma_mirrored_vram_index(mirroring: Mirroring, addr: u16)
    requires
        0x2000 <= addr <= 0x3FFF,
    ensures
        mirrored_vram_index(mirroring, addr) < 0x0800,
{
    assert(0x2000 <= (addr & 0x2FFF) <= 0x2FFF) by (bit_vector)
        requires
            0x2000 <= addr <= 0x3FFF,
    ;
}

impl PpuView {
    /// Whether the PPU bus can be read at `addr`: pattern memory (where present),
    /// nametables ($2000-$2FFF) and the 32 palette entries ($3F00-$3F1F) are served;
    /// $3000-$3EFF and $3F20-$3FFF are not.
    pub open spec fn read_ok(self, addr: u16) -> bool {
        &&& addr <= 0x2FFF || (0x3F00 <= addr <= 0x3F1F)
        &&& addr < 0x2000 ==> addr < self.memory.chr_mem.len()
    }

    /// Whether the PPU bus can be written at `addr`.
    pub open spec fn write_ok(self, addr: u16) -> bool {
        &&& addr <= 0x2FFF || (0x3F00 <= addr <= 0x3F1F)
        &&& (addr < 0x2000 && self.memory.use_chr_ram) ==> addr < self.memory.chr_mem.len()
    }

    pub open spec fn wf(self) -> bool {
        &&& self.vram.len() == 2048
        &&& self.oam_data.len() == 256
        &&& self.palette_table.len() == 32
        &&& self.memory.cpu_vram.len() == 2048
    }

    /// The byte on the PPU bus at `addr`.
    pub open spec fn read(self, addr: u16) -> u8 {
        if addr <= 0x1FFF {
            self.memory.chr_mem[addr as int]
        } else if addr <= 0x2FFF {
            self.vram[mirrored_vram_index(self.mirroring, addr) as int]
        } else {
            self.palette_table[palette_index(addr)]
        }
    }

    /// The PPU after writing `value` at `addr` of its bus; writes to CHR-ROM are ignored.
    pub open spec fn write(self, addr: u16, value: u8) -> PpuView {
        if addr <= 0x1FFF {
            if self.memory.use_chr_ram {
                PpuView { memory: MemoryView { chr_mem: self.memory.chr_mem.update(addr as int, value), ..self.memory }, ..self }
            } else {
                self
            }
        } else if addr <= 0x2FFF {
            PpuView { vram: self.vram.update(mirrored_vram_index(self.mirroring, addr) as int, value), ..self }
        } else {
            PpuView { palette_table: self.palette_table.update(palette_index(addr), value), ..self }
        }
    }

    /// The VRAM address after a PPUDATA access.
    pub open spec fn advanced_vram_addr(self) -> u16 {
        ((self.vram_addr as nat + self.ctrl.spec_vram_addr_increment() as nat) % 65536) as u16
    }

    /// Whether a PPUDATA access at the current VRAM address is served.
    pub open spec fn data_read_ok(self) -> bool {
        self.read_ok(self.vram_addr & 0x3FFF)
    }

    pub open spec fn data_write_ok(self) -> bool {
        self.write_ok(self.vram_addr & 0x3FFF)
    }

    /// A PPUDATA read: the value returned and the PPU after it. Below $3F00 the value is the
    /// one buffered by the previous read, and the buffer takes the byte now addressed.
    pub open spec fn read_data(self) -> (u8, PpuView) {
        let addr: u16 = self.vram_addr & 0x3FFF;
        let moved: PpuView = PpuView { vram_addr: self.advanced_vram_addr(), ..self };
        if addr <= 0x3EFF {
            (self.internal_data_buf, PpuView { internal_data_buf: self.read(addr), ..moved })
        } else {
            (self.read(addr), moved)
        }
    }

    /// A PPUDATA write.
    pub open spec fn write_data(self, value: u8) -> PpuView {
        let written: PpuView = self.write(self.vram_addr & 0x3FFF, value);
        PpuView { vram_addr: self.advanced_vram_addr(), ..written }
    }

    /// A PPUSTATUS read: the status byte, after which vblank is cleared and the write latch reset.
    pub open spec fn read_status(self) -> (u8, PpuView) {
        (self.status.0, PpuView {
            status: StatusRegister(set_bits(self.status.0, StatusRegister::VBLANK_STARTED, false)),
            register_latch: false,
            ..self
        })
    }

    pub open spec fn warmed_up(self) -> bool {
        self.cycles >= WARM_UP_CYCLES
    }

    /// A PPUCTRL write: ignored while warming up; otherwise the control register takes the
    /// value, an NMI is raised when NMI generation is switched on inside vblank, and the
    /// nametable bits go to the temporary address.
    pub open spec fn write_ctrl(self, value: u8) -> PpuView {
        if !self.warmed_up() {
            self
        } else {
            let ctrl: ControlRegister = ControlRegister(value);
            let raise: bool = !self.ctrl.spec_generate_vblank_nmi() && ctrl.spec_generate_vblank_nmi()
                && self.status.spec_in_vblank();
            PpuView {
                ctrl,
                nmi_interrupt: if raise { Some(1u8) } else { self.nmi_interrupt },
                temp_addr: registers::addr::with_nametable(self.temp_addr, ctrl.spec_nametable()),
                ..self
            }
        }
    }

    pub open spec fn write_mask(self, value: u8) -> PpuView {
        if !self.warmed_up() {
            self
        } else {
            PpuView { mask: MaskRegister(value), ..self }
        }
    }

    pub open spec fn write_oam_data(self, value: u8) -> PpuView {
        PpuView {
            oam_data: self.oam_data.update(self.oam_addr as int, value),
            oam_addr: ((self.oam_addr as nat + 1) % 256) as u8,
            ..self
        }
    }

    /// A PPUSCROLL write: the first write sets fine and coarse X, the second fine and coarse Y.
    pub open spec fn write_scroll(self, value: u8) -> PpuView {
        if !self.warmed_up() {
            self
        } else if self.register_latch {
            PpuView {
                temp_addr: registers::addr::with_coarse_y(registers::addr::with_fine_y(self.temp_addr, value), value >> 3u8),
                register_latch: false,
                ..self
            }
        } else {
            PpuView {
                scroll_fine_x: value & 0b0000_0111,
                temp_addr: registers::addr::with_coarse_x(self.temp_addr, value >> 3u8),
                register_latch: true,
                ..self
            }
        }
    }

    /// A PPUADDR write: the first write sets the high byte of the temporary address, the
    /// second its low byte and copies it into the VRAM address.
    pub open spec fn write_ppu_addr(self, value: u8) -> PpuView {
        if !self.warmed_up() {
            self
        } else if self.register_latch {
            let t: u16 = ((self.temp_addr as nat / 256) * 256 + value as nat) as u16;
            PpuView { temp_addr: t, vram_addr: t, register_latch: false, ..self }
        } else {
            PpuView {
                temp_addr: (value as nat * 256 + self.temp_addr as nat % 256) as u16,
                register_latch: true,
                ..self
            }
        }
    }

    /// An OAM DMA transfer of `data` starting at the OAM address (wrapping around).
    pub open spec fn write_oam_dma(self, data: Seq<u8>) -> PpuView {
        PpuView {
            oam_data: Seq::new(256, |i: int| data[(i - self.oam_addr as int + 256) % 256]),
            ..self
        }
    }

    /// One PPU clock: the dot advances, wrapping into the next scanline after dot 340 and
    /// into the next frame after scanline 261.
    pub open spec fn stepped(self) -> (PpuView, bool) {
        let dot: usize = (self.dot + 1) as usize;
        let cycles: usize = (self.cycles + 1) as usize;
        if dot >= 341 {
            let scanline: usize = (self.scanline + 1) as usize;
            if scanline >= 262 {
                (PpuView { dot: (dot % 341) as usize, cycles, scanline: 0, odd_frame: !self.odd_frame, ..self }, true)
            } else {
                (PpuView { dot: (dot % 341) as usize, cycles, scanline, ..self }, false)
            }
        } else {
            (PpuView { dot, cycles, ..self }, false)
        }
    }
}

impl PPU {
    /// A powered-up PPU over `memory`: all memories and registers zero, at dot 0 of scanline 0.
    pub fn new(memory: Memory, mirroring: Mirroring) -> (ppu: Self)
        ensures
            ppu@.memory == memory@,
            ppu@.vram == Seq::new(2048, |i: int| 0u8),
            ppu@.oam_data == Seq::new(256, |i: int| 0u8),
            ppu@.palette_table == Seq::new(32, |i: int| 0u8),
            ppu.mirroring == mirroring,
            ppu.oam_addr == 0,
            !ppu.register_latch,
            ppu.ctrl.0 == 0,
            ppu.mask.0 == 0,
            ppu.status.0 == 0,
            ppu@.vram_addr == 0,
            ppu@.temp_addr == 0,
            ppu.scroll_fine_x == 0,
            ppu.internal_data_buf == 0,
            ppu.scanline == 0,
            !ppu.odd_frame,
            ppu.dot == 0,
            ppu.cycles == 0,
            ppu.nmi_interrupt.is_none(),
            ppu.region == Region::NTSC,
    {
        let ppu = PPU {
            memory,
            vram: [0x00; 2048],
            mirroring,
            oam_addr: 0x00,
            oam_data: [0x00; 256],
            palette_table: [0x00; 32],
            register_latch: false,
            ctrl: ControlRegister::new(),
            mask: MaskRegister::new(),
            status: StatusRegister::new(),
            vram_addr: AddrRegister::new(),
            temp_addr: AddrRegister::new(),
            scroll_fine_x: 0,
            internal_data_buf: 0,
            scanline: 0,
            odd_frame: false,
            dot: 0,
            cycles: 0,
            nmi_interrupt: None,
            region: Region::NTSC,
        };
        assert(ppu@.vram =~= Seq::new(2048, |i: int| 0u8));
        assert(ppu@.oam_data =~= Seq::new(256, |i: int| 0u8));
        assert(ppu@.palette_table =~= Seq::new(32, |i: int| 0u8));
        ppu
    }

    /// Puts the control and mask registers and the frame position back to power-up values.
    pub fn reset(&mut self)
        ensures
            final(self)@ == (PpuView {
                ctrl: ControlRegister(0),
                mask: MaskRegister(0),
                scanline: 0,
                odd_frame: false,
                dot: 0,
                cycles: 0,
                nmi_interrupt: None,
                ..old(self)@
            }),
    {
        self.ctrl.reset();
        self.mask.reset();
        self.scanline = 0;
        self.odd_frame = false;
        self.dot = 0;
        self.cycles = 0;
        self.nmi_interrupt = None;
    }

    /// One clock of the renderer followed by one PPU clock; returns whether a frame was
    /// completed. The renderer and the PPU stay well formed.
    pub fn tick(&mut self, renderer: &mut Renderer) -> (frame_done: bool)
        requires
            old(renderer)@.wf(old(self)@),
            old(self).cycles < usize::MAX,
        ensures
            ({
                let t: (RendererView, PpuView) = old(renderer)@.ticked(old(self)@);
                &&& final(renderer)@ == t.0
                &&& (final(self)@, frame_done) == t.1.stepped()
            }),
            final(renderer)@.wf(final(self)@),
    {
        proof {
            lemma_tick_keeps_wf(renderer@, self@);
        }
        renderer.tick(self);
        self.step()
    }

    /// One PPU clock; returns whether a frame was completed.
    pub fn step(&mut self) -> (frame_done: bool)
        requires
            old(self).dot < usize::MAX,
            old(self).cycles < usize::MAX,
            old(self).scanline < usize::MAX,
        ensures
            (final(self)@, frame_done) == old(self)@.stepped(),
    {
        self.dot += 1;
        self.cycles += 1;
        if self.dot >= 341 {
            self.dot %= 341;
            self.scanline += 1;
            if self.scanline >= 262 {
                self.scanline = 0;
                self.odd_frame = !self.odd_frame;
                return true;
            }
        }
        false
    }

    /// Where a nametable address in $2000-$3FFF lands in VRAM.
    pub fn mirror_vram_addr(&self, addr: u16) -> (index: u16)
        requires
            0x2000 <= addr <= 0x3FFF,
        ensures
            index == mirrored_vram_index(self.mirroring, addr),
            index < 0x0800,
    {
        let mirrored_vram: u16 = addr & 0b0010_1111_1111_1111;
        assert(0x2000 <= (addr & 0x2FFF) <= 0x2FFF) by (bit_vector)
            requires
                0x2000 <= addr <= 0x3FFF,
        ;
        let vram_index: u16 = mirrored_vram - 0x2000;
        let name_table: u16 = vram_index / 0x0400;
        match self.mirroring {
            Mirroring::Vertical => {
                if name_table == 2 || name_table == 3 {
                    vram_index - 0x0800
                } else {
                    vram_index
                }
            },
            Mirroring::Horizontal => {
                if name_table == 2 || name_table == 1 {
                    vram_index - 0x0400
                } else if name_table == 3 {
                    vram_index - 0x0800
                } else {
                    vram_index
                }
            },
        }
    }

    fn increment_vram_addr(&mut self)
        ensures
            final(self)@ == (PpuView { vram_addr: old(self)@.advanced_vram_addr(), ..old(self)@ }),
    {
        let inc: u8 = self.ctrl.vram_addr_increment();
        self.vram_addr.increment(inc);
    }

    /// Takes the pending NMI, if any.
    pub fn poll_nmi_interrupt(&mut self) -> (nmi: Option<u8>)
        ensures
            nmi == old(self).nmi_interrupt,
            final(self)@ == (PpuView { nmi_interrupt: None, ..old(self)@ }),
    {
        self.nmi_interrupt.take()
    }

    /// A write to PPUCTRL ($2000).
    pub fn write_to_ctrl(&mut self, value: u8)
        ensures
            final(self)@ == old(self)@.write_ctrl(value),
    {
        if self.cycles >= WARM_UP_CYCLES {
            let before_nmi_status: bool = self.ctrl.generate_vblank_nmi();
            self.ctrl = ControlRegister::from_bits_truncate(value);
            if !before_nmi_status && self.ctrl.generate_vblank_nmi() && self.status.is_in_vblank() {
                self.nmi_interrupt = Some(1);
            }
            let nametable: u8 = self.ctrl.get_nametable();
            self.temp_addr.set_nametable(nametable);
        }
    }

    /// A write to PPUMASK ($2001).
    pub fn write_to_mask(&mut self, value: u8)
        ensures
            final(self)@ == old(self)@.write_mask(value),
    {
        if self.cycles >= WARM_UP_CYCLES {
            self.mask = MaskRegister::from_bits_truncate(value);
        }
    }

    /// A read of PPUSTATUS ($2002).
    pub fn read_status(&mut self) -> (data: u8)
        ensures
            (data, final(self)@) == old(self)@.read_status(),
    {
        let data: u8 = self.status.snapshot();
        self.status.reset_vblank_status();
        self.register_latch = false;
        data
    }

    /// A write to OAMADDR ($2003).
    pub fn write_to_oam_addr(&mut self, value: u8)
        ensures
            final(self)@ == (PpuView { oam_addr: value, ..old(self)@ }),
    {
        self.oam_addr = value;
    }

    /// A write to OAMDATA ($2004): stores at the OAM address, which then moves on by one.
    pub fn write_to_oam_data(&mut self, value: u8)
        ensures
            final(self)@ == old(self)@.write_oam_data(value),
    {
        self.oam_data[self.oam_addr as usize] = value;
        self.oam_addr = self.oam_addr.wrapping_add(1);
    }

    /// A read of OAMDATA ($2004).
    pub fn read_oam_data(&self) -> (data: u8)
        ensures
            data == self@.oam_data[self.oam_addr as int],
    {
        self.oam_data[self.oam_addr as usize]
    }

    /// A write to PPUSCROLL ($2005).
    pub fn write_to_scroll(&mut self, value: u8)
        ensures
            final(self)@ == old(self)@.write_scroll(value),
    {
        if self.cycles >= WARM_UP_CYCLES {
            if self.register_latch {
                self.temp_addr.set_fine_y(value);
                self.temp_addr.set_coarse_y(value >> 3);
            } else {
                self.scroll_fine_x = value & 0b0000_0111;
                self.temp_addr.set_coarse_x(value >> 3);
            }
            self.register_latch = !self.register_latch;
        }
    }

    /// A write to PPUADDR ($2006).
    pub fn write_to_ppu_addr(&mut self, value: u8)
        ensures
            final(self)@ == old(self)@.write_ppu_addr(value),
    {
        if self.cycles >= WARM_UP_CYCLES {
            if self.register_latch {
                self.temp_addr.set_lo_byte(value);
                self.vram_addr = self.temp_addr;
            } else {
                self.temp_addr.set_hi_byte(value);
            }
            self.register_latch = !self.register_latch;
        }
    }

    /// A write to PPUDATA ($2007).
    pub fn write_to_data(&mut self, value: u8)
        requires
            old(self)@.data_write_ok(),
        ensures
            final(self)@ == old(self)@.write_data(value),
    {
        let addr: u16 = self.vram_addr.get();
        self.raw_write_to_data(addr, value);
        self.increment_vram_addr();
    }

    /// Writes `value` at `addr` of the PPU bus.
    pub fn raw_write_to_data(&mut self, addr: u16, value: u8)
        requires
            old(self)@.write_ok(addr),
        ensures
            final(self)@ == old(self)@.write(addr, value),
    {
        if addr <= 0x1FFF {
            if self.memory.use_chr_ram {
                self.memory.chr_mem.set(addr as usize, value);
            }
        } else if addr <= 0x2FFF {
            let index: u16 = self.mirror_vram_addr(addr);
            self.vram[index as usize] = value;
        } else if addr == 0x3F10 || addr == 0x3F14 || addr == 0x3F18 || addr == 0x3F1C {
            let add_mirror: u16 = addr - 0x0010;
            self.palette_table[(add_mirror - 0x3F00) as usize] = value;
        } else {
            self.palette_table[(addr - 0x3F00) as usize] = value;
        }
    }

    /// A read of PPUDATA ($2007).
    pub fn read_data(&mut self) -> (data: u8)
        requires
            old(self)@.data_read_ok(),
        ensures
            (data, final(self)@) == old(self)@.read_data(),
    {
        let addr: u16 = self.vram_addr.get();
        self.increment_vram_addr();
        if addr <= 0x3EFF {
            let result: u8 = self.internal_data_buf;
            self.internal_data_buf = self.raw_read_data(addr);
            result
        } else {
            self.raw_read_data(addr)
        }
    }

    /// The byte at `addr` of the PPU bus.
    pub fn raw_read_data(&self, addr: u16) -> (data: u8)
        requires
            self@.read_ok(addr),
        ensures
            data == self@.read(addr),
    {
        if addr <= 0x1FFF {
            self.memory.chr_mem[addr as usize]
        } else if addr <= 0x2FFF {
            let index: u16 = self.mirror_vram_addr(addr);
            self.vram[index as usize]
        } else if addr == 0x3F10 || addr == 0x3F14 || addr == 0x3F18 || addr == 0x3F1C {
            let addr_mirror: u16 = addr - 0x0010;
            self.palette_table[(addr_mirror - 0x3F00) as usize]
        } else {
            self.palette_table[(addr - 0x3F00) as usize]
        }
    }

    /// An OAM DMA transfer: the 256 bytes go to OAM starting at the OAM address, wrapping around.
    pub fn write_oam_dma(&mut self, data: &[u8; 256])
        ensures
            final(self)@ == old(self)@.write_oam_dma(data@),
    {
        let ghost start: int = self.oam_addr as int;
        let mut i: usize = 0;
        while i < 256
            invariant
                0 <= i <= 256,
                self.oam_addr as int == (start + i) % 256,
                0 <= start < 256,
                self@ == (PpuView { oam_data: self@.oam_data, oam_addr: self.oam_addr, ..old(self)@ }),
                self@.oam_data.len() == 256,
                forall|j: int| 0 <= j < 256 ==> #[trigger] self@.oam_data[j] == if (j - start + 256) % 256 < i {
                    data@[(j - start + 256) % 256]
                } else {
                    old(self)@.oam_data[j]
                },
            decreases 256 - i,
        {
            self.oam_data[self.oam_addr as usize] = data[i];
            self.oam_addr = self.oam_addr.wrapping_add(1);
            i = i + 1;
        }
        assert(self@.oam_data =~= Seq::new(256, |i: int| data@[(i - start + 256) % 256]));
        assert(self.oam_addr == old(self).oam_addr);
    }
}

} // verus!
