pub use super::palette::RGB;
use vstd::prelude::*;

use crate::tools::bits::{lemma_bit, lemma_byte_fields, lemma_two_bits, lemma_two_fields, lemma_word_fields};

use crate::ppu::registers::addr::{coarse_x_of, coarse_y_of, fine_y_of, scrolled_x, scrolled_y};
use crate::ppu::registers::status::StatusRegister;
use crate::ppu::registers::ControlRegister;
use crate::ppu::sprite::{decoded_sprite, Sprite};
use crate::ppu::{PPU, PpuView};
use crate::tools::{bit_of, nth_bit, set_bits, BitPlane};
use crate::{SCREEN_HEIGHT, SCREEN_WIDTH};

verus! {

/// The number of pixels of a frame.
pub const FRAME_PIXELS: usize = 61440;

/// The background and sprite pipelines of the PPU, and the frame being drawn.
///
/// Each pixel holds the system palette index (0-63 on real hardware) of its colour.
pub struct Renderer {
    pub background_latch: BitPlane<u8>,
    pub background_shift: BitPlane<u16>,
    pub attribute_latch: BitPlane<u8>,
    pub attribute_shift: BitPlane<u8>,
    pub scratch_address: u16,
    pub nametable_entry: u8,
    pub attribute_entry: u8,
    pub primary_oam: Vec<Sprite>,
    pub secondary_oam: Vec<Sprite>,
    pub pixels: Vec<u8>,
}

#[verifier::ext_equal]
pub ghost struct RendererView {
    pub background_latch: BitPlane<u8>,
    pub background_shift: BitPlane<u16>,
    pub attribute_latch: BitPlane<u8>,
    pub attribute_shift: BitPlane<u8>,
    pub scratch_address: u16,
    pub nametable_entry: u8,
    pub attribute_entry: u8,
    pub primary_oam: Seq<Sprite>,
    pub secondary_oam: Seq<Sprite>,
    pub pixels: Seq<u8>,
}

impl View for Renderer {
    type V = RendererView;

    open spec fn view(&self) -> RendererView {
        RendererView {
            background_latch: self.background_latch,
            background_shift: self.background_shift,
            attribute_latch: self.attribute_latch,
            attribute_shift: self.attribute_shift,
            scratch_address: self.scratch_address,
            nametable_entry: self.nametable_entry,
            attribute_entry: self.attribute_entry,
            primary_oam: self.primary_oam@,
            secondary_oam: self.secondary_oam@,
            pixels: self.pixels@,
        }
    }
}

/// The sprite layer at column `x` given the sprites `s` in priority order: the first sprite
/// with an opaque pixel there decides the colour (palette 4-7) and its priority; the third
/// component tells whether sprite 0 is opaque there (never at column 255).
pub open spec fn sprite_scan(s: Seq<Sprite>, x: usize) -> (u8, bool, bool)
    decreases s.len(),
{
    if s.len() == 0 {
        (0, false, false)
    } else {
        let rest: (u8, bool, bool) = sprite_scan(s.drop_first(), x);
        let sprite: Sprite = s[0];
        let index: u8 = sprite.spec_color_index(x);
        if index != 0 {
            (
                0b1_00_00u8 | (sprite.status_palette << 2u8) | index,
                sprite.status_behind_background,
                rest.2 || (sprite.oam_index == 0 && x != 255),
            )
        } else {
            rest
        }
    }
}

/// Whether a sprite whose top row is `y` covers `scanline` of the next line, for sprites
/// `size` rows tall.
pub open spec fn sprite_on_line(sprite: Sprite, scanline: usize, size: u8) -> bool {
    scanline >= sprite.y as usize && scanline < sprite.y as usize + size as usize
}

/// Sprite evaluation from OAM entry `i` on, with the sprites found so far in `found`: the
/// sprites on the line in OAM order, at most eight, and whether a ninth was found.
pub open spec fn eval_scan(oam: Seq<u8>, scanline: usize, size: u8, i: nat, found: Seq<Sprite>) -> (Seq<Sprite>, bool)
    decreases 64 - i,
{
    if i >= 64 {
        (found, false)
    } else {
        let sprite: Sprite = decoded_sprite(i as usize, oam.subrange(4 * i as int, 4 * i as int + 4));
        if sprite_on_line(sprite, scanline, size) {
            if found.len() == 8 {
                (found, true)
            } else {
                eval_scan(oam, scanline, size, i + 1, found.push(sprite))
            }
        } else {
            eval_scan(oam, scanline, size, i + 1, found)
        }
    }
}

/// The sprite with the pattern row for scanline `scanline` fetched.
pub open spec fn loaded_sprite(p: PpuView, sprite: Sprite) -> Sprite {
    let addr: u16 = sprite.spec_tile_address(p.scanline, p.ctrl);
    Sprite { data_lo: p.read(addr), data_hi: p.read((addr + 8) as u16), ..sprite }
}

/// Whether `dot` lies in one of the two background fetch windows.
pub open spec fn fetch_dot(dot: usize) -> bool {
    (2 <= dot <= 255) || (322 <= dot <= 337)
}

/// Whether `scanline` is drawn or is the pre-render line.
pub open spec fn render_line(scanline: usize) -> bool {
    scanline <= 239 || scanline == 261
}

impl RendererView {
    /// What the renderer and the PPU must satisfy for clocking to be defined: the pattern
    /// memory is present, positions and latches are in range, and the fetch address and the
    /// evaluated sprites are those the pipeline itself leaves at this dot.
    pub open spec fn wf(self, p: PpuView) -> bool {
        &&& p.memory.chr_mem.len() >= 0x2000
        &&& p.oam_data.len() == 256
        &&& p.vram.len() == 2048
        &&& p.palette_table.len() == 32
        &&& p.scroll_fine_x <= 7
        &&& p.dot <= 340
        &&& p.scanline <= 261
        &&& self.pixels.len() == FRAME_PIXELS
        &&& self.secondary_oam.len() <= 8
        &&& forall|i: int| 0 <= i < self.secondary_oam.len() ==> #[trigger] self.secondary_oam[i].status_palette <= 3
        &&& forall|i: int| 0 <= i < self.primary_oam.len() ==> #[trigger] self.primary_oam[i].status_palette <= 3
        &&& self.scratch_address <= 0x2FFF
        &&& (render_line(p.scanline) && fetch_dot(p.dot) && (p.dot % 8 == 6 || p.dot % 8 == 7))
            ==> self.scratch_address <= 0x1FF7
        &&& !(p.scanline == 0 && p.dot <= 1) ==> self.secondary_on_line(p.scanline)
    }

    /// Whether the background pipeline can run at the current dot: the read it makes there
    /// (fetch phases 0, 2, 4 and 6, and dots 256, 338 and 340) is of a served address, and
    /// the step of phase 7 stays inside the address space.
    pub open spec fn background_fetch_ok(self, p: PpuView) -> bool {
        let dot: usize = p.dot;
        let phase: usize = dot % 8;
        let reads: bool = (fetch_dot(dot) && (phase == 0 || phase == 2 || phase == 4 || phase == 6))
            || dot == 256 || dot == 338 || dot == 340;
        &&& reads ==> p.read_ok(self.scratch_address)
        &&& (fetch_dot(dot) && phase == 7) ==> self.scratch_address <= 0xFFF7
    }

    /// Every evaluated sprite starts at or above `scanline`.
    pub open spec fn secondary_on_line(self, scanline: usize) -> bool {
        forall|i: int| 0 <= i < self.secondary_oam.len() ==> #[trigger] self.secondary_oam[i].y as usize <= scanline
    }

    /// Copies the fetched tile row and attribute bits into the low halves of the shifters.
    pub open spec fn reloaded(self) -> RendererView {
        RendererView {
            background_shift: BitPlane {
                lo: (self.background_shift.lo & 0xFF00u16) | (self.background_latch.lo as u16),
                hi: (self.background_shift.hi & 0xFF00u16) | (self.background_latch.hi as u16),
            },
            attribute_latch: BitPlane {
                lo: self.attribute_entry & 0b0000_0001u8,
                hi: (self.attribute_entry & 0b0000_0010u8) >> 1u8,
            },
            ..self
        }
    }

    /// Moves every shifter one pixel on, feeding the attribute latches in.
    pub open spec fn shifted(self) -> RendererView {
        RendererView {
            background_shift: BitPlane {
                lo: self.background_shift.lo << 1u16,
                hi: self.background_shift.hi << 1u16,
            },
            attribute_shift: BitPlane {
                lo: (self.attribute_shift.lo << 1u8) | self.attribute_latch.lo,
                hi: (self.attribute_shift.hi << 1u8) | self.attribute_latch.hi,
            },
            ..self
        }
    }

    /// The 4-bit background colour (palette 0-3) at column `x`, 0 when transparent or hidden.
    pub open spec fn background_pixel(self, p: PpuView, x: usize) -> u8 {
        if !p.mask.spec_rendering_background(x) {
            0
        } else {
            let fx: u16 = p.scroll_fine_x as u16;
            let color: u8 = (2 * bit_of(self.background_shift.hi, (15 - fx) as u16)
                + bit_of(self.background_shift.lo, (15 - fx) as u16)) as u8;
            if color != 0 {
                color | (((2 * bit_of(self.attribute_shift.hi as u16, (7 - fx) as u16)
                    + bit_of(self.attribute_shift.lo as u16, (7 - fx) as u16)) as u8) << 2u8)
            } else {
                0
            }
        }
    }

    /// The sprite layer at column `x`: colour, whether it is behind the background, and
    /// whether sprite 0 is opaque there.
    pub open spec fn sprite_pixel(self, p: PpuView, x: usize) -> (u8, bool, bool) {
        if !p.mask.spec_rendering_sprites(x) {
            (0, false, false)
        } else {
            sprite_scan(self.primary_oam, x)
        }
    }

    /// The colour index of the pixel at (`x`, `y`) and the PPU after a possible sprite 0 hit;
    /// `None` off screen.
    pub open spec fn pixel(self, p: PpuView, x: usize, y: usize) -> (Option<u8>, PpuView) {
        if y < 240 && x < 256 {
            let bg: u8 = self.background_pixel(p, x);
            let sp: (u8, bool, bool) = self.sprite_pixel(p, x);
            let p1: PpuView = if sp.2 && bg != 0 {
                PpuView { status: StatusRegister(set_bits(p.status.0, StatusRegister::SPRITE_ZERO_HIT, true)), ..p }
            } else {
                p
            };
            let front: u8 = if sp.1 { bg } else { sp.0 };
            let back: u8 = if sp.1 { sp.0 } else { bg };
            (Some(if front == 0 { back } else { front }), p1)
        } else {
            (None, p)
        }
    }

    /// The frame after drawing colour index `color` at (`x`, `y`): the pixel takes the
    /// palette entry of the colour (the backdrop entry while rendering is off).
    pub open spec fn with_pixel(self, p: PpuView, x: usize, y: usize, color: u8) -> RendererView {
        let offset: u16 = if p.mask.spec_rendering() { color as u16 } else { 0 };
        RendererView { pixels: self.pixels.update(y * 256 + x, p.read((0x3F00 + offset) as u16)), ..self }
    }

    /// Sprite evaluation for the next line: the secondary OAM and the PPU (with the overflow
    /// flag set when a ninth sprite is on the line).
    pub open spec fn evaluated(self, p: PpuView) -> (RendererView, PpuView) {
        let scan: (Seq<Sprite>, bool) = eval_scan(p.oam_data, p.scanline, p.ctrl.spec_sprite_size(), 0, Seq::empty());
        (
            RendererView { secondary_oam: scan.0, ..self },
            if scan.1 {
                PpuView { status: StatusRegister(set_bits(p.status.0, StatusRegister::SPRITE_OVERFLOW, true)), ..p }
            } else {
                p
            },
        )
    }

    /// Sprite loading: the primary OAM becomes the secondary OAM with each pattern row fetched.
    pub open spec fn loaded(self, p: PpuView) -> RendererView {
        RendererView {
            primary_oam: Seq::new(self.secondary_oam.len(), |i: int| loaded_sprite(p, self.secondary_oam[i])),
            ..self
        }
    }

    /// The sprite pipeline at the current dot (`pre` on the pre-render line).
    pub open spec fn sprites_ticked(self, p: PpuView, pre: bool) -> (RendererView, PpuView) {
        if p.dot == 1 {
            (
                RendererView { secondary_oam: Seq::empty(), ..self },
                if pre {
                    PpuView {
                        status: StatusRegister(set_bits(set_bits(p.status.0, StatusRegister::SPRITE_OVERFLOW, false),
                            StatusRegister::SPRITE_ZERO_HIT, false)),
                        ..p
                    }
                } else {
                    p
                },
            )
        } else if p.dot == 257 {
            self.evaluated(p)
        } else if p.dot == 321 {
            (self.loaded(p), p)
        } else {
            (self, p)
        }
    }

    /// The pixel output at the current dot.
    pub open spec fn pixel_ticked(self, p: PpuView) -> (RendererView, PpuView) {
        if (2 <= p.dot <= 257) || (322 <= p.dot <= 337) {
            let x: usize = (p.dot - 2) as usize;
            let drawn: (Option<u8>, PpuView) = self.pixel(p, x, p.scanline);
            let r1: RendererView = match drawn.0 {
                Some(color) => self.with_pixel(drawn.1, x, p.scanline, color),
                None => self,
            };
            (r1.shifted(), drawn.1)
        } else {
            (self, p)
        }
    }

    /// The attribute bits of the current tile, taken from the attribute byte at `scratch_address`.
    pub open spec fn attribute_bits(self, p: PpuView) -> u8 {
        let a: u8 = p.read(self.scratch_address);
        let a1: u8 = if coarse_y_of(p.vram_addr) & 2u8 != 0 { a >> 4u8 } else { a };
        if coarse_x_of(p.vram_addr) & 2u8 != 0 { a1 >> 2u8 } else { a1 }
    }

    /// The background pipeline at the current dot (`pre` on the pre-render line).
    pub open spec fn background_ticked(self, p: PpuView, pre: bool) -> (RendererView, PpuView) {
        let dot: usize = p.dot;
        let nametable_addr: u16 = (p.vram_addr & 0x0FFF) | 0x2000;
        let rendering: bool = p.mask.spec_rendering();
        if fetch_dot(dot) {
            let phase: usize = dot % 8;
            if phase == 1 {
                (RendererView { scratch_address: nametable_addr, ..self }.reloaded(), p)
            } else if phase == 2 {
                (RendererView { nametable_entry: p.read(self.scratch_address), ..self }, p)
            } else if phase == 3 {
                (RendererView {
                    scratch_address: ((crate::ppu::registers::addr::nametable_of(p.vram_addr) as u16) << 10u16)
                        | (((coarse_y_of(p.vram_addr) / 4) as u16) << 3u16) | ((coarse_x_of(p.vram_addr) / 4) as u16)
                        | 0x23C0u16,
                    ..self
                }, p)
            } else if phase == 4 {
                (RendererView { attribute_entry: self.attribute_bits(p), ..self }, p)
            } else if phase == 5 {
                (RendererView {
                    scratch_address: (p.ctrl.spec_background_pattern_addr()
                        + (((self.nametable_entry as u16) << 4u16) | (fine_y_of(p.vram_addr) as u16))) as u16,
                    ..self
                }, p)
            } else if phase == 6 {
                (RendererView { background_latch: BitPlane { lo: p.read(self.scratch_address), ..self.background_latch }, ..self }, p)
            } else if phase == 7 {
                (RendererView { scratch_address: (self.scratch_address + 8) as u16, ..self }, p)
            } else {
                (
                    RendererView { background_latch: BitPlane { hi: p.read(self.scratch_address), ..self.background_latch }, ..self },
                    if rendering { PpuView { vram_addr: scrolled_x(p.vram_addr), ..p } } else { p },
                )
            }
        } else if dot == 256 {
            (
                RendererView { background_latch: BitPlane { hi: p.read(self.scratch_address), ..self.background_latch }, ..self },
                if rendering { PpuView { vram_addr: scrolled_y(p.vram_addr), ..p } } else { p },
            )
        } else if dot == 257 {
            (
                self.reloaded(),
                if rendering { PpuView { vram_addr: (p.vram_addr & 0xFBE0) | (p.temp_addr & 0x041F), ..p } } else { p },
            )
        } else if 280 <= dot <= 304 {
            (self, if pre && rendering { PpuView { vram_addr: (p.vram_addr & 0x841F) | (p.temp_addr & 0x7BE0), ..p } } else { p })
        } else if dot == 1 {
            (
                RendererView { scratch_address: nametable_addr, ..self },
                if pre {
                    PpuView { status: StatusRegister(set_bits(p.status.0, StatusRegister::VBLANK_STARTED, false)), ..p }
                } else {
                    p
                },
            )
        } else if dot == 321 || dot == 339 {
            (RendererView { scratch_address: nametable_addr, ..self }, p)
        } else if dot == 338 {
            (RendererView { nametable_entry: p.read(self.scratch_address), ..self }, p)
        } else if dot == 340 {
            (
                RendererView { nametable_entry: p.read(self.scratch_address), ..self },
                if pre && rendering && p.odd_frame { PpuView { dot: (p.dot + 1) as usize, ..p } } else { p },
            )
        } else {
            (self, p)
        }
    }

    /// One renderer clock at the PPU's current position.
    pub open spec fn ticked(self, p: PpuView) -> (RendererView, PpuView) {
        if p.scanline <= 239 || p.scanline == 261 {
            let pre: bool = p.scanline == 261;
            let s: (RendererView, PpuView) = self.sprites_ticked(p, pre);
            let q: (RendererView, PpuView) = s.0.pixel_ticked(s.1);
            q.0.background_ticked(q.1, pre)
        } else if p.scanline == 241 && p.dot == 1 {
            (self, PpuView {
                status: StatusRegister(set_bits(p.status.0, StatusRegister::VBLANK_STARTED, true)),
                nmi_interrupt: if p.ctrl.spec_generate_vblank_nmi() { Some(1u8) } else { p.nmi_interrupt },
                ..p
            })
        } else {
            (self, p)
        }
    }
}


/// Every sprite that evaluation adds is on the line and has a 2-bit palette, and at most
/// eight are kept.
pub proof fn lemma_eval_scan(oam: Seq<u8>, scanline: usize, size: u8, i: nat, found: Seq<Sprite>)
    requires
        oam.len() == 256,
        found.len() <= 8,
        forall|k: int| 0 <= k < found.len() ==> #[trigger] found[k].status_palette <= 3,
        forall|k: int| 0 <= k < found.len() ==> #[trigger] found[k].y as usize <= scanline,
    ensures
        eval_scan(oam, scanline, size, i, found).0.len() <= 8,
        forall|k: int| 0 <= k < eval_scan(oam, scanline, size, i, found).0.len()
            ==> #[trigger] eval_scan(oam, scanline, size, i, found).0[k].status_palette <= 3,
        forall|k: int| 0 <= k < eval_scan(oam, scanline, size, i, found).0.len()
            ==> #[trigger] eval_scan(oam, scanline, size, i, found).0[k].y as usize <= scanline,
    decreases 64 - i,
{
    if i < 64 {
        let sprite: Sprite = decoded_sprite(i as usize, oam.subrange(4 * i as int, 4 * i as int + 4));
        let b2: u8 = oam.subrange(4 * i as int, 4 * i as int + 4)[2];
        lemma_byte_fields(b2);
        if sprite_on_line(sprite, scanline, size) {
            if found.len() < 8 {
                let next: Seq<Sprite> = found.push(sprite);
                assert forall|k: int| 0 <= k < next.len() implies #[trigger] next[k].status_palette <= 3 by {
                    if k < found.len() {
                        assert(next[k] == found[k]);
                    }
                }
                assert forall|k: int| 0 <= k < next.len() implies #[trigger] next[k].y as usize <= scanline by {
                    if k < found.len() {
                        assert(next[k] == found[k]);
                    }
                }
                lemma_eval_scan(oam, scanline, size, i + 1, next);
            }
        } else {
            lemma_eval_scan(oam, scanline, size, i + 1, found);
        }
    }
}

/// The sprite layer's colour is 0 or a palette 4-7 colour below 32 when every sprite has a
/// 2-bit palette.
pub proof fn lemma_sprite_scan_bound(s: Seq<Sprite>, x: usize)
    requires
        forall|i: int| 0 <= i < s.len() ==> #[trigger] s[i].status_palette <= 3,
    ensures
        sprite_scan(s, x).0 <= 31,
    decreases s.len(),
{
    if s.len() > 0 {
        let rest: Seq<Sprite> = s.drop_first();
        assert forall|i: int| 0 <= i < rest.len() implies #[trigger] rest[i].status_palette <= 3 by {
            assert(rest[i] == s[i + 1]);
        }
        lemma_sprite_scan_bound(rest, x);
        let sprite: Sprite = s[0];
        let index: u8 = sprite.spec_color_index(x);
        let pal: u8 = sprite.status_palette;
        if index != 0 {
            let c: u16 = sprite.column(x);
            if c < 8 {
                let bit: u16 = if sprite.status_flip_x { c } else { (7 - c) as u16 };
                let h: u16 = sprite.data_hi as u16;
                let l: u16 = sprite.data_lo as u16;
                lemma_bit(h, bit);
                lemma_bit(l, bit);
            }
            assert(index <= 3);
            lemma_two_fields(index, pal);
        }
    }
}

impl Renderer {
    /// A renderer with empty pipelines and sprite lists and a black (index 0) frame.
    pub fn new() -> (renderer: Self)
        ensures
            renderer@ == (RendererView {
                background_latch: BitPlane { lo: 0, hi: 0 },
                background_shift: BitPlane { lo: 0, hi: 0 },
                attribute_latch: BitPlane { lo: 0, hi: 0 },
                attribute_shift: BitPlane { lo: 0, hi: 0 },
                scratch_address: 0,
                nametable_entry: 0,
                attribute_entry: 0,
                primary_oam: Seq::empty(),
                secondary_oam: Seq::empty(),
                pixels: Seq::new(FRAME_PIXELS as nat, |i: int| 0u8),
            }),
    {
        let mut renderer: Renderer = Renderer {
            background_latch: BitPlane::new(0x00, 0x00),
            background_shift: BitPlane::new(0x0000, 0x0000),
            attribute_latch: BitPlane::new(0x00, 0x00),
            attribute_shift: BitPlane::new(0x00, 0x00),
            scratch_address: 0x0000,
            nametable_entry: 0x00,
            attribute_entry: 0x00,
            primary_oam: Vec::with_capacity(8),
            secondary_oam: Vec::with_capacity(8),
            pixels: Vec::new(),
        };
        renderer.reset();
        renderer
    }

    /// Empties both sprite lists and blanks the frame.
    pub fn reset(&mut self)
        ensures
            final(self)@ == (RendererView {
                primary_oam: Seq::empty(),
                secondary_oam: Seq::empty(),
                pixels: Seq::new(FRAME_PIXELS as nat, |i: int| 0u8),
                ..old(self)@
            }),
    {
        self.primary_oam.clear();
        self.secondary_oam.clear();
        self.clear_pixels();
    }

    /// Blanks the frame: every pixel becomes index 0.
    pub fn clear_pixels(&mut self)
        ensures
            final(self)@ == (RendererView { pixels: Seq::new(FRAME_PIXELS as nat, |i: int| 0u8), ..old(self)@ }),
    {
        self.pixels = vec![0u8; SCREEN_WIDTH * SCREEN_HEIGHT];
        assert(self.pixels@ =~= Seq::new(FRAME_PIXELS as nat, |i: int| 0u8));
    }

    /// Copies the fetched tile row and attribute bits into the shifters.
    pub fn reload_shift_registers(&mut self)
        ensures
            final(self)@ == old(self)@.reloaded(),
    {
        self.background_shift.lo = (self.background_shift.lo & 0xFF00) | self.background_latch.lo as u16;
        self.background_shift.hi = (self.background_shift.hi & 0xFF00) | self.background_latch.hi as u16;
        self.attribute_latch.lo = self.attribute_entry & 0b0000_0001;
        self.attribute_latch.hi = (self.attribute_entry & 0b0000_0010) >> 1;
    }

    /// Moves every shifter one pixel on.
    pub fn shift(&mut self)
        ensures
            final(self)@ == old(self)@.shifted(),
    {
        self.background_shift.lo = self.background_shift.lo << 1;
        self.background_shift.hi = self.background_shift.hi << 1;
        self.attribute_shift.lo = self.attribute_shift.lo << 1 | self.attribute_latch.lo;
        self.attribute_shift.hi = self.attribute_shift.hi << 1 | self.attribute_latch.hi;
    }

    /// The background colour at column `x`.
    pub fn render_background_pixel(&self, x: usize, ppu: &PPU) -> (color: u8)
        requires
            ppu.scroll_fine_x <= 7,
        ensures
            color == self@.background_pixel(ppu@, x),
            color <= 15,
    {
        if !ppu.mask.rendering_background(x) {
            return 0;
        }
        let fx: u16 = ppu.scroll_fine_x as u16;
        let hi: u8 = nth_bit(self.background_shift.hi, 15 - fx);
        let lo: u8 = nth_bit(self.background_shift.lo, 15 - fx);
        proof {
            lemma_two_bits(hi, lo);
        }
        let mut background_color: u8 = hi << 1 | lo;
        if background_color != 0 {
            let ahi: u8 = nth_bit(self.attribute_shift.hi as u16, 7 - fx);
            let alo: u8 = nth_bit(self.attribute_shift.lo as u16, 7 - fx);
            proof {
                lemma_two_bits(ahi, alo);
            }
            let attr: u8 = ahi << 1 | alo;
            let c: u8 = background_color;
            proof {
                lemma_two_fields(c, attr);
            }
            background_color = c | (attr << 2);
        }
        background_color
    }

    /// The sprite layer at column `x`: colour, whether behind the background, and whether
    /// sprite 0 is opaque there.
    pub fn render_sprite_pixel(&self, x: usize, ppu: &PPU) -> (layer: (u8, bool, bool))
        ensures
            layer == self@.sprite_pixel(ppu@, x),
    {
        if !ppu.mask.rendering_sprites(x) {
            return (0, false, false);
        }
        let mut color: u8 = 0;
        let mut behind: bool = false;
        let mut possible_zero_hit: bool = false;
        let n: usize = self.primary_oam.len();
        let mut i: usize = n;
        while i > 0
            invariant
                n == self.primary_oam@.len(),
                i <= n,
                (color, behind, possible_zero_hit) == sprite_scan(self.primary_oam@.subrange(i as int, n as int), x),
            decreases i,
        {
            let sprite: Sprite = self.primary_oam[i - 1];
            let sprite_color_index: u8 = sprite.color_index(x);
            proof {
                let s: Seq<Sprite> = self.primary_oam@.subrange(i - 1, n as int);
                assert(s.drop_first() =~= self.primary_oam@.subrange(i as int, n as int));
                assert(s[0] == sprite);
            }
            if sprite_color_index != 0 {
                if sprite.oam_index == 0 && x != 255 {
                    possible_zero_hit = true;
                }
                color = 0b1_00_00 | sprite.status_palette << 2 | sprite_color_index;
                behind = sprite.status_behind_background;
            }
            i = i - 1;
        }
        assert(self.primary_oam@.subrange(0, n as int) =~= self.primary_oam@);
        (color, behind, possible_zero_hit)
    }

    /// The colour index of the pixel at (`x`, `y`); records a sprite 0 hit in the PPU status.
    pub fn render_pixel(&self, x: usize, y: usize, ppu: &mut PPU) -> (color: Option<u8>)
        requires
            old(ppu).scroll_fine_x <= 7,
        ensures
            (color, final(ppu)@) == self@.pixel(old(ppu)@, x, y),
    {
        if y < 240 && x < 256 {
            let background_color: u8 = self.render_background_pixel(x, ppu);
            let (sprite_color, sprite_behind, possible_zero_hit): (u8, bool, bool) = self.render_sprite_pixel(x, ppu);
            if possible_zero_hit && background_color != 0 {
                ppu.status.set_sprite_zero_hit(true);
            }
            let colors: [u8; 2] = if sprite_behind {
                [background_color, sprite_color]
            } else {
                [sprite_color, background_color]
            };
            Some(if colors[0] == 0 { colors[1] } else { colors[0] })
        } else {
            None
        }
    }

    /// Draws colour index `color_index` at (`x`, `y`).
    pub fn set_pixel(&mut self, x: usize, y: usize, color_index: u8, ppu: &PPU)
        requires
            y < 240,
            x < 256,
            old(self).pixels@.len() == FRAME_PIXELS,
            ppu@.mask.spec_rendering() ==> color_index <= 31,
        ensures
            final(self)@ == old(self)@.with_pixel(ppu@, x, y, color_index),
    {
        let pixel_index: usize = y * 256 + x;
        let palette_offset: u16 = if ppu.mask.rendering() { color_index as u16 } else { 0 };
        let rgb_index: u8 = ppu.raw_read_data(0x3F00 + palette_offset);
        self.pixels.set(pixel_index, rgb_index);
    }

    /// Sprite evaluation: collects the (at most eight) sprites on the next line, in OAM order,
    /// and sets the overflow flag when a ninth is found.
    pub fn eval_sprites(&mut self, ppu: &mut PPU)
        ensures
            (final(self)@, final(ppu)@) == old(self)@.evaluated(old(ppu)@),
            final(self)@.secondary_oam.len() <= 8,
            forall|k: int| 0 <= k < final(self)@.secondary_oam.len() ==> #[trigger] final(self)@.secondary_oam[k].status_palette <= 3,
            final(self)@.secondary_on_line(old(ppu).scanline),
    {
        self.secondary_oam.clear();
        let size: u8 = ppu.ctrl.sprite_size();
        let scanline: usize = ppu.scanline;
        let ghost oam: Seq<u8> = ppu@.oam_data;
        let mut overflow: bool = false;
        let mut i: usize = 0;
        proof {
            lemma_eval_scan(oam, scanline, size, 0, Seq::empty());
        }
        while i < 64 && !overflow
            invariant
                i <= 64,
                ppu@ == old(ppu)@,
                oam == ppu@.oam_data,
                oam.len() == 256,
                size == ppu@.ctrl.spec_sprite_size(),
                scanline == ppu.scanline,
                self@ == (RendererView { secondary_oam: self@.secondary_oam, ..old(self)@ }),
                self@.secondary_oam.len() <= 8,
                !overflow ==> eval_scan(oam, scanline, size, 0, Seq::empty()) == eval_scan(oam, scanline, size, i as nat, self@.secondary_oam),
                overflow ==> eval_scan(oam, scanline, size, 0, Seq::empty()) == (self@.secondary_oam, true),
            decreases 64 - i, if overflow { 0int } else { 1int },
        {
            let address: usize = i * 4;
            let bytes: [u8; 4] = [
                ppu.oam_data[address],
                ppu.oam_data[address + 1],
                ppu.oam_data[address + 2],
                ppu.oam_data[address + 3],
            ];
            assert(bytes@ =~= oam.subrange(4 * i as int, 4 * i as int + 4));
            let sprite: Sprite = Sprite::new(i, bytes.as_slice());
            if scanline >= sprite.y as usize && scanline < sprite.y as usize + size as usize {
                if self.secondary_oam.len() == 8 {
                    overflow = true;
                } else {
                    self.secondary_oam.push(sprite);
                    i = i + 1;
                }
            } else {
                i = i + 1;
            }
        }
        if overflow {
            ppu.status.set_sprite_overflow(true);
        }
    }

    /// Sprite loading: fetches the pattern row of each evaluated sprite for the current
    /// scanline and makes them the sprites being drawn.
    pub fn load_sprites(&mut self, ppu: &PPU)
        requires
            ppu@.memory.chr_mem.len() >= 0x2000,
            forall|k: int| 0 <= k < old(self)@.secondary_oam.len() ==> (ppu.scanline as u16) >= #[trigger] old(self)@.secondary_oam[k].y as u16,
        ensures
            final(self)@ == old(self)@.loaded(ppu@),
    {
        let n: usize = self.secondary_oam.len();
        let mut sprites: Vec<Sprite> = Vec::with_capacity(n);
        let mut i: usize = 0;
        while i < n
            invariant
                n == self.secondary_oam@.len(),
                self@ == old(self)@,
                i <= n,
                ppu@.memory.chr_mem.len() >= 0x2000,
                forall|k: int| 0 <= k < self@.secondary_oam.len() ==> (ppu.scanline as u16) >= #[trigger] self@.secondary_oam[k].y as u16,
                sprites@.len() == i,
                forall|k: int| 0 <= k < i ==> #[trigger] sprites@[k] == loaded_sprite(ppu@, self@.secondary_oam[k]),
            decreases n - i,
        {
            let mut sprite: Sprite = self.secondary_oam[i];
            assert((ppu.scanline as u16) >= self@.secondary_oam[i as int].y as u16);
            let tile_address: u16 = sprite.tile_address(ppu.scanline, ppu.ctrl);
            sprite.data_lo = ppu.raw_read_data(tile_address);
            sprite.data_hi = ppu.raw_read_data(tile_address + 8);
            sprites.push(sprite);
            i = i + 1;
        }
        self.primary_oam = sprites;
        assert(self@.primary_oam =~= Seq::new(old(self)@.secondary_oam.len(), |k: int| loaded_sprite(ppu@, old(self)@.secondary_oam[k])));
    }

    /// The sprite pipeline at the current dot: clear the secondary list (and on the pre-render
    /// line the overflow and sprite 0 flags) at dot 1, evaluate at dot 257, load at dot 321.
    pub fn tick_sprites(&mut self, pre: bool, ppu: &mut PPU)
        requires
            old(self)@.wf(old(ppu)@),
        ensures
            (final(self)@, final(ppu)@) == old(self)@.sprites_ticked(old(ppu)@, pre),
            final(self)@.wf(final(ppu)@),
    {
        if ppu.dot == 1 {
            self.secondary_oam.clear();
            if pre {
                ppu.status.set_sprite_overflow(false);
                ppu.status.set_sprite_zero_hit(false);
            }
        } else if ppu.dot == 257 {
            self.eval_sprites(ppu);
        } else if ppu.dot == 321 {
            self.load_sprites(ppu);
            proof {
                let r: RendererView = old(self)@.loaded(old(ppu)@);
                assert forall|i: int| 0 <= i < r.primary_oam.len() implies #[trigger] r.primary_oam[i].status_palette <= 3 by {
                    assert(r.primary_oam[i].status_palette == old(self)@.secondary_oam[i].status_palette);
                }
            }
        }
    }

    /// The pixel output at the current dot: draw the pixel at column `dot - 2` and shift.
    pub fn tick_pixel(&mut self, ppu: &mut PPU)
        requires
            old(self)@.wf(old(ppu)@),
        ensures
            (final(self)@, final(ppu)@) == old(self)@.pixel_ticked(old(ppu)@),
            final(self)@.wf(final(ppu)@),
    {
        if (2 <= ppu.dot && ppu.dot <= 257) || (322 <= ppu.dot && ppu.dot <= 337) {
            let x: usize = ppu.dot - 2;
            let y: usize = ppu.scanline;
            let drawn: Option<u8> = self.render_pixel(x, y, ppu);
            if let Some(color_index) = drawn {
                proof {
                    self.lemma_pixel_color_bound(old(ppu)@, x, y);
                }
                self.set_pixel(x, y, color_index, ppu);
            }
            self.shift();
        }
    }

    /// Every colour index a pixel can get is below 32 when the sprites have 2-bit palettes.
    proof fn lemma_pixel_color_bound(&self, p: PpuView, x: usize, y: usize)
        requires
            p.scroll_fine_x <= 7,
            forall|i: int| 0 <= i < self@.primary_oam.len() ==> #[trigger] self@.primary_oam[i].status_palette <= 3,
        ensures
            self@.pixel(p, x, y).0 matches Some(c) ==> c <= 31,
    {
        lemma_sprite_scan_bound(self@.primary_oam, x);
        let fx: u16 = p.scroll_fine_x as u16;
        let r: RendererView = self@;
        let b1: u8 = bit_of(r.background_shift.hi, (15 - fx) as u16);
        let b0: u8 = bit_of(r.background_shift.lo, (15 - fx) as u16);
        let a1: u8 = bit_of(r.attribute_shift.hi as u16, (7 - fx) as u16);
        let a0: u8 = bit_of(r.attribute_shift.lo as u16, (7 - fx) as u16);
        assert(b1 <= 1 && b0 <= 1 && a1 <= 1 && a0 <= 1) by {
            let h: u16 = r.background_shift.hi;
            let l: u16 = r.background_shift.lo;
            let ah: u16 = r.attribute_shift.hi as u16;
            let al: u16 = r.attribute_shift.lo as u16;
            let n1: u16 = (15 - fx) as u16;
            let n2: u16 = (7 - fx) as u16;
            lemma_bit(h, n1);
            lemma_bit(l, n1);
            lemma_bit(ah, n2);
            lemma_bit(al, n2);
        }
        let c: u8 = (2 * b1 + b0) as u8;
        let a: u8 = (2 * a1 + a0) as u8;
        lemma_two_fields(c, a);
    }

    /// The background pipeline at the current dot.
    pub fn tick_background(&mut self, pre: bool, ppu: &mut PPU)
        requires
            old(self)@.background_fetch_ok(old(ppu)@),
        ensures
            (final(self)@, final(ppu)@) == old(self)@.background_ticked(old(ppu)@, pre),
    {
        let dot: usize = ppu.dot;
        if (2 <= dot && dot <= 255) || (322 <= dot && dot <= 337) {
            let phase: usize = dot % 8;
            if phase == 1 {
                self.scratch_address = ppu.vram_addr.get_nametable_addr();
                self.reload_shift_registers();
            } else if phase == 2 {
                self.nametable_entry = ppu.raw_read_data(self.scratch_address);
            } else if phase == 3 {
                self.scratch_address = ppu.vram_addr.get_attribute_addr();
            } else if phase == 4 {
                self.attribute_entry = ppu.raw_read_data(self.scratch_address);
                if ppu.vram_addr.get_coarse_y() & 2 != 0 {
                    self.attribute_entry = self.attribute_entry >> 4;
                }
                if ppu.vram_addr.get_coarse_x() & 2 != 0 {
                    self.attribute_entry = self.attribute_entry >> 2;
                }
            } else if phase == 5 {
                let base: u16 = ppu.ctrl.background_pattern_addr();
                let offset: u16 = ppu.vram_addr.get_tile_offset(self.nametable_entry);
                self.scratch_address = base + offset;
            } else if phase == 6 {
                self.background_latch.lo = ppu.raw_read_data(self.scratch_address);
            } else if phase == 7 {
                self.scratch_address = self.scratch_address + 8;
            } else {
                self.background_latch.hi = ppu.raw_read_data(self.scratch_address);
                if ppu.mask.rendering() {
                    ppu.vram_addr.scroll_x();
                }
            }
        } else if dot == 256 {
            self.background_latch.hi = ppu.raw_read_data(self.scratch_address);
            if ppu.mask.rendering() {
                ppu.vram_addr.scroll_y();
            }
        } else if dot == 257 {
            self.reload_shift_registers();
            if ppu.mask.rendering() {
                let t: crate::ppu::registers::addr::AddrRegister = ppu.temp_addr;
                ppu.vram_addr.copy_x(t);
            }
        } else if 280 <= dot && dot <= 304 {
            if pre && ppu.mask.rendering() {
                let t: crate::ppu::registers::addr::AddrRegister = ppu.temp_addr;
                ppu.vram_addr.copy_y(t);
            }
        } else if dot == 1 {
            self.scratch_address = ppu.vram_addr.get_nametable_addr();
            if pre {
                ppu.status.set_vblank_status(false);
            }
        } else if dot == 321 || dot == 339 {
            self.scratch_address = ppu.vram_addr.get_nametable_addr();
        } else if dot == 338 {
            self.nametable_entry = ppu.raw_read_data(self.scratch_address);
        } else if dot == 340 {
            self.nametable_entry = ppu.raw_read_data(self.scratch_address);
            if pre && ppu.mask.rendering() && ppu.odd_frame {
                ppu.dot = ppu.dot + 1;
            }
        }
    }

    /// One renderer clock at the PPU's current position: on drawn lines and the pre-render
    /// line the sprite, pixel and background pipelines run in turn; at dot 1 of line 241
    /// vertical blanking starts (raising an NMI when enabled).
    pub fn tick(&mut self, ppu: &mut PPU)
        requires
            old(self)@.wf(old(ppu)@),
        ensures
            (final(self)@, final(ppu)@) == old(self)@.ticked(old(ppu)@),
    {
        let scanline: usize = ppu.scanline;
        if scanline <= 239 || scanline == 261 {
            let pre: bool = scanline == 261;
            self.tick_sprites(pre, ppu);
            self.tick_pixel(ppu);
            self.tick_background(pre, ppu);
        } else if scanline == 241 && ppu.dot == 1 {
            ppu.status.set_vblank_status(true);
            if ppu.ctrl.generate_vblank_nmi() {
                ppu.nmi_interrupt = Some(1);
            }
        }
    }
}

/// One renderer clock followed by one PPU clock keeps the renderer and the PPU well formed.
pub proof fn lemma_tick_keeps_wf(r: RendererView, p: PpuView)
    requires
        r.wf(p),
        p.cycles < usize::MAX,
    ensures
        ({
            let t: (RendererView, PpuView) = r.ticked(p);
            &&& t.0.wf(t.1.stepped().0)
            &&& t.1.dot <= 341
            &&& t.1.scanline == p.scanline
            &&& t.1.cycles == p.cycles
        }),
{
    let t: (RendererView, PpuView) = r.ticked(p);
    let q: PpuView = t.1.stepped().0;
    if p.scanline <= 239 || p.scanline == 261 {
        let pre: bool = p.scanline == 261;
        let s: (RendererView, PpuView) = r.sprites_ticked(p, pre);
        lemma_sprites_ticked_wf(r, p, pre);
        let u: (RendererView, PpuView) = s.0.pixel_ticked(s.1);
        lemma_pixel_ticked_wf(s.0, s.1);
        lemma_background_ticked_wf(u.0, u.1, pre);
    }
}

proof fn lemma_sprites_ticked_wf(r: RendererView, p: PpuView, pre: bool)
    requires
        r.wf(p),
    ensures
        ({
            let s: (RendererView, PpuView) = r.sprites_ticked(p, pre);
            &&& s.0.wf(s.1)
            &&& s.1.dot == p.dot && s.1.scanline == p.scanline && s.1.cycles == p.cycles
            &&& s.1.vram_addr == p.vram_addr && s.1.mask == p.mask && s.1.ctrl == p.ctrl
            &&& s.1.memory == p.memory && s.1.scroll_fine_x == p.scroll_fine_x && s.1.odd_frame == p.odd_frame
            &&& s.0.scratch_address == r.scratch_address
            &&& !(p.scanline == 0 && p.dot == 0) ==> s.0.secondary_on_line(p.scanline)
        }),
{
    if p.dot == 257 {
        lemma_eval_scan(p.oam_data, p.scanline, p.ctrl.spec_sprite_size(), 0, Seq::empty());

    } else if p.dot == 321 {
        let l: RendererView = r.loaded(p);
        assert forall|i: int| 0 <= i < l.primary_oam.len() implies #[trigger] l.primary_oam[i].status_palette <= 3 by {
            assert(l.primary_oam[i].status_palette == r.secondary_oam[i].status_palette);
        }
    }
}

proof fn lemma_pixel_ticked_wf(r: RendererView, p: PpuView)
    requires
        r.wf(p),
    ensures
        ({
            let s: (RendererView, PpuView) = r.pixel_ticked(p);
            &&& s.0.wf(s.1)
            &&& s.1.dot == p.dot && s.1.scanline == p.scanline && s.1.cycles == p.cycles
            &&& s.1.vram_addr == p.vram_addr && s.1.mask == p.mask && s.1.ctrl == p.ctrl
            &&& s.1.memory == p.memory && s.1.scroll_fine_x == p.scroll_fine_x && s.1.odd_frame == p.odd_frame
            &&& s.0.scratch_address == r.scratch_address
            &&& s.0.secondary_oam == r.secondary_oam
        }),
{
}

proof fn lemma_background_ticked_wf(r: RendererView, p: PpuView, pre: bool)
    requires
        r.wf(p),
        render_line(p.scanline),
        p.cycles < usize::MAX,
        pre == (p.scanline == 261),
        !(p.scanline == 0 && p.dot == 0) ==> r.secondary_on_line(p.scanline),
    ensures
        ({
            let t: (RendererView, PpuView) = r.background_ticked(p, pre);
            t.0.wf(t.1.stepped().0)
        }),
{
    let t: (RendererView, PpuView) = r.background_ticked(p, pre);
    let q: PpuView = t.1.stepped().0;
    let dot: usize = p.dot;
    if fetch_dot(dot) && dot % 8 == 3 {
        let w: u16 = p.vram_addr;
        let nt: u16 = crate::ppu::registers::addr::nametable_of(w) as u16;
        let cy: u16 = (coarse_y_of(w) / 4) as u16;
        let cx: u16 = (coarse_x_of(w) / 4) as u16;
        assert(nt <= 3 && cy <= 7 && cx <= 7) by {
            lemma_word_fields(w);
        }
        assert(((nt << 10u16) | (cy << 3u16) | cx | 0x23C0u16) <= 0x2FFF) by (bit_vector)
            requires
                nt <= 3,
                cy <= 7,
                cx <= 7,
        ;
    } else if fetch_dot(dot) && dot % 8 == 5 {
        let w: u16 = p.vram_addr;
        let fy: u16 = fine_y_of(w) as u16;
        let e: u16 = r.nametable_entry as u16;
        assert(fy <= 7) by {
            lemma_word_fields(w);
        }
        assert(((e << 4u16) | fy) <= 0x0FF7) by (bit_vector)
            requires
                fy <= 7,
                e <= 255,
        ;
    } else if fetch_dot(dot) && dot % 8 == 1 || dot == 1 || dot == 321 || dot == 339 {
        let w: u16 = p.vram_addr;
        lemma_word_fields(w);
    }
}
} // verus!
