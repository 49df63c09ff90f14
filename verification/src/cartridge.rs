use vstd::prelude::*;

use crate::tools::bits::{lemma_byte_fields, lemma_nibbles};
use vstd::string::*;

verus! {

/// The four bytes that open every iNES image: "NES" followed by MS-DOS end-of-file.
pub const NES_TAG: [u8; 4] = [0x4E, 0x45, 0x53, 0x1A];
/// One unit of PRG-ROM: 16 KiB.
pub const PRG_ROM_PAGE_SIZE: usize = 16_384;
/// One unit of CHR-ROM: 8 KiB.
pub const CHR_ROM_PAGE_SIZE: usize = 8_192;
/// One unit of PRG-RAM in the iNES 1.0 header: 8 KiB.
pub const PRG_RAM_PAGE_SIZE: usize = 8_192;

#[derive(Debug, PartialEq, Eq, Clone, Copy, Structural)]
pub enum Mirroring {
    Vertical,
    Horizontal,
}

#[derive(Debug, PartialEq, Eq, Clone, Copy, Structural)]
#[allow(clippy::upper_case_acronyms)]
pub enum ROMRegion {
    Unspecified,
    NTSC,
    PAL,
    Dual,
}

/// Why an image was refused.
#[derive(Debug, PartialEq, Eq, Clone, Copy, Structural)]
pub enum RomError {
    NotINes,
    AltNametableLayout,
    VsSystem,
    Playchoice10,
    InvalidConsoleType,
    DecimalModeFamiclone,
    EpsmModule,
    Vt01,
    Vt02,
    Vt03,
    Vt09,
    Vt32,
    Vt365,
    UmcUm6578,
    FamicomNetworkSystem,
    InvalidExtendedConsoleType(u8),
    MiscellaneousRoms,
    UnsupportedInputDevice,
    Dendy,
}

/// A loaded cartridge image.
pub struct Rom {
    pub ines_ver: u8,
    pub mapper: u16,
    pub submapper: u8,
    pub region: ROMRegion,
    pub prg_rom: Vec<u8>,
    pub prg_ram_size: usize,
    pub prg_nvram_size: usize,
    pub chr_rom: Vec<u8>,
    pub chr_ram_size: usize,
    pub chr_nvram_size: usize,
    pub screen_mirroring: Mirroring,
    pub uses_bat_mem: bool,
}

/// What the header of an accepted image says: every field of the `Rom`, with the two
/// data blocks given by where they start and how long they are.
pub ghost struct RomLayout {
    pub ines_ver: u8,
    pub mapper: u16,
    pub submapper: u8,
    pub region: ROMRegion,
    pub prg_start: nat,
    pub prg_size: nat,
    pub prg_ram_size: nat,
    pub prg_nvram_size: nat,
    pub chr_size: nat,
    pub chr_ram_size: nat,
    pub chr_nvram_size: nat,
    pub screen_mirroring: Mirroring,
    pub uses_bat_mem: bool,
}

/// The three ways reading an image can end: a ROM, a refusal, or running past the end of
/// the bytes (which the loader does not survive).
pub ghost enum RomOutcome {
    Loaded(RomLayout),
    Rejected(RomError),
    Truncated,
}

/// `2^e * m` with the saturation at `u32::MAX` of the exponent-multiplier size notation.
pub open spec fn exp_mul_size(b: u8) -> nat {
    let e: u8 = b >> 2u8;
    let m: nat = (b & 3u8) as nat * 2 + 1;
    if e >= 32 {
        u32::MAX as nat
    } else {
        let p: nat = (1u64 << (e as u64)) as nat;
        if p * m > u32::MAX {
            u32::MAX as nat
        } else {
            p * m
        }
    }
}

/// `64 << shift` for a non-zero 4-bit shift count, and 0 for a zero count.
pub open spec fn shift_size(shift: u8) -> nat {
    if shift == 0 {
        0
    } else {
        (64usize << (shift as usize)) as nat
    }
}

pub open spec fn region_v1(raw: Seq<u8>) -> ROMRegion {
    let r1: u8 = raw[9] & 1u8;
    let r2: u8 = raw[10] & 3u8;
    if r2 == 1 || r2 == 3 {
        ROMRegion::Dual
    } else if r1 == 0 && r2 == 0 {
        ROMRegion::NTSC
    } else {
        ROMRegion::PAL
    }
}

pub open spec fn prg_start_of(raw: Seq<u8>) -> nat {
    if raw[6] & 4u8 != 0 { 528 } else { 16 }
}

pub open spec fn mirroring_of(raw: Seq<u8>) -> Mirroring {
    if raw[6] & 1u8 != 0 { Mirroring::Vertical } else { Mirroring::Horizontal }
}

pub open spec fn flags_11_to_15_clear(raw: Seq<u8>) -> bool {
    raw[11] == 0 && raw[12] == 0 && raw[13] == 0 && raw[14] == 0 && raw[15] == 0
}

/// How an iNES 1.0 image is read once its tag and mirroring have been accepted.
pub open spec fn outcome_v1(raw: Seq<u8>) -> RomOutcome {
    let console: u8 = raw[7] & 3u8;
    if console == 1 {
        RomOutcome::Rejected(RomError::VsSystem)
    } else if console == 2 {
        RomOutcome::Rejected(RomError::Playchoice10)
    } else if console == 3 {
        RomOutcome::Rejected(RomError::InvalidConsoleType)
    } else {
        let prg_start: nat = prg_start_of(raw);
        let prg_size: nat = raw[4] as nat * 16384;
        let chr_size: nat = raw[5] as nat * 8192;
        if raw.len() < prg_start + prg_size + chr_size {
            RomOutcome::Truncated
        } else {
            let full_mapper: u16 = ((raw[7] & 0xF0u8) | (raw[6] >> 4u8)) as u16;
            let clear: bool = flags_11_to_15_clear(raw);
            RomOutcome::Loaded(RomLayout {
                ines_ver: 1,
                mapper: if clear { full_mapper } else { (raw[6] >> 4u8) as u16 },
                submapper: 0,
                region: if clear { region_v1(raw) } else { ROMRegion::Unspecified },
                prg_start,
                prg_size,
                prg_ram_size: if clear && raw[10] & 0x10u8 != 0 { raw[8] as nat * 8192 } else { 0 },
                prg_nvram_size: 0,
                chr_size,
                chr_ram_size: if chr_size == 0 { 8192 } else { 0 },
                chr_nvram_size: 0,
                screen_mirroring: mirroring_of(raw),
                uses_bat_mem: raw[6] & 2u8 != 0,
            })
        }
    }
}

/// The refusal for a non-zero extended console type of an iNES 2.0 image.
pub open spec fn extended_console_error(t: u8) -> RomError {
    if t == 1 { RomError::VsSystem }
    else if t == 2 { RomError::Playchoice10 }
    else if t == 3 { RomError::DecimalModeFamiclone }
    else if t == 4 { RomError::EpsmModule }
    else if t == 5 { RomError::Vt01 }
    else if t == 6 { RomError::Vt02 }
    else if t == 7 { RomError::Vt03 }
    else if t == 8 { RomError::Vt09 }
    else if t == 9 { RomError::Vt32 }
    else if t == 10 { RomError::Vt365 }
    else if t == 11 { RomError::UmcUm6578 }
    else if t == 12 { RomError::FamicomNetworkSystem }
    else { RomError::InvalidExtendedConsoleType(t) }
}

pub open spec fn prg_size_v2(raw: Seq<u8>) -> nat {
    if raw[9] & 0x0Fu8 == 0x0F {
        exp_mul_size(raw[4])
    } else {
        ((raw[9] & 0x0Fu8) as nat * 256 + raw[4] as nat) * 16384
    }
}

pub open spec fn chr_size_v2(raw: Seq<u8>) -> nat {
    if raw[9] >> 4u8 == 0x0F {
        exp_mul_size(raw[5])
    } else {
        ((raw[9] >> 4u8) as nat * 256 + raw[5] as nat) * 16384
    }
}

/// How an iNES 2.0 image is read once its tag and mirroring have been accepted.
pub open spec fn outcome_v2(raw: Seq<u8>) -> RomOutcome {
    let console: u8 = raw[7] & 3u8;
    if console == 1 {
        RomOutcome::Rejected(RomError::VsSystem)
    } else if console == 2 {
        RomOutcome::Rejected(RomError::Playchoice10)
    } else if console == 3 && raw.len() < 14 {
        RomOutcome::Truncated
    } else if console == 3 && raw[13] & 0x0Fu8 != 0 {
        RomOutcome::Rejected(extended_console_error(raw[13] & 0x0Fu8))
    } else if raw.len() < 16 {
        RomOutcome::Truncated
    } else if raw[14] & 3u8 != 0 {
        RomOutcome::Rejected(RomError::MiscellaneousRoms)
    } else if raw[15] & 0x3Fu8 != 1 {
        RomOutcome::Rejected(RomError::UnsupportedInputDevice)
    } else {
        let prg_start: nat = prg_start_of(raw);
        let prg_size: nat = prg_size_v2(raw);
        let chr_size: nat = chr_size_v2(raw);
        if raw.len() < prg_start + prg_size + chr_size {
            RomOutcome::Truncated
        } else if raw[12] & 3u8 == 3 {
            RomOutcome::Rejected(RomError::Dendy)
        } else {
            RomOutcome::Loaded(RomLayout {
                ines_ver: 2,
                mapper: (((raw[8] & 0x0Fu8) as nat) * 256 + (raw[7] & 0xF0u8) as nat + (raw[6] >> 4u8) as nat) as u16,
                submapper: raw[8] >> 4u8,
                region: if raw[12] & 3u8 == 0 {
                    ROMRegion::NTSC
                } else if raw[12] & 3u8 == 1 {
                    ROMRegion::PAL
                } else {
                    ROMRegion::Dual
                },
                prg_start,
                prg_size,
                prg_ram_size: shift_size(raw[10] & 0x0Fu8),
                prg_nvram_size: shift_size(raw[10] >> 4u8),
                chr_size,
                chr_ram_size: shift_size(raw[11] & 0x0Fu8),
                chr_nvram_size: shift_size(raw[11] >> 4u8),
                screen_mirroring: mirroring_of(raw),
                uses_bat_mem: raw[6] & 2u8 != 0,
            })
        }
    }
}

/// What loading the bytes `raw` as an iNES image gives.
pub open spec fn rom_outcome(raw: Seq<u8>) -> RomOutcome {
    if raw.len() < 4 {
        RomOutcome::Truncated
    } else if raw.subrange(0, 4) != seq![0x4Eu8, 0x45u8, 0x53u8, 0x1Au8] {
        RomOutcome::Rejected(RomError::NotINes)
    } else if raw.len() < 8 {
        RomOutcome::Truncated
    } else if raw[6] & 8u8 != 0 {
        RomOutcome::Rejected(RomError::AltNametableLayout)
    } else if (raw[7] >> 2u8) & 3u8 == 0 {
        outcome_v1(raw)
    } else {
        outcome_v2(raw)
    }
}

impl Rom {
    /// The ROM whose fields are those of `layout`, its data blocks taken from `raw`.
    pub open spec fn matches(&self, raw: Seq<u8>, layout: RomLayout) -> bool {
        let chr_start: nat = layout.prg_start + layout.prg_size;
        &&& self.ines_ver == layout.ines_ver
        &&& self.mapper == layout.mapper
        &&& self.submapper == layout.submapper
        &&& self.region == layout.region
        &&& self.prg_rom@ == raw.subrange(layout.prg_start as int, chr_start as int)
        &&& self.prg_ram_size == layout.prg_ram_size
        &&& self.prg_nvram_size == layout.prg_nvram_size
        &&& self.chr_rom@ == raw.subrange(chr_start as int, (chr_start + layout.chr_size) as int)
        &&& self.chr_ram_size == layout.chr_ram_size
        &&& self.chr_nvram_size == layout.chr_nvram_size
        &&& self.screen_mirroring == layout.screen_mirroring
        &&& self.uses_bat_mem == layout.uses_bat_mem
    }
}

/// Copies `len` bytes of `raw` starting at `start`.
fn copy_bytes(raw: &[u8], start: usize, len: usize) -> (out: Vec<u8>)
    requires
        start + len <= raw@.len(),
    ensures
        out@ == raw@.subrange(start as int, start + len),
{
    let mut out: Vec<u8> = Vec::with_capacity(len);
    let mut i: usize = 0;
    assert(raw@.len() == raw.len());
    while i < len
        invariant
            start + len <= raw@.len(),
            raw@.len() == raw.len(),
            i <= len,
            out@ == raw@.subrange(start as int, start + i),
        decreases len - i,
    {
        out.push(raw[start + i]);
        i = i + 1;
        assert(out@ =~= raw@.subrange(start as int, start + i));
    }
    out
}

/// Size given in exponent-multiplier notation: `2^(b >> 2) * ((b & 3) * 2 + 1)`, saturating.
fn exp_mul_size_exec(b: u8) -> (size: usize)
    ensures
        size == exp_mul_size(b),
{
    let e: u8 = b >> 2;
    let m: u64 = (b & 3) as u64 * 2 + 1;
    if e >= 32 {
        assert(u32::MAX <= usize::MAX);
        return 0xFFFF_FFFFusize as usize;
    }
    let p: u64 = 1u64 << (e as u64);
    assert(p <= 0x8000_0000u64) by (bit_vector)
        requires
            e < 32,
            p == 1u64 << (e as u64),
    ;
    proof {
        lemma_byte_fields(b);
    }
    assert(p * m <= 0x8000_0000u64 * 7) by (nonlinear_arith)
        requires
            p <= 0x8000_0000u64,
            m <= 7,
    ;
    let prod: u64 = p * m;
    if prod > 0xFFFF_FFFFu64 {
        0xFFFF_FFFFusize as usize
    } else {
        prod as usize
    }
}

/// `64 << shift` for a non-zero shift count, 0 otherwise.
fn shift_size_exec(shift: u8) -> (size: usize)
    requires
        shift < 16,
    ensures
        size == shift_size(shift),
{
    if shift == 0 {
        0
    } else {
        assert((64usize << (shift as usize)) <= 0x20_0000usize) by (bit_vector)
            requires
                shift < 16,
        ;
        64usize << (shift as usize)
    }
}

impl Rom {
    /// Reads an iNES 1.0 or 2.0 image.
    ///
    /// Returns the ROM the header and data describe, or the reason the image is refused;
    /// an image whose bytes end before the header says they do is outside what it accepts.
    pub fn new(raw: &[u8]) -> (result: Result<Rom, String>)
        requires
            !(rom_outcome(raw@) is Truncated),
        ensures
            match result {
                Ok(rom) => rom_outcome(raw@) matches RomOutcome::Loaded(layout) && rom.matches(raw@, layout),
                Err(text) => rom_outcome(raw@) matches RomOutcome::Rejected(e) && text@ == e.spec_message()@,
            },
    {
        match Rom::parse(raw) {
            Ok(rom) => Ok(rom),
            Err(e) => Err(e.message()),
        }
    }

    /// Whether the bytes of an image reach as far as its header says, so that reading it
    /// gives a ROM or a refusal (see `rom_outcome`).
    pub fn is_complete(raw: &[u8]) -> (complete: bool)
        ensures
            complete == !(rom_outcome(raw@) is Truncated),
    {
        assert(raw@.len() == raw.len());
        if raw.len() < 4 {
            return false;
        }
        if !(raw[0] == 0x4E && raw[1] == 0x45 && raw[2] == 0x53 && raw[3] == 0x1A) {
            assert(raw@.subrange(0, 4) != seq![0x4Eu8, 0x45u8, 0x53u8, 0x1Au8]) by {
                if raw@.subrange(0, 4) == seq![0x4Eu8, 0x45u8, 0x53u8, 0x1Au8] {
                    assert(raw@.subrange(0, 4)[0] == raw@[0]);
                    assert(raw@.subrange(0, 4)[1] == raw@[1]);
                    assert(raw@.subrange(0, 4)[2] == raw@[2]);
                    assert(raw@.subrange(0, 4)[3] == raw@[3]);
                }
            }
            return true;
        }
        assert(raw@.subrange(0, 4) =~= seq![0x4Eu8, 0x45u8, 0x53u8, 0x1Au8]);
        if raw.len() < 8 {
            return false;
        }
        if raw[6] & 0b0000_1000 != 0 {
            return true;
        }
        let console: u8 = raw[7] & 0b0000_0011;
        let prg_start: u64 = if raw[6] & 0b0000_0100 != 0 { 528 } else { 16 };
        if (raw[7] >> 2) & 0b0000_0011 == 0 {
            if console == 1 || console == 2 || console == 3 {
                return true;
            }
            let total: u64 = prg_start + raw[4] as u64 * 16384 + raw[5] as u64 * 8192;
            raw.len() as u64 >= total
        } else {
            if console == 1 || console == 2 {
                return true;
            }
            if console == 3 && raw.len() < 14 {
                return false;
            }
            if console == 3 && raw[13] & 0b0000_1111 != 0 {
                return true;
            }
            if raw.len() < 16 {
                return false;
            }
            if raw[14] & 0b0000_0011 != 0 || raw[15] & 0b0011_1111 != 0x01 {
                return true;
            }
            let f9: u8 = raw[9];
            proof {
                lemma_byte_fields(f9);
            }
            let prg_size: u64 = if raw[9] & 0b0000_1111 == 0x0F {
                exp_mul_size_exec(raw[4]) as u64
            } else {
                ((raw[9] & 0b0000_1111) as u64 * 256 + raw[4] as u64) * 16384
            };
            let chr_size: u64 = if raw[9] >> 4 == 0x0F {
                exp_mul_size_exec(raw[5]) as u64
            } else {
                ((raw[9] >> 4) as u64 * 256 + raw[5] as u64) * 16384
            };
            raw.len() as u64 >= prg_start + prg_size + chr_size
        }
    }

    /// Reads an iNES image, giving the refusal as a `RomError`.
    pub fn parse(raw: &[u8]) -> (result: Result<Rom, RomError>)
        requires
            !(rom_outcome(raw@) is Truncated),
        ensures
            match result {
                Ok(rom) => rom_outcome(raw@) matches RomOutcome::Loaded(layout) && rom.matches(raw@, layout),
                Err(e) => rom_outcome(raw@) == RomOutcome::Rejected(e),
            },
    {
        assert(raw@.len() == raw.len());
        if raw.len() < 4 {
            assert(false);
            return Err(RomError::NotINes);
        }
        if !(raw[0] == 0x4E && raw[1] == 0x45 && raw[2] == 0x53 && raw[3] == 0x1A) {
            assert(raw@.subrange(0, 4) != seq![0x4Eu8, 0x45u8, 0x53u8, 0x1Au8]) by {
                if raw@.subrange(0, 4) == seq![0x4Eu8, 0x45u8, 0x53u8, 0x1Au8] {
                    assert(raw@.subrange(0, 4)[0] == raw@[0]);
                    assert(raw@.subrange(0, 4)[1] == raw@[1]);
                    assert(raw@.subrange(0, 4)[2] == raw@[2]);
                    assert(raw@.subrange(0, 4)[3] == raw@[3]);
                }
            }
            return Err(RomError::NotINes);
        }
        assert(raw@.subrange(0, 4) =~= seq![0x4Eu8, 0x45u8, 0x53u8, 0x1Au8]);
        let flags6: u8 = raw[6];
        let flags7: u8 = raw[7];
        let ines_ver: u8 = if (flags7 >> 2) & 0b0000_0011 == 0 { 1 } else { 2 };
        let uses_bat_mem: bool = flags6 & 0b0000_0010 != 0;
        let uses_trainer: bool = flags6 & 0b0000_0100 != 0;
        let alt_nametable_layout: bool = flags6 & 0b0000_1000 != 0;
        let vertical_mirroring: bool = flags6 & 0b0000_0001 != 0;
        if alt_nametable_layout {
            return Err(RomError::AltNametableLayout);
        }
        let screen_mirroring: Mirroring = if vertical_mirroring {
            Mirroring::Vertical
        } else {
            Mirroring::Horizontal
        };
        let prg_rom_start: usize = if uses_trainer { 528 } else { 16 };
        if ines_ver == 1 {
            Rom::parse_v1(raw, prg_rom_start, screen_mirroring, uses_bat_mem)
        } else {
            Rom::parse_v2(raw, prg_rom_start, screen_mirroring, uses_bat_mem)
        }
    }

    fn parse_v1(raw: &[u8], prg_rom_start: usize, screen_mirroring: Mirroring, uses_bat_mem: bool) -> (result: Result<Rom, RomError>)
        requires
            raw@.len() >= 8,
            raw@[6] & 8u8 == 0,
            (raw@[7] >> 2u8) & 3u8 == 0,
            prg_rom_start == prg_start_of(raw@),
            screen_mirroring == mirroring_of(raw@),
            uses_bat_mem == (raw@[6] & 2u8 != 0),
            !(outcome_v1(raw@) is Truncated),
        ensures
            match result {
                Ok(rom) => outcome_v1(raw@) matches RomOutcome::Loaded(layout) && rom.matches(raw@, layout),
                Err(e) => outcome_v1(raw@) == RomOutcome::Rejected(e),
            },
    {
        assert(raw@.len() == raw.len());
        let console: u8 = raw[7] & 0b0000_0011;
        if console == 1 {
            return Err(RomError::VsSystem);
        } else if console == 2 {
            return Err(RomError::Playchoice10);
        } else if console == 3 {
            return Err(RomError::InvalidConsoleType);
        }
        let prg_rom_size: usize = raw[4] as usize * PRG_ROM_PAGE_SIZE;
        let chr_rom_size: usize = raw[5] as usize * CHR_ROM_PAGE_SIZE;
        let prg_rom: Vec<u8> = copy_bytes(raw, prg_rom_start, prg_rom_size);
        let chr_rom_start: usize = prg_rom_start + prg_rom_size;
        let chr_rom: Vec<u8> = copy_bytes(raw, chr_rom_start, chr_rom_size);
        let uses_chr_ram: bool = chr_rom_size == 0;
        let f6: u8 = raw[6];
        let f7: u8 = raw[7];
        let full_mapper: u16 = ((f7 & 0b1111_0000) | (f6 >> 4)) as u16;
        let clear: bool = raw[11] == 0 && raw[12] == 0 && raw[13] == 0 && raw[14] == 0 && raw[15] == 0;
        let mut mapper: u16 = full_mapper;
        let mut prg_ram_size: usize = 0;
        let mut region: ROMRegion = ROMRegion::Unspecified;
        if !clear {
            mapper = full_mapper & 0b0000_1111;
            assert(mapper == (f6 >> 4u8) as u16) by (bit_vector)
                requires
                    mapper == full_mapper & 0b0000_1111,
                    full_mapper == ((f7 & 0b1111_0000u8) | (f6 >> 4u8)) as u16,
            ;
        } else {
            if raw[10] & 0b0001_0000 != 0 {
                prg_ram_size = raw[8] as usize * 8192;
            }
            let region_def_1: u8 = raw[9] & 0b0000_0001;
            let region_def_2: u8 = raw[10] & 0b0000_0011;
            region = if region_def_2 == 1 || region_def_2 == 3 {
                ROMRegion::Dual
            } else if region_def_1 == 0 && region_def_2 == 0 {
                ROMRegion::NTSC
            } else {
                ROMRegion::PAL
            };
        }
        Ok(Rom {
            ines_ver: 1,
            mapper,
            submapper: 0,
            region,
            prg_rom,
            prg_ram_size,
            prg_nvram_size: 0,
            chr_rom,
            chr_ram_size: if uses_chr_ram { CHR_ROM_PAGE_SIZE } else { 0 },
            chr_nvram_size: 0,
            screen_mirroring,
            uses_bat_mem,
        })
    }

    fn parse_v2(raw: &[u8], prg_rom_start: usize, screen_mirroring: Mirroring, uses_bat_mem: bool) -> (result: Result<Rom, RomError>)
        requires
            raw@.len() >= 8,
            raw@[6] & 8u8 == 0,
            (raw@[7] >> 2u8) & 3u8 != 0,
            prg_rom_start == prg_start_of(raw@),
            screen_mirroring == mirroring_of(raw@),
            uses_bat_mem == (raw@[6] & 2u8 != 0),
            !(outcome_v2(raw@) is Truncated),
        ensures
            match result {
                Ok(rom) => outcome_v2(raw@) matches RomOutcome::Loaded(layout) && rom.matches(raw@, layout),
                Err(e) => outcome_v2(raw@) == RomOutcome::Rejected(e),
            },
    {
        assert(raw@.len() == raw.len());
        let console: u8 = raw[7] & 0b0000_0011;
        if console == 1 {
            return Err(RomError::VsSystem);
        } else if console == 2 {
            return Err(RomError::Playchoice10);
        } else if console == 3 {
            let ext: u8 = raw[13] & 0b0000_1111;
            if ext == 1 { return Err(RomError::VsSystem); }
            else if ext == 2 { return Err(RomError::Playchoice10); }
            else if ext == 3 { return Err(RomError::DecimalModeFamiclone); }
            else if ext == 4 { return Err(RomError::EpsmModule); }
            else if ext == 5 { return Err(RomError::Vt01); }
            else if ext == 6 { return Err(RomError::Vt02); }
            else if ext == 7 { return Err(RomError::Vt03); }
            else if ext == 8 { return Err(RomError::Vt09); }
            else if ext == 9 { return Err(RomError::Vt32); }
            else if ext == 10 { return Err(RomError::Vt365); }
            else if ext == 11 { return Err(RomError::UmcUm6578); }
            else if ext == 12 { return Err(RomError::FamicomNetworkSystem); }
            else if ext != 0 { return Err(RomError::InvalidExtendedConsoleType(ext)); }
        }
        if raw[14] & 0b0000_0011 != 0 {
            return Err(RomError::MiscellaneousRoms);
        }
        if raw[15] & 0b0011_1111 != 0x01 {
            return Err(RomError::UnsupportedInputDevice);
        }
        let f6: u8 = raw[6];
        let f7: u8 = raw[7];
        let f8: u8 = raw[8];
        let f9: u8 = raw[9];
        let f10: u8 = raw[10];
        let f11: u8 = raw[11];
        let lo_mapper: u16 = (f7 & 0b1111_0000) as u16 | (f6 >> 4) as u16;
        assert(lo_mapper == (f7 & 0xF0u8) as u16 + (f6 >> 4u8) as u16) by (bit_vector)
            requires
                lo_mapper == (f7 & 0b1111_0000u8) as u16 | (f6 >> 4u8) as u16,
        ;
        proof {
            lemma_byte_fields(f8);
            lemma_byte_fields(f9);
            lemma_byte_fields(f10);
            lemma_byte_fields(f11);
        }
        let mapper: u16 = (raw[8] & 0b0000_1111) as u16 * 256 + lo_mapper;
        let submapper: u8 = raw[8] >> 4;
        let prg_rom_size: usize = if raw[9] & 0b0000_1111 == 0x0F {
            exp_mul_size_exec(raw[4])
        } else {
            ((raw[9] & 0b0000_1111) as usize * 256 + raw[4] as usize) * PRG_ROM_PAGE_SIZE
        };
        if raw.len() - prg_rom_start < prg_rom_size {
            assert(false);
            return Err(RomError::Dendy);
        }
        let prg_rom: Vec<u8> = copy_bytes(raw, prg_rom_start, prg_rom_size);
        let prg_ram_size: usize = shift_size_exec(raw[10] & 0b0000_1111);
        let prg_nvram_size: usize = shift_size_exec(raw[10] >> 4);
        let chr_rom_size: usize = if raw[9] >> 4 == 0x0F {
            exp_mul_size_exec(raw[5])
        } else {
            ((raw[9] >> 4) as usize * 256 + raw[5] as usize) * PRG_ROM_PAGE_SIZE
        };
        let chr_rom_start: usize = prg_rom_start + prg_rom_size;
        if raw.len() - chr_rom_start < chr_rom_size {
            assert(false);
            return Err(RomError::Dendy);
        }
        let chr_rom: Vec<u8> = copy_bytes(raw, chr_rom_start, chr_rom_size);
        let chr_ram_size: usize = shift_size_exec(raw[11] & 0b0000_1111);
        let chr_nvram_size: usize = shift_size_exec(raw[11] >> 4);
        let f12: u8 = raw[12];
        let region_bits: u8 = f12 & 0b0000_0011;
        proof {
            lemma_byte_fields(f12);
        }
        let region: ROMRegion = if region_bits == 0 {
            ROMRegion::NTSC
        } else if region_bits == 1 {
            ROMRegion::PAL
        } else if region_bits == 2 {
            ROMRegion::Dual
        } else {
            return Err(RomError::Dendy);
        };
        Ok(Rom {
            ines_ver: 2,
            mapper,
            submapper,
            region,
            prg_rom,
            prg_ram_size,
            prg_nvram_size,
            chr_rom,
            chr_ram_size,
            chr_nvram_size,
            screen_mirroring,
            uses_bat_mem,
        })
    }
}

impl RomError {
    /// The message that explains the refusal.
    pub fn message(&self) -> (text: String)
        ensures
            text@ == self.spec_message()@,
    {
        String::from_str(self.message_str())
    }

    pub open spec fn spec_message(&self) -> &'static str {
        match self {
            RomError::NotINes => "File is not in iNES file format",
            RomError::AltNametableLayout => "This ROM uses the mapper specific \"Alternative Nametable Layout\" feature!",
            RomError::VsSystem => "The Nintendo VS. System is not supported!",
            RomError::Playchoice10 => "The Nintendo Playchoice 10 is not supported!",
            RomError::InvalidConsoleType => "ROM provides invalid console type (0x3) for iNES 1.0 format!",
            RomError::DecimalModeFamiclone => "Famiclones with Decimal Mode support are not supported!",
            RomError::EpsmModule => "The EPSM module and/or Plug-through cartridges are not supported!",
            RomError::Vt01 => "The V.R. Technology VT01 is not supported!",
            RomError::Vt02 => "The V.R. Technology VT02 is not supported!",
            RomError::Vt03 => "The V.R. Technology VT03 is not supported!",
            RomError::Vt09 => "The V.R. Technology VT09 is not supported!",
            RomError::Vt32 => "The V.R. Technology VT32 is not supported!",
            RomError::Vt365 => "The V.R. Technology VT365 is not supported!",
            RomError::UmcUm6578 => "The UMC UM6578 is not supported!",
            RomError::FamicomNetworkSystem => "The Famicom Network System is not supported!",
            RomError::InvalidExtendedConsoleType(t) => {
                if *t == 0x0D {
                    "ROM provides invalid extended console type (0xD) for iNES 2.0 format!"
                } else if *t == 0x0E {
                    "ROM provides invalid extended console type (0xE) for iNES 2.0 format!"
                } else {
                    "ROM provides invalid extended console type (0xF) for iNES 2.0 format!"
                }
            },
            RomError::MiscellaneousRoms => "iNES 2.0 bundled \"Miscellaneous\" ROMs are not supported!",
            RomError::UnsupportedInputDevice => "ROM uses unsupported input device(s)!",
            RomError::Dendy => "The \"Dendy\" famiclone is not supported!",
        }
    }

    fn message_str(&self) -> (text: &'static str)
        ensures
            text@ == self.spec_message()@,
    {
        match self {
            RomError::NotINes => "File is not in iNES file format",
            RomError::AltNametableLayout => "This ROM uses the mapper specific \"Alternative Nametable Layout\" feature!",
            RomError::VsSystem => "The Nintendo VS. System is not supported!",
            RomError::Playchoice10 => "The Nintendo Playchoice 10 is not supported!",
            RomError::InvalidConsoleType => "ROM provides invalid console type (0x3) for iNES 1.0 format!",
            RomError::DecimalModeFamiclone => "Famiclones with Decimal Mode support are not supported!",
            RomError::EpsmModule => "The EPSM module and/or Plug-through cartridges are not supported!",
            RomError::Vt01 => "The V.R. Technology VT01 is not supported!",
            RomError::Vt02 => "The V.R. Technology VT02 is not supported!",
            RomError::Vt03 => "The V.R. Technology VT03 is not supported!",
            RomError::Vt09 => "The V.R. Technology VT09 is not supported!",
            RomError::Vt32 => "The V.R. Technology VT32 is not supported!",
            RomError::Vt365 => "The V.R. Technology VT365 is not supported!",
            RomError::UmcUm6578 => "The UMC UM6578 is not supported!",
            RomError::FamicomNetworkSystem => "The Famicom Network System is not supported!",
            RomError::InvalidExtendedConsoleType(t) => {
                if *t == 0x0D {
                    "ROM provides invalid extended console type (0xD) for iNES 2.0 format!"
                } else if *t == 0x0E {
                    "ROM provides invalid extended console type (0xE) for iNES 2.0 format!"
                } else {
                    "ROM provides invalid extended console type (0xF) for iNES 2.0 format!"
                }
            },
            RomError::MiscellaneousRoms => "iNES 2.0 bundled \"Miscellaneous\" ROMs are not supported!",
            RomError::UnsupportedInputDevice => "ROM uses unsupported input device(s)!",
            RomError::Dendy => "The \"Dendy\" famiclone is not supported!",
        }
    }
}

/// What an accepted image's header says, field by field: the mapper number is the high
/// nibble of flags 6 as its low nibble and the high nibble of flags 7 as its next nibble
/// (for iNES 1.0 only when bytes 11-15 are zero, which otherwise may hold garbage; iNES 2.0
/// adds the low nibble of byte 8 as bits 8-11, whose high nibble is the submapper); the
/// PRG-ROM has byte 4 pages of 16 KiB (iNES 1.0) and starts after the 16-byte header and the
/// 512-byte trainer when flags 6 bit 2 announces one; iNES 1.0 CHR-ROM has byte 5 pages of
/// 8 KiB; flags 6 bit 0 selects vertical mirroring and bit 1 a battery; and the image holds
/// all of the data.
pub proof fn lemma_ines_header(raw: Seq<u8>)
    requires
        rom_outcome(raw) is Loaded,
    ensures
        match rom_outcome(raw) {
            RomOutcome::Loaded(l) => {
                &&& raw.len() >= 16
                &&& l.prg_start == if raw[6] & 4u8 != 0 { 16 + 512 } else { 16 }
                &&& raw.len() >= l.prg_start + l.prg_size + l.chr_size
                &&& l.screen_mirroring == if raw[6] & 1u8 != 0 { Mirroring::Vertical } else { Mirroring::Horizontal }
                &&& l.uses_bat_mem == (raw[6] & 2u8 != 0)
                &&& (raw[7] >> 2u8) & 3u8 == 0 ==> {
                    let clear: bool = raw[11] == 0 && raw[12] == 0 && raw[13] == 0 && raw[14] == 0 && raw[15] == 0;
                    &&& l.ines_ver == 1
                    &&& l.submapper == 0
                    &&& l.mapper == if clear { (raw[7] >> 4u8) * 16 + (raw[6] >> 4u8) } else { (raw[6] >> 4u8) as int }
                    &&& l.prg_size == raw[4] * 16384
                    &&& l.chr_size == raw[5] * 8192
                }
                &&& (raw[7] >> 2u8) & 3u8 != 0 ==> {
                    &&& l.ines_ver == 2
                    &&& l.mapper == (raw[8] & 0x0Fu8) * 256 + (raw[7] >> 4u8) * 16 + (raw[6] >> 4u8)
                    &&& l.submapper == raw[8] >> 4u8
                }
            },
            _ => true,
        },
{
    lemma_nibbles(raw[7], raw[6]);
    lemma_byte_fields(raw[8]);
    lemma_byte_fields(raw[6]);
    lemma_byte_fields(raw[7]);
}

} // verus!
