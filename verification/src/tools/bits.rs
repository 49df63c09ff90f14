use vstd::prelude::*;

verus! {

/// Bit fields of a byte.
pub proof fn lemma_byte_fields(x: u8)
    by (bit_vector)
    ensures
        x | 0u8 == x,
        x | (0u8 << 7u8) == x,
        1u8 << 7u8 == 0x80u8,
        x & 3u8 <= 3,
        x & 7u8 <= 7,
        x & 0x0Fu8 <= 15,
        x >> 4u8 <= 15,
        (x >> 7u8 == 1) == (x >= 128),
        !x == 255 - x,
{
}

/// The bytes and bit fields of a word.
pub proof fn lemma_word_fields(w: u16)
    by (bit_vector)
    ensures
        (w >> 8u16) as u8 == w / 256,
        (w & 0xFFu16) as u8 == w % 256,
        w & 0x00FFu16 == w % 256,
        w & 0xFF00u16 == w / 256 * 256,
        w & 0x3FFFu16 <= 0x3FFF,
        (w & 0x0C00u16) >> 10u16 <= 3,
        w & 0x001Fu16 <= 31,
        (w & 0x03E0u16) >> 5u16 <= 31,
        (w & 0x7000u16) >> 12u16 <= 7,
        0x2000 <= ((w & 0x0FFFu16) | 0x2000u16) <= 0x2FFF,
        w & 0x07FFu16 < 2048,
        w & 0x07FFu16 == w % 2048,
        w >> 4u16 == w / 16,
{
}

/// A bit of a word is 0 or 1.
pub proof fn lemma_bit(w: u16, n: u16)
    by (bit_vector)
    ensures
        (w >> n) & 1u16 <= 1,
{
}

/// Two bits side by side.
pub proof fn lemma_two_bits(hi: u8, lo: u8)
    by (bit_vector)
    requires
        hi <= 1,
        lo <= 1,
    ensures
        (hi << 1u8) | lo == 2 * hi + lo,
{
}

/// Two-bit fields side by side.
pub proof fn lemma_two_fields(c: u8, a: u8)
    by (bit_vector)
    requires
        c <= 3,
        a <= 3,
    ensures
        c | (a << 2u8) <= 15,
        0b1_0000u8 | (a << 2u8) | c <= 31,
{
}

/// The word made of two bytes.
pub proof fn lemma_word_of(hi: u8, lo: u8)
    by (bit_vector)
    ensures
        ((hi as u16) << 8u16) | (lo as u16) == hi as u16 * 256 + lo as u16,
{
}

/// An address in the PPU's $2000-$3FFF window masked down to the nametables or to the
/// eight register slots.
pub proof fn lemma_ppu_window(addr: u16)
    by (bit_vector)
    requires
        0x2000 <= addr <= 0x3FFF,
    ensures
        0x2000 <= addr & 0x2FFFu16 <= 0x2FFF,
        0x2000 <= addr & 0x2007u16 <= 0x2007,
        addr <= 0x2FFF ==> addr & 0x2FFFu16 == addr,
        addr & 0x3FFFu16 == addr,
{
}

/// Four flags set one after the other read back as set, whatever the status was.
pub proof fn lemma_status_flags(st: u8, c: bool, v: bool, z: bool, n: bool)
    by (bit_vector)
    ensures
        ({
            let f: u8 = super::set_bits(super::set_bits(super::set_bits(super::set_bits(st, 1u8, c), 0x40u8, v), 2u8, z), 0x80u8, n);
            &&& (f & 1u8 == 1u8) == c
            &&& (f & 0x40u8 == 0x40u8) == v
            &&& (f & 2u8 == 2u8) == z
            &&& (f & 0x80u8 == 0x80u8) == n
            &&& f & 0x3Cu8 == st & 0x3Cu8
        }),
{
}

/// The ADC overflow test: the result's sign differs from the signs of both addends exactly
/// when the addends have the same sign and the result the other.
pub proof fn lemma_sign_overflow(a: u8, d: u8, r: u8)
    by (bit_vector)
    ensures
        ((d ^ r) & (r ^ a) & 0x80u8 != 0) == ((a < 128 && d < 128 && r >= 128) || (a >= 128 && d >= 128 && r < 128)),
{
}

/// Pulling a pushed status drops whatever the push put in the break and unused bits.
pub proof fn lemma_break_unused(x: u8, b: bool)
    by (bit_vector)
    ensures
        super::set_bits(super::set_bits(super::set_bits(super::set_bits(x, 16u8, b), 32u8, true), 16u8, false), 32u8, true)
            == super::set_bits(super::set_bits(x, 16u8, false), 32u8, true),
{
}

/// Three flags (carry, zero, negative) set one after the other read back as set, and the
/// other five bits stay as they were.
pub proof fn lemma_compare_flags(st: u8, c: bool, z: bool, n: bool)
    by (bit_vector)
    ensures
        ({
            let f: u8 = super::set_bits(super::set_bits(super::set_bits(st, 1u8, c), 2u8, z), 0x80u8, n);
            &&& (f & 1u8 == 1u8) == c
            &&& (f & 2u8 == 2u8) == z
            &&& (f & 0x80u8 == 0x80u8) == n
            &&& f & 0x7Cu8 == st & 0x7Cu8
        }),
{
}

/// The high nibble of one byte and the high nibble of another, read as a byte.
pub proof fn lemma_nibbles(hi: u8, lo: u8)
    by (bit_vector)
    ensures
        (hi & 0xF0u8) | (lo >> 4u8) == (hi >> 4u8) * 16 + (lo >> 4u8),
        hi & 0xF0u8 == (hi >> 4u8) * 16,
{
}

/// The fields of a VRAM address that the PPUSCROLL writes set: coarse X from the first
/// write, fine and coarse Y from the second, and nothing else.
pub proof fn lemma_scroll_fields(t: u16, v: u8)
    by (bit_vector)
    ensures
        ({
            let y: u16 = ((t & 0x8FFFu16) | (((v as u16) << 12u16) & 0x7000u16));
            let yy: u16 = (y & 0xFC1Fu16) | ((((v >> 3u8) as u16) << 5u16) & 0x03E0u16);
            let x: u16 = (t & 0xFFE0u16) | (((v >> 3u8) as u16) & 0x001Fu16);
            &&& ((yy & 0x03E0u16) >> 5u16) as u8 == v >> 3u8
            &&& ((yy & 0x7000u16) >> 12u16) as u8 == v & 7u8
            &&& yy & 0x8C1Fu16 == t & 0x8C1Fu16
            &&& (x & 0x001Fu16) as u8 == v >> 3u8
            &&& x & 0xFFE0u16 == t & 0xFFE0u16
        }),
{
}

/// Setting or clearing one flag bit of a status byte changes that bit only.
pub proof fn lemma_set_flag(st: u8, m: u8, on: bool, q: u8)
    by (bit_vector)
    requires
        m == 1u8 || m == 2u8 || m == 4u8 || m == 8u8 || m == 16u8 || m == 32u8 || m == 64u8 || m == 128u8,
        q == 1u8 || q == 2u8 || q == 4u8 || q == 8u8 || q == 16u8 || q == 32u8 || q == 64u8 || q == 128u8,
    ensures
        (super::set_bits(st, m, on) & q == q) == (if m == q { on } else { st & q == q }),
{
}

/// Shifting and rotating a byte by one place, as arithmetic.
pub proof fn lemma_shift_bits(a: u8, c: u8)
    by (bit_vector)
    requires
        c <= 1,
    ensures
        (a << 1u8) / 2 == a % 128 && (a << 1u8) % 2 == 0,
        a >> 1u8 == a / 2,
        ((a << 1u8) | c) / 2 == a % 128 && ((a << 1u8) | c) % 2 == c,
        ((a >> 1u8) | (c << 7u8)) % 128 == a / 2 && ((a >> 1u8) | (c << 7u8)) / 128 == c,
        (a >> 7u8 == 1) == (a >= 128),
        (a & 1u8 == 1) == (a % 2 == 1),
{
}

} // verus!
