//! Facts that tie the bit-level operations used by the executable code to
//! the arithmetic in which the contracts are written.
use vstd::prelude::*;

verus! {

/// Whether the bit of weight `weight` (a power of two) is set in `byte`.
pub open spec fn has_bit(byte: u8, weight: u8) -> bool {
    (byte / weight) % 2 == 1
}

/// `byte` with the bit of weight `weight` (a power of two) made equal to `on`.
#[verifier::opaque]
pub open spec fn put_bit(byte: u8, weight: u8, on: bool) -> u8 {
    (byte - (if has_bit(byte, weight) { weight as int } else { 0 })
        + (if on { weight as int } else { 0 })) as u8
}

/// Testing, setting and clearing one of the four flag bits of a byte,
/// expressed with division and remainder.
pub proof fn lemma_flag_masks(f: u8)
    by (bit_vector)
    ensures
        (f & 0x80 > 0) == ((f / 128) % 2 == 1),
        (f & 0x40 > 0) == ((f / 64) % 2 == 1),
        (f & 0x20 > 0) == ((f / 32) % 2 == 1),
        (f & 0x10 > 0) == ((f / 16) % 2 == 1),
        (f | 0x80) == f - ((f / 128) % 2) * 128 + 128,
        (f | 0x40) == f - ((f / 64) % 2) * 64 + 64,
        (f | 0x20) == f - ((f / 32) % 2) * 32 + 32,
        (f | 0x10) == f - ((f / 16) % 2) * 16 + 16,
        (f & 0x7f) == f - ((f / 128) % 2) * 128,
        (f & 0xbf) == f - ((f / 64) % 2) * 64,
        (f & 0xdf) == f - ((f / 32) % 2) * 32,
        (f & 0xef) == f - ((f / 16) % 2) * 16,
{
}

/// Joining two bytes into a word with a shift and an or.
pub proof fn lemma_join(hi: u8, lo: u8)
    by (bit_vector)
    ensures
        (((hi as u16) << 8) | (lo as u16)) == hi * 256 + lo,
{
}

/// Masking an address down to an offset within a power-of-two block.
pub proof fn lemma_offset_masks(addr: u16)
    by (bit_vector)
    ensures
        (addr as usize) & 0x1fff == addr % 0x2000,
        (addr as usize) & 0x7f == addr % 0x80,
{
}

/// Testing, setting and clearing one of the five low bits of a byte, and
/// keeping only those five.
pub proof fn lemma_low_five(p: u8)
    by (bit_vector)
    ensures
        (p & 0x01 != 0) == (p % 2 == 1),
        (p & 0x02 != 0) == ((p / 2) % 2 == 1),
        (p & 0x04 != 0) == ((p / 4) % 2 == 1),
        (p & 0x08 != 0) == ((p / 8) % 2 == 1),
        (p & 0x10 != 0) == ((p / 16) % 2 == 1),
        (p | 0x01) == p - (p % 2) + 1,
        (p | 0x02) == p - ((p / 2) % 2) * 2 + 2,
        (p | 0x04) == p - ((p / 4) % 2) * 4 + 4,
        (p | 0x08) == p - ((p / 8) % 2) * 8 + 8,
        (p | 0x10) == p - ((p / 16) % 2) * 16 + 16,
        (p & !0x01u8) == p - (p % 2),
        (p & !0x02u8) == p - ((p / 2) % 2) * 2,
        (p & !0x04u8) == p - ((p / 4) % 2) * 4,
        (p & !0x08u8) == p - ((p / 8) % 2) * 8,
        (p & !0x10u8) == p - ((p / 16) % 2) * 16,
        (p & 0x1f) == p % 32,
{
}

/// The rotates and shifts of a byte to the left and its complement,
/// expressed with multiplication, division and remainder. `carry` is 0 or 1.
pub proof fn lemma_shifts_left(v: u8, carry: u8)
    by (bit_vector)
    requires
        carry <= 1,
    ensures
        ((v << 1) | (v >> 7)) == (v * 2) % 256 + v / 128,
        ((v << 1) | carry) == (v * 2) % 256 + carry,
        (v << 1) == (v * 2) % 256,
        (v & 0x80 != 0) == (v >= 128),
        !v == 255 - v,
{
}

/// The rotates and shifts of a byte to the right and the exchange of its
/// nibbles, expressed with multiplication, division and remainder.
/// `carry` is 0 or 1.
pub proof fn lemma_shifts_right(v: u8, carry: u8)
    by (bit_vector)
    requires
        carry <= 1,
    ensures
        ((v >> 1) | (v << 7)) == v / 2 + (v % 2) * 128,
        ((v >> 1) | (carry << 7)) == v / 2 + carry * 128,
        ((v >> 1) | (v & 0x80)) == v / 2 + (v / 128) * 128,
        (v >> 1) == v / 2,
        ((v >> 4) | (v << 4)) == (v % 16) * 16 + v / 16,
        (v & 0x01 != 0) == (v % 2 == 1),
{
}

} // verus!
