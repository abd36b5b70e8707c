use vstd::prelude::*;

verus! {

/// What the masks, shifts and single-bit tests of a byte compute, in
/// arithmetic terms.
pub proof fn lemma_u8_bits(x: u8)
    by (bit_vector)
    ensures
        x & 1 == x % 2,
        x & 0b11 == x % 4,
        x & 0b111 == x % 8,
        x & 0xF == x % 16,
        x & 0x1F == x % 32,
        x & 0x3F == x % 64,
        x & 0x7F == x % 128,
        x >> 0u8 == x,
        x >> 1u8 == x / 2,
        x >> 2u8 == x / 4,
        x >> 3u8 == x / 8,
        x >> 4u8 == x / 16,
        x >> 5u8 == x / 32,
        x >> 6u8 == x / 64,
        x >> 7u8 == x / 128,
        (x >> 4u8) & 0b111 == (x / 16) % 8,
        (x >> 4u8) & 0xF == x / 16,
        (x >> 6u8) & 0b11 == x / 64,
        (x & 0b0110_0000) >> 5u8 == (x / 32) % 4,
        (x & 0x01 != 0) == (x % 2 == 1),
        (x & 0x02 != 0) == ((x / 2) % 2 == 1),
        (x & 0x04 != 0) == ((x / 4) % 2 == 1),
        (x & 0x08 != 0) == ((x / 8) % 2 == 1),
        (x & 0x10 != 0) == ((x / 16) % 2 == 1),
        (x & 0x20 != 0) == ((x / 32) % 2 == 1),
        (x & 0x40 != 0) == ((x / 64) % 2 == 1),
        (x & 0x80 != 0) == (x >= 0x80),
        (x & 0x80 == 0x80) == (x >= 0x80),
        (x & 0x80 < 0x80) == (x < 0x80),
        (x & 0xF8 != 0) == (x >= 8),
        ((x >> 0u8) & 1 == 1) == (x & 0x01 != 0),
        ((x >> 1u8) & 1 == 1) == (x & 0x02 != 0),
        ((x >> 2u8) & 1 == 1) == (x & 0x04 != 0),
        ((x >> 3u8) & 1 == 1) == (x & 0x08 != 0),
        ((x >> 4u8) & 1 == 1) == (x & 0x10 != 0),
        ((x >> 5u8) & 1 == 1) == (x & 0x20 != 0),
        ((x >> 6u8) & 1 == 1) == (x & 0x40 != 0),
        ((x >> 7u8) & 1 == 1) == (x & 0x80 != 0),
        (x | 0x80) % 2 == x % 2,
        ((x | 0x80) / 64) % 2 == (x / 64) % 2,
{
}

/// A bit of `i & e` is set exactly when it is set in both.
pub proof fn lemma_and_bits(i: u8, e: u8)
    by (bit_vector)
    ensures
        ((i & e) & 0x01 != 0) == (i & 0x01 != 0 && e & 0x01 != 0),
        ((i & e) & 0x02 != 0) == (i & 0x02 != 0 && e & 0x02 != 0),
        ((i & e) & 0x04 != 0) == (i & 0x04 != 0 && e & 0x04 != 0),
        ((i & e) & 0x08 != 0) == (i & 0x08 != 0 && e & 0x08 != 0),
        ((i & e) & 0x10 != 0) == (i & 0x10 != 0 && e & 0x10 != 0),
{
}

/// Clearing an interrupt's bit leaves it clear.
pub proof fn lemma_clear_bits(x: u8)
    by (bit_vector)
    ensures
        (x & !0x01u8) & 0x01 == 0,
        (x & !0x02u8) & 0x02 == 0,
        (x & !0x04u8) & 0x04 == 0,
        (x & !0x08u8) & 0x08 == 0,
        (x & !0x10u8) & 0x10 == 0,
{
}

/// The values of `1 << n` for a byte.
pub proof fn lemma_u8_pow2()
    by (bit_vector)
    ensures
        1u8 << 0u8 == 1,
        1u8 << 1u8 == 2,
        1u8 << 2u8 == 4,
        1u8 << 3u8 == 8,
        1u8 << 4u8 == 16,
        1u8 << 5u8 == 32,
        1u8 << 6u8 == 64,
        1u8 << 7u8 == 128,
{
}

/// What the masks and shifts of a 16-bit word compute, in arithmetic terms.
pub proof fn lemma_u16_bits(v: u16)
    by (bit_vector)
    ensures
        v as u8 == v % 256,
        (v >> 8u16) as u8 == v / 256,
        (v & 0xFF00) >> 8u16 == v / 256,
        (v & 0xFF) as u8 == v % 256,
        v & 0x1FF == v % 0x200,
        ((v >> 12u16) & 1 == 1) == ((v / 4096) % 2 == 1),
        ((v & (1u16 << 9u16)) != 0) == ((v / 512) % 2 == 1),
        ((v & (1u16 << 3u16)) != 0) == ((v / 8) % 2 == 1),
        ((v & (1u16 << 5u16)) != 0) == ((v / 32) % 2 == 1),
        ((v & (1u16 << 7u16)) != 0) == ((v / 128) % 2 == 1),
        ((v & (1u16 << 8u16)) == 0) == ((v / 0x100) % 2 == 0),
        (v | 0xFF00) >= 0xFF00,
{
}

/// Right shifts of a word by at most 7 are divisions by powers of two.
pub proof fn lemma_u16_shr(x: u16)
    by (bit_vector)
    ensures
        x >> 0u8 == x / 1,
        x >> 1u8 == x / 2,
        x >> 2u8 == x / 4,
        x >> 3u8 == x / 8,
        x >> 4u8 == x / 16,
        x >> 5u8 == x / 32,
        x >> 6u8 == x / 64,
        x >> 7u8 == x / 128,
{
}

/// Joining two bytes into a word: `(hi << 8) | lo` is `hi * 256 + lo`.
pub proof fn lemma_join_bytes(hi: u16, lo: u16)
    by (bit_vector)
    requires
        hi < 256,
        lo < 256,
    ensures
        hi << 8u16 | lo == hi * 256 + lo,
{
}

/// What the masks of an index compute, in arithmetic terms.
pub proof fn lemma_usize_bits(a: usize)
    by (bit_vector)
    ensures
        a & 0b11 == a % 4,
        a & 0x1F == a % 32,
        a & 0x1FF == a % 0x200,
        a & 0x1FFF == a % 0x2000,
        a & 0x3FFF == a % 0x4000,
{
}

/// `(bank << 14) | (a & 0x3FFF)` is the offset of `a` in 16 KiB bank `bank`.
pub proof fn lemma_bank_offset(bank: usize, a: usize)
    by (bit_vector)
    requires
        bank < 0x10000,
    ensures
        (bank << 14usize | (a & 0x3FFF)) == bank * 0x4000 + (a % 0x4000),
{
}

} // verus!
