//! Facts about masks and shifts of bytes and words, for the address
//! arithmetic of the buses.

use vstd::prelude::*;

verus! {

/// Bounds of the word masks and fields used by the buses and the PPU's
/// address register.
pub proof fn lemma_word_masks()
    by (bit_vector)
    ensures
        forall|x: u16| #[trigger] (x & 0x07FF) < 0x800,
        forall|x: u16| #[trigger] (x & 0x0FFF) <= 0x0FFF,
        forall|x: u16| #[trigger] (x & 0x1FFF) < 0x2000,
        forall|x: u16| #[trigger] (x & 0x3FFF) < 0x4000,
        forall|x: u16| #[trigger] (x & 0x03FF) < 0x400,
        forall|x: u16| #[trigger] (x & 0x001F) < 0x20,
        forall|x: u16| #[trigger] (x & 0x00FF) <= 255,
        forall|x: u16| #[trigger] (x & 0x0007) <= 7,
        forall|x: u16| #[trigger] ((x & 0xFF00) >> 8u16) <= 255,
        forall|x: u16| (#[trigger] (x & 0x00FF)) != 0x00FF ==> x < 0xFFFF,
        forall|x: u16| #[trigger] ((x & 0x001F) >> 0u16) <= 31,
        forall|x: u16| #[trigger] ((x & 0x03E0) >> 5u16) <= 31,
        forall|x: u16| #[trigger] ((x & 0x0C00) >> 10u16) <= 3,
        forall|x: u16| #[trigger] ((x & 0x0400) >> 10u16) <= 1,
        forall|x: u16| #[trigger] ((x & 0x0800) >> 11u16) <= 1,
        forall|x: u16| #[trigger] ((x & 0x7000) >> 12u16) <= 7,
        forall|x: u16| 0x3000 <= x <= 0x3EFF ==> 0x2000 <= #[trigger] (x & 0x2FFF) && (x & 0x2FFF) <= 0x2FFF,
{
}

/// Bounds of the byte masks and shifts used by the registers and the CPU.
pub proof fn lemma_byte_masks()
    by (bit_vector)
    ensures
        forall|x: u8| #[trigger] (x & 0x07) < 8,
        forall|x: u8| #[trigger] (x & 0x0F) < 16,
        forall|x: u8| #[trigger] (x & 0x3F) < 64,
        forall|x: u8| #[trigger] (x & 0x03) <= 3,
        forall|x: u8| #[trigger] (x >> 5u8) < 8,
        forall|x: u8| #[trigger] (x >> 1u8) <= 127,
        forall|x: u8| #[trigger] (x << 1u8) <= 254,
        forall|x: u8| #[trigger] ((x & 0xF8) >> 3u8) < 32,
{
}

/// A byte with the bits of `m` set (`v`) or cleared.
pub open spec fn bitset(p: u8, m: u8, v: bool) -> u8 {
    if v { p | m } else { p & !m }
}

/// Setting or clearing the bits of a mask leaves the bits outside it, and
/// a set single bit reads back as set.
pub proof fn lemma_bitset()
    by (bit_vector)
    ensures
        forall|p: u8, m: u8, v: bool, q: u8| m & q == 0 ==> #[trigger] (bitset(p, m, v) & q) == p & q,
        forall|p: u8, m: u8, v: bool| m != 0 ==> ((#[trigger] (bitset(p, m, v) & m)) == m) == v,
        forall|p: u8, m: u8, v: bool| #[trigger] (bitset(p, m, v) & m) == (if v { m } else { 0 }),
        0x01u8 & 0x02u8 == 0 && 0x01u8 & 0x40u8 == 0 && 0x01u8 & 0x80u8 == 0 && 0x02u8 & 0x40u8 == 0,
        0x02u8 & 0x80u8 == 0 && 0x40u8 & 0x80u8 == 0 && 0x04u8 & 0x01u8 == 0 && 0x04u8 & 0x02u8 == 0,
        0x02u8 & 0x01u8 == 0 && 0x40u8 & 0x01u8 == 0 && 0x80u8 & 0x01u8 == 0 && 0x40u8 & 0x02u8 == 0,
        0x80u8 & 0x02u8 == 0 && 0x80u8 & 0x40u8 == 0 && 0x01u8 & 0x04u8 == 0 && 0x02u8 & 0x04u8 == 0,
        0x02u8 & 0x7Du8 == 0 && 0x80u8 & 0x7Du8 == 0 && 0x01u8 & 0x7Cu8 == 0 && 0x02u8 & 0x7Cu8 == 0,
        0x80u8 & 0x7Cu8 == 0 && 0x40u8 & 0x3Du8 == 0 && 0x80u8 & 0x3Du8 == 0 && 0x02u8 & 0x3Du8 == 0,
        0x01u8 & 0x3Cu8 == 0 && 0x02u8 & 0x3Cu8 == 0 && 0x40u8 & 0x3Cu8 == 0 && 0x80u8 & 0x3Cu8 == 0,
        0x7Du8 & 0x3Cu8 == 0x3Cu8 && 0x7Cu8 & 0x3Cu8 == 0x3Cu8,
        0x01u8 & 0x02u8 == 0 && 0x01u8 & 0x04u8 == 0 && 0x01u8 & 0x08u8 == 0 && 0x01u8 & 0x10u8 == 0,
        0x01u8 & 0x20u8 == 0 && 0x01u8 & 0x40u8 == 0 && 0x01u8 & 0x80u8 == 0 && 0x02u8 & 0x01u8 == 0,
        0x02u8 & 0x04u8 == 0 && 0x02u8 & 0x08u8 == 0 && 0x02u8 & 0x10u8 == 0 && 0x02u8 & 0x20u8 == 0,
        0x02u8 & 0x40u8 == 0 && 0x02u8 & 0x80u8 == 0 && 0x04u8 & 0x01u8 == 0 && 0x04u8 & 0x02u8 == 0,
        0x04u8 & 0x08u8 == 0 && 0x04u8 & 0x10u8 == 0 && 0x04u8 & 0x20u8 == 0 && 0x04u8 & 0x40u8 == 0,
        0x04u8 & 0x80u8 == 0 && 0x08u8 & 0x01u8 == 0 && 0x08u8 & 0x02u8 == 0 && 0x08u8 & 0x04u8 == 0,
        0x08u8 & 0x10u8 == 0 && 0x08u8 & 0x20u8 == 0 && 0x08u8 & 0x40u8 == 0 && 0x08u8 & 0x80u8 == 0,
        0x10u8 & 0x01u8 == 0 && 0x10u8 & 0x02u8 == 0 && 0x10u8 & 0x04u8 == 0 && 0x10u8 & 0x08u8 == 0,
        0x10u8 & 0x20u8 == 0 && 0x10u8 & 0x40u8 == 0 && 0x10u8 & 0x80u8 == 0 && 0x20u8 & 0x01u8 == 0,
        0x20u8 & 0x02u8 == 0 && 0x20u8 & 0x04u8 == 0 && 0x20u8 & 0x08u8 == 0 && 0x20u8 & 0x10u8 == 0,
        0x20u8 & 0x40u8 == 0 && 0x20u8 & 0x80u8 == 0 && 0x40u8 & 0x01u8 == 0 && 0x40u8 & 0x02u8 == 0,
        0x40u8 & 0x04u8 == 0 && 0x40u8 & 0x08u8 == 0 && 0x40u8 & 0x10u8 == 0 && 0x40u8 & 0x20u8 == 0,
        0x40u8 & 0x80u8 == 0 && 0x80u8 & 0x01u8 == 0 && 0x80u8 & 0x02u8 == 0 && 0x80u8 & 0x04u8 == 0,
        0x80u8 & 0x08u8 == 0 && 0x80u8 & 0x10u8 == 0 && 0x80u8 & 0x20u8 == 0 && 0x80u8 & 0x40u8 == 0,
        forall|x: u8| (#[trigger] (x << 1u8)) as int == (x * 2) % 256,
        0x80u8 & 0x7Fu8 == 0 && 0x80u8 & 0x1Fu8 == 0 && 0x40u8 & 0x1Fu8 == 0 && 0x20u8 & 0x1Fu8 == 0,
{
}

/// Masks and shifts of bytes as arithmetic.
pub proof fn lemma_byte_values()
    by (bit_vector)
    ensures
        forall|x: u8| ((#[trigger] (x & 0x01)) != 0) == (x & 0x01 == 0x01) && (x & 0x01 == 0x01) == (x % 2 == 1),
        forall|x: u8| ((#[trigger] (x & 0x02)) != 0) == (x & 0x02 == 0x02) && (x & 0x02 == 0x02) == ((x / 2) % 2 == 1),
        forall|x: u8| ((#[trigger] (x & 0x04)) != 0) == (x & 0x04 == 0x04) && (x & 0x04 == 0x04) == ((x / 4) % 2 == 1),
        forall|x: u8| ((#[trigger] (x & 0x08)) != 0) == (x & 0x08 == 0x08) && (x & 0x08 == 0x08) == ((x / 8) % 2 == 1),
        forall|x: u8| ((#[trigger] (x & 0x10)) != 0) == (x & 0x10 == 0x10) && (x & 0x10 == 0x10) == ((x / 16) % 2 == 1),
        forall|x: u8| ((#[trigger] (x & 0x20)) != 0) == (x & 0x20 == 0x20) && (x & 0x20 == 0x20) == ((x / 32) % 2 == 1),
        forall|x: u8| ((#[trigger] (x & 0x40)) != 0) == (x & 0x40 == 0x40) && (x & 0x40 == 0x40) == ((x / 64) % 2 == 1),
        forall|x: u8| ((#[trigger] (x & 0x80)) != 0) == (x & 0x80 == 0x80) && (x & 0x80 == 0x80) == (x >= 128),
        forall|x: u8| #[trigger] (x & 0x03) == x % 4,
        forall|x: u8| #[trigger] (x & 0x07) == x % 8,
        forall|x: u8| #[trigger] (x & 0x0F) == x % 16,
        forall|x: u8| #[trigger] (x & 0x1F) == x % 32,
        forall|x: u8| #[trigger] (x & 0x3F) == x % 64,
        forall|x: u8| #[trigger] (x & 0x7F) == x % 128,
        forall|x: u8| #[trigger] (x >> 1u8) == x / 2,
        forall|x: u8| #[trigger] (x >> 2u8) == x / 4,
        forall|x: u8| #[trigger] (x >> 3u8) == x / 8,
        forall|x: u8| #[trigger] (x >> 4u8) == x / 16,
        forall|x: u8| #[trigger] (x >> 6u8) == x / 64,
        forall|x: u8| #[trigger] (x >> 7u8) == x / 128,
        forall|x: u8| #[trigger] ((x & 0xF8) >> 3u8) == x / 8,
        forall|x: u8| #[trigger] ((x & 0x70) >> 4u8) == (x / 16) % 8,
        forall|x: u8| #[trigger] ((x & 0xC0) >> 6u8) == x / 64,
        forall|x: u8| #[trigger] ((x & 0x0C) >> 2u8) == (x / 4) % 4,
        forall|x: u8| #[trigger] ((x & 0x10) >> 4u8) == (x / 16) % 2,
        forall|x: u8| (#[trigger] (x ^ 0xFF)) as int == 255 - x,
        forall|x: u8| #![trigger (x | 0x0C)] ((x | 0x0C) / 4) % 4 == 3 && (x | 0x0C) % 4 == x % 4 && (x | 0x0C) / 16 == x / 16,
        forall|x: u8| (#[trigger] (x & 0x1E)) as int == (x % 32) / 2 * 2,
        forall|x: u8| (#[trigger] (x & 0x0E)) as int == (x % 16) / 2 * 2,
        forall|x: u8, y: u8| (#[trigger] ((x & 0xE0) | (y & 0x1F))) as int == (x / 32) * 32 + y % 32,
{
}

/// Fields of words as arithmetic.
pub proof fn lemma_word_values()
    by (bit_vector)
    ensures
        forall|a: u16| #[trigger] (a & 0x001F) == a % 32,
        forall|a: u16| #[trigger] (a & 0x00FF) == a % 256,
        forall|a: u16| #[trigger] (a & 0x07FF) == a % 2048,
        forall|a: u16| #[trigger] (a & 0x0FFF) == a % 4096,
        forall|a: u16| #[trigger] (a & 0x1FFF) == a % 8192,
        forall|a: u16| #[trigger] (a & 0x3FFF) == a % 16384,
        forall|a: u16| #[trigger] ((a & 0x001F) >> 0u16) == a % 32,
        forall|a: u16| #[trigger] ((a & 0x03E0) >> 5u16) == (a / 32) % 32,
        forall|a: u16| #[trigger] ((a & 0x0C00) >> 10u16) == (a / 1024) % 4,
        forall|a: u16| #[trigger] ((a & 0x0400) >> 10u16) == (a / 1024) % 2,
        forall|a: u16| #[trigger] ((a & 0x0800) >> 11u16) == (a / 2048) % 2,
        forall|a: u16| #[trigger] ((a & 0x7000) >> 12u16) == (a / 4096) % 8,
        forall|a: u16| #[trigger] ((a & 0x6000) >> 13u16) == (a / 8192) % 4,
        forall|a: u16| #[trigger] (a >> 8u16) == a / 256,
        forall|a: u16| #[trigger] (a >> 2u16) == a / 4,
        forall|a: u16| (#[trigger] (a & 0xFF00)) as int == (a / 256) * 256,
        forall|a: u16, b: u16| #![trigger a & 0xFF00, b & 0xFF00] ((a & 0xFF00) == (b & 0xFF00)) == (a / 256 == b / 256),
{
}

} // verus!
