//! Bit fields as arithmetic: what a shift, a mask or an OR of two fields is as
//! a quotient, a remainder or a sum.

use vstd::prelude::*;

verus! {

/// Fields of a byte.
pub(crate) proof fn lemma_fields8(b: u8)
    by (bit_vector)
    ensures
        (b >> 6) & 3 == b / 64,
        (b >> 3) & 7 == b / 8 % 8,
        b & 7 == b % 8,
        b & 15 == b % 16,
        b & 3 == b % 4,
        (b >> 5) & 3 == b / 32 % 4,
        (b >> 4) & 3 == b / 16 % 4,
        (b >> 1) & 7 == b / 2 % 8,
        (b >> 1) & 3 == b / 2 % 4,
        b & 1 == b % 2,
        b & 0x1F == b % 32,
        b & 0x3F == b % 64,
        b & 0xF8 == b / 8 * 8,
        (b & 0x10 != 0) == (b / 16 % 2 == 1),
        (b & 0x18 == 0) == (b / 8 % 4 == 0),
        b >> 5 == b / 32,
        (b & 8 != 0) == (b / 8 % 2 == 1),
        (b & 4 != 0) == (b / 4 % 2 == 1),
        (b & 2 != 0) == (b / 2 % 2 == 1),
        (b & 1 != 0) == (b % 2 == 1),
        b | 0 == b,
        b < 8 ==> b | 8 == b + 8,
        b < 0x80 ==> b | 0x80 == b + 0x80,
        b < 16 ==> b & 15 == b,
        1u64 << 0u8 == 1,
        1u64 << 1u8 == 2,
        1u64 << 2u8 == 4,
        1u64 << 3u8 == 8,
{
}

/// Fields of a double word, and two of them put together.
pub(crate) proof fn lemma_fields32(e: u32, l: u32)
    by (bit_vector)
    ensures
        (l >> 22) & 0x3FF == l / 0x40_0000,
        (l >> 12) & 0x3FF == l / 0x1000 % 1024,
        e & 0xFFFF_F000 == e / 0x1000 * 0x1000,
        (e & 0xFFFF_F000) | (l & 0xFFF) == e / 0x1000 * 0x1000 + l % 0x1000,
        (e & 0xFFC0_0000) | (l & 0x3F_FFFF) == e / 0x40_0000 * 0x40_0000 + l % 0x40_0000,
        e & 0xFFF == e % 0x1000,
        e & 0xFFFF == e % 0x1_0000,
        (e & 1 != 0) == (e % 2 == 1),
        (e & 2 != 0) == (e / 2 % 2 == 1),
        (e & 4 != 0) == (e / 4 % 2 == 1),
        (e & 0x10 != 0) == (e / 0x10 % 2 == 1),
        (e & 0x40 != 0) == (e / 0x40 % 2 == 1),
        (e & 0x80 != 0) == (e / 0x80 % 2 == 1),
        (e & 0x100 != 0) == (e / 0x100 % 2 == 1),
        (e & 0x200 != 0) == (e / 0x200 % 2 == 1),
        (e & 0x400 != 0) == (e / 0x400 % 2 == 1),
        (e & 0x800 != 0) == (e / 0x800 % 2 == 1),
        e as u16 == e % 0x1_0000,
        e as u8 == e % 0x100,
        (e >> 11) & 0x1F == e / 0x800 % 32,
        (e >> 16) & 0xFF == e / 0x1_0000 % 256,
        (e >> 8) & 0x07 == e / 0x100 % 8,
        e & 0xFC == e / 4 % 64 * 4,
        (e & 0x8000_0000 != 0) == (e >= 0x8000_0000),
{
}

/// Values put together from smaller ones, and bitwise operations on the low
/// bits of two values.
pub(crate) proof fn lemma_joined(a: u8, b: u8, c: u8, d: u8, lo: u32, hi: u32, x: u64, y: u64)
    ensures
        (a as u16) | ((b as u16) << 8) == a + b * 0x100,
        (a as u32) | ((b as u32) << 8) | ((c as u32) << 16) | ((d as u32) << 24) == a + b * 0x100
            + c * 0x1_0000 + d * 0x100_0000,
        (lo as u64) | ((hi as u64) << 32) == lo + hi * 0x1_0000_0000,
        (lo < 0x1_0000 && hi < 0x1_0000) ==> lo | (hi << 16) == lo + hi * 0x1_0000,
        (x % 0x100) & (y % 0x100) == (x & y) % 0x100,
        (x % 0x100) | (y % 0x100) == (x | y) % 0x100,
        (x % 0x100) ^ (y % 0x100) == (x ^ y) % 0x100,
        (x % 0x1_0000) & (y % 0x1_0000) == (x & y) % 0x1_0000,
        (x % 0x1_0000) | (y % 0x1_0000) == (x | y) % 0x1_0000,
        (x % 0x1_0000) ^ (y % 0x1_0000) == (x ^ y) % 0x1_0000,
        (x % 0x1_0000_0000) & (y % 0x1_0000_0000) == (x & y) % 0x1_0000_0000,
        (x % 0x1_0000_0000) | (y % 0x1_0000_0000) == (x | y) % 0x1_0000_0000,
        (x % 0x1_0000_0000) ^ (y % 0x1_0000_0000) == (x ^ y) % 0x1_0000_0000,
{
    lemma_wide(x, y, a, b, c, d, 0, 0, 0, 0, lo, hi);
}

/// The facts of this file about wide values, in one statement.
proof fn lemma_wide(
    u: u64,
    v: u64,
    a: u8,
    b: u8,
    c: u8,
    d: u8,
    e: u8,
    f: u8,
    g: u8,
    h: u8,
    lo: u32,
    hi: u32,
)
    by (bit_vector)
    ensures
        u | v == v | u,
        (u | 0x20) & 0x20 == 0x20,
        (u | 0x60) & 0x60 == 0x60,
        0x20u64 | 0x40u64 == 0x60,
        u & 0xF == u % 16,
        (u >> 32) as u32 == u / 0x1_0000_0000,
        (u >> 32) & 0xFFFF == u / 0x1_0000_0000 % 0x1_0000,
        (u >> 48) & 0xFFFF == u / 0x1_0000_0000_0000,
        (v >> 12) & 0x1FF == v / 0x1000 % 512,
        (v >> 21) & 0x1FF == v / 0x20_0000 % 512,
        (v >> 30) & 0x1FF == v / 0x4000_0000 % 512,
        (v >> 39) & 0x1FF == v / 0x80_0000_0000 % 512,
        u & 0x000F_FFFF_FFFF_F000 == u % 0x10_0000_0000_0000 / 0x1000 * 0x1000,
        (u & 0x000F_FFFF_FFFF_F000 & !0xFFFu64) | (v & 0xFFF) == u % 0x10_0000_0000_0000 / 0x1000
            * 0x1000 + v % 0x1000,
        (u & 0x000F_FFFF_FFFF_F000 & !0x1F_FFFFu64) | (v & 0x1F_FFFF) == u % 0x10_0000_0000_0000
            / 0x20_0000 * 0x20_0000 + v % 0x20_0000,
        (u & 0x000F_FFFF_FFFF_F000 & !0x3FFF_FFFFu64) | (v & 0x3FFF_FFFF) == u
            % 0x10_0000_0000_0000 / 0x4000_0000 * 0x4000_0000 + v % 0x4000_0000,
        u & 0xFFFF_FFE0 == u % 0x1_0000_0000 / 32 * 32,
        u & 0xFFFF_FFFF == u % 0x1_0000_0000,
        u & 0xFFF == u % 0x1000,
        u & !0xFu64 == u / 16 * 16,
        (u & 1 != 0) == (u % 2 == 1),
        (u & 2 != 0) == (u / 2 % 2 == 1),
        (u & 4 != 0) == (u / 4 % 2 == 1),
        (u & 0x80 != 0) == (u / 0x80 % 2 == 1),
        (u & 0x8000_0000_0000_0000 != 0) == (u >= 0x8000_0000_0000_0000),
        (u as u8) & 1 == u % 2,
        ((u as u8) >> 1) & 1 == u / 2 % 2,
        ((u as u8) >> 2) & 1 == u / 4 % 2,
        ((u as u8) >> 3) & 1 == u / 8 % 2,
        ((u as u8) >> 4) & 1 == u / 16 % 2,
        ((u as u8) >> 5) & 1 == u / 32 % 2,
        ((u as u8) >> 6) & 1 == u / 64 % 2,
        ((u as u8) >> 7) & 1 == u / 128 % 2,
        1u64 << 12u64 == 0x1000,
        1u64 << 21u64 == 0x20_0000,
        1u64 << 30u64 == 0x4000_0000,
        u as u32 == u % 0x1_0000_0000,
        u as u16 == u % 0x1_0000,
        u as u8 == u % 0x100,
        (u & 0xFFFF_FFFF_FFFF_FF00) | (a as u64) == u / 0x100 * 0x100 + a,
        (u & 0xFFFF_FFFF_FFFF_00FF) | ((a as u64) << 8) == u / 0x1_0000 * 0x1_0000 + a * 0x100 + u
            % 0x100,
        (u & 0xFFFF_FFFF_FFFF_0000) | ((v as u16) as u64) == u / 0x1_0000 * 0x1_0000 + v
            % 0x1_0000,
        (u >> 8) as u8 == u / 0x100 % 0x100,
        (a as u16) | ((b as u16) << 8) == a + b * 0x100,
        (a as u32) | ((b as u32) << 8) | ((c as u32) << 16) | ((d as u32) << 24) == a + b * 0x100
            + c * 0x1_0000 + d * 0x100_0000,
        (lo as u64) | ((hi as u64) << 32) == lo + hi * 0x1_0000_0000,
        (lo < 0x1_0000 && hi < 0x1_0000) ==> lo | (hi << 16) == lo + hi * 0x1_0000,
        (u % 0x100) & (v % 0x100) == (u & v) % 0x100,
        (u % 0x100) | (v % 0x100) == (u | v) % 0x100,
        (u % 0x100) ^ (v % 0x100) == (u ^ v) % 0x100,
        (u % 0x1_0000) & (v % 0x1_0000) == (u & v) % 0x1_0000,
        (u % 0x1_0000) | (v % 0x1_0000) == (u | v) % 0x1_0000,
        (u % 0x1_0000) ^ (v % 0x1_0000) == (u ^ v) % 0x1_0000,
        (u % 0x1_0000_0000) & (v % 0x1_0000_0000) == (u & v) % 0x1_0000_0000,
        (u % 0x1_0000_0000) | (v % 0x1_0000_0000) == (u | v) % 0x1_0000_0000,
        (u % 0x1_0000_0000) ^ (v % 0x1_0000_0000) == (u ^ v) % 0x1_0000_0000,
        (0u64 | ((a as u64) << 0u64)) == a,
        (0u64 | ((a as u64) << 0u64)) | ((b as u64) << 8u64) == a + b * 0x100,
        ((0u64 | ((a as u64) << 0u64)) | ((b as u64) << 8u64)) | ((c as u64) << 16u64) | ((d as u64)
            << 24u64) == a + b * 0x100 + c * 0x1_0000 + d * 0x100_0000,
        ((0u64 | ((a as u64) << 0u64)) | ((b as u64) << 8u64)) | ((c as u64) << 16u64) | ((d as u64)
            << 24u64) | ((e as u64) << 32u64) | ((f as u64) << 40u64) | ((g as u64) << 48u64) | ((
        h as u64) << 56u64) == a + b * 0x100 + c * 0x1_0000 + d * 0x100_0000 + e * 0x1_0000_0000 + f
            * 0x100_0000_0000 + g * 0x1_0000_0000_0000 + h * 0x100_0000_0000_0000,
{
}

/// Fields of a quad word, and two of them put together.
pub(crate) proof fn lemma_fields64(e: u64, l: u64)
    ensures
        (l >> 12) & 0x1FF == l / 0x1000 % 512,
        (l >> 21) & 0x1FF == l / 0x20_0000 % 512,
        (l >> 30) & 0x1FF == l / 0x4000_0000 % 512,
        (l >> 39) & 0x1FF == l / 0x80_0000_0000 % 512,
        e & 0x000F_FFFF_FFFF_F000 == e % 0x10_0000_0000_0000 / 0x1000 * 0x1000,
        (e & 0x000F_FFFF_FFFF_F000 & !0xFFFu64) | (l & 0xFFF) == e % 0x10_0000_0000_0000 / 0x1000
            * 0x1000 + l % 0x1000,
        (e & 0x000F_FFFF_FFFF_F000 & !0x1F_FFFFu64) | (l & 0x1F_FFFF) == e % 0x10_0000_0000_0000
            / 0x20_0000 * 0x20_0000 + l % 0x20_0000,
        (e & 0x000F_FFFF_FFFF_F000 & !0x3FFF_FFFFu64) | (l & 0x3FFF_FFFF) == e
            % 0x10_0000_0000_0000 / 0x4000_0000 * 0x4000_0000 + l % 0x4000_0000,
        e & 0xFFFF_FFE0 == e % 0x1_0000_0000 / 32 * 32,
        e & 0xFFFF_FFFF == e % 0x1_0000_0000,
        e & 0xFFF == e % 0x1000,
        e & !0xFu64 == e / 16 * 16,
        (e & 1 != 0) == (e % 2 == 1),
        (e & 2 != 0) == (e / 2 % 2 == 1),
        (e & 4 != 0) == (e / 4 % 2 == 1),
        (e & 0x80 != 0) == (e / 0x80 % 2 == 1),
        (e & 0x8000_0000_0000_0000 != 0) == (e >= 0x8000_0000_0000_0000),
        (e as u8) & 1 == e % 2,
        ((e as u8) >> 1) & 1 == e / 2 % 2,
        ((e as u8) >> 2) & 1 == e / 4 % 2,
        ((e as u8) >> 3) & 1 == e / 8 % 2,
        ((e as u8) >> 4) & 1 == e / 16 % 2,
        ((e as u8) >> 5) & 1 == e / 32 % 2,
        ((e as u8) >> 6) & 1 == e / 64 % 2,
        ((e as u8) >> 7) & 1 == e / 128 % 2,
        1u64 << 12u64 == 0x1000,
        1u64 << 21u64 == 0x20_0000,
        1u64 << 30u64 == 0x4000_0000,
        e as u32 == e % 0x1_0000_0000,
        e as u16 == e % 0x1_0000,
        e as u8 == e % 0x100,
{
    lemma_wide(e, l, 0, 0, 0, 0, 0, 0, 0, 0, 0, 0);
}

/// Eight bytes put together, and two addresses of one page.
pub(crate) proof fn lemma_eight(a: u8, b: u8, c: u8, d: u8, e: u8, f: u8, g: u8, h: u8)
    ensures
        (0u64 | ((a as u64) << 0u64)) == a,
        (0u64 | ((a as u64) << 0u64)) | ((b as u64) << 8u64) == a + b * 0x100,
        ((0u64 | ((a as u64) << 0u64)) | ((b as u64) << 8u64)) | ((c as u64) << 16u64) | ((d as u64)
            << 24u64) == a + b * 0x100 + c * 0x1_0000 + d * 0x100_0000,
        ((0u64 | ((a as u64) << 0u64)) | ((b as u64) << 8u64)) | ((c as u64) << 16u64) | ((d as u64)
            << 24u64) | ((e as u64) << 32u64) | ((f as u64) << 40u64) | ((g as u64) << 48u64) | ((
        h as u64) << 56u64) == a + b * 0x100 + c * 0x1_0000 + d * 0x100_0000 + e * 0x1_0000_0000 + f
            * 0x100_0000_0000 + g * 0x1_0000_0000_0000 + h * 0x100_0000_0000_0000,
{
    lemma_wide(0, 0, a, b, c, d, e, f, g, h, 0, 0);
}

/// Two addresses of one page, linear and physical.
pub(crate) proof fn lemma_same_page(x: u64, y: u64, p: usize, q: usize)
    by (bit_vector)
    ensures
        x <= y && (x & 0xFFF) + (y - x) < 0x1000 ==> {
            &&& x >> 12 == y >> 12
            &&& y & 0xFFF == (x & 0xFFF) + (y - x)
            &&& y as u32 == (x as u32) + (y - x)
            &&& (x as u32) & 0xFFF == x & 0xFFF
        },
        (p as u64) >> 12 == (q as u64) >> 12 && ((p as u64) & 0xFFF) <= ((q as u64) & 0xFFF) ==> q
            == p + (((q as u64) & 0xFFF) - ((p as u64) & 0xFFF)),
        p & 0xFFF == (p as u64) & 0xFFF,
        x & 0xFFF == x % 0x1000,
{
}

/// Parts of a register replaced.
pub(crate) proof fn lemma_replaced(u: u64, v: u64, a: u8)
    ensures
        (u & 0xFFFF_FFFF_FFFF_FF00) | (a as u64) == u / 0x100 * 0x100 + a,
        (u & 0xFFFF_FFFF_FFFF_00FF) | ((a as u64) << 8) == u / 0x1_0000 * 0x1_0000 + a * 0x100 + u
            % 0x100,
        (u & 0xFFFF_FFFF_FFFF_0000) | ((v as u16) as u64) == u / 0x1_0000 * 0x1_0000 + v
            % 0x1_0000,
        (u >> 8) as u8 == u / 0x100 % 0x100,
{
    lemma_wide(u, v, a, 0, 0, 0, 0, 0, 0, 0, 0, 0);
}

/// The fields of a segment descriptor, and three fields of a quad word put
/// together.
pub(crate) proof fn lemma_descriptor(raw: u64, k: u32, lo: u64, mid: u64, hi: u64)
    by (bit_vector)
    ensures
        (((raw >> 16) & 0xFFFF) as u32) | ((((raw >> 32) & 0xFF) as u32) << 16) | ((((raw >> 56)
            & 0xFF) as u32) << 24) == raw / 0x1_0000 % 0x100_0000 + raw / 0x100_0000_0000_0000
            * 0x100_0000,
        ((raw & 0xFFFF) as u32) | ((((raw >> 48) & 0xF) as u32) << 16) == raw % 0x1_0000 + raw
            / 0x1_0000_0000_0000 % 16 * 0x1_0000,
        k < 0x10_0000 ==> (k << 12) | 0xFFF == k * 0x1000 + 0xFFF,
        ((raw >> 55) & 1 == 1) == (raw / 0x80_0000_0000_0000 % 2 == 1),
        ((raw >> 54) & 1 == 1) == (raw / 0x40_0000_0000_0000 % 2 == 1),
        ((raw >> 53) & 1 == 1) == (raw / 0x20_0000_0000_0000 % 2 == 1),
        ((raw >> 40) & 0xFF) as u8 == raw / 0x100_0000_0000 % 0x100,
        lo < 0x1_0000 && mid < 0x1_0000 && hi < 0x1_0000_0000 ==> lo | (mid << 16) | (hi << 32)
            == lo + mid * 0x1_0000 + hi * 0x1_0000_0000,
{
}

/// The parts of a word, and a word with its low or its high byte replaced.
proof fn lemma_words(v: u16, b: u8)
    by (bit_vector)
    ensures
        (v >> 3) & 0x1FFF == v / 8,
        (v & 4 != 0) == (v / 4 % 2 == 1),
        v & 3 == v % 4,
        (v & 0xFF) as u8 == v % 0x100,
        (v >> 8) as u8 == v / 0x100,
        v & 0xFF00 == v / 0x100 * 0x100,
        v & 0x00FF == v % 0x100,
        (v & 0xFF00) | (b as u16) == v / 0x100 * 0x100 + b,
        (v & 0x00FF) | ((b as u16) << 8) == v % 0x100 + b * 0x100,
        0u8 & b == 0,
        (0x07u16 << 8) | (b as u16) == 0x700 + b,
        0x2_0000u32 | 0x1_0000u32 == 0x3_0000,
{
}

/// Fields of a word.
pub(crate) proof fn lemma_fields16(v: u16)
    ensures
        (v >> 3) & 0x1FFF == v / 8,
        (v & 4 != 0) == (v / 4 % 2 == 1),
        v & 3 == v % 4,
        (v & 0xFF) as u8 == v % 0x100,
        (v >> 8) as u8 == v / 0x100,
        v & 0xFF00 == v / 0x100 * 0x100,
        v & 0x00FF == v % 0x100,
{
    lemma_words(v, 0);
}

/// Flags put one after another, as the bitwise operations do, the carry put
/// back, and a complement.
proof fn lemma_flag_words(word: u32, f: u32, sf: bool, zf: bool, pf: bool, v: u64)
    by (bit_vector)
    ensures
        ({
            let a = if sf { word | 0x80 } else { word & !0x80 };
            let b = if zf { a | 0x40 } else { a & !0x40 };
            let c = if pf { b | 4 } else { b & !4 };
            let g = (c & !1) & !0x800;
            &&& g & 1 == 0
            &&& g & 0x800 == 0
            &&& g & 0x10 == word & 0x10
            &&& (g & 0x40 != 0) == zf
            &&& (g & 0x80 != 0) == sf
            &&& (g & 4 != 0) == pf
            &&& g & !0x8D5 == word & !0x8D5
            &&& c & 1 == word & 1
            &&& c & 0x800 == word & 0x800
            &&& c & 0x10 == word & 0x10
            &&& (c & 0x40 != 0) == zf
            &&& (c & 0x80 != 0) == sf
            &&& (c & 4 != 0) == pf
            &&& c & !0xC4 == word & !0xC4
        }),
        ({
            let g = if word & 1 != 0 { f | 1 } else { f & !1 };
            &&& g & 1 == word & 1
            &&& g & 0x40 == f & 0x40
            &&& g & 0x80 == f & 0x80
            &&& g & 4 == f & 4
            &&& g & 0x800 == f & 0x800
            &&& g & !0x8D5 == f & !0x8D5
        }),
        ({
            let a = if sf { word | 1 } else { word & !1 };
            let b = if zf { a | 0x800 } else { a & !0x800 };
            &&& (b & 1 != 0) == sf
            &&& (b & 0x800 != 0) == zf
            &&& b & !0x801 == word & !0x801
        }),
        !v == 0xFFFF_FFFF_FFFF_FFFF - v,
{
}

/// The flags of a shift put one after another, and signed numbers taken as
/// unsigned ones.
proof fn lemma_shift_flags(
    word: u32,
    sf: bool,
    zf: bool,
    pf: bool,
    cf: bool,
    of: bool,
    x: i64,
    y: i16,
)
    by (bit_vector)
    ensures
        ({
            let z = if cf { word | 1 } else { word & !1 };
            let a = if sf { z | 0x80 } else { z & !0x80 };
            let b = if zf { a | 0x40 } else { a & !0x40 };
            let c = if pf { b | 4 } else { b & !4 };
            let f = if of { c | 0x800 } else { c & !0x800 };
            &&& (f & 1 != 0) == cf
            &&& (f & 0x800 != 0) == of
            &&& (f & 0x40 != 0) == zf
            &&& (f & 0x80 != 0) == sf
            &&& (f & 4 != 0) == pf
            &&& f & !0x8C5 == word & !0x8C5
        }),
        (x & 1 != 0) == (x % 2 == 1),
        x >= 0 ==> x as u64 == x,
        x < 0 ==> x as u64 == x + 0x1_0000_0000_0000_0000u128,
        ((if sf { 1u32 } else { 0u32 }) | (if zf { 2u32 } else { 0u32 }) | (if pf {
            4u32
        } else {
            0u32
        }) | (if cf { 16u32 } else { 0u32 })) == (if sf { 1u32 } else { 0u32 }) + (if zf {
            2u32
        } else {
            0u32
        }) + (if pf { 4u32 } else { 0u32 }) + (if cf { 16u32 } else { 0u32 }),
        (word | 0x20) & 0x20 == 0x20,
        (word | 0x60) & 0x60 == 0x60,
        x as u32 == (x as u64) as u32,
        x as u16 == (x as u64) as u16,
        y >= 0 ==> y as u16 == y,
        y < 0 ==> y as u16 == y + 0x1_0000u32,
{
}

/// The order of two parts put together does not matter.
pub(crate) proof fn lemma_swapped_or(u: u64, v: u64)
    ensures
        u | v == v | u,
{
    lemma_wide(u, v, 0, 0, 0, 0, 0, 0, 0, 0, 0, 0);
}

/// A word with its low or its high byte replaced.
pub(crate) proof fn lemma_halves(v: u16, b: u8)
    ensures
        (v & 0xFF00) | (b as u16) == v / 0x100 * 0x100 + b,
        (v & 0x00FF) | ((b as u16) << 8) == v % 0x100 + b * 0x100,
{
    lemma_words(v, b);
}

/// VM and RF together.
pub(crate) proof fn lemma_image_masks()
    ensures
        0x2_0000u32 | 0x1_0000u32 == 0x3_0000,
{
    lemma_words(0, 0);
}

/// A character in grey on black.
pub(crate) proof fn lemma_cell(b: u8)
    ensures
        (0x07u16 << 8) | (b as u16) == 0x700 + b,
{
    lemma_words(0, b);
}

/// Nothing is set in zero.
pub(crate) proof fn lemma_zero_line(b: u8)
    ensures
        0u8 & b == 0,
{
    lemma_words(0, b);
}

/// Bits put into a word are in it, and four bits make a sum.
pub(crate) proof fn lemma_marks(u: u64, word: u32, a: bool, b: bool, c: bool, d: bool)
    ensures
        (u | 0x20) & 0x20 == 0x20,
        (u | 0x60) & 0x60 == 0x60,
        0x20u64 | 0x40u64 == 0x60,
        (word | 0x20) & 0x20 == 0x20,
        (word | 0x60) & 0x60 == 0x60,
        ((if a { 1u32 } else { 0u32 }) | (if b { 2u32 } else { 0u32 }) | (if c {
            4u32
        } else {
            0u32
        }) | (if d { 16u32 } else { 0u32 })) == (if a { 1int } else { 0 }) + (if b {
            2int
        } else {
            0
        }) + (if c { 4int } else { 0 }) + (if d { 16int } else { 0 }),
{
    lemma_wide(u, 0, 0, 0, 0, 0, 0, 0, 0, 0, 0, 0);
    lemma_shift_flags(word, a, b, c, d, false, 0, 0);
}

/// The lowest four bits of a quad word, and its upper half.
pub(crate) proof fn lemma_nibble(u: u64)
    ensures
        u & 0xF == u % 16,
        (u >> 32) as u32 == u / 0x1_0000_0000,
{
    lemma_wide(u, 0, 0, 0, 0, 0, 0, 0, 0, 0, 0, 0);
}

/// The words of the upper half of a quad word.
pub(crate) proof fn lemma_upper_words(u: u64)
    ensures
        (u >> 32) & 0xFFFF == u / 0x1_0000_0000 % 0x1_0000,
        (u >> 48) & 0xFFFF == u / 0x1_0000_0000_0000,
{
    lemma_wide(u, 0, 0, 0, 0, 0, 0, 0, 0, 0, 0, 0);
}

/// A register number is its own low four bits.
pub(crate) proof fn lemma_index(b: u8)
    requires
        b < 16,
    ensures
        b & 15 == b,
{
    lemma_fields8(b);
}

/// The low parts of a quad word.
pub(crate) proof fn lemma_narrow(v: u64)
    ensures
        v as u8 == v % 0x100,
        v as u16 == v % 0x1_0000,
        v as u32 == v % 0x1_0000_0000,
{
    lemma_fields64(v, 0);
}

/// A displacement taken as unsigned.
pub(crate) proof fn lemma_displacement(x: i64, y: i16)
    ensures
        x as u64 == x as int % 0x1_0000_0000_0000_0000,
        x as u32 == x as int % 0x1_0000_0000,
        x as u16 == x as int % 0x1_0000,
        y as u16 == y as int % 0x1_0000,
{
    lemma_shift_flags(0, false, false, false, false, false, x, y);
    lemma_narrow(x as u64);
    vstd::arithmetic::div_mod::lemma_mod_multiples_vanish(
        0x1_0000_0000,
        x as int,
        0x1_0000_0000,
    );
    vstd::arithmetic::div_mod::lemma_mod_multiples_vanish(0x1_0000_0000_0000, x as int, 0x1_0000);
    vstd::arithmetic::div_mod::lemma_mod_multiples_vanish(
        1,
        x as int,
        0x1_0000_0000_0000_0000,
    );
    vstd::arithmetic::div_mod::lemma_mod_multiples_vanish(1, y as int, 0x1_0000);
}

pub(crate) proof fn lemma_shift_bits(word: u32, sf: bool, zf: bool, pf: bool, cf: bool, of: bool)
    ensures
        ({
            let z = if cf { word | 1 } else { word & !1 };
            let a = if sf { z | 0x80 } else { z & !0x80 };
            let b = if zf { a | 0x40 } else { a & !0x40 };
            let c = if pf { b | 4 } else { b & !4 };
            let f = if of { c | 0x800 } else { c & !0x800 };
            &&& (f & 1 != 0) == cf
            &&& (f & 0x800 != 0) == of
            &&& (f & 0x40 != 0) == zf
            &&& (f & 0x80 != 0) == sf
            &&& (f & 4 != 0) == pf
            &&& f & !0x8C5 == word & !0x8C5
        }),
{
    lemma_shift_flags(word, sf, zf, pf, cf, of, 0, 0);
}

/// Is a signed number odd?
pub(crate) proof fn lemma_odd(x: i64)
    ensures
        (x & 1 != 0) == (x as int % 2 == 1),
{
    lemma_shift_flags(0, false, false, false, false, false, x, 0);
}

/// Carry and overflow put one after the other.
pub(crate) proof fn lemma_two_flags(word: u32, cf: bool, of: bool)
    ensures
        ({
            let a = if cf { word | 1 } else { word & !1 };
            let b = if of { a | 0x800 } else { a & !0x800 };
            &&& (b & 1 != 0) == cf
            &&& (b & 0x800 != 0) == of
            &&& b & !0x801 == word & !0x801
        }),
{
    lemma_flag_words(word, 0, cf, of, false, 0);
}

pub(crate) proof fn lemma_logic_bits(word: u32, sf: bool, zf: bool, pf: bool)
    ensures
        ({
            let a = if sf { word | 0x80 } else { word & !0x80 };
            let b = if zf { a | 0x40 } else { a & !0x40 };
            let c = if pf { b | 4 } else { b & !4 };
            let g = (c & !1) & !0x800;
            &&& g & 1 == 0
            &&& g & 0x800 == 0
            &&& g & 0x10 == word & 0x10
            &&& (g & 0x40 != 0) == zf
            &&& (g & 0x80 != 0) == sf
            &&& (g & 4 != 0) == pf
            &&& g & !0x8D5 == word & !0x8D5
        }),
{
    lemma_flag_words(word, 0, sf, zf, pf, 0);
}

/// Sign, zero and parity put one after another.
pub(crate) proof fn lemma_result_bits(word: u32, sf: bool, zf: bool, pf: bool)
    ensures
        ({
            let a = if sf { word | 0x80 } else { word & !0x80 };
            let b = if zf { a | 0x40 } else { a & !0x40 };
            let c = if pf { b | 4 } else { b & !4 };
            &&& c & 1 == word & 1
            &&& c & 0x800 == word & 0x800
            &&& c & 0x10 == word & 0x10
            &&& (c & 0x40 != 0) == zf
            &&& (c & 0x80 != 0) == sf
            &&& (c & 4 != 0) == pf
            &&& c & !0xC4 == word & !0xC4
        }),
{
    lemma_flag_words(word, 0, sf, zf, pf, 0);
}

/// The carry of one flags word put into another.
pub(crate) proof fn lemma_carry_kept(word: u32, f: u32)
    ensures
        ({
            let g = if word & 1 != 0 { f | 1 } else { f & !1 };
            &&& g & 1 == word & 1
            &&& g & 0x40 == f & 0x40
            &&& g & 0x80 == f & 0x80
            &&& g & 4 == f & 4
            &&& g & 0x800 == f & 0x800
            &&& g & !0x8D5 == f & !0x8D5
        }),
{
    lemma_flag_words(word, f, false, false, false, 0);
}

/// A complement is a difference.
pub(crate) proof fn lemma_complement(v: u64)
    ensures
        !v == 0xFFFF_FFFF_FFFF_FFFF - v,
{
    lemma_flag_words(0, 0, false, false, false, v);
}

/// Sign extension, unsigned and signed.
pub(crate) proof fn lemma_extended(b: u8, h: u16, d: u32)
    by (bit_vector)
    ensures
        ((d as i32) as i64) as u64 == if d < 0x8000_0000 {
            d as u64
        } else {
            (d as u64) | 0xFFFF_FFFF_0000_0000
        },
        d >= 0x8000_0000 ==> (d as u64) | 0xFFFF_FFFF_0000_0000 == d + 0xFFFF_FFFF_0000_0000u64,
        ((b as i8) as i32) as u32 == if b < 0x80 { b as u32 } else { (b as u32) | 0xFFFF_FF00 },
        b >= 0x80 ==> (b as u32) | 0xFFFF_FF00 == b + 0xFFFF_FF00u32,
        ((b as i8) as i16) as u16 == if b < 0x80 { b as u16 } else { (b as u16) | 0xFF00 },
        b >= 0x80 ==> (b as u16) | 0xFF00 == b + 0xFF00u16,
        ((b as i8) as i64) as u64 == if b < 0x80 {
            b as u64
        } else {
            (b as u64) | 0xFFFF_FFFF_FFFF_FF00
        },
        b >= 0x80 ==> (b as u64) | 0xFFFF_FFFF_FFFF_FF00 == b + 0xFFFF_FFFF_FFFF_FF00u64,
        ((h as i16) as i32) as u32 == if h < 0x8000 { h as u32 } else { (h as u32) | 0xFFFF_0000 },
        h >= 0x8000 ==> (h as u32) | 0xFFFF_0000 == h + 0xFFFF_0000u32,
        ((h as i16) as i64) as u64 == if h < 0x8000 {
            h as u64
        } else {
            (h as u64) | 0xFFFF_FFFF_FFFF_0000
        },
        h >= 0x8000 ==> (h as u64) | 0xFFFF_FFFF_FFFF_0000 == h + 0xFFFF_FFFF_FFFF_0000u64,
        b as i8 == if b < 0x80 { b as int } else { b - 0x100 },
        h as i16 == if h < 0x8000 { h as int } else { h - 0x1_0000 },
        d as i32 == if d < 0x8000_0000 { d as int } else { d - 0x1_0000_0000 },
{
}

} // verus!
