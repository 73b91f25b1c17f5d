//! Conversions between IEEE formats and integers, on bit patterns.
//!
//! The x87 registers hold the bits of doubles; loads and stores of singles and
//! integers convert. Everything here is integer arithmetic on sign, exponent
//! and fraction.

use crate::instructions::shift::mask_w;
use vstd::prelude::*;

verus! {

/// The fraction bits of a double.
pub const FRACTION: u64 = 0xF_FFFF_FFFF_FFFF;

/// The leading one that a normal double's fraction leaves out.
pub const HIDDEN: u64 = 0x10_0000_0000_0000;

/// The exponent field of a double.
pub open spec fn exponent(b: u64) -> u64 {
    (b >> 52) & 0x7FF
}

/// `m` shifted right by `k` places, rounded to nearest, ties to even.
pub open spec fn rounded(m: u64, k: u32) -> u64 {
    let q = m >> k;
    let r = m & crate::instructions::shift::ones(k);
    let half = 1u64 << ((k - 1) as u32);
    if r > half || (r == half && q & 1 != 0) { q.wrapping_add(1) } else { q }
}

/// A single as a double.
#[verifier::opaque]
pub open spec fn widened(b: u32) -> u64 {
    let sign = ((b >> 31) as u64) << 63;
    let e = ((b >> 23) & 0xFF) as u64;
    let f = (b & 0x7F_FFFF) as u64;
    if e == 0xFF {
        sign | 0x7FF0_0000_0000_0000 | (f << 29) | (if f != 0 { 0x8_0000_0000_0000u64 } else { 0 })
    } else if e != 0 {
        sign | (e.wrapping_add(896) << 52) | (f << 29)
    } else if f == 0 {
        sign
    } else {
        let h = crate::instructions::arith::highest_set(f, 64);
        sign | (((h + 874) as u64) << 52) | ((f << ((52 - h) as u32)) & FRACTION)
    }
}

/// A double as the nearest single.
#[verifier::opaque]
pub open spec fn narrowed(b: u64) -> u32 {
    let sign = ((b >> 63) as u32) << 31;
    let e = exponent(b);
    let f = b & FRACTION;
    if e == 0x7FF && f != 0 {
        sign | 0x7FC0_0000 | ((f >> 29) as u32)
    } else if e >= 1151 {
        sign | 0x7F80_0000
    } else if e > 896 {
        sign | (rounded((((e - 896) as u64) << 52) | f, 29) as u32)
    } else if e >= 871 {
        sign | (rounded(HIDDEN | f, (926 - e) as u32) as u32)
    } else {
        sign
    }
}

/// A double rounded toward zero to an integer, saturating; NaN is zero.
#[verifier::opaque]
pub open spec fn truncated(b: u64) -> int {
    let negative = b >> 63 != 0;
    let e = exponent(b);
    let f = b & FRACTION;
    if e == 0x7FF && f != 0 {
        0
    } else if e < 1023 {
        0
    } else if e >= 1054 {
        if negative { -0x8000_0000 } else { 0x7FFF_FFFF }
    } else {
        let m = (HIDDEN | f) >> ((1075 - e) as u32);
        if negative { -(m as int) } else { m as int }
    }
}

/// An integer as a double, which is exact.
#[verifier::opaque]
pub open spec fn of_int(v: int) -> u64 {
    let m = (if v < 0 { -v } else { v }) as u64;
    let sign: u64 = if v < 0 { 0x8000_0000_0000_0000 } else { 0 };
    if v == 0 {
        0
    } else {
        let h = crate::instructions::arith::highest_set(m, 64);
        sign | (((h + 1023) as u64) << 52) | ((m << ((52 - h) as u32)) & FRACTION)
    }
}

proof fn lemma_exponent(b: u64)
    ensures
        (b >> 52u64) & 0x7FFu64 <= 0x7FF,
{
    crate::bits::lemma_masks();
}

/// The integer bits of a double below two to the 31st.
proof fn lemma_small(f: u64, s: u32)
    by (bit_vector)
    ensures
        22 <= s && s <= 52 ==> ((0x10_0000_0000_0000u64 | (f & 0xF_FFFF_FFFF_FFFFu64)) >> s)
            <= 0x7FFF_FFFF,
{
}

/// A number's highest bit is below any power of two above it.
pub proof fn lemma_highest(v: u64, end: u32, k: u32)
    requires
        end <= 64,
        k < 64,
        v >> k == 0,
    ensures
        crate::instructions::arith::highest_set(v, end) <= k,
    decreases end,
{
    if end > 0 {
        let i = (end - 1) as u32;
        if i > k {
            assert((v >> i) & 1 == 0) by (bit_vector)
                requires
                    v >> k == 0,
                    i > k,
                    i < 64,
            ;
        }
        lemma_highest(v, i, k);
    }
}

fn round_shift(m: u64, k: u32) -> (r: u64)
    requires
        1 <= k < 64,
    ensures
        r == rounded(m, k),
{
    let q: u64 = m >> k;
    let r: u64 = m & mask_w(k);
    let half: u64 = 1u64 << (k - 1);
    if r > half || (r == half && q & 1 != 0) {
        q.wrapping_add(1)
    } else {
        q
    }
}

/// Widen a single's bits to a double's.
pub fn widen(b: u32) -> (r: u64)
    ensures
        r == widened(b),
{
    proof {
        reveal(widened);
    }
    let sign: u64 = ((b >> 31) as u64) << 63;
    let e: u64 = ((b >> 23) & 0xFF) as u64;
    let f: u64 = (b & 0x7F_FFFF) as u64;
    if e == 0xFF {
        let quiet: u64 = if f != 0 {
            0x8_0000_0000_0000
        } else {
            0
        };
        sign | 0x7FF0_0000_0000_0000 | (f << 29) | quiet
    } else if e != 0 {
        sign | (e.wrapping_add(896) << 52) | (f << 29)
    } else if f == 0 {
        sign
    } else {
        let h: u32 = crate::instructions::arith::scan_reverse(f);
        assert((((b & 0x7F_FFFFu32) as u64) >> 23u32) == 0) by (bit_vector);
        proof {
            lemma_highest(f, 64, 23);
        }
        sign | (((h + 874) as u64) << 52) | ((f << (52 - h)) & FRACTION)
    }
}

/// Round a double's bits to a single's.
pub fn narrow(b: u64) -> (r: u32)
    ensures
        r == narrowed(b),
{
    proof {
        reveal(narrowed);
        lemma_exponent(b);
    }
    let sign: u32 = ((b >> 63) as u32) << 31;
    let e: u64 = (b >> 52) & 0x7FF;
    let f: u64 = b & FRACTION;
    if e == 0x7FF && f != 0 {
        sign | 0x7FC0_0000 | ((f >> 29) as u32)
    } else if e >= 1151 {
        sign | 0x7F80_0000
    } else if e > 896 {
        sign | (round_shift(((e - 896) << 52) | f, 29) as u32)
    } else if e >= 871 {
        sign | (round_shift(HIDDEN | f, (926 - e) as u32) as u32)
    } else {
        sign
    }
}

/// Convert a double's bits to an integer, toward zero.
pub fn to_int(b: u64) -> (r: i32)
    ensures
        r == truncated(b),
{
    proof {
        reveal(truncated);
        lemma_exponent(b);
    }
    let negative = b >> 63 != 0;
    let e: u64 = (b >> 52) & 0x7FF;
    let f: u64 = b & FRACTION;
    if e == 0x7FF && f != 0 {
        0
    } else if e < 1023 {
        0
    } else if e >= 1054 {
        if negative {
            i32::MIN
        } else {
            i32::MAX
        }
    } else {
        let s: u32 = (1075 - e) as u32;
        proof {
            lemma_small(b, s);
        }
        let m: u64 = (HIDDEN | f) >> s;
        if negative {
            -(m as i32)
        } else {
            m as i32
        }
    }
}

/// Convert an integer to a double's bits.
pub fn from_int(v: i32) -> (r: u64)
    ensures
        r == of_int(v as int),
{
    proof {
        reveal(of_int);
    }
    let sign: u64 = if v < 0 {
        0x8000_0000_0000_0000
    } else {
        0
    };
    let m: u64 = (if v < 0 {
        -(v as i64)
    } else {
        v as i64
    }) as u64;
    if v == 0 {
        return 0;
    }
    let h: u32 = crate::instructions::arith::scan_reverse(m);
    assert(m <= 0x8000_0000u64);
    assert(m >> 32u32 == 0) by (bit_vector)
        requires
            m <= 0x8000_0000u64,
    ;
    proof {
        lemma_highest(m, 64, 32);
    }
    sign | (((h + 1023) as u64) << 52) | ((m << (52 - h)) & FRACTION)
}

} // verus!
