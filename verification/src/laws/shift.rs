//! Laws of the shifts: what they are as arithmetic, and which rotates undo
//! each other.

use crate::cpu::flags;
use crate::instructions::alu::{modulus, signed, Outcome};
use crate::instructions::shift::{
    effective, extend, least, ones, rcl_step, rcr_step, rotated65, rotated_carry, rotated_wide,
    shifted,
};
use crate::instructions::ShiftOp;
use crate::laws::arith::is_width;
use vstd::arithmetic::power2::{lemma2_to64, lemma_pow2_pos, lemma_pow2_unfold, pow2};
use vstd::prelude::*;

verus! {

/// Shifts one place at a time, and masks as remainders.
pub(crate) proof fn lemma_places(v: u64, x: i64, n: u32)
    by (bit_vector)
    ensures
        v << 0u32 == v,
        v >> 0u32 == v,
        x >> 0i64 == x,
        n < 63 && v << n < 0x8000_0000_0000_0000 ==> v << ((n + 1) as u32) == 2 * (v << n),
        n < 63 && v << n >= 0x8000_0000_0000_0000 ==> (v << ((n + 1) as u32))
            + 0x1_0000_0000_0000_0000 == 2 * (v << n),
        n < 63 ==> 2 * (v >> ((n + 1) as u32)) <= v >> n,
        n < 63 ==> v >> n < 2 * (v >> ((n + 1) as u32)) + 2,
        n < 63 ==> 2 * (x >> ((n + 1) as i64)) <= x >> (n as i64),
        n < 63 ==> x >> (n as i64) < 2 * (x >> ((n + 1) as i64)) + 2,
        v & 0xFF == v % 0x100,
        v & 0xFFFF == v % 0x1_0000,
        v & 0xFFFF_FFFF == v % 0x1_0000_0000,
        v & 0xFFFF_FFFF_FFFF_FFFF == v,
        (1u64 << 8u32) == 0x100,
        (1u64 << 16u32) == 0x1_0000,
        (1u64 << 32u32) == 0x1_0000_0000,
        n & 0x3F < 64,
        n & 0x1F < 32,
{
}

/// A shift or rotate by a count whose effective part is zero changes nothing,
/// flags included. The effective part is five bits, or six at 64 bits.
pub proof fn law_zero_count_shifts_nothing(op: ShiftOp, word: u32, v: u64, count: u32, w: u32)
    requires
        is_width(w),
        count % (if w == 64 { 64u32 } else { 32u32 }) == 0,
    ensures
        shifted(op, word, v, count, w) == (Outcome { value: v, flags: word }),
{
    reveal(shifted);
    lemma_rotates(0, count);
}

/// The low bits of a value, as a remainder.
proof fn lemma_low(v: u64, w: u32)
    requires
        is_width(w),
    ensures
        v & ones(w) == v as int % modulus(w),
{
    lemma_places(v, 0, 0);
}

/// A left shift multiplies, as far as there are bits.
pub(crate) proof fn lemma_left(v: u64, n: u32)
    requires
        n < 64,
    ensures
        v << n == (v * pow2(n as nat)) % 0x1_0000_0000_0000_0000,
    decreases n,
{
    lemma2_to64();
    if n == 0 {
        lemma_places(v, 0, 0);
    } else {
        let k = (n - 1) as u32;
        lemma_left(v, k);
        lemma_places(v, 0, k);
        lemma_pow2_unfold(n as nat);
        let a = v * pow2(k as nat);
        assert(v * pow2(n as nat) == 2 * a) by (nonlinear_arith)
            requires
                pow2(n as nat) == 2 * pow2(k as nat),
                a == v * pow2(k as nat),
        ;
    }
}

/// A right shift divides.
pub(crate) proof fn lemma_right(v: u64, n: u32)
    requires
        n < 64,
    ensures
        v >> n == v as int / pow2(n as nat) as int,
    decreases n,
{
    lemma2_to64();
    lemma_places(v, 0, 0);
    if n == 0 {
        vstd::arithmetic::div_mod::lemma_div_basics(v as int);
    } else {
        let k = (n - 1) as u32;
        assert((k + 1) as u32 == n && k as nat + 1 == n as nat);
        lemma_right(v, k);
        lemma_places(v, 0, k);
        lemma_halve(v as int, k as nat);
    }
}

/// A signed right shift divides, towards minus infinity.
proof fn lemma_right_signed(x: i64, n: u32)
    requires
        n < 64,
    ensures
        x >> n == x as int / pow2(n as nat) as int,
    decreases n,
{
    lemma2_to64();
    lemma_places(0, x, 0);
    if n == 0 {
        vstd::arithmetic::div_mod::lemma_div_basics(x as int);
    } else {
        let k = (n - 1) as u32;
        assert((k + 1) as u32 == n && k as nat + 1 == n as nat);
        lemma_right_signed(x, k);
        lemma_places(0, x, k);
        lemma_halve(x as int, k as nat);
    }
}

/// Dividing by two to the `k` and then by two.
proof fn lemma_halve(x: int, k: nat)
    ensures
        x / pow2(k + 1) as int == (x / pow2(k) as int) / 2,
{
    lemma_pow2_unfold(k + 1);
    lemma_pow2_pos(k);
    let p = pow2(k) as int;
    let q = x / p;
    let r = x % p;
    vstd::arithmetic::div_mod::lemma_fundamental_div_mod(x, p);
    vstd::arithmetic::div_mod::lemma_mod_bound(x, p);
    assert(x == (q / 2) * (2 * p) + (p * (q % 2) + r) && 0 <= p * (q % 2) + r < 2 * p)
        by (nonlinear_arith)
        requires
            x == p * q + r,
            q == 2 * (q / 2) + q % 2,
            0 <= q % 2 < 2,
            0 <= r < p,
    ;
    vstd::arithmetic::div_mod::lemma_fundamental_div_mod_converse(
        x,
        2 * p,
        q / 2,
        p * (q % 2) + r,
    );
}

/// SHL multiplies by a power of two; what does not fit is lost.
pub proof fn law_shl_multiplies(word: u32, v: u64, count: u32, w: u32)
    requires
        is_width(w),
        v < modulus(w),
    ensures
        shifted(ShiftOp::Shl, word, v, count, w).value == (v * pow2(
            effective(count, w) as nat,
        )) % modulus(w),
{
    reveal(shifted);
    reveal(crate::instructions::shift::shl);
    let n = effective(count, w);
    lemma_places(0, 0, count);
    lemma_low(v, w);
    lemma_left(v, n);
    lemma_low(v << n, w);
    lemma2_to64();
    let p = v * pow2(n as nat);
    if w == 8 {
        vstd::arithmetic::div_mod::lemma_mod_mod(p, 0x100, 0x100_0000_0000_0000);
    } else if w == 16 {
        vstd::arithmetic::div_mod::lemma_mod_mod(p, 0x1_0000, 0x1_0000_0000_0000);
    } else if w == 32 {
        vstd::arithmetic::div_mod::lemma_mod_mod(p, 0x1_0000_0000, 0x1_0000_0000);
    }
    assert(v as int % modulus(w) == v);
    if n == 0 {
        assert(p == v) by (nonlinear_arith)
            requires
                p == v * pow2(0),
                pow2(0) == 1,
        ;
    }
}

/// SHR divides by a power of two.
pub proof fn law_shr_divides(word: u32, v: u64, count: u32, w: u32)
    requires
        is_width(w),
        v < modulus(w),
    ensures
        shifted(ShiftOp::Shr, word, v, count, w).value == v as int / pow2(
            effective(count, w) as nat,
        ) as int,
{
    reveal(shifted);
    reveal(crate::instructions::shift::shr);
    let n = effective(count, w);
    lemma_places(0, 0, count);
    lemma_low(v, w);
    lemma_right(v, n);
    lemma2_to64();
    if n >= w {
        lemma_past(v as int, n, w);
    }
    lemma_places(v, 0, 0);
}

/// A number below two to the `w` divided by a larger power of two.
proof fn lemma_past(x: int, n: u32, w: u32)
    requires
        is_width(w),
        w <= n < 64,
        0 <= x < modulus(w),
    ensures
        x / pow2(n as nat) as int == 0,
{
    lemma2_to64();
    if n > w {
        vstd::arithmetic::power2::lemma_pow2_strictly_increases(w as nat, n as nat);
    }
    vstd::arithmetic::div_mod::lemma_basic_div(x, pow2(n as nat) as int);
}

/// Two's complement at every width, one way and back.
pub(crate) proof fn lemma_signs(v: u64, x: i64)
    by (bit_vector)
    ensures
        v < 0x80 ==> ((v as u8) as i8) as i64 == v,
        0x80 <= v && v < 0x100 ==> (((v as u8) as i8) as i64) + 0x100 == v,
        v < 0x8000 ==> ((v as u16) as i16) as i64 == v,
        0x8000 <= v && v < 0x1_0000 ==> (((v as u16) as i16) as i64) + 0x1_0000 == v,
        v < 0x8000_0000 ==> ((v as u32) as i32) as i64 == v,
        0x8000_0000 <= v && v < 0x1_0000_0000 ==> (((v as u32) as i32) as i64) + 0x1_0000_0000
            == v,
        v < 0x8000_0000_0000_0000 ==> v as i64 == v,
        0x8000_0000_0000_0000 <= v ==> (v as i64) + 0x1_0000_0000_0000_0000 == v,
        0 <= x && x < 0x80 ==> (x as u64) & 0xFF == x,
        -0x80 <= x && x < 0 ==> (x as u64) & 0xFF == x + 0x100,
        0 <= x && x < 0x8000 ==> (x as u64) & 0xFFFF == x,
        -0x8000 <= x && x < 0 ==> (x as u64) & 0xFFFF == x + 0x1_0000,
        0 <= x && x < 0x8000_0000 ==> (x as u64) & 0xFFFF_FFFF == x,
        -0x8000_0000 <= x && x < 0 ==> (x as u64) & 0xFFFF_FFFF == x + 0x1_0000_0000,
        0 <= x ==> (x as u64) & 0xFFFF_FFFF_FFFF_FFFF == x,
        x < 0 ==> (x as u64) & 0xFFFF_FFFF_FFFF_FFFF == x + 0x1_0000_0000_0000_0000,
{
}

/// Floor division by a power of two: it keeps the sign and does not grow, and
/// past the width only the sign is left.
proof fn lemma_floor(x: int, j: nat)
    ensures
        x >= 0 ==> 0 <= x / (pow2(j) as int) <= x,
        x < 0 ==> x <= x / (pow2(j) as int) < 0,
        0 <= x < pow2(j) ==> x / (pow2(j) as int) == 0,
        -pow2(j) <= x < 0 ==> x / (pow2(j) as int) == -1,
{
    lemma_pow2_pos(j);
    let p = pow2(j) as int;
    let q = x / p;
    let r = x % p;
    vstd::arithmetic::div_mod::lemma_fundamental_div_mod(x, p);
    vstd::arithmetic::div_mod::lemma_mod_bound(x, p);
    assert((x >= 0 ==> 0 <= q <= x) && (x < 0 ==> x <= q < 0)) by (nonlinear_arith)
        requires
            x == p * q + r,
            0 <= r < p,
            p >= 1,
    ;
    if 0 <= x < p {
        vstd::arithmetic::div_mod::lemma_fundamental_div_mod_converse(x, p, 0, x);
    }
    if -p <= x < 0 {
        vstd::arithmetic::div_mod::lemma_fundamental_div_mod_converse(x, p, -1, x + p);
    }
}

/// SAR divides a signed number by a power of two, rounding towards minus
/// infinity.
pub proof fn law_sar_divides_signed(word: u32, v: u64, count: u32, w: u32)
    requires
        is_width(w),
        v < modulus(w),
    ensures
        signed(shifted(ShiftOp::Sar, word, v, count, w).value, w) == signed(v, w) / pow2(
            effective(count, w) as nat,
        ) as int,
{
    reveal(shifted);
    reveal(crate::instructions::shift::sar);
    let n = effective(count, w);
    lemma_places(0, 0, count);
    lemma_low(v, w);
    lemma_signs(v, 0);
    lemma2_to64();
    let x = extend(v, w);
    assert(x == signed(v, w));
    let k = least(n, (w - 1) as u32);
    lemma_right_signed(x, k);
    lemma_floor(x as int, k as nat);
    lemma_floor(x as int, n as nat);
    if n > k {
        vstd::arithmetic::power2::lemma_pow2_strictly_increases(k as nat, n as nat);
    }
    let y = x >> k;
    lemma_signs(0, y);
    lemma_places(0, 0, 0);
    if n == 0 {
        vstd::arithmetic::div_mod::lemma_div_basics(x as int);
    }
}

// ---- Rotates ----

/// A rotate forth and back at each width, and the masks of a count.
proof fn lemma_rotates(v: u64, k: u32)
    by (bit_vector)
    ensures
        v < 0x100 && 0 < k < 8 ==> {
            let r = ((v << k) | (v >> ((8 - k) as u32))) & 0xFF;
            r < 0x100 && ((r >> k) | (r << ((8 - k) as u32))) & 0xFF == v
        },
        v < 0x1_0000 && 0 < k < 16 ==> {
            let r = ((v << k) | (v >> ((16 - k) as u32))) & 0xFFFF;
            r < 0x1_0000 && ((r >> k) | (r << ((16 - k) as u32))) & 0xFFFF == v
        },
        v < 0x1_0000_0000 && 0 < k < 32 ==> {
            let r = ((v << k) | (v >> ((32 - k) as u32))) & 0xFFFF_FFFF;
            r < 0x1_0000_0000 && ((r >> k) | (r << ((32 - k) as u32))) & 0xFFFF_FFFF == v
        },
        0 < k < 64 ==> {
            let r = ((v << k) | (v >> ((64 - k) as u32))) & 0xFFFF_FFFF_FFFF_FFFF;
            ((r >> k) | (r << ((64 - k) as u32))) & 0xFFFF_FFFF_FFFF_FFFF == v
        },
        v < 0x100 && 0 < k < 8 ==> ((v << k) | (v >> ((8 - k) as u32))) & 0xFF == ((v << k) & 0xFF) + (
        v >> ((8 - k) as u32)),
        v < 0x1_0000 && 0 < k < 16 ==> ((v << k) | (v >> ((16 - k) as u32))) & 0xFFFF == ((v << k)
            & 0xFFFF) + (v >> ((16 - k) as u32)),
        v < 0x1_0000_0000 && 0 < k < 32 ==> ((v << k) | (v >> ((32 - k) as u32))) & 0xFFFF_FFFF
            == ((v << k) & 0xFFFF_FFFF) + (v >> ((32 - k) as u32)),
        0 < k < 64 ==> ((v << k) | (v >> ((64 - k) as u32))) & 0xFFFF_FFFF_FFFF_FFFF == ((v << k)
            & 0xFFFF_FFFF_FFFF_FFFF) + (v >> ((64 - k) as u32)),
        (1u64 << 8u32) == 0x100,
        (1u64 << 16u32) == 0x1_0000,
        (1u64 << 32u32) == 0x1_0000_0000,
        v < 0x100 ==> v & 0xFF == v,
        v < 0x1_0000 ==> v & 0xFFFF == v,
        v < 0x1_0000_0000 ==> v & 0xFFFF_FFFF == v,
        v & 0xFFFF_FFFF_FFFF_FFFF == v,
        k & 0x3F == k % 64,
        k & 0x1F == k % 32,
{
}

/// A rotate right undoes a rotate left by the same count, at every width.
pub proof fn law_ror_undoes_rol(word: u32, other: u32, v: u64, count: u32, w: u32)
    requires
        is_width(w),
        v < modulus(w),
    ensures
        ({
            let r = shifted(ShiftOp::Rol, word, v, count, w).value;
            shifted(ShiftOp::Ror, other, r, count, w).value == v
        }),
{
    reveal(shifted);
    reveal(crate::instructions::shift::rol);
    reveal(crate::instructions::shift::ror);
    lemma_places(0, 0, count);
    let n = effective(count, w);
    lemma_rotates(v, n % w);
    let r = shifted(ShiftOp::Rol, word, v, count, w).value;
    lemma_rotates(r, n % w);
}

/// A rotate right through carry undoes one left, below 64 bits.
proof fn lemma_rotates_back(v: u64, carry: bool, k: u32, w: u32)
    by (bit_vector)
    requires
        w == 8 || w == 16 || w == 32,
        k <= w,
        v <= ones(w),
    ensures
        ({
            let r = rotated_wide(v, carry, k, w, true);
            let back = rotated_wide(r & ones(w), (r >> w) & 1 != 0, k, w, false);
            &&& back & ones(w) == v
            &&& ((back >> w) & 1 != 0) == carry
            &&& (r & ones(w)) & ones(w) == r & ones(w)
        }),
        ({
            let wide = v | ((if carry { 1u64 } else { 0u64 }) << w);
            let r = rotated_wide(v, carry, k, w, true);
            &&& wide == v + (if carry { 1u64 << w } else { 0u64 })
            &&& k > 0 ==> r == ((wide << k) & ones((w + 1) as u32)) + (wide >> ((w + 1 - k) as u32))
            &&& k == 0 ==> r == wide
            &&& r == (r & ones(w)) + (if (r >> w) & 1 != 0 { 1u64 << w } else { 0u64 })
            &&& (wide << k) & 0x1FF == (wide << k) % 0x200
            &&& (wide << k) & 0x1_FFFF == (wide << k) % 0x2_0000
            &&& (wide << k) & 0x1_FFFF_FFFF == (wide << k) % 0x2_0000_0000
        }),
        1u64 << 8u32 == 0x100,
        1u64 << 16u32 == 0x1_0000,
        1u64 << 32u32 == 0x1_0000_0000,
        ones(9) == 0x1FF,
        ones(17) == 0x1_FFFF,
        ones(33) == 0x1_FFFF_FFFF,
{
}

/// One place forth and back through carry, and the carry in a flags word.
proof fn lemma_carries(v: u64, carry: bool, word: u32, of: bool)
    by (bit_vector)
    ensures
        (v & 1 != 0) == (v % 2 == 1),
        (v & (1u64 << 7u32) != 0) == (v / 0x80 % 2 == 1),
        (v & (1u64 << 15u32) != 0) == (v / 0x8000 % 2 == 1),
        (v & (1u64 << 31u32) != 0) == (v / 0x8000_0000 % 2 == 1),
        (v & (1u64 << 63u32) != 0) == (v / 0x8000_0000_0000_0000 % 2 == 1),
        ({
            let up = (v << 1) | (if carry { 1u64 } else { 0u64 });
            let out = v >> 63 != 0;
            &&& (up >> 1) | ((if out { 1u64 } else { 0u64 }) << 63) == v
            &&& (up & 1 != 0) == carry
            &&& up + (if out { 0x1_0000_0000_0000_0000u128 } else { 0u128 }) == 2 * v + (if carry {
                1u64
            } else {
                0u64
            })
        }),
        ({
            let a = if carry { word | 1 } else { word & !1 };
            let b = if of { a | 0x800 } else { a & !0x800 };
            (b & 1 != 0) == carry
        }),
{
}

/// Taking `j` of `k` places back.
proof fn lemma_back(x: (u64, bool), k: int, j: int)
    requires
        0 <= j <= k,
    ensures
        rotated65(rotated65(x, k, true), j, false) == rotated65(x, k - j, true),
    decreases j,
{
    if j > 0 {
        lemma_back(x, k, j - 1);
        let y = rotated65(x, k - j, true);
        assert(rotated65(x, k - j + 1, true) == rcl_step(y));
        lemma_carries(y.0, y.1, 0, false);
        assert(rcr_step(rcl_step(y)) == y);
    }
}

/// RCR undoes RCL by the same count: the operand and the carry flag are what
/// they were.
pub proof fn law_rcr_undoes_rcl(word: u32, v: u64, count: u32, w: u32)
    requires
        is_width(w),
        v < modulus(w),
    ensures
        ({
            let a = shifted(ShiftOp::Rcl, word, v, count, w);
            let b = shifted(ShiftOp::Rcr, a.flags, a.value, count, w);
            b.value == v && (b.flags & flags::CF != 0) == (word & flags::CF != 0)
        }),
{
    reveal(shifted);
    reveal(crate::instructions::shift::rc);
    let n = effective(count, w);
    lemma_places(0, 0, count);
    lemma_low(v, w);
    lemma_places(v, 0, 0);
    if n > 0 {
        let k = n % ((w + 1) as u32);
        let carry = word & flags::CF != 0;
        let (r, cf) = rotated_carry(v, carry, k, w, true);
        if w == 64 {
            lemma_back((v, carry), k as int, k as int);
        } else {
            lemma_rotates_back(v, carry, k, w);
        }
        let a = shifted(ShiftOp::Rcl, word, v, count, w);
        let b = shifted(ShiftOp::Rcr, a.flags, a.value, count, w);
        lemma_places(r, 0, 0);
        assert(r & ones(w) == r);
        lemma_carries(0, cf, word, true);
        lemma_carries(0, cf, word, false);
        lemma_carries(0, carry, a.flags, true);
        lemma_carries(0, carry, a.flags, false);
    }
}

// ---- Counts, carries and rotates as arithmetic ----

/// A shift count is taken modulo 32, or modulo 64 at 64 bits.
pub proof fn law_counts_are_taken_modulo_the_word(count: u32, w: u32)
    requires
        is_width(w),
    ensures
        effective(count, w) == count % (if w == 64 { 64u32 } else { 32u32 }),
{
    lemma_rotates(0, count);
}

/// The places a shift moves by.
pub open spec fn places(count: u32, w: u32) -> int {
    count as int % (if w == 64 { 64int } else { 32int })
}

/// Bit `k` of a number.
pub open spec fn bit(v: int, k: int) -> bool {
    k >= 0 && v / pow2(k as nat) as int % 2 == 1
}

/// A bit tested with a shift and a mask.
pub(crate) proof fn lemma_bit(v: u64, k: u32)
    requires
        k < 64,
    ensures
        (v >> k) & 1 != 0 <==> bit(v as int, k as int),
{
    lemma_right(v, k);
    lemma_carries(v >> k, false, 0, false);
}

/// The top bit, tested with a mask.
proof fn lemma_top(v: u64, w: u32)
    requires
        is_width(w),
        v < modulus(w),
    ensures
        v & crate::instructions::shift::top_bit(w) != 0 <==> v >= pow2((w - 1) as nat),
{
    crate::laws::sums::lemma_powers(w);
    lemma_carries(v, false, 0, false);
}

/// The last bit a shift moves out is the carry: SHL moves out bit `w - n`, SHR
/// and SAR bit `n - 1`, the sign once the operand has run out. Overflow is
/// defined for a shift by one: SHL sets it where the sign has changed, SHR where
/// it was set, SAR clears it. The other flags describe the result, and the
/// adjust flag stays.
#[verifier::spinoff_prover]
pub proof fn law_shifts_carry_the_last_bit_out(op: ShiftOp, word: u32, v: u64, count: u32, w: u32)
    requires
        is_width(w),
        v < modulus(w),
        op == ShiftOp::Shl || op == ShiftOp::Shr || op == ShiftOp::Sar,
        places(count, w) != 0,
    ensures
        ({
            let o = shifted(op, word, v, count, w);
            let n = places(count, w);
            let half = pow2((w - 1) as nat) as int;
            let carry = o.flags & 1 != 0;
            &&& carry <==> if op == ShiftOp::Shl {
                n <= w && bit(v as int, w - n)
            } else if n <= w {
                bit(v as int, n - 1)
            } else {
                op == ShiftOp::Sar && v >= half
            }
            &&& o.flags & 0x800 != 0 <==> n == 1 && if op == ShiftOp::Shl {
                (o.value >= half) != carry
            } else {
                op == ShiftOp::Shr && v >= half
            }
            &&& crate::laws::sums::described(o, w)
            &&& o.flags & !0x8C5 == word & !0x8C5
        }),
{
    reveal(shifted);
    reveal(crate::instructions::shift::shl);
    reveal(crate::instructions::shift::shr);
    reveal(crate::instructions::shift::sar);
    reveal(crate::instructions::alu::logic_flags);
    crate::laws::sums::lemma_powers(w);
    law_counts_are_taken_modulo_the_word(count, w);
    let n = effective(count, w);
    lemma_low(v, w);
    let o = shifted(op, word, v, count, w);
    let r = o.value;
    if op == ShiftOp::Shl {
        lemma_low(v << least(n, 63), w);
        lemma_bit(v, (w - least(n, w)) as u32);
        let cf = n <= w && (v >> ((w - least(n, w)) as u32)) & 1 != 0;
        lemma_top(r, w);
        lemma_shift_words(word, r, w, cf, n == 1 && ((r & crate::instructions::shift::top_bit(w) != 0) != cf));
    } else if op == ShiftOp::Shr {
        lemma_bit(v, (n - 1) as u32);
        lemma_right(v, n);
        lemma_quotient(v as int, n);
        lemma_top(v, w);
        let cf = n <= w && (v >> ((n - 1) as u32)) & 1 != 0;
        lemma_shift_words(word, r, w, cf, n == 1 && v & crate::instructions::shift::top_bit(w) != 0);
    } else {
        let x = extend(v, w);
        lemma_signs(v, 0);
        assert(x == signed(v, w));
        let j = least((n - 1) as u32, (w - 1) as u32);
        lemma_low((x >> least(n, (w - 1) as u32)) as u64, w);
        lemma_signed_bit(x, v, j, w);
        let cf = (x >> j) & 1 != 0;
        lemma_shift_words(word, r, w, cf, false);
        if n > w {
            lemma_sign_bit(v as int, w);
        }
    }
    crate::laws::sums::lemma_low_ones(r);
}

/// A quotient is no larger than the number.
proof fn lemma_quotient(x: int, n: u32)
    requires
        x >= 0,
    ensures
        0 <= x / pow2(n as nat) as int <= x,
{
    lemma_floor(x, n as nat);
}

/// The sign bit.
pub(crate) proof fn lemma_sign_bit(v: int, w: u32)
    requires
        is_width(w),
        0 <= v < modulus(w),
    ensures
        bit(v, w - 1) <==> v >= pow2((w - 1) as nat),
{
    crate::laws::sums::lemma_powers(w);
    if w == 8 {
        assert(v / 0x80 % 2 == 1 <==> v >= 0x80);
    } else if w == 16 {
        assert(v / 0x8000 % 2 == 1 <==> v >= 0x8000);
    } else if w == 32 {
        assert(v / 0x8000_0000 % 2 == 1 <==> v >= 0x8000_0000);
    } else {
        assert(v / 0x8000_0000_0000_0000 % 2 == 1 <==> v >= 0x8000_0000_0000_0000);
    }
}

/// A bit of a signed number, tested after a shift.
proof fn lemma_signed_bit(x: i64, v: u64, j: u32, w: u32)
    requires
        is_width(w),
        v < modulus(w),
        x == signed(v, w),
        j < w,
    ensures
        (x >> j) & 1 != 0 <==> bit(v as int, j as int),
{
    lemma_right_signed(x, j);
    crate::laws::sums::lemma_powers(w);
    lemma_odd(x >> j);
    lemma_pow2_pos(j as nat);
    let p = pow2(j as nat) as int;
    if x != v {
        let q = pow2((w - j) as nat) as int;
        vstd::arithmetic::power2::lemma_pow2_adds(j as nat, (w - j) as nat);
        lemma_pow2_unfold((w - j) as nat);
        let half = pow2((w - j - 1) as nat) as int;
        assert(v == x + p * q);
        vstd::arithmetic::div_mod::lemma_hoist_over_denominator(x as int, q, p as nat);
        assert(x + q * p == x + p * q) by (nonlinear_arith);
        assert(v as int / p == x as int / p + q);
        assert((x as int / p + 2 * half) % 2 == x as int / p % 2);
    }
}

/// Is a signed number odd?
proof fn lemma_odd(x: i64)
    ensures
        x & 1 != 0 <==> x as int % 2 == 1,
{
    crate::laws::fields::lemma_odd(x);
}

/// The flags a shift leaves.
proof fn lemma_shift_words(word: u32, r: u64, w: u32, cf: bool, of: bool)
    ensures
        ({
            let f = crate::instructions::shift::shift_flags(word, r, w, cf, of);
            &&& f & 1 != 0 <==> cf
            &&& f & 0x800 != 0 <==> of
            &&& f & 0x40 != 0 <==> r == 0
            &&& f & 0x80 != 0 <==> r >= modulus(w) / 2
            &&& f & 4 != 0 <==> crate::instructions::alu::even_parity(r as u8)
            &&& f & !0x8C5 == word & !0x8C5
        }),
{
    reveal(crate::instructions::alu::logic_flags);
    crate::laws::fields::lemma_shift_bits(
        word,
        r >= modulus(w) / 2,
        r == 0,
        crate::instructions::alu::even_parity(r as u8),
        cf,
        of,
    );
}

/// An operand that fits is its own low part.
proof fn lemma_small(v: u64, w: u32)
    requires
        is_width(w),
        v < modulus(w),
    ensures
        v & ones(w) == v,
{
    lemma_low(v, w);
    vstd::arithmetic::div_mod::lemma_small_mod(v as nat, modulus(w) as nat);
}

/// ROL by `k` places: what is multiplied out at the top comes back at the
/// bottom.
#[verifier::spinoff_prover]
pub proof fn law_rol_brings_the_top_round(word: u32, v: u64, count: u32, w: u32)
    requires
        is_width(w),
        v < modulus(w),
        places(count, w) % (w as int) != 0,
    ensures
        ({
            let o = shifted(ShiftOp::Rol, word, v, count, w);
            let k = places(count, w) % (w as int);
            &&& o.value == (v * pow2(k as nat)) % (pow2(w as nat) as int) + v as int / pow2(
                (w - k) as nat,
            ) as int
            &&& o.flags & 1 != 0 <==> o.value % 2 == 1
        }),
{
    reveal(shifted);
    reveal(crate::instructions::shift::rol);
    crate::laws::sums::lemma_powers(w);
    law_counts_are_taken_modulo_the_word(count, w);
    let n = effective(count, w);
    let k = n % w;
    lemma_low(v, w);
    lemma_rotates(v, k);
    lemma_left(v, k);
    lemma_right(v, (w - k) as u32);
    lemma_low(v << k, w);
    let p = v * pow2(k as nat);
    if w == 8 {
        vstd::arithmetic::div_mod::lemma_mod_mod(p, 0x100, 0x100_0000_0000_0000);
    } else if w == 16 {
        vstd::arithmetic::div_mod::lemma_mod_mod(p, 0x1_0000, 0x1_0000_0000_0000);
    } else if w == 32 {
        vstd::arithmetic::div_mod::lemma_mod_mod(p, 0x1_0000_0000, 0x1_0000_0000);
    }
    let o = shifted(ShiftOp::Rol, word, v, count, w);
    lemma_carries(o.value, false, 0, false);
    let cf = o.value & 1 != 0;
    crate::laws::fields::lemma_two_flags(
        word,
        cf,
        n == 1 && ((o.value & crate::instructions::shift::top_bit(w) != 0) != cf),
    );
}

/// ROR leaves in CF the bit it brought round to the top.
pub proof fn law_ror_carries_the_top(word: u32, v: u64, count: u32, w: u32)
    requires
        is_width(w),
        v < modulus(w),
        places(count, w) != 0,
    ensures
        ({
            let o = shifted(ShiftOp::Ror, word, v, count, w);
            &&& o.value < pow2(w as nat)
            &&& o.flags & 1 != 0 <==> o.value >= pow2((w - 1) as nat)
        }),
{
    reveal(shifted);
    reveal(crate::instructions::shift::ror);
    crate::laws::sums::lemma_powers(w);
    law_counts_are_taken_modulo_the_word(count, w);
    lemma_low(v, w);
    let n = effective(count, w);
    let k = n % w;
    let r = shifted(ShiftOp::Ror, word, v, count, w).value;
    if k != 0 {
        let x = (v >> k) | (v << ((w - k) as u32));
        lemma_low(x, w);
        vstd::arithmetic::div_mod::lemma_mod_bound(x as int, modulus(w));
    }
    lemma_small(v, w);
    lemma_top(r, w);
    let cf = r & crate::instructions::shift::top_bit(w) != 0;
    crate::laws::fields::lemma_two_flags(
        word,
        cf,
        n == 1 && cf != crate::instructions::shift::second_bit(r, w),
    );
}

/// An operand with the carry above it, as one number.
pub open spec fn with_carry(v: int, word: u32, w: u32) -> int {
    v + (if word & 1 != 0 { pow2(w as nat) as int } else { 0 })
}

/// RCL rotates the operand with the carry above it, as one number of `w + 1`
/// bits, by the count modulo `w + 1`.
#[verifier::spinoff_prover]
pub proof fn law_rcl_rotates_through_the_carry(word: u32, v: u64, count: u32, w: u32)
    requires
        w == 8 || w == 16 || w == 32,
        v < modulus(w),
        places(count, w) % (w + 1) != 0,
    ensures
        ({
            let o = shifted(ShiftOp::Rcl, word, v, count, w);
            let k = places(count, w) % (w + 1);
            let x = with_carry(v as int, word, w);
            with_carry(o.value as int, o.flags, w) == (x * pow2(k as nat)) % (2 * pow2(w as nat) as int) + x
                / pow2((w + 1 - k) as nat) as int
        }),
{
    reveal(shifted);
    reveal(crate::instructions::shift::rc);
    crate::laws::sums::lemma_powers(w);
    law_counts_are_taken_modulo_the_word(count, w);
    let n = effective(count, w);
    let k = n % ((w + 1) as u32);
    if n == 0 {
        vstd::arithmetic::div_mod::lemma_small_mod(0, (w + 1) as nat);
    }
    let c = word & flags::CF != 0;
    lemma_low(v, w);
    lemma_places(v, 0, 0);
    assert(v & ones(w) == v);
    lemma_rotates_back(v, c, k, w);
    let wide = v | ((if c { 1u64 } else { 0u64 }) << w);
    let x = with_carry(v as int, word, w);
    assert(wide == x);
    lemma_left(wide, k);
    lemma_right(wide, (w + 1 - k) as u32);
    let p = wide * pow2(k as nat);
    if w == 8 {
        vstd::arithmetic::div_mod::lemma_mod_mod(p, 0x200, 0x80_0000_0000_0000);
    } else if w == 16 {
        vstd::arithmetic::div_mod::lemma_mod_mod(p, 0x2_0000, 0x8000_0000_0000);
    } else {
        vstd::arithmetic::div_mod::lemma_mod_mod(p, 0x2_0000_0000, 0x8000_0000);
    }
    let rot = rotated_wide(v, c, k, w, true);
    assert(rot == (p % (2 * pow2(w as nat) as int)) + x / pow2((w + 1 - k) as nat) as int);
    let (r, cf) = rotated_carry(v, c, k, w, true);
    let of = n == 1 && ((r & crate::instructions::shift::top_bit(w) != 0) != cf);
    crate::laws::fields::lemma_two_flags(word, cf, of);
    let o = shifted(ShiftOp::Rcl, word, v, count, w);
    assert(o == crate::instructions::shift::rc(word, v, n, w, true));
    assert(o.value == r && (o.flags & 1 != 0) == cf);
}

/// At 64 bits RCL by one more place is one more place of a 65-bit rotate.
pub proof fn law_rcl_goes_place_by_place(x: (u64, bool), k: int)
    requires
        k >= 0,
    ensures
        ({
            let number = |y: (u64, bool)|
                y.0 + (if y.1 { 0x1_0000_0000_0000_0000int } else { 0int });
            let a = number(rotated65(x, k, true));
            &&& number(rotated65(x, k + 1, true)) == 2 * a % 0x2_0000_0000_0000_0000 + a
                / 0x1_0000_0000_0000_0000
            &&& number(rotated65(x, 0, true)) == number(x)
        }),
{
    let y = rotated65(x, k, true);
    lemma_carries(y.0, y.1, 0, false);
}

/// And RCL at 64 bits is that rotate, by the count.
pub proof fn law_rcl_at_64_bits(word: u32, v: u64, count: u32)
    ensures
        ({
            let o = shifted(ShiftOp::Rcl, word, v, count, 64);
            rotated65((v, word & 1 != 0), count as int % 64, true) == (o.value, o.flags & 1 != 0)
        }),
{
    reveal(shifted);
    reveal(crate::instructions::shift::rc);
    law_counts_are_taken_modulo_the_word(count, 64);
    let n = effective(count, 64);
    lemma_small(v, 64);
    assert(n % 65 == n);
    if n > 0 {
        let (r, cf) = rotated65((v, word & 1 != 0), n as int, true);
        crate::laws::fields::lemma_two_flags(
            word,
            cf,
            n == 1 && ((r & crate::instructions::shift::top_bit(64) != 0) != cf),
        );
    }
}

/// A bit set, cleared or flipped adds or takes its power of two.
pub(crate) proof fn lemma_applied(v: u64, b: u32)
    requires
        b < 64,
    ensures
        ({
            let on = (v >> b) & 1 != 0;
            let p = pow2(b as nat) as int;
            &&& v | (1u64 << b) == if on { v as int } else { v + p }
            &&& v & !(1u64 << b) == if on { v - p } else { v as int }
            &&& v ^ (1u64 << b) == if on { v - p } else { v + p }
        }),
{
    lemma_double(v, 0, b);
    lemma_left(1, b);
    lemma2_to64();
    vstd::arithmetic::power2::lemma_pow2_strictly_increases(b as nat, 64);
    vstd::arithmetic::power2::lemma2_to64_rest();
    lemma_pow2_pos(b as nat);
    vstd::arithmetic::div_mod::lemma_small_mod(pow2(b as nat), 0x1_0000_0000_0000_0000);
}

/// A number without bits from some place on is smaller than that place.
proof fn lemma_no_bits_from(v: u64, k: u32)
    requires
        k < 64,
        forall|j: u32| k <= j < 64 ==> #[trigger] (v >> j) & 1 == 0,
    ensures
        v >> k == 0,
    decreases 64 - k,
{
    lemma_carries(v >> k, false, 0, false);
    assert((v >> k) & 1 == 0);
    if k == 63 {
        lemma_right(v, 63);
        lemma2_to64();
        vstd::arithmetic::power2::lemma2_to64_rest();
    } else {
        lemma_no_bits_from(v, (k + 1) as u32);
        lemma_places(v, 0, k);
    }
}

/// A number without bits is zero.
pub(crate) proof fn lemma_no_bits(v: u64)
    requires
        forall|j: u32| j < 64 ==> #[trigger] (v >> j) & 1 == 0,
    ensures
        v == 0,
{
    lemma_no_bits_from(v, 0);
    lemma_places(v, 0, 0);
}

/// The two parts of a double shift do not overlap, and at 32 bits they are those
/// of the low halves.
pub(crate) proof fn lemma_double(a: u64, b: u64, n: u32)
    by (bit_vector)
    ensures
        n < 64 ==> a | (1u64 << n) == if (a >> n) & 1 != 0 { a + 0 } else { a + (1u64 << n) },
        n < 64 ==> a & !(1u64 << n) == if (a >> n) & 1 != 0 { a - (1u64 << n) } else { a + 0 },
        n < 64 ==> a ^ (1u64 << n) == if (a >> n) & 1 != 0 {
            a - (1u64 << n)
        } else {
            a + (1u64 << n)
        },
        0 < n < 64 ==> (a << n) | (b >> ((64 - n) as u32)) == (a << n) + (b >> ((64 - n) as u32)),
        0 < n < 64 ==> (a >> n) | (b << ((64 - n) as u32)) == (a >> n) + (b << ((64 - n) as u32)),
        0 < n < 32 && a <= 0xFFFF_FFFF && b <= 0xFFFF_FFFF ==> (((a as u32) << n) | ((b as u32) >> ((32
            - n) as u32))) as u64 == ((a << n) & 0xFFFF_FFFF) + (b >> ((32 - n) as u32)),
        0 < n < 32 && a <= 0xFFFF_FFFF && b <= 0xFFFF_FFFF ==> (((a as u32) >> n) | ((b as u32) << ((32
            - n) as u32))) as u64 == (a >> n) + ((b << ((32 - n) as u32)) & 0xFFFF_FFFF),
        0 < n < 32 && a <= 0xFFFF_FFFF ==> (((a as u32) >> ((32 - n) as u32)) & 1 != 0) == ((a >> ((32
            - n) as u32)) & 1 != 0),
        0 < n < 32 && a <= 0xFFFF_FFFF ==> (((a as u32) >> ((n - 1) as u32)) & 1 != 0) == ((a >> ((n
            - 1) as u32)) & 1 != 0),
{
}

} // verus!
