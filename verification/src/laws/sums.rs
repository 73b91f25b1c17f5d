//! Laws of sums and differences: a result and its carry are the true sum, and
//! sums of several words are made by passing the carry on.

use crate::instructions::alu::{even_parity, fits, modulus, signed, trunc, Outcome};
use crate::instructions::AluOp;
use crate::laws::arith::{is_width, lemma_flag_bits};
use crate::state::State;
use vstd::arithmetic::power2::{lemma2_to64, lemma2_to64_rest, pow2};
use vstd::prelude::*;

verus! {

/// The carry flag of a flags word, bit 0, as a number.
pub open spec fn carry(word: u32) -> int {
    if word & 1 != 0 { 1 } else { 0 }
}

/// The value of the low `w` bits of `v`, read as two's complement.
pub open spec fn as_signed(v: int, w: u32) -> int {
    let low = v % pow2(w as nat) as int;
    if low < pow2((w - 1) as nat) { low } else { low - pow2(w as nat) }
}

/// The number of ones among the low eight bits of `v`.
pub open spec fn ones(v: int) -> int {
    v % 2 + v / 2 % 2 + v / 4 % 2 + v / 8 % 2 + v / 16 % 2 + v / 32 % 2 + v / 64 % 2 + v / 128 % 2
}

/// The widths' powers of two.
pub(crate) proof fn lemma_powers(w: u32)
    requires
        is_width(w),
    ensures
        modulus(w) == pow2(w as nat),
        modulus(w) / 2 == pow2((w - 1) as nat),
        pow2(w as nat) == 2 * pow2((w - 1) as nat),
        pow2(w as nat) <= 0x1_0000_0000_0000_0000,
        pow2(w as nat) >= 0x100,
{
    lemma2_to64();
    lemma2_to64_rest();
}

/// An outcome's flags describe its value, a `w`-bit number: ZF says that it is
/// zero, SF that it is negative, PF that its low byte has an even number of
/// ones.
pub open spec fn described(o: Outcome, w: u32) -> bool {
    &&& o.value < pow2(w as nat)
    &&& o.flags & 0x40 != 0 <==> o.value == 0
    &&& o.flags & 0x80 != 0 <==> o.value >= pow2((w - 1) as nat)
    &&& o.flags & 4 != 0 <==> ones(o.value as int) % 2 == 0
}

/// The flags outside the six arithmetic ones are as they were.
pub open spec fn others_kept(old: u32, new: u32) -> bool {
    new & !0x8D5 == old & !0x8D5
}

/// Parity is that of the number of ones in the low byte.
pub(crate) proof fn lemma_low_ones(v: u64)
    ensures
        even_parity(v as u8) <==> ones(v as int) % 2 == 0,
{
    crate::laws::fields::lemma_fields64(v, 0);
}

/// ADD and ADC: the result and the carry out are the sum of the operands and,
/// for ADC, the carry in.
#[verifier::spinoff_prover]
pub proof fn law_addition_is_exact(s: State, a: u64, b: u64, w: u32, with_carry: bool)
    requires
        is_width(w),
    ensures
        ({
            let o = s.alu(if with_carry { AluOp::Adc } else { AluOp::Add }, a, b, w);
            let c = if with_carry { carry(s.flags) } else { 0 };
            let m = pow2(w as nat) as int;
            &&& o.value + carry(o.flags) * m == a as int % m + b as int % m + c
            &&& o.flags & 0x10 != 0 <==> a % 16 + b % 16 + c >= 16
            &&& o.flags & 0x800 != 0 <==> as_signed(o.value as int, w) != as_signed(a as int, w)
                + as_signed(b as int, w) + c
            &&& described(o, w)
            &&& others_kept(s.flags, o.flags)
        }),
{
    reveal(crate::instructions::alu::operate);
    reveal(crate::instructions::alu::added);
    reveal(crate::instructions::alu::logic_flags);
    lemma_powers(w);
    let x = trunc(a, w);
    let y = trunc(b, w);
    let c = if with_carry { carry(s.flags) } else { 0 };
    let m = modulus(w);
    let r = ((x + y + c) % m) as u64;
    lemma_sum(a as int, b as int, c, w);
    lemma_flag_bits(
        s.flags,
        r >= m / 2,
        r == 0,
        even_parity(r as u8),
        x + y + c >= m,
        x % 16 + y % 16 + c >= 16,
        !fits(signed(x, w) + signed(y, w) + c, w),
    );
    lemma_low_ones(r);
    lemma_overflow(x, y, c, r, w);
    lemma_signed(a as int, x, w);
    lemma_signed(b as int, y, w);
    lemma_signed(r as int, r, w);
}

/// Two's complement, by quotient and by comparison.
pub(crate) proof fn lemma_signed(v: int, x: u64, w: u32)
    requires
        is_width(w),
        x == v % modulus(w),
    ensures
        as_signed(v, w) == signed(x, w),
{
    lemma_powers(w);
}

/// One is one at every width.
pub(crate) proof fn lemma_signed_one(w: u32)
    requires
        is_width(w),
    ensures
        as_signed(1, w) == 1,
{
    lemma_signed(1, 1, w);
}

/// A signed sum or difference came out right where it fits, and only there.
proof fn lemma_overflow(x: u64, y: u64, c: int, r: u64, w: u32)
    requires
        is_width(w),
        x < modulus(w),
        y < modulus(w),
        0 <= c <= 1,
    ensures
        r == (if x + y + c >= modulus(w) {
            x + y + c - modulus(w)
        } else {
            x + y + c
        }) ==> (fits(signed(x, w) + signed(y, w) + c, w) <==> signed(r, w) == signed(x, w) + signed(
            y,
            w,
        ) + c),
        r == (if x < y + c {
            x - y - c + modulus(w)
        } else {
            x - y - c
        }) ==> (fits(signed(x, w) - signed(y, w) - c, w) <==> signed(r, w) == signed(x, w) - signed(
            y,
            w,
        ) - c),
{
}

/// A sum that wraps once at most.
proof fn lemma_sum(a: int, b: int, c: int, w: u32)
    requires
        is_width(w),
        0 <= a < 0x1_0000_0000_0000_0000,
        0 <= b < 0x1_0000_0000_0000_0000,
        0 <= c <= 1,
    ensures
        ({
            let m = modulus(w);
            let x = a % m;
            let y = b % m;
            &&& (x + y + c) % m == if x + y + c >= m { x + y + c - m } else { x + y + c }
            &&& (x - y - c) % m == if x < y + c { x - y - c + m } else { x - y - c }
            &&& x % 16 == a % 16
            &&& y % 16 == b % 16
            &&& 0 <= x < m
            &&& 0 <= y < m
            &&& x % m == x
            &&& y % m == y
            &&& ((x + y + c) % m) % m == (x + y + c) % m
            &&& ((x - y - c) % m) % m == (x - y - c) % m
        }),
{
    let m = modulus(w);
    let x = a % m;
    let y = b % m;
    let p = x + y + c;
    let q = x - y - c;
    assert(0 <= x < m && 0 <= y < m);
    assert(x % m == x && y % m == y);
    assert(p % m == if p >= m { p - m } else { p });
    assert(q % m == if q < 0 { q + m } else { q });
    assert(x % 16 == a % 16 && y % 16 == b % 16) by {
        if w == 8 {
        } else if w == 16 {
        } else if w == 32 {
        } else {
        }
    }
}

/// SUB, CMP and SBB: the result less the borrow out is the difference of the
/// operands and, for SBB, the borrow in.
#[verifier::spinoff_prover]
pub proof fn law_subtraction_is_exact(s: State, op: AluOp, a: u64, b: u64, w: u32)
    requires
        is_width(w),
        op == AluOp::Sub || op == AluOp::Cmp || op == AluOp::Sbb,
    ensures
        ({
            let o = s.alu(op, a, b, w);
            let c = if op == AluOp::Sbb { carry(s.flags) } else { 0 };
            let m = pow2(w as nat) as int;
            &&& o.value - carry(o.flags) * m == a as int % m - b as int % m - c
            &&& o.flags & 0x10 != 0 <==> a % 16 < b % 16 + c
            &&& o.flags & 0x800 != 0 <==> as_signed(o.value as int, w) != as_signed(a as int, w)
                - as_signed(b as int, w) - c
            &&& described(o, w)
            &&& others_kept(s.flags, o.flags)
        }),
{
    reveal(crate::instructions::alu::operate);
    reveal(crate::instructions::alu::subtracted);
    reveal(crate::instructions::alu::logic_flags);
    lemma_powers(w);
    let x = trunc(a, w);
    let y = trunc(b, w);
    let c = if op == AluOp::Sbb { carry(s.flags) } else { 0 };
    let m = modulus(w);
    let r = ((x - y - c) % m) as u64;
    lemma_sum(a as int, b as int, c, w);
    lemma_flag_bits(
        s.flags,
        r >= m / 2,
        r == 0,
        even_parity(r as u8),
        x < y + c,
        x % 16 < y % 16 + c,
        !fits(signed(x, w) - signed(y, w) - c, w),
    );
    lemma_low_ones(r);
    lemma_overflow(x, y, c, r, w);
    lemma_signed(a as int, x, w);
    lemma_signed(b as int, y, w);
    lemma_signed(r as int, r, w);
}

/// An ADD of the low words followed by an ADC of the high words is the sum of
/// the double words, and SUB followed by SBB is their difference, whatever else
/// the machine did in between, as long as the carry flag stayed.
pub proof fn law_carries_chain(s: State, t: State, lo: u64, hi: u64, lo2: u64, hi2: u64, w: u32)
    requires
        is_width(w),
        lo < pow2(w as nat) && hi < pow2(w as nat),
        lo2 < pow2(w as nat) && hi2 < pow2(w as nat),
    ensures
        ({
            let m = pow2(w as nat) as int;
            let o = s.alu(AluOp::Add, lo, lo2, w);
            let p = t.alu(AluOp::Adc, hi, hi2, w);
            carry(t.flags) == carry(o.flags) ==> o.value + p.value * m + carry(p.flags) * m * m == (
            lo + hi * m) + (lo2 + hi2 * m)
        }),
        ({
            let m = pow2(w as nat) as int;
            let o = s.alu(AluOp::Sub, lo, lo2, w);
            let p = t.alu(AluOp::Sbb, hi, hi2, w);
            carry(t.flags) == carry(o.flags) ==> o.value + p.value * m - carry(p.flags) * m * m == (
            lo + hi * m) - (lo2 + hi2 * m)
        }),
{
    let m = pow2(w as nat) as int;
    law_addition_is_exact(s, lo, lo2, w, false);
    law_addition_is_exact(t, hi, hi2, w, true);
    law_subtraction_is_exact(s, AluOp::Sub, lo, lo2, w);
    law_subtraction_is_exact(t, AluOp::Sbb, hi, hi2, w);
    lemma_powers(w);
    assert(lo as int % m == lo && hi as int % m == hi && lo2 as int % m == lo2 && hi2 as int % m
        == hi2) by (nonlinear_arith)
        requires
            0 <= lo < m,
            0 <= hi < m,
            0 <= lo2 < m,
            0 <= hi2 < m,
    ;
    let (o, p) = (s.alu(AluOp::Add, lo, lo2, w), t.alu(AluOp::Adc, hi, hi2, w));
    let (q, r) = (s.alu(AluOp::Sub, lo, lo2, w), t.alu(AluOp::Sbb, hi, hi2, w));
    if carry(t.flags) == carry(o.flags) {
        lemma_chain(
            o.value as int,
            p.value as int,
            lo as int,
            hi as int,
            lo2 as int,
            hi2 as int,
            carry(o.flags),
            carry(p.flags),
            m,
        );
    }
    if carry(t.flags) == carry(q.flags) {
        assert((-carry(q.flags)) * m == -(carry(q.flags) * m)) by (nonlinear_arith);
        assert((-carry(r.flags)) * m == -(carry(r.flags) * m)) by (nonlinear_arith);
        lemma_chain(
            q.value as int,
            r.value as int,
            lo as int,
            hi as int,
            -lo2,
            -hi2,
            -carry(q.flags),
            -carry(r.flags),
            m,
        );
        assert((-hi2) * m == -(hi2 * m)) by (nonlinear_arith);
        assert((-carry(r.flags)) * m * m == -(carry(r.flags) * m * m)) by (nonlinear_arith);
    }
}

proof fn lemma_chain(
    x: int,
    y: int,
    lo: int,
    hi: int,
    lo2: int,
    hi2: int,
    c: int,
    d: int,
    m: int,
)
    by (nonlinear_arith)
    requires
        x + c * m == lo + lo2,
        y + d * m == hi + hi2 + c,
    ensures
        x + y * m + d * m * m == (lo + hi * m) + (lo2 + hi2 * m),
{
}

} // verus!
