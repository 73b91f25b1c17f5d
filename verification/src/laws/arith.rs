//! Laws of arithmetic: what the flags mean, what is inverse to what, and which
//! instructions leave their operands alone.

use crate::cpu::flags;
use crate::instructions::{AluOp, Cond, Dir};
use crate::modrm::ModRm;
use crate::state::State;
use vstd::prelude::*;

verus! {

/// Is `w` one of the operand widths?
pub open spec fn is_width(w: u32) -> bool {
    w == 8 || w == 16 || w == 32 || w == 64
}

/// Reading back the six arithmetic flags one after another.
pub(crate) proof fn lemma_flag_bits(word: u32, sf: bool, zf: bool, pf: bool, cf: bool, af: bool, of: bool)
    by (bit_vector)
    ensures
        ({
            let a = if sf { word | 0x80 } else { word & !0x80 };
            let b = if zf { a | 0x40 } else { a & !0x40 };
            let c = if pf { b | 4 } else { b & !4 };
            let d = if cf { c | 1 } else { c & !1 };
            let e = if af { d | 0x10 } else { d & !0x10 };
            let f = if of { e | 0x800 } else { e & !0x800 };
            &&& (f & 1 != 0) == cf
            &&& (f & 0x40 != 0) == zf
            &&& (f & 0x80 != 0) == sf
            &&& (f & 0x800 != 0) == of
            &&& (f & 0x10 != 0) == af
            &&& (f & 4 != 0) == pf
            &&& f & !0x8D5 == word & !0x8D5
        }),
{
}

/// Bit facts about one word: one flag carried over into another word, and the
/// reserved bits of EFLAGS.
proof fn lemma_words(n: u32, o: u32)
    by (bit_vector)
    ensures
        (if n & 1 != 0 { o | 1 } else { o & !1 }) & 1 == n & 1,
        ({
            let f = (n & 0x003F_7FD5) | 2 | (o & !0x003F_7FD5u32 & !2u32);
            &&& f & 2 != 0
            &&& f & 0x003F_7FD5 == n & 0x003F_7FD5
            &&& f & 0x8028 == o & 0x8028
        }),
{
}

/// After `CMP a, b` every branch condition says what it is named for: below
/// and above compare unsigned, less and greater compare signed.
pub proof fn law_conditions_compare(s: State, a: u64, b: u64, w: u32)
    requires
        is_width(w),
    ensures
        ({
            let t = s.with_flags(s.alu(AluOp::Cmp, a, b, w).flags);
            let x = crate::instructions::alu::trunc(a, w);
            let y = crate::instructions::alu::trunc(b, w);
            let sx = crate::instructions::alu::signed(x, w);
            let sy = crate::instructions::alu::signed(y, w);
            &&& Cond::B.holds(t) <==> x < y
            &&& Cond::Nb.holds(t) <==> x >= y
            &&& Cond::Be.holds(t) <==> x <= y
            &&& Cond::Nbe.holds(t) <==> x > y
            &&& Cond::E.holds(t) <==> x == y
            &&& Cond::Ne.holds(t) <==> x != y
            &&& Cond::L.holds(t) <==> sx < sy
            &&& Cond::Nl.holds(t) <==> sx >= sy
            &&& Cond::Le.holds(t) <==> sx <= sy
            &&& Cond::Nle.holds(t) <==> sx > sy
        }),
{
    reveal(crate::instructions::alu::operate);
    reveal(crate::instructions::alu::subtracted);
    reveal(crate::instructions::alu::logic_flags);
    let x = crate::instructions::alu::trunc(a, w);
    let y = crate::instructions::alu::trunc(b, w);
    let m = crate::instructions::alu::modulus(w);
    let r = ((x - y - 0) % m) as u64;
    assert(0 <= x < m && 0 <= y < m);
    assert(r == if x >= y { x - y } else { x - y + m });
    lemma_flag_bits(
        s.flags,
        r >= m / 2,
        r == 0,
        crate::instructions::alu::even_parity(r as u8),
        x < y + 0,
        x % 16 < y % 16 + 0,
        !crate::instructions::alu::fits(
            crate::instructions::alu::signed(x, w) - crate::instructions::alu::signed(y, w) - 0,
            w,
        ),
    );
}

/// The carry of an addition is the bit that did not fit: result and carry
/// together are the true sum.
pub proof fn law_carry_completes_the_sum(s: State, a: u64, b: u64, w: u32)
    requires
        is_width(w),
    ensures
        ({
            let o = s.alu(AluOp::Add, a, b, w);
            o.value + crate::instructions::alu::carry_in(o.flags)
                * crate::instructions::alu::modulus(w) == crate::instructions::alu::trunc(a, w)
                + crate::instructions::alu::trunc(b, w)
        }),
{
    reveal(crate::instructions::alu::operate);
    reveal(crate::instructions::alu::added);
    reveal(crate::instructions::alu::logic_flags);
    let x = crate::instructions::alu::trunc(a, w);
    let y = crate::instructions::alu::trunc(b, w);
    let m = crate::instructions::alu::modulus(w);
    let r = ((x + y + 0) % m) as u64;
    lemma_flag_bits(
        s.flags,
        r >= m / 2,
        r == 0,
        crate::instructions::alu::even_parity(r as u8),
        x + y + 0 >= m,
        x % 16 + y % 16 + 0 >= 16,
        !crate::instructions::alu::fits(
            crate::instructions::alu::signed(x, w) + crate::instructions::alu::signed(y, w) + 0,
            w,
        ),
    );
    assert(r == if x + y >= m { x + y - m } else { x + y });
}

/// Subtraction undoes addition.
pub proof fn law_sub_undoes_add(s: State, t: State, a: u64, b: u64, w: u32)
    requires
        is_width(w),
    ensures
        t.alu(AluOp::Sub, s.alu(AluOp::Add, a, b, w).value, b, w).value
            == crate::instructions::alu::trunc(a, w),
{
    reveal(crate::instructions::alu::operate);
    reveal(crate::instructions::alu::added);
    reveal(crate::instructions::alu::subtracted);
    let x = crate::instructions::alu::trunc(a, w);
    let y = crate::instructions::alu::trunc(b, w);
    let m = crate::instructions::alu::modulus(w);
    let r = s.alu(AluOp::Add, a, b, w).value;
    assert(r == (x + y) % m);
    assert(r == if x + y >= m { x + y - m } else { x + y });
    assert(crate::instructions::alu::trunc(r, w) == r);
    let d = t.alu(AluOp::Sub, r, b, w).value;
    assert(d == ((r - y) % m) as u64);
    assert(d == if r >= y { r - y } else { r - y + m });
}

/// NEG is its own inverse.
pub proof fn law_neg_twice(s: State, t: State, v: u64, w: u32)
    requires
        is_width(w),
    ensures
        t.alu(AluOp::Sub, 0, s.alu(AluOp::Sub, 0, v, w).value, w).value
            == crate::instructions::alu::trunc(v, w),
{
    reveal(crate::instructions::alu::operate);
    reveal(crate::instructions::alu::subtracted);
}

/// INC and DEC leave the carry flag as they found it.
pub proof fn law_steps_keep_the_carry(s: State, v: u64, down: bool, w: u32)
    ensures
        s.stepped(v, down, w).flags & flags::CF == s.flags & flags::CF,
{
    let f = s.alu(if down { AluOp::Sub } else { AluOp::Add }, v, 1, w).flags;
    lemma_words(s.flags, f);
}

/// CMP writes no operand: it does what loading its operand does, and sets
/// flags.
pub proof fn law_compare_writes_nothing(s: State, m: ModRm, reg: u8, dir: Dir, imm: u64, w: u32)
    ensures
        s.alu_rm_reg(AluOp::Cmp, m, reg, dir, w) == s.read_rm(m, w).0.with_flags(
            s.alu_rm_reg(AluOp::Cmp, m, reg, dir, w).flags,
        ),
        s.alu_rm_imm(AluOp::Cmp, m, imm, w) == s.read_rm(m, w).0.with_flags(
            s.alu_rm_imm(AluOp::Cmp, m, imm, w).flags,
        ),
        s.alu_acc_imm(AluOp::Cmp, imm, w) == s.with_flags(s.alu_acc_imm(AluOp::Cmp, imm, w).flags),
{
    reveal(State::alu_rm_reg);
    reveal(State::alu_rm_imm);
    reveal(State::alu_acc_imm);
}

/// TEST writes no operand.
pub proof fn law_test_writes_nothing(s: State, m: ModRm, b: u64, w: u32)
    ensures
        s.test_rm(m, b, w) == s.read_rm(m, w).0.with_flags(s.test_rm(m, b, w).flags),
{
    reveal(State::test_rm);
}

/// The bit scans find a bit that is set, with none set below it for BSF.
pub proof fn law_scan_forward_finds_the_lowest(v: u64, from: u32)
    requires
        from <= 64,
    ensures
        ({
            let k = crate::instructions::arith::lowest_set(v, from);
            &&& from <= k <= 64
            &&& k < 64 ==> (v >> k) & 1 != 0
            &&& forall|j: u32| from <= j < k ==> #[trigger] (v >> j) & 1 == 0
        }),
    decreases 64 - from,
{
    if from < 64 && (v >> from) & 1 == 0 {
        law_scan_forward_finds_the_lowest(v, (from + 1) as u32);
    }
}

/// BSR finds the highest bit set: none above it is.
pub proof fn law_scan_reverse_finds_the_highest(v: u64, end: u32)
    requires
        end <= 64,
    ensures
        ({
            let k = crate::instructions::arith::highest_set(v, end);
            &&& (exists|j: u32| j < end && #[trigger] (v >> j) & 1 != 0) ==> k < end && (v >> k) & 1
                != 0
            &&& forall|j: u32| k < j < end ==> #[trigger] (v >> j) & 1 == 0
        }),
    decreases end,
{
    if end > 0 && (v >> ((end - 1) as u32)) & 1 == 0 {
        law_scan_reverse_finds_the_highest(v, (end - 1) as u32);
    }
}

/// Reversing the bytes of a word twice, and the halves of a quad word.
proof fn lemma_swap(v: u32, a: u32, b: u32, q: u64)
    by (bit_vector)
    ensures
        ({
            let r = (v << 24) | ((v & 0xFF00) << 8) | ((v >> 8) & 0xFF00) | (v >> 24);
            (r << 24) | ((r & 0xFF00) << 8) | ((r >> 8) & 0xFF00) | (r >> 24) == v
        }),
        (((a as u64) << 32) | (b as u64)) as u32 == b,
        ((((a as u64) << 32) | (b as u64)) >> 32) as u32 == a,
        (((q >> 32) as u32 as u64) << 32) | ((q as u32) as u64) == q,
        (v << 24) | ((v & 0xFF00) << 8) | ((v >> 8) & 0xFF00) | (v >> 24) == (((v >> 24) as u8) as u32)
            | ((((v >> 16) as u8) as u32) << 8) | ((((v >> 8) as u8) as u32) << 16) | (((v as u8)
            as u32) << 24),
        v == ((v as u8) as u32) | ((((v >> 8) as u8) as u32) << 8) | ((((v >> 16) as u8) as u32)
            << 16) | ((((v >> 24) as u8) as u32) << 24),
{
}

/// BSWAP reverses the order of the bytes: the lowest becomes the highest.
pub proof fn law_bswap_reverses_the_bytes(v: u32, a: u8, b: u8, c: u8, d: u8, q: u64)
    requires
        v == a + b * 0x100 + c * 0x1_0000 + d * 0x100_0000,
    ensures
        crate::instructions::mov::swapped32(v) == d + c * 0x100 + b * 0x1_0000 + a * 0x100_0000,
        crate::instructions::mov::swapped64(q) == crate::instructions::mov::swapped32(
            (q / 0x1_0000_0000) as u32,
        ) + 0x1_0000_0000 * crate::instructions::mov::swapped32((q % 0x1_0000_0000) as u32),
{
    let (w, x, y, z) = (v as u8, (v >> 8) as u8, (v >> 16) as u8, (v >> 24) as u8);
    let hi = crate::instructions::mov::swapped32(q as u32);
    let lo = crate::instructions::mov::swapped32((q >> 32) as u32);
    lemma_swap(v, 0, 0, 0);
    lemma_swap(0, (q >> 32) as u32, q as u32, q);
    crate::laws::fields::lemma_joined(w, x, y, z, q as u32, (q >> 32) as u32, 0, 0);
    crate::laws::fields::lemma_joined(z, y, x, w, lo, hi, 0, 0);
    crate::laws::fields::lemma_narrow(q);
    assert(((q >> 32) as u32 as u64) << 32 | (q as u32 as u64) == (q as u32 as u64) | ((q >> 32)
        as u32 as u64) << 32) by {
        crate::laws::fields::lemma_swapped_or((q as u32) as u64, ((q >> 32) as u32 as u64) << 32);
    }
    crate::laws::fields::lemma_swapped_or(lo as u64, (hi as u64) << 32);
}

/// BSWAP is its own inverse.
pub proof fn law_bswap_twice(v: u32, q: u64)
    ensures
        crate::instructions::mov::swapped32(crate::instructions::mov::swapped32(v)) == v,
        crate::instructions::mov::swapped64(crate::instructions::mov::swapped64(q)) == q,
{
    lemma_swap(v, 0, 0, q);
    let a = crate::instructions::mov::swapped32(q as u32);
    let b = crate::instructions::mov::swapped32((q >> 32) as u32);
    lemma_swap(q as u32, a, b, q);
    lemma_swap((q >> 32) as u32, a, b, q);
}

/// Division is exact: quotient and remainder give back the dividend, and the
/// remainder is smaller than the divisor and has the dividend's sign.
pub proof fn law_division(a: int, b: int)
    requires
        b != 0,
    ensures
        ({
            let q = crate::instructions::muldiv::quotient(a, b);
            let r = crate::instructions::muldiv::remainder(a, b);
            &&& q * b + r == a
            &&& crate::instructions::muldiv::magnitude(r) < crate::instructions::muldiv::magnitude(
                b,
            )
            &&& r == 0 || (r < 0 <==> a < 0)
        }),
{
    let x = crate::instructions::muldiv::magnitude(a);
    let y = crate::instructions::muldiv::magnitude(b);
    assert(x == y * (x / y) + x % y && 0 <= x % y < y) by (nonlinear_arith)
        requires
            y > 0,
            x >= 0,
    ;
    let q = x / y;
    assert(q * b == if b < 0 { -(y * q) } else { y * q }) by (nonlinear_arith)
        requires
            y == if b < 0 { -b } else { b },
    ;
    assert((-q) * b == -(q * b)) by (nonlinear_arith);
}

/// A double-width product is in the registers whole: high half and low half
/// together are the product.
pub proof fn law_product_is_whole(p: int, w: u32)
    requires
        w == 16 || w == 32 || w == 64,
        0 <= p < crate::instructions::alu::modulus(w) * crate::instructions::alu::modulus(w),
    ensures
        crate::instructions::muldiv::high_of(p, w) * crate::instructions::alu::modulus(w)
            + crate::instructions::muldiv::word_of(p, w) == p,
{
    let m = crate::instructions::alu::modulus(w);
    let h = p / m;
    assert(p == m * h + p % m && 0 <= h < m && 0 <= p % m < m) by (nonlinear_arith)
        requires
            m > 0,
            h == p / m,
            0 <= p < m * m,
    ;
    assert(h % m == h) by (nonlinear_arith)
        requires
            0 <= h < m,
    ;
    assert(h * m == m * h) by (nonlinear_arith);
}

/// Software cannot move the reserved bits of EFLAGS: bit 1 stays set and bits
/// 3, 5 and 15 keep their value, while every writable bit takes the new one.
pub proof fn law_reserved_flags_stay(old_word: u32, new: u32)
    ensures
        crate::instructions::control::flags_written(old_word, new) & flags::ALWAYS_SET != 0,
        crate::instructions::control::flags_written(old_word, new) & flags::WRITABLE == new
            & flags::WRITABLE,
        crate::instructions::control::flags_written(old_word, new) & 0x8028 == old_word & 0x8028,
{
    lemma_words(new, old_word);
}

} // verus!
