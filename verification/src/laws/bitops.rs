//! Laws of the bit instructions: scans, tests of single bits and shifts across
//! two operands.

use crate::instructions::arith::{highest_set, lowest_set, shld, shrd};
use crate::instructions::{BitOffset, Inst, ShiftCount};
use crate::laws::arith::{law_scan_forward_finds_the_lowest, law_scan_reverse_finds_the_highest};
use crate::laws::effects::{full, lemma_committed, written};
use crate::laws::fields::{lemma_fields8, lemma_narrow, lemma_result_bits, lemma_two_flags};
use crate::laws::shift::{bit, lemma_applied, lemma_bit, lemma_left, lemma_right};
use crate::laws::sums::{as_signed, lemma_powers};
use crate::modrm::ModRm;
use crate::state::State;
use vstd::arithmetic::power2::{lemma2_to64, pow2};
use vstd::prelude::*;

verus! {

/// Bit `k` of a number and no bit below it.
pub open spec fn lowest(v: int, k: int) -> bool {
    bit(v, k) && forall|j: int| 0 <= j < k ==> !#[trigger] bit(v, j)
}

/// Bit `k` of a number and no bit above it.
pub open spec fn highest(v: int, k: int) -> bool {
    bit(v, k) && forall|j: int| k < j < 64 ==> !#[trigger] bit(v, j)
}

/// A number that is not zero has a bit.
proof fn lemma_some_bit(v: u64)
    requires
        v != 0,
    ensures
        lowest_set(v, 0) < 64,
        highest_set(v, 64) < 64,
        lowest(v as int, lowest_set(v, 0) as int),
        highest(v as int, highest_set(v, 64) as int),
{
    law_scan_forward_finds_the_lowest(v, 0);
    law_scan_reverse_finds_the_highest(v, 64);
    let k = lowest_set(v, 0);
    if k == 64 {
        crate::laws::shift::lemma_no_bits(v);
        assert(false);
    }
    lemma_bit(v, k);
    assert forall|j: int| 0 <= j < k implies !#[trigger] bit(v as int, j) by {
        lemma_bit(v, j as u32);
        assert((v >> (j as u32)) & 1 == 0);
    }
    let h = highest_set(v, 64);
    assert((v >> k) & 1 != 0);
    assert(h < 64);
    lemma_bit(v, h);
    assert forall|j: int| h < j < 64 implies !#[trigger] bit(v as int, j) by {
        lemma_bit(v, j as u32);
        assert((v >> (j as u32)) & 1 == 0);
    }
}

/// BSF yields the number of the lowest bit set and BSR that of the highest, and
/// clears ZF; of zero both set ZF and leave the register alone.
pub proof fn law_scans_find_their_bit(s: State, m: ModRm, dst: u8, w32: bool, reverse: bool, k: u64)
    requires
        ({
            let inst = if reverse { Inst::Bsr { m, dst, w32 } } else { Inst::Bsf { m, dst, w32 } };
            !s.execute(inst).faulted()
        }),
        k < 64,
        ({
            let v = s.read_rm(m, full(s)).1 as int;
            v != 0 ==> if reverse { highest(v, k as int) } else { lowest(v, k as int) }
        }),
    ensures
        ({
            let inst = if reverse { Inst::Bsr { m, dst, w32 } } else { Inst::Bsf { m, dst, w32 } };
            let (t, v) = s.read_rm(m, full(s));
            s.execute(inst) == if v == 0 {
                State { flags: t.flags | 0x40, ..t }
            } else {
                State { flags: t.flags & !0x40, ..t }.with_reg_w(dst, full(s), k)
            }
        }),
{
    let inst = if reverse { Inst::Bsr { m, dst, w32 } } else { Inst::Bsf { m, dst, w32 } };
    lemma_committed(s, inst);
    reveal(State::move_inst);
    reveal(State::arith_inst);
    reveal(State::bit_scan);
    reveal(State::set_reg_w);
    let (t, v) = s.read_rm(m, full(s));
    if v != 0 {
        lemma_some_bit(v);
        if reverse {
            let h = highest_set(v, 64) as int;
            assert(h == k) by {
                if h < k {
                    assert(!bit(v as int, k as int));
                }
                if k < h {
                    assert(!bit(v as int, h));
                }
            }
        } else {
            let l = lowest_set(v, 0) as int;
            assert(l == k) by {
                if l < k {
                    assert(!bit(v as int, l));
                }
                if k < l {
                    assert(!bit(v as int, k as int));
                }
            }
        }
    }
}

/// A bit test on a register takes the bit its offset names, modulo the operand
/// size, into CF. BTS sets it, BTR clears it, BTC flips it: the operand grows or
/// shrinks by that power of two, or stays.
#[verifier::spinoff_prover]
pub proof fn law_bit_tests(s: State, inst: Inst, m: ModRm, i: u8)
    requires
        m.mod_field == 3,
        inst == (Inst::Bt { m, bit: BitOffset::Imm(i) }) || inst == (Inst::Bts {
            m,
            bit: BitOffset::Imm(i),
        }) || inst == (Inst::Btr { m, bit: BitOffset::Imm(i) }) || inst == (Inst::Btc {
            m,
            bit: BitOffset::Imm(i),
        }),
        !s.execute(inst).faulted(),
    ensures
        ({
            let w = full(s);
            let v = s.reg_w(m.rm, w);
            let b = i as int % (w as int);
            let on = bit(v as int, b);
            let p = pow2(b as nat) as int;
            let flagged = State { flags: if on { s.flags | 1 } else { s.flags & !1 }, ..s };
            s.execute(inst) == if inst is Bt {
                flagged
            } else {
                flagged.with_reg_w(
                    m.rm,
                    w,
                    (if inst is Bts {
                        if on { v as int } else { v + p }
                    } else if inst is Btr {
                        if on { v - p } else { v as int }
                    } else {
                        if on { v - p } else { v + p }
                    }) as u64,
                )
            }
        }),
{
    lemma_committed(s, inst);
    reveal(State::move_inst);
    reveal(State::arith_inst);
    reveal(State::bit_op);
    reveal(State::set_reg_w);
    let w = full(s);
    let v = s.reg_w(m.rm, w);
    let b = (i as int % (w as int)) as u32;
    assert(0 <= i as int % (w as int) && i as int % (w as int) < w);
    lemma_bit(v, b);
    lemma_applied(v, b);
}

/// A bit test on memory reaches the operand-size word that its signed offset
/// falls into, counted from the operand's address.
pub proof fn law_bit_strings_run_past_the_operand(s: State, r: u8)
    requires
        s.regs.len() == 16,
        r < 16,
    ensures
        s.bit_offset(BitOffset::Reg(r)) == as_signed(s.regs[r as int] as int, full(s)),
{
    let w = full(s);
    lemma2_to64();
    crate::laws::views::law_registers_are_remainders(s, r, w);
    let m = pow2(w as nat) as int;
    vstd::arithmetic::div_mod::lemma_mod_bound(s.regs[r as int] as int, m);
    vstd::arithmetic::div_mod::lemma_mod_twice(s.regs[r as int] as int, m);
    crate::laws::moves::lemma_sext(s.reg_w(r, w), w);
}

/// SHLD by `n` places moves the destination up and the top of the source in
/// below it; SHRD moves it down and the bottom of the source in above it. CF is
/// the last bit moved out.
#[verifier::spinoff_prover]
#[verifier::rlimit(40)]
pub proof fn law_double_shifts(word: u32, d: u64, src: u64, n: u32, w: u32)
    requires
        w == 32 || w == 64,
        0 < n < w,
        d < pow2(w as nat),
        src < pow2(w as nat),
    ensures
        ({
            let m = pow2(w as nat) as int;
            let (p, q) = (pow2(n as nat) as int, pow2((w - n) as nat) as int);
            let (l, r) = (shld(word, d, src, n, w), shrd(word, d, src, n, w));
            &&& l.value == (d * p) % m + src as int / q
            &&& r.value == d as int / p + (src * q) % m
            &&& l.flags & 1 != 0 <==> bit(d as int, w - n)
            &&& r.flags & 1 != 0 <==> bit(d as int, n - 1)
        }),
{
    reveal(shld);
    reveal(shrd);
    reveal(crate::instructions::alu::logic_flags);
    lemma2_to64();
    lemma_powers(w);
    let k = (w - n) as u32;
    crate::laws::shift::lemma_double(d, src, n);
    lemma_left(d, n);
    lemma_left(src, k);
    lemma_right(src, k);
    lemma_right(d, n);
    lemma_bit(d, k);
    lemma_bit(d, (n - 1) as u32);
    lemma_narrow(d);
    lemma_narrow(src);
    crate::laws::shift::lemma_places(d << n, 0, 0);
    crate::laws::shift::lemma_places(src << k, 0, 0);
    let (x, y) = (d * pow2(n as nat), src * pow2(k as nat));
    if w == 32 {
        vstd::arithmetic::div_mod::lemma_mod_mod(x as int, 0x1_0000_0000, 0x1_0000_0000);
        vstd::arithmetic::div_mod::lemma_mod_mod(y as int, 0x1_0000_0000, 0x1_0000_0000);
    }
    let (l, r) = (shld(word, d, src, n, w), shrd(word, d, src, n, w));
    lemma_double_flags(word, l.value, w, (d >> k) & 1 != 0);
    lemma_double_flags(word, r.value, w, (d >> ((n - 1) as u32)) & 1 != 0);
}

/// The carry of a double shift.
proof fn lemma_double_flags(word: u32, r: u64, w: u32, cf: bool)
    ensures
        forall|of: bool|
            (#[trigger] crate::instructions::arith::double_flags(word, r, w, cf, of) & 1 != 0) == cf,
{
    reveal(crate::instructions::alu::logic_flags);
    assert forall|of: bool|
        (#[trigger] crate::instructions::arith::double_flags(word, r, w, cf, of) & 1 != 0) == cf by {
        lemma_two_flags(word, cf, of);
        let a = if cf { word | 1 } else { word & !1 };
        let b = if of { a | 0x800 } else { a & !0x800 };
        lemma_result_bits(
            b,
            r >= crate::instructions::alu::modulus(w) / 2,
            r == 0,
            crate::instructions::alu::even_parity(r as u8),
        );
    }
}

/// SHLD and SHRD take their count, modulo 32 or at 64 bits modulo 64, from the
/// encoding or from CL, and with a count of zero change nothing.
pub proof fn law_double_shift_instructions(s: State, m: ModRm, reg: u8, i: u8, w32: bool, left: bool)
    requires
        ({
            let count = ShiftCount::Imm(i);
            let inst = if left {
                Inst::Shld { m, reg, count, w32 }
            } else {
                Inst::Shrd { m, reg, count, w32 }
            };
            !s.execute(inst).faulted()
        }),
    ensures
        ({
            let count = ShiftCount::Imm(i);
            let inst = if left {
                Inst::Shld { m, reg, count, w32 }
            } else {
                Inst::Shrd { m, reg, count, w32 }
            };
            let n = (i as int % (if s.pfx.rex_w { 64int } else { 32 })) as u32;
            let w: u32 = if s.pfx.rex_w {
                64
            } else if w32 {
                32
            } else {
                16
            };
            let (t, d) = s.read_rm(m, w);
            let src = t.reg_w(reg, w);
            let o = if left { shld(t.flags, d, src, n, w) } else { shrd(t.flags, d, src, n, w) };
            s.execute(inst) == if n == 0 { s } else { written(t, o.flags, m, w, o.value) }
        }),
{
    let count = ShiftCount::Imm(i);
    let inst = if left {
        Inst::Shld { m, reg, count, w32 }
    } else {
        Inst::Shrd { m, reg, count, w32 }
    };
    lemma_committed(s, inst);
    reveal(State::move_inst);
    reveal(State::arith_inst);
    reveal(State::shift_double);
    lemma_fields8(i);
}

} // verus!
