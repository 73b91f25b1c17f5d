//! Laws of the string instructions: which element each works on, how far the
//! index registers go, and what is left of the count.

use crate::cpu::address::Access;
use crate::cpu::operand::{bytes_of, crosses};
use crate::cpu::{SegReg, TLB_SIZE};
use crate::instructions::strings::{advanced, Cursor, Stride};
use crate::instructions::{AluOp, Inst, Rep};
use crate::laws::effects::full;
use crate::laws::fields::{lemma_displacement, lemma_narrow};
use crate::laws::frame::{law_access_frame, law_load_frame, law_store_frame, only_accessed};
use crate::laws::jumps::count;
use crate::laws::moves::lemma_data;
use crate::laws::sums::lemma_powers;
use crate::laws::views::{law_registers_are_remainders, lemma_other_reg, lemma_read_back};
use crate::state::State;
use vstd::arithmetic::power2::{lemma2_to64, pow2};
use vstd::prelude::*;

verus! {

/// The bits of an element: eight, or the full operand size.
pub open spec fn element(s: State, wide: bool) -> u32 {
    if wide { full(s) } else { 8 }
}

/// The bytes from one element to the next: forward, or backward while DF, bit
/// 10 of the flags, is set.
pub open spec fn pace(s: State, wide: bool) -> int {
    let n = element(s, wide) as int / 8;
    if s.flags & 0x400 != 0 { -n } else { n }
}

/// A string instruction moves by its elements, in the direction of DF.
pub proof fn law_strides_follow_the_direction(s: State, wide: bool, rep: Rep)
    ensures
        s.stride(wide, rep).bits == element(s, wide),
        s.stride(wide, rep).step == pace(s, wide),
        s.stride(wide, rep).asize == s.asize(),
        s.stride(wide, rep).rep == rep,
{
}

/// An index moved by a stride wraps at the address size.
proof fn lemma_advanced(v: u64, t: Stride)
    requires
        t.asize == 16 || t.asize == 32 || t.asize == 64,
        v < pow2(t.asize as nat),
    ensures
        advanced(v, t) == (v + t.step) % pow2(t.asize as nat) as int,
        advanced(v, t) < pow2(t.asize as nat),
{
    lemma2_to64();
    lemma_powers(t.asize);
    lemma_displacement(t.step as i64, 0);
    crate::laws::jumps::lemma_far(v, (t.step as i64) as u64, t.step as int);
    let n = v.wrapping_add((t.step as i64) as u64);
    lemma_narrow(n);
    crate::laws::shift::lemma_places(n, 0, 0);
    let x = v + t.step;
    if t.asize == 16 {
        vstd::arithmetic::div_mod::lemma_mod_mod(x, 0x1_0000, 0x1_0000_0000_0000);
    } else if t.asize == 32 {
        vstd::arithmetic::div_mod::lemma_mod_mod(x, 0x1_0000_0000, 0x1_0000_0000);
    }
}

/// One more step.
proof fn lemma_further(v: int, step: int, n: int, m: int)
    requires
        m > 0,
        n >= 1,
    ensures
        ((v + step) % m + (n - 1) * step) % m == (v + n * step) % m,
{
    assert((n - 1) * step + (v + step) == v + n * step) by (nonlinear_arith);
    assert((n - 1) * step + (v + step) % m == (v + step) % m + (n - 1) * step);
    vstd::arithmetic::div_mod::lemma_add_mod_noop_right((n - 1) * step, v + step, m);
}

/// Nothing steps nowhere.
proof fn lemma_still(v: int, step: int, m: int)
    requires
        0 <= v < m,
    ensures
        (v + 0 * step) % m == v,
{
    assert(0 * step == 0) by (nonlinear_arith);
    vstd::arithmetic::div_mod::lemma_small_mod(v as nat, m as nat);
}

/// An access to memory keeps the registers.
proof fn lemma_split_frame(s: State, phys: usize, linear: u64, w: u32, v: u64)
    requires
        s.tlb.len() == TLB_SIZE,
    ensures
        only_accessed(s, s.load_at(phys, linear, w).0),
        only_accessed(s, s.store_at(phys, linear, w, v)),
{
    reveal(State::load_at);
    reveal(State::store_at);
    reveal(State::read_split);
    reveal(State::write_split);
    law_access_frame(s, linear.wrapping_add((0x1000 - (phys & 0xFFF)) as u64), Access::Read);
    law_access_frame(s, linear.wrapping_add((0x1000 - (phys & 0xFFF)) as u64), Access::Write);
}

/// One element of MOVS: the value at DS:SI, or in the segment a prefix names,
/// goes to ES:DI.
pub proof fn law_movs_copies_an_element(s: State, si: u64, di: u64, bits: u32)
    requires
        s.tlb.len() == TLB_SIZE,
        !s.movs_one(si, di, bits).faulted(),
    ensures
        ({
            let g = match s.pfx.seg_override {
                Some(o) => o,
                None => SegReg::Ds,
            };
            let (a, src) = s.access(s.linear_addr(g, si), Access::Read);
            let (b, dst) = a.access(a.linear_addr(SegReg::Es, di), Access::Write);
            let (c, v) = b.load_at(src, b.linear_addr(g, si), bits);
            &&& s.movs_one(si, di, bits) == c.store_at(dst, c.linear_addr(SegReg::Es, di), bits, v)
            &&& only_accessed(s, s.movs_one(si, di, bits))
            &&& !crosses(src, bytes_of(bits)) && !crosses(dst, bytes_of(bits)) ==> s.movs_one(
                si,
                di,
                bits,
            ) == (State { mem: b.mem.write_w(dst, bits, b.mem.read_w(src, bits)), ..b })
        }),
{
    reveal(State::movs_one);
    let g = s.operand_seg(SegReg::Ds);
    let (a, src) = s.access(s.linear_addr(g, si), Access::Read);
    law_access_frame(s, s.linear_addr(g, si), Access::Read);
    let (b, dst) = a.access(a.linear_addr(SegReg::Es, di), Access::Write);
    law_access_frame(a, a.linear_addr(SegReg::Es, di), Access::Write);
    lemma_split_frame(b, src, b.linear_addr(g, si), bits, 0);
    let (c, v) = b.load_at(src, b.linear_addr(g, si), bits);
    lemma_split_frame(c, dst, c.linear_addr(SegReg::Es, di), bits, v);
    reveal(State::load_at);
    reveal(State::store_at);
}

/// One element of STOS: the accumulator goes to ES:DI.
pub proof fn law_stos_stores_the_accumulator(s: State, di: u64, bits: u32)
    requires
        s.tlb.len() == TLB_SIZE,
        !s.stos_one(di, bits).faulted(),
    ensures
        s.stos_one(di, bits) == s.store(s.linear_addr(SegReg::Es, di), bits, s.reg_w(0, bits)),
        only_accessed(s, s.stos_one(di, bits)),
{
    reveal(State::stos_one);
    reveal(State::store);
    let l = s.linear_addr(SegReg::Es, di);
    law_access_frame(s, l, Access::Write);
    law_store_frame(s, l, bits, s.reg_w(0, bits));
}

/// One element of LODS: the value at DS:SI, or in the segment a prefix names,
/// goes to the accumulator.
pub proof fn law_lods_loads_the_accumulator(s: State, si: u64, bits: u32)
    requires
        s.tlb.len() == TLB_SIZE,
        !s.lods_one(si, bits).faulted(),
    ensures
        ({
            let g = match s.pfx.seg_override {
                Some(o) => o,
                None => SegReg::Ds,
            };
            let (a, v) = s.load(s.linear_addr(g, si), bits);
            &&& s.lods_one(si, bits) == a.with_reg_w(0, bits, v)
            &&& only_accessed(s, a)
        }),
{
    reveal(State::lods_one);
    reveal(State::load);
    reveal(State::set_reg_w);
    let l = s.linear_addr(s.operand_seg(SegReg::Ds), si);
    law_access_frame(s, l, Access::Read);
    law_load_frame(s, l, bits);
}

/// One element of CMPS or SCAS: the flags of comparing the value at DS:SI, or in
/// the segment a prefix names, or the accumulator, with the one at ES:DI.
pub proof fn law_string_comparisons(s: State, si: u64, di: u64, bits: u32)
    requires
        s.tlb.len() == TLB_SIZE,
    ensures
        ({
            let g = match s.pfx.seg_override {
                Some(o) => o,
                None => SegReg::Ds,
            };
            let (a, x) = s.load(s.linear_addr(g, si), bits);
            let (b, y) = a.load(a.linear_addr(SegReg::Es, di), bits);
            !s.compare_one(si, di, bits).faulted() ==> s.compare_one(si, di, bits) == (State {
                flags: b.alu(AluOp::Cmp, x, y, bits).flags,
                ..b
            })
        }),
        ({
            let (a, y) = s.load(s.linear_addr(SegReg::Es, di), bits);
            !s.scas_one(di, bits).faulted() ==> s.scas_one(di, bits) == (State {
                flags: a.alu(AluOp::Cmp, a.reg_w(0, bits), y, bits).flags,
                ..a
            })
        }),
{
    reveal(State::compare_one);
    reveal(State::scas_one);
}

/// A run of MOVS that nothing stops takes all its elements.
proof fn lemma_movs_runs(s: State, c: Cursor, t: Stride)
    requires
        t.asize == 16 || t.asize == 32 || t.asize == 64,
        c.si < pow2(t.asize as nat),
        c.di < pow2(t.asize as nat),
        s.tlb.len() == TLB_SIZE,
        s.regs.len() == 16,
        !s.faulted(),
        !s.movs_run(c, t).0.faulted(),
    ensures
        ({
            let (u, e) = s.movs_run(c, t);
            &&& e.count == 0
            &&& e.si == (c.si + c.count * t.step) % pow2(t.asize as nat) as int
            &&& e.di == (c.di + c.count * t.step) % pow2(t.asize as nat) as int
            &&& u.regs.len() == 16
            &&& u.tlb.len() == TLB_SIZE
        }),
    decreases c.count,
{
    let m = pow2(t.asize as nat) as int;
    lemma2_to64();
    if c.count == 0 {
        lemma_still(c.si as int, t.step as int, m);
        lemma_still(c.di as int, t.step as int, m);
    } else {
        let u = s.movs_one(c.si, c.di, t.bits);
        if !u.faulted() {
            law_movs_copies_an_element(s, c.si, c.di, t.bits);
            lemma_advanced(c.si, t);
            lemma_advanced(c.di, t);
            let n = Cursor { si: advanced(c.si, t), di: advanced(c.di, t), count: (c.count - 1) as u64 };
            lemma_movs_runs(u, n, t);
            lemma_further(c.si as int, t.step as int, c.count as int, m);
            lemma_further(c.di as int, t.step as int, c.count as int, m);
        }
    }
}

/// A run of STOS that nothing stops takes all its elements.
proof fn lemma_stos_runs(s: State, c: Cursor, t: Stride)
    requires
        t.asize == 16 || t.asize == 32 || t.asize == 64,
        c.si < pow2(t.asize as nat),
        c.di < pow2(t.asize as nat),
        s.tlb.len() == TLB_SIZE,
        s.regs.len() == 16,
        !s.faulted(),
        !s.stos_run(c, t).0.faulted(),
    ensures
        ({
            let (u, e) = s.stos_run(c, t);
            &&& e.count == 0
            &&& e.si == c.si
            &&& e.di == (c.di + c.count * t.step) % pow2(t.asize as nat) as int
            &&& u.regs.len() == 16
            &&& u.tlb.len() == TLB_SIZE
        }),
    decreases c.count,
{
    let m = pow2(t.asize as nat) as int;
    lemma2_to64();
    if c.count == 0 {
        lemma_still(c.si as int, t.step as int, m);
        lemma_still(c.di as int, t.step as int, m);
    } else {
        let u = s.stos_one(c.di, t.bits);
        if !u.faulted() {
            law_stos_stores_the_accumulator(s, c.di, t.bits);
            lemma_advanced(c.si, t);
            lemma_advanced(c.di, t);
            let n = Cursor { si: c.si, di: advanced(c.di, t), count: (c.count - 1) as u64 };
            lemma_stos_runs(u, n, t);
            lemma_further(c.si as int, t.step as int, c.count as int, m);
            lemma_further(c.di as int, t.step as int, c.count as int, m);
        }
    }
}

/// A run of LODS that nothing stops takes all its elements.
proof fn lemma_lods_runs(s: State, c: Cursor, t: Stride)
    requires
        t.asize == 16 || t.asize == 32 || t.asize == 64,
        c.si < pow2(t.asize as nat),
        c.di < pow2(t.asize as nat),
        s.tlb.len() == TLB_SIZE,
        s.regs.len() == 16,
        !s.faulted(),
        !s.lods_run(c, t).0.faulted(),
    ensures
        ({
            let (u, e) = s.lods_run(c, t);
            &&& e.count == 0
            &&& e.si == (c.si + c.count * t.step) % pow2(t.asize as nat) as int
            &&& e.di == c.di
            &&& u.regs.len() == 16
            &&& u.tlb.len() == TLB_SIZE
        }),
    decreases c.count,
{
    let m = pow2(t.asize as nat) as int;
    lemma2_to64();
    if c.count == 0 {
        lemma_still(c.si as int, t.step as int, m);
        lemma_still(c.di as int, t.step as int, m);
    } else {
        let u = s.lods_one(c.si, t.bits);
        if !u.faulted() {
            law_lods_loads_the_accumulator(s, c.si, t.bits);
            reveal(State::with_reg_w);
            crate::bits::lemma_masks();
            lemma_advanced(c.si, t);
            lemma_advanced(c.di, t);
            let n = Cursor { si: advanced(c.si, t), di: c.di, count: (c.count - 1) as u64 };
            lemma_lods_runs(u, n, t);
            lemma_further(c.si as int, t.step as int, c.count as int, m);
            lemma_further(c.di as int, t.step as int, c.count as int, m);
        }
    }
}

/// The index registers and the count as a string instruction leaves them.
#[verifier::spinoff_prover]
proof fn lemma_done(u: State, t: Stride, c: Cursor, si: bool, di: bool)
    requires
        u.regs.len() == 16,
        t.asize == 16 || t.asize == 32 || t.asize == 64,
        c.si < pow2(t.asize as nat),
        c.di < pow2(t.asize as nat),
        c.count < pow2(t.asize as nat),
    ensures
        ({
            let e = u.string_done(t, c, si, di);
            let a = t.asize;
            &&& si ==> e.reg_w(6, a) == c.si
            &&& di ==> e.reg_w(7, a) == c.di
            &&& e.reg_w(1, a) == if t.rep == Rep::No { u.reg_w(1, a) } else { c.count }
            &&& e.faulted() == u.faulted()
        }),
{
    reveal(State::string_done);
    lemma2_to64();
    let w = t.asize;
    let a = if si { u.with_reg_w(6, w, c.si) } else { u };
    let b = if di { a.with_reg_w(7, w, c.di) } else { a };
    assert(a.regs.len() == 16 && b.regs.len() == 16 && u.string_done(t, c, si, di).faulted()
        == u.faulted()) by {
        reveal(State::with_reg_w);
        crate::bits::lemma_masks();
    }
    vstd::arithmetic::div_mod::lemma_small_mod(c.si as nat, pow2(w as nat));
    vstd::arithmetic::div_mod::lemma_small_mod(c.di as nat, pow2(w as nat));
    vstd::arithmetic::div_mod::lemma_small_mod(c.count as nat, pow2(w as nat));
    lemma_read_back(u, 6, w, c.si);
    lemma_read_back(a, 7, w, c.di);
    lemma_read_back(b, 1, w, c.count);
    lemma_other_reg(u, 6, 1, w, c.si);
    lemma_other_reg(a, 7, 6, w, c.di);
    lemma_other_reg(a, 7, 1, w, c.di);
    lemma_other_reg(b, 1, 6, w, c.count);
    lemma_other_reg(b, 1, 7, w, c.count);
}

/// How many elements a string instruction takes: one, or with a repeat prefix as
/// many as the count register says.
pub open spec fn elements(s: State, rep: Rep) -> int {
    if rep == Rep::No { 1 } else { count(s) }
}

/// An index register after `n` elements, at the address size.
pub open spec fn index_after(s: State, i: int, n: int, wide: bool) -> int {
    let m = pow2(s.asize() as nat) as int;
    (s.regs[i] as int % m + n * pace(s, wide)) % m
}

/// A string instruction that moves data takes all its elements: the index
/// registers end up that many elements further on, in the direction of DF, and
/// with a repeat prefix the count ends at zero.
#[verifier::spinoff_prover]
pub proof fn law_repeats_take_every_element(s: State, inst: Inst, rep: Rep, wide: bool)
    requires
        s.regs.len() == 16,
        s.tlb.len() == TLB_SIZE,
        !s.faulted(),
        inst == (Inst::Movs { rep, w: wide }) || inst == (Inst::Stos { rep, w: wide }) || inst == (
        Inst::Lods { rep, w: wide }),
        !s.execute(inst).faulted(),
    ensures
        ({
            let t = s.execute(inst);
            let n = elements(s, rep);
            let a = s.asize();
            &&& !(inst is Stos) ==> t.reg_w(6, a) == index_after(s, 6, n, wide)
            &&& !(inst is Lods) ==> t.reg_w(7, a) == index_after(s, 7, n, wide)
            &&& rep != Rep::No ==> t.reg_w(1, a) == 0
        }),
{
    lemma_data(s, inst);
    reveal(State::data_inst);
    reveal(State::movs);
    reveal(State::stos);
    reveal(State::lods);
    lemma2_to64();
    let t = s.stride(wide, rep);
    let a = t.asize;
    let m = pow2(a as nat) as int;
    law_registers_are_remainders(s, 6, a);
    law_registers_are_remainders(s, 7, a);
    law_registers_are_remainders(s, 1, a);
    vstd::arithmetic::div_mod::lemma_mod_bound(s.regs[6] as int, m);
    vstd::arithmetic::div_mod::lemma_mod_bound(s.regs[7] as int, m);
    let c = s.cursor(t);
    vstd::arithmetic::div_mod::lemma_mod_bound(c.si + c.count * t.step, m);
    vstd::arithmetic::div_mod::lemma_mod_bound(c.di + c.count * t.step, m);
    if inst is Movs {
        let (u, e) = s.movs_run(c, t);
        lemma_unfaulted(u, t, e, true, true);
        lemma_movs_runs(s, c, t);
        lemma_done(u, t, e, true, true);
    } else if inst is Stos {
        let (u, e) = s.stos_run(c, t);
        lemma_unfaulted(u, t, e, false, true);
        lemma_stos_runs(s, c, t);
        lemma_done(u, t, e, false, true);
    } else {
        let (u, e) = s.lods_run(c, t);
        lemma_unfaulted(u, t, e, true, false);
        lemma_lods_runs(s, c, t);
        lemma_done(u, t, e, true, false);
    }
}

/// Writing the registers back faults nothing.
proof fn lemma_unfaulted(u: State, t: Stride, c: Cursor, si: bool, di: bool)
    ensures
        u.string_done(t, c, si, di).faulted() == u.faulted(),
{
    reveal(State::string_done);
    reveal(State::with_reg_w);
}

/// A repeated comparison that nothing stops ends where the count runs out or
/// where ZF, bit 6 of the flags, is no longer what the prefix asks for, and takes
/// no element after that.
pub proof fn law_repeated_comparisons_stop(s: State, c: Cursor, t: Stride)
    requires
        t.rep != Rep::No,
        c.count > 0,
    ensures
        ({
            let (u, e) = s.compare_run(c, t);
            let zf = u.flags & 0x40 != 0;
            !u.faulted() ==> (e.count < c.count && (e.count == 0 || zf == (t.rep == Rep::Repne)))
        }),
        ({
            let (u, e) = s.scas_run(c, t);
            let zf = u.flags & 0x40 != 0;
            !u.faulted() ==> (e.count < c.count && (e.count == 0 || zf == (t.rep == Rep::Repne)))
        }),
        ({
            let v = s.compare_one(c.si, c.di, t.bits);
            let zf = v.flags & 0x40 != 0;
            !v.faulted() && zf == (t.rep == Rep::Repne) ==> s.compare_run(c, t) == (
                v,
                Cursor { si: advanced(c.si, t), di: advanced(c.di, t), count: (c.count - 1) as u64 },
            )
        }),
        ({
            let v = s.scas_one(c.di, t.bits);
            let zf = v.flags & 0x40 != 0;
            !v.faulted() && zf == (t.rep == Rep::Repne) ==> s.scas_run(c, t) == (
                v,
                Cursor { si: c.si, di: advanced(c.di, t), count: (c.count - 1) as u64 },
            )
        }),
    decreases c.count,
{
    let v = s.compare_one(c.si, c.di, t.bits);
    let n = Cursor { si: advanced(c.si, t), di: advanced(c.di, t), count: (c.count - 1) as u64 };
    if n.count > 0 {
        law_repeated_comparisons_stop(v, n, t);
    }
    let x = s.scas_one(c.di, t.bits);
    let k = Cursor { si: c.si, di: advanced(c.di, t), count: (c.count - 1) as u64 };
    if k.count > 0 {
        law_repeated_comparisons_stop(x, k, t);
    }
}

} // verus!
