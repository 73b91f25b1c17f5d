//! Laws of the string instructions: a REP stops at the element that faults,
//! with its index and count registers on it.

use crate::cpu::address::Access;
use crate::cpu::{SegReg, TLB_SIZE};
use crate::instructions::strings::{advanced, repeats, Cursor, Stride};
use crate::instructions::Rep;
use crate::laws::frame::{law_access_frame, law_load_frame, only_accessed};
use crate::state::State;
use vstd::prelude::*;

verus! {

/// A cursor one element further on.
pub open spec fn next(c: Cursor, t: Stride, si: bool, di: bool) -> Cursor {
    Cursor {
        si: if si { advanced(c.si, t) } else { c.si },
        di: if di { advanced(c.di, t) } else { c.di },
        count: (c.count - 1) as u64,
    }
}

/// A cursor `n` elements further on.
pub open spec fn after_elements(c: Cursor, t: Stride, n: int, si: bool, di: bool) -> Cursor
    decreases n,
{
    if n <= 0 { c } else { next(after_elements(c, t, n - 1, si, di), t, si, di) }
}

/// Taking the first element and then `n` more is taking `n + 1`.
proof fn lemma_elements(c: Cursor, t: Stride, n: int, si: bool, di: bool)
    requires
        0 <= n < c.count,
    ensures
        after_elements(c, t, n, si, di).count == c.count - n,
        after_elements(next(c, t, si, di), t, n, si, di) == after_elements(c, t, n + 1, si, di),
    decreases n,
{
    reveal_with_fuel(after_elements, 2);
    if n > 0 {
        lemma_elements(c, t, n - 1, si, di);
    }
}

/// A REP MOVS stops at the element that faults, with its index and count
/// registers on that element: the elements before it are done, and restarting
/// from the cursor it leaves does the one that faulted first.
pub proof fn law_rep_movs_stops_at_the_fault(s: State, c: Cursor, t: Stride)
    requires
        s.movs_run(c, t).0.faulted(),
        !s.faulted(),
    ensures
        ({
            let (u, stop) = s.movs_run(c, t);
            &&& 0 < stop.count <= c.count
            &&& stop == after_elements(c, t, c.count - stop.count, true, true)
            &&& exists|v: State| !v.faulted() && u == #[trigger] v.movs_one(stop.si, stop.di, t.bits)
        }),
    decreases c.count,
{
    if c.count > 0 {
        let v = s.movs_one(c.si, c.di, t.bits);
        if !v.faulted() {
            let n = next(c, t, true, true);
            law_rep_movs_stops_at_the_fault(v, n, t);
            let (u, stop) = s.movs_run(c, t);
            lemma_elements(c, t, n.count - stop.count, true, true);
        }
    }
}

/// A REP STOS stops at the element that faults, too.
pub proof fn law_rep_stos_stops_at_the_fault(s: State, c: Cursor, t: Stride)
    requires
        s.stos_run(c, t).0.faulted(),
        !s.faulted(),
    ensures
        ({
            let (u, stop) = s.stos_run(c, t);
            &&& 0 < stop.count <= c.count
            &&& stop == after_elements(c, t, c.count - stop.count, false, true)
            &&& exists|v: State| !v.faulted() && u == #[trigger] v.stos_one(stop.di, t.bits)
        }),
    decreases c.count,
{
    if c.count > 0 {
        let v = s.stos_one(c.di, t.bits);
        if !v.faulted() {
            let n = next(c, t, false, true);
            law_rep_stos_stops_at_the_fault(v, n, t);
            let (u, stop) = s.stos_run(c, t);
            lemma_elements(c, t, n.count - stop.count, false, true);
        }
    }
}

/// So does a REP LODS.
pub proof fn law_rep_lods_stops_at_the_fault(s: State, c: Cursor, t: Stride)
    requires
        s.lods_run(c, t).0.faulted(),
        !s.faulted(),
    ensures
        ({
            let (u, stop) = s.lods_run(c, t);
            &&& 0 < stop.count <= c.count
            &&& stop == after_elements(c, t, c.count - stop.count, true, false)
            &&& exists|v: State| !v.faulted() && u == #[trigger] v.lods_one(stop.si, t.bits)
        }),
    decreases c.count,
{
    if c.count > 0 {
        let v = s.lods_one(c.si, t.bits);
        if !v.faulted() {
            let n = next(c, t, true, false);
            law_rep_lods_stops_at_the_fault(v, n, t);
            let (u, stop) = s.lods_run(c, t);
            lemma_elements(c, t, n.count - stop.count, true, false);
        }
    }
}

/// So does a REPE or REPNE CMPS.
pub proof fn law_rep_cmps_stops_at_the_fault(s: State, c: Cursor, t: Stride)
    requires
        s.compare_run(c, t).0.faulted(),
        !s.faulted(),
    ensures
        ({
            let (u, stop) = s.compare_run(c, t);
            &&& 0 < stop.count <= c.count
            &&& stop == after_elements(c, t, c.count - stop.count, true, true)
            &&& exists|v: State| !v.faulted() && u == #[trigger] v.compare_one(stop.si, stop.di, t.bits)
        }),
    decreases c.count,
{
    if c.count > 0 {
        let v = s.compare_one(c.si, c.di, t.bits);
        if v.faulted() {
            assert(s.compare_run(c, t) == (v, c));
        }
        if !v.faulted() && repeats(v, t.rep, next(c, t, true, true).count) {
            let n = next(c, t, true, true);
            law_rep_cmps_stops_at_the_fault(v, n, t);
            let (u, stop) = s.compare_run(c, t);
            lemma_elements(c, t, n.count - stop.count, true, true);
        }
    }
}

/// So does a REPE or REPNE SCAS.
pub proof fn law_rep_scas_stops_at_the_fault(s: State, c: Cursor, t: Stride)
    requires
        s.scas_run(c, t).0.faulted(),
        !s.faulted(),
    ensures
        ({
            let (u, stop) = s.scas_run(c, t);
            &&& 0 < stop.count <= c.count
            &&& stop == after_elements(c, t, c.count - stop.count, false, true)
            &&& exists|v: State| !v.faulted() && u == #[trigger] v.scas_one(stop.di, t.bits)
        }),
    decreases c.count,
{
    if c.count > 0 {
        let v = s.scas_one(c.di, t.bits);
        if v.faulted() {
            assert(s.scas_run(c, t) == (v, c));
        }
        if !v.faulted() && repeats(v, t.rep, next(c, t, false, true).count) {
            let n = next(c, t, false, true);
            law_rep_scas_stops_at_the_fault(v, n, t);
            let (u, stop) = s.scas_run(c, t);
            lemma_elements(c, t, n.count - stop.count, false, true);
        }
    }
}

// ---- The registers it stops with ----

/// A cursor's registers fit the address size.
pub open spec fn fits(c: Cursor, asize: u32) -> bool {
    let end: int = if asize == 64 {
        0x1_0000_0000_0000_0000
    } else if asize == 32 {
        0x1_0000_0000
    } else {
        0x1_0000
    };
    c.si < end && c.di < end && c.count < end
}

proof fn lemma_bits(r: u64, v: u64)
    by (bit_vector)
    ensures
        v < 0x1_0000 ==> ((r & 0xFFFF_FFFF_FFFF_0000) | ((v as u16) as u64)) as u16 == v,
        v < 0x1_0000_0000 ==> (v as u32) as u64 == v,
        v & 0xFFFF < 0x1_0000,
        v & 0xFFFF_FFFF < 0x1_0000_0000,
        0u8 & 15 == 0,
        1u8 & 15 == 1,
        6u8 & 15 == 6,
        7u8 & 15 == 7,
{
}

/// The registers a string instruction leaves are its cursor.
proof fn lemma_done(s: State, t: Stride, c: Cursor, si: bool, di: bool)
    requires
        s.regs.len() == 16,
        t.asize == 16 || t.asize == 32 || t.asize == 64,
        t.rep != Rep::No,
        fits(c, t.asize),
        si || c.si == s.reg_w(6, t.asize),
        di || c.di == s.reg_w(7, t.asize),
    ensures
        s.string_done(t, c, si, di).cursor(t) == c,
{
    reveal(State::string_done);
    reveal(State::with_reg_w);
    lemma_bits(s.reg64(6), c.si);
    lemma_bits(s.reg64(7), c.di);
    lemma_bits(s.reg64(1), c.count);
}

/// Cursors stay within the address size.
proof fn lemma_fits(c: Cursor, t: Stride, n: int, si: bool, di: bool)
    requires
        0 <= n <= c.count,
        fits(c, t.asize),
    ensures
        fits(after_elements(c, t, n, si, di), t.asize),
        after_elements(c, t, n, si, di).count == c.count - n,
    decreases n,
{
    if n > 0 {
        lemma_fits(c, t, n - 1, si, di);
        let b = after_elements(c, t, n - 1, si, di);
        lemma_bits(0, b.si.wrapping_add((t.step as i64) as u64));
        lemma_bits(0, b.di.wrapping_add((t.step as i64) as u64));
    }
}

/// The index and count registers are those of an earlier state.
spec fn same_cursor(s: State, u: State) -> bool {
    &&& u.regs.len() == 16
    &&& u.tlb.len() == TLB_SIZE
    &&& u.reg64(1) == s.reg64(1)
    &&& u.reg64(6) == s.reg64(6)
    &&& u.reg64(7) == s.reg64(7)
}

/// One element writes no index or count register.
proof fn lemma_one(s: State, si: u64, di: u64, bits: u32)
    requires
        s.regs.len() == 16,
        s.tlb.len() == TLB_SIZE,
    ensures
        same_cursor(s, s.movs_one(si, di, bits)),
        same_cursor(s, s.stos_one(di, bits)),
        same_cursor(s, s.lods_one(si, bits)),
        same_cursor(s, s.compare_one(si, di, bits)),
        same_cursor(s, s.scas_one(di, bits)),
{
    reveal(State::movs_one);
    reveal(State::stos_one);
    reveal(State::lods_one);
    reveal(State::compare_one);
    reveal(State::scas_one);
    reveal(State::set_reg_w);
    reveal(State::with_reg_w);
    lemma_bits(0, 0);
    let seg = s.operand_seg(SegReg::Ds);
    let from = s.linear_addr(seg, si);
    let to = s.linear_addr(SegReg::Es, di);
    // MOVS, and LODS on the way.
    law_access_frame(s, from, Access::Read);
    let (a, src) = s.translate(seg, si, Access::Read);
    lemma_load_at(a, src, from, bits);
    law_access_frame(a, to, Access::Write);
    let (b, dst) = a.translate(SegReg::Es, di, Access::Write);
    lemma_load_at(b, src, from, bits);
    let (c, v) = b.load_at(src, from, bits);
    lemma_store_at(c, dst, to, bits, v);
    // CMPS.
    law_load_frame(s, from, bits);
    law_load_frame(s.load(from, bits).0, to, bits);
    // STOS and SCAS.
    law_access_frame(s, to, Access::Write);
    let (e, there) = s.translate(SegReg::Es, di, Access::Write);
    lemma_store_at(e, there, to, bits, e.reg_w(0, bits));
    law_load_frame(s, to, bits);
}

proof fn lemma_load_at(s: State, phys: usize, linear: u64, w: u32)
    requires
        s.tlb.len() == TLB_SIZE,
    ensures
        only_accessed(s, s.load_at(phys, linear, w).0),
{
    reveal(State::load_at);
    reveal(State::read_split);
    law_access_frame(s, linear.wrapping_add((0x1000 - (phys & 0xFFF)) as u64), Access::Read);
}

proof fn lemma_store_at(s: State, phys: usize, linear: u64, w: u32, v: u64)
    requires
        s.tlb.len() == TLB_SIZE,
    ensures
        only_accessed(s, s.store_at(phys, linear, w, v)),
{
    reveal(State::store_at);
    reveal(State::write_split);
    law_access_frame(s, linear.wrapping_add((0x1000 - (phys & 0xFFF)) as u64), Access::Write);
}

/// Writing the registers back raises no exception, and clears none.
proof fn lemma_unfaulted(s: State, t: Stride, c: Cursor, si: bool, di: bool)
    ensures
        s.string_done(t, c, si, di).faulted() == s.faulted(),
{
    reveal(State::string_done);
    reveal(State::with_reg_w);
}

/// An index register the instruction does not use stays where it was.
proof fn lemma_kept(c: Cursor, t: Stride, n: int, si: bool, di: bool)
    ensures
        !si ==> after_elements(c, t, n, si, di).si == c.si,
        !di ==> after_elements(c, t, n, si, di).di == c.di,
    decreases n,
{
    if n > 0 {
        lemma_kept(c, t, n - 1, si, di);
    }
}

proof fn lemma_movs_run(s: State, c: Cursor, t: Stride)
    requires
        s.regs.len() == 16,
        s.tlb.len() == TLB_SIZE,
    ensures
        same_cursor(s, s.movs_run(c, t).0),
    decreases c.count,
{
    if c.count > 0 {
        lemma_one(s, c.si, c.di, t.bits);
        let v = s.movs_one(c.si, c.di, t.bits);
        if !v.faulted() {
            lemma_movs_run(v, next(c, t, true, true), t);
        }
    }
}

/// After a MOVS that faulted under a REP prefix the index and count registers
/// point at the element that faulted, so the instruction can be restarted: the
/// cursor it will start from is the one it stopped at.
pub proof fn law_rep_movs_can_be_restarted(s: State, rep: Rep, wide: bool)
    requires
        rep != Rep::No,
        s.regs.len() == 16,
        s.tlb.len() == TLB_SIZE,
        !s.faulted(),
        s.movs(rep, wide).faulted(),
    ensures
        ({
            let t = s.stride(wide, rep);
            s.movs(rep, wide).cursor(t) == s.movs_run(s.cursor(t), t).1
        }),
{
    reveal(State::movs);
    let t = s.stride(wide, rep);
    let c = s.cursor(t);
    let (u, stop) = s.movs_run(c, t);
    lemma_movs_run(s, c, t);
    lemma_unfaulted(u, t, stop, true, true);
    law_rep_movs_stops_at_the_fault(s, c, t);
    lemma_fits(c, t, c.count - stop.count, true, true);
    lemma_kept(c, t, c.count - stop.count, true, true);
    lemma_done(u, t, stop, true, true);
}

proof fn lemma_stos_run(s: State, c: Cursor, t: Stride)
    requires
        s.regs.len() == 16,
        s.tlb.len() == TLB_SIZE,
    ensures
        same_cursor(s, s.stos_run(c, t).0),
    decreases c.count,
{
    if c.count > 0 {
        lemma_one(s, c.si, c.di, t.bits);
        let v = s.stos_one(c.di, t.bits);
        if !v.faulted() {
            lemma_stos_run(v, next(c, t, false, true), t);
        }
    }
}

/// After a STOS that faulted under a REP prefix the index and count registers
/// point at the element that faulted, so the instruction can be restarted: the
/// cursor it will start from is the one it stopped at.
pub proof fn law_rep_stos_can_be_restarted(s: State, rep: Rep, wide: bool)
    requires
        rep != Rep::No,
        s.regs.len() == 16,
        s.tlb.len() == TLB_SIZE,
        !s.faulted(),
        s.stos(rep, wide).faulted(),
    ensures
        ({
            let t = s.stride(wide, rep);
            s.stos(rep, wide).cursor(t) == s.stos_run(s.cursor(t), t).1
        }),
{
    reveal(State::stos);
    let t = s.stride(wide, rep);
    let c = s.cursor(t);
    let (u, stop) = s.stos_run(c, t);
    lemma_stos_run(s, c, t);
    lemma_unfaulted(u, t, stop, false, true);
    law_rep_stos_stops_at_the_fault(s, c, t);
    lemma_fits(c, t, c.count - stop.count, false, true);
    lemma_kept(c, t, c.count - stop.count, false, true);
    lemma_done(u, t, stop, false, true);
}

proof fn lemma_lods_run(s: State, c: Cursor, t: Stride)
    requires
        s.regs.len() == 16,
        s.tlb.len() == TLB_SIZE,
    ensures
        same_cursor(s, s.lods_run(c, t).0),
    decreases c.count,
{
    if c.count > 0 {
        lemma_one(s, c.si, c.di, t.bits);
        let v = s.lods_one(c.si, t.bits);
        if !v.faulted() {
            lemma_lods_run(v, next(c, t, true, false), t);
        }
    }
}

/// After a LODS that faulted under a REP prefix the index and count registers
/// point at the element that faulted, so the instruction can be restarted: the
/// cursor it will start from is the one it stopped at.
pub proof fn law_rep_lods_can_be_restarted(s: State, rep: Rep, wide: bool)
    requires
        rep != Rep::No,
        s.regs.len() == 16,
        s.tlb.len() == TLB_SIZE,
        !s.faulted(),
        s.lods(rep, wide).faulted(),
    ensures
        ({
            let t = s.stride(wide, rep);
            s.lods(rep, wide).cursor(t) == s.lods_run(s.cursor(t), t).1
        }),
{
    reveal(State::lods);
    let t = s.stride(wide, rep);
    let c = s.cursor(t);
    let (u, stop) = s.lods_run(c, t);
    lemma_lods_run(s, c, t);
    lemma_unfaulted(u, t, stop, true, false);
    law_rep_lods_stops_at_the_fault(s, c, t);
    lemma_fits(c, t, c.count - stop.count, true, false);
    lemma_kept(c, t, c.count - stop.count, true, false);
    lemma_done(u, t, stop, true, false);
}

proof fn lemma_cmps_run(s: State, c: Cursor, t: Stride)
    requires
        s.regs.len() == 16,
        s.tlb.len() == TLB_SIZE,
    ensures
        same_cursor(s, s.compare_run(c, t).0),
    decreases c.count,
{
    if c.count > 0 {
        lemma_one(s, c.si, c.di, t.bits);
        let v = s.compare_one(c.si, c.di, t.bits);
        if !v.faulted() && repeats(v, t.rep, next(c, t, true, true).count) {
            lemma_cmps_run(v, next(c, t, true, true), t);
        }
    }
}

/// After a CMPS that faulted under a REP prefix the index and count registers
/// point at the element that faulted, so the instruction can be restarted: the
/// cursor it will start from is the one it stopped at.
pub proof fn law_rep_cmps_can_be_restarted(s: State, rep: Rep, wide: bool)
    requires
        rep != Rep::No,
        s.regs.len() == 16,
        s.tlb.len() == TLB_SIZE,
        !s.faulted(),
        s.compare(rep, wide).faulted(),
    ensures
        ({
            let t = s.stride(wide, rep);
            s.compare(rep, wide).cursor(t) == s.compare_run(s.cursor(t), t).1
        }),
{
    reveal(State::compare);
    let t = s.stride(wide, rep);
    let c = s.cursor(t);
    let (u, stop) = s.compare_run(c, t);
    lemma_cmps_run(s, c, t);
    lemma_unfaulted(u, t, stop, true, true);
    law_rep_cmps_stops_at_the_fault(s, c, t);
    lemma_fits(c, t, c.count - stop.count, true, true);
    lemma_kept(c, t, c.count - stop.count, true, true);
    lemma_done(u, t, stop, true, true);
}

proof fn lemma_scas_run(s: State, c: Cursor, t: Stride)
    requires
        s.regs.len() == 16,
        s.tlb.len() == TLB_SIZE,
    ensures
        same_cursor(s, s.scas_run(c, t).0),
    decreases c.count,
{
    if c.count > 0 {
        lemma_one(s, c.si, c.di, t.bits);
        let v = s.scas_one(c.di, t.bits);
        if !v.faulted() && repeats(v, t.rep, next(c, t, false, true).count) {
            lemma_scas_run(v, next(c, t, false, true), t);
        }
    }
}

/// After a SCAS that faulted under a REP prefix the index and count registers
/// point at the element that faulted, so the instruction can be restarted: the
/// cursor it will start from is the one it stopped at.
pub proof fn law_rep_scas_can_be_restarted(s: State, rep: Rep, wide: bool)
    requires
        rep != Rep::No,
        s.regs.len() == 16,
        s.tlb.len() == TLB_SIZE,
        !s.faulted(),
        s.scas(rep, wide).faulted(),
    ensures
        ({
            let t = s.stride(wide, rep);
            s.scas(rep, wide).cursor(t) == s.scas_run(s.cursor(t), t).1
        }),
{
    reveal(State::scas);
    let t = s.stride(wide, rep);
    let c = s.cursor(t);
    let (u, stop) = s.scas_run(c, t);
    lemma_scas_run(s, c, t);
    lemma_unfaulted(u, t, stop, false, true);
    law_rep_scas_stops_at_the_fault(s, c, t);
    lemma_fits(c, t, c.count - stop.count, false, true);
    lemma_kept(c, t, c.count - stop.count, false, true);
    lemma_done(u, t, stop, false, true);
}

} // verus!
