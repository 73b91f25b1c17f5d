//! String instructions.
//!
//! All five share one shape, and one rule that is easy to miss and expensive
//! to get wrong: **a REP loop must be restartable.** If an element faults, the
//! instruction stops with SI/DI/CX still pointing at that element, so that
//! when the handler returns and the instruction re-runs it picks up exactly
//! where it stopped.
//!
//! The index registers follow the *address* size and the element the *operand*
//! size; they are not the same thing when a 0x66 prefix is in play.

use crate::cpu::address::Access;
use crate::cpu::{flags, Cpu, SegReg};
use crate::instructions::{AluOp, Rep};
use crate::state::State;
use vstd::prelude::*;

verus! {

/// Where a string instruction stands: its index registers and its count.
pub struct Cursor {
    pub si: u64,
    pub di: u64,
    pub count: u64,
}

/// How a string instruction moves.
#[derive(Clone, Copy)]
pub struct Stride {
    /// Element width in bits.
    pub bits: u32,
    /// Signed step in bytes: backward while DF is set.
    pub step: i32,
    /// Address size in bits.
    pub asize: u32,
    /// The REP prefix.
    pub rep: Rep,
}

/// An index register advanced, wrapping at the address size.
pub open spec fn advanced(v: u64, t: Stride) -> u64 {
    let n = v.wrapping_add((t.step as i64) as u64);
    if t.asize == 64 {
        n
    } else if t.asize == 32 {
        n & 0xFFFF_FFFF
    } else {
        n & 0xFFFF
    }
}

/// Does a comparison keep going? The conditional prefixes also stop on ZF.
pub open spec fn repeats(s: State, rep: Rep, left: u64) -> bool {
    match rep {
        Rep::No => false,
        Rep::Repe => left != 0 && s.flag(flags::ZF),
        Rep::Repne => left != 0 && !s.flag(flags::ZF),
    }
}

impl State {
    /// The stride of a string instruction with byte or full-size elements.
    pub open spec fn stride(self, wide: bool, rep: Rep) -> Stride {
        let bits = if wide { self.osize() } else { 8 };
        let bytes = (bits / 8) as i32;
        Stride {
            bits,
            step: if self.flag(flags::DF) { (-bytes) as i32 } else { bytes },
            asize: self.asize(),
            rep,
        }
    }

    /// Where a string instruction starts. Without a prefix it runs once.
    pub open spec fn cursor(self, t: Stride) -> Cursor {
        Cursor {
            si: self.reg_w(6, t.asize),
            di: self.reg_w(7, t.asize),
            count: if t.rep == Rep::No { 1 } else { self.reg_w(1, t.asize) },
        }
    }

    /// The registers a string instruction leaves. They are written even when an
    /// element faulted: they record where it stopped.
    #[verifier::opaque]
    pub open spec fn string_done(self, t: Stride, c: Cursor, si: bool, di: bool) -> State {
        let a = if si { self.with_reg_w(6, t.asize, c.si) } else { self };
        let b = if di { a.with_reg_w(7, t.asize, c.di) } else { a };
        if t.rep == Rep::No { b } else { b.with_reg_w(1, t.asize, c.count) }
    }

    /// One element of MOVS.
    #[verifier::opaque]
    pub open spec fn movs_one(self, si: u64, di: u64, bits: u32) -> State {
        let seg = self.operand_seg(SegReg::Ds);
        let (a, src) = self.translate(seg, si, Access::Read);
        let (b, dst) = a.translate(SegReg::Es, di, Access::Write);
        if b.faulted() {
            b
        } else {
            let (c, v) = b.load_at(src, b.linear_addr(seg, si), bits);
            c.store_at(dst, c.linear_addr(SegReg::Es, di), bits, v)
        }
    }

    /// One element of STOS.
    #[verifier::opaque]
    pub open spec fn stos_one(self, di: u64, bits: u32) -> State {
        let (a, dst) = self.translate(SegReg::Es, di, Access::Write);
        if a.faulted() {
            a
        } else {
            a.store_at(dst, a.linear_addr(SegReg::Es, di), bits, a.reg_w(0, bits))
        }
    }

    /// One element of LODS.
    #[verifier::opaque]
    pub open spec fn lods_one(self, si: u64, bits: u32) -> State {
        let seg = self.operand_seg(SegReg::Ds);
        let (a, src) = self.translate(seg, si, Access::Read);
        if a.faulted() {
            a
        } else {
            let (b, v) = a.load_at(src, a.linear_addr(seg, si), bits);
            b.set_reg_w(0, bits, v)
        }
    }

    /// One element of CMPS: the flags of comparing DS:SI with ES:DI.
    #[verifier::opaque]
    pub open spec fn compare_one(self, si: u64, di: u64, bits: u32) -> State {
        let (a, x) = self.load(self.linear_addr(self.operand_seg(SegReg::Ds), si), bits);
        let (b, y) = a.load(a.linear_addr(SegReg::Es, di), bits);
        if b.faulted() { b } else { b.with_flags(b.alu(AluOp::Cmp, x, y, bits).flags) }
    }

    /// One element of SCAS: the flags of comparing the accumulator with ES:DI.
    #[verifier::opaque]
    pub open spec fn scas_one(self, di: u64, bits: u32) -> State {
        let (a, y) = self.load(self.linear_addr(SegReg::Es, di), bits);
        if a.faulted() { a } else { a.with_flags(a.alu(AluOp::Cmp, a.reg_w(0, bits), y, bits).flags) }
    }

    /// MOVS from a cursor on: it stops at the first element that faults.
    pub open spec fn movs_run(self, c: Cursor, t: Stride) -> (State, Cursor)
        decreases c.count,
    {
        if c.count == 0 {
            (self, c)
        } else {
            let s = self.movs_one(c.si, c.di, t.bits);
            if s.faulted() {
                (s, c)
            } else {
                s.movs_run(
                    Cursor {
                        si: advanced(c.si, t),
                        di: advanced(c.di, t),
                        count: (c.count - 1) as u64,
                    },
                    t,
                )
            }
        }
    }

    /// STOS from a cursor on.
    pub open spec fn stos_run(self, c: Cursor, t: Stride) -> (State, Cursor)
        decreases c.count,
    {
        if c.count == 0 {
            (self, c)
        } else {
            let s = self.stos_one(c.di, t.bits);
            if s.faulted() {
                (s, c)
            } else {
                s.stos_run(
                    Cursor { si: c.si, di: advanced(c.di, t), count: (c.count - 1) as u64 },
                    t,
                )
            }
        }
    }

    /// LODS from a cursor on.
    pub open spec fn lods_run(self, c: Cursor, t: Stride) -> (State, Cursor)
        decreases c.count,
    {
        if c.count == 0 {
            (self, c)
        } else {
            let s = self.lods_one(c.si, t.bits);
            if s.faulted() {
                (s, c)
            } else {
                s.lods_run(
                    Cursor { si: advanced(c.si, t), di: c.di, count: (c.count - 1) as u64 },
                    t,
                )
            }
        }
    }

    /// CMPS from a cursor on.
    pub open spec fn compare_run(self, c: Cursor, t: Stride) -> (State, Cursor)
        decreases c.count,
    {
        if c.count == 0 {
            (self, c)
        } else {
            let s = self.compare_one(c.si, c.di, t.bits);
            let next = Cursor {
                si: advanced(c.si, t),
                di: advanced(c.di, t),
                count: (c.count - 1) as u64,
            };
            if s.faulted() {
                (s, c)
            } else if repeats(s, t.rep, next.count) {
                s.compare_run(next, t)
            } else {
                (s, next)
            }
        }
    }

    /// SCAS from a cursor on.
    pub open spec fn scas_run(self, c: Cursor, t: Stride) -> (State, Cursor)
        decreases c.count,
    {
        if c.count == 0 {
            (self, c)
        } else {
            let s = self.scas_one(c.di, t.bits);
            let next = Cursor { si: c.si, di: advanced(c.di, t), count: (c.count - 1) as u64 };
            if s.faulted() {
                (s, c)
            } else if repeats(s, t.rep, next.count) {
                s.scas_run(next, t)
            } else {
                (s, next)
            }
        }
    }

    /// MOVS.
    #[verifier::opaque]
    pub open spec fn movs(self, rep: Rep, wide: bool) -> State {
        let t = self.stride(wide, rep);
        let (s, c) = self.movs_run(self.cursor(t), t);
        s.string_done(t, c, true, true)
    }

    /// STOS.
    #[verifier::opaque]
    pub open spec fn stos(self, rep: Rep, wide: bool) -> State {
        let t = self.stride(wide, rep);
        let (s, c) = self.stos_run(self.cursor(t), t);
        s.string_done(t, c, false, true)
    }

    /// LODS.
    #[verifier::opaque]
    pub open spec fn lods(self, rep: Rep, wide: bool) -> State {
        let t = self.stride(wide, rep);
        let (s, c) = self.lods_run(self.cursor(t), t);
        s.string_done(t, c, true, false)
    }

    /// CMPS.
    #[verifier::opaque]
    pub open spec fn compare(self, rep: Rep, wide: bool) -> State {
        let t = self.stride(wide, rep);
        let (s, c) = self.compare_run(self.cursor(t), t);
        s.string_done(t, c, true, true)
    }

    /// SCAS.
    #[verifier::opaque]
    pub open spec fn scas(self, rep: Rep, wide: bool) -> State {
        let t = self.stride(wide, rep);
        let (s, c) = self.scas_run(self.cursor(t), t);
        s.string_done(t, c, false, true)
    }
}

/// Advance a string index register.
fn advance(v: u64, t: Stride) -> (r: u64)
    ensures
        r == advanced(v, t),
{
    let n: u64 = v.wrapping_add((t.step as i64) as u64);
    match t.asize {
        64 => n,
        32 => n & 0xFFFF_FFFF,
        _ => n & 0xFFFF,
    }
}

impl Cpu {
    /// Signed step, element width and address size of a string instruction.
    fn stride(&self, wide: bool, rep: Rep) -> (t: Stride)
        ensures
            t == self@.stride(wide, rep),
    {
        let bits: u32 = if wide {
            self.osize()
        } else {
            8
        };
        let bytes: i32 = (bits / 8) as i32;
        let step: i32 = if self.get_flag(flags::DF) {
            -bytes
        } else {
            bytes
        };
        Stride { bits, step, asize: self.asize(), rep }
    }

    /// Iteration count: the count register under a REP prefix, one without. A
    /// REP with a zero count does nothing at all.
    fn string_count(&self, t: Stride) -> (n: u64)
        ensures
            n == self@.cursor(t).count,
    {
        if t.rep == Rep::No {
            1
        } else {
            self.reg_w(1, t.asize)
        }
    }

    /// Should a REPE/REPNE comparison keep going?
    fn string_repeat(&self, rep: Rep, remaining: u64) -> (b: bool)
        ensures
            b == repeats(self@, rep, remaining),
    {
        match rep {
            Rep::No => false,
            Rep::Repe => remaining != 0 && self.get_flag(flags::ZF),
            Rep::Repne => remaining != 0 && !self.get_flag(flags::ZF),
        }
    }

    /// Record where a string instruction stopped.
    fn string_done(&mut self, t: Stride, si: Option<u64>, di: Option<u64>, count: u64)
        ensures
            final(self)@ == old(self)@.string_done(
                t,
                Cursor {
                    si: si.unwrap_or(0),
                    di: di.unwrap_or(0),
                    count,
                },
                si is Some,
                di is Some,
            ),
    {
        proof {
            reveal(State::string_done);
        }
        // `_raw`: these writes record *where the fault stopped*, so they have
        // to land even though a fault is pending.
        if let Some(v) = si {
            self.set_reg_w_raw(6, t.asize, v);
        }
        if let Some(v) = di {
            self.set_reg_w_raw(7, t.asize, v);
        }
        if t.rep != Rep::No {
            self.set_reg_w_raw(1, t.asize, count);
        }
    }

    fn movs_one(&mut self, si: u64, di: u64, bits: u32)
        ensures
            final(self)@ == old(self)@.movs_one(si, di, bits),
    {
        proof {
            reveal(State::movs_one);
        }
        let seg = self.operand_seg_for_exec(SegReg::Ds);
        let src: usize = self.translate(seg, si);
        let dst: usize = self.translate_write(SegReg::Es, di);
        if self.pending_exception.is_some() {
            return;
        }
        let from: u64 = self.linear_addr(seg, si);
        let v: u64 = self.load_at(src, from, bits);
        let to: u64 = self.linear_addr(SegReg::Es, di);
        self.store_at(dst, to, bits, v);
    }

    fn stos_one(&mut self, di: u64, bits: u32)
        ensures
            final(self)@ == old(self)@.stos_one(di, bits),
    {
        proof {
            reveal(State::stos_one);
        }
        let dst: usize = self.translate_write(SegReg::Es, di);
        if self.pending_exception.is_some() {
            return;
        }
        let v: u64 = self.reg_w(0, bits);
        let to: u64 = self.linear_addr(SegReg::Es, di);
        self.store_at(dst, to, bits, v);
    }

    fn lods_one(&mut self, si: u64, bits: u32)
        ensures
            final(self)@ == old(self)@.lods_one(si, bits),
    {
        proof {
            reveal(State::lods_one);
        }
        let seg = self.operand_seg_for_exec(SegReg::Ds);
        let src: usize = self.translate(seg, si);
        if self.pending_exception.is_some() {
            return;
        }
        let from: u64 = self.linear_addr(seg, si);
        let v: u64 = self.load_at(src, from, bits);
        self.set_reg_w(0, bits, v);
    }

    fn compare_one(&mut self, si: u64, di: u64, bits: u32)
        ensures
            final(self)@ == old(self)@.compare_one(si, di, bits),
    {
        proof {
            reveal(State::compare_one);
        }
        let from: u64 = self.linear_addr(self.operand_seg_for_exec(SegReg::Ds), si);
        let a: u64 = self.load(from, bits);
        let to: u64 = self.linear_addr(SegReg::Es, di);
        let b: u64 = self.load(to, bits);
        if self.pending_exception.is_some() {
            return;
        }
        self.alu_w(AluOp::Cmp, a, b, bits);
    }

    fn scas_one(&mut self, di: u64, bits: u32)
        ensures
            final(self)@ == old(self)@.scas_one(di, bits),
    {
        proof {
            reveal(State::scas_one);
        }
        let to: u64 = self.linear_addr(SegReg::Es, di);
        let b: u64 = self.load(to, bits);
        if self.pending_exception.is_some() {
            return;
        }
        let a: u64 = self.reg_w(0, bits);
        self.alu_w(AluOp::Cmp, a, b, bits);
    }

    pub fn movs(&mut self, rep: Rep, wide: bool)
        ensures
            final(self)@ == old(self)@.movs(rep, wide),
    {
        proof {
            reveal(State::movs);
            reveal(State::string_done);
        }
        let t = self.stride(wide, rep);
        let mut si: u64 = self.reg_w(6, t.asize);
        let mut di: u64 = self.reg_w(7, t.asize);
        let mut cnt: u64 = self.string_count(t);
        let ghost all = self@.movs_run(self@.cursor(t), t);
        let mut stopped = false;
        while cnt > 0 && !stopped
            invariant
                !stopped ==> all == self@.movs_run(Cursor { si, di, count: cnt }, t),
                stopped ==> all == (self@, Cursor { si, di, count: cnt }),
            decreases
                cnt,
                if stopped {
                    0int
                } else {
                    1int
                },
        {
            self.movs_one(si, di, t.bits);
            if self.pending_exception.is_some() {
                stopped = true;
            } else {
                si = advance(si, t);
                di = advance(di, t);
                cnt = cnt - 1;
            }
        }
        self.string_done(t, Some(si), Some(di), cnt);
    }

    pub fn stos(&mut self, rep: Rep, wide: bool)
        ensures
            final(self)@ == old(self)@.stos(rep, wide),
    {
        proof {
            reveal(State::stos);
            reveal(State::string_done);
        }
        let t = self.stride(wide, rep);
        let ghost si = self@.cursor(t).si;
        let mut di: u64 = self.reg_w(7, t.asize);
        let mut cnt: u64 = self.string_count(t);
        let ghost all = self@.stos_run(self@.cursor(t), t);
        let mut stopped = false;
        while cnt > 0 && !stopped
            invariant
                !stopped ==> all == self@.stos_run(Cursor { si, di, count: cnt }, t),
                stopped ==> all == (self@, Cursor { si, di, count: cnt }),
            decreases
                cnt,
                if stopped {
                    0int
                } else {
                    1int
                },
        {
            self.stos_one(di, t.bits);
            if self.pending_exception.is_some() {
                stopped = true;
            } else {
                di = advance(di, t);
                cnt = cnt - 1;
            }
        }
        self.string_done(t, None, Some(di), cnt);
    }

    pub fn lods(&mut self, rep: Rep, wide: bool)
        ensures
            final(self)@ == old(self)@.lods(rep, wide),
    {
        proof {
            reveal(State::lods);
            reveal(State::string_done);
        }
        let t = self.stride(wide, rep);
        let mut si: u64 = self.reg_w(6, t.asize);
        let ghost di = self@.cursor(t).di;
        let mut cnt: u64 = self.string_count(t);
        let ghost all = self@.lods_run(self@.cursor(t), t);
        let mut stopped = false;
        while cnt > 0 && !stopped
            invariant
                !stopped ==> all == self@.lods_run(Cursor { si, di, count: cnt }, t),
                stopped ==> all == (self@, Cursor { si, di, count: cnt }),
            decreases
                cnt,
                if stopped {
                    0int
                } else {
                    1int
                },
        {
            self.lods_one(si, t.bits);
            if self.pending_exception.is_some() {
                stopped = true;
            } else {
                si = advance(si, t);
                cnt = cnt - 1;
            }
        }
        self.string_done(t, Some(si), None, cnt);
    }

    pub fn compare(&mut self, rep: Rep, wide: bool)
        ensures
            final(self)@ == old(self)@.compare(rep, wide),
    {
        proof {
            reveal(State::compare);
            reveal(State::string_done);
        }
        let t = self.stride(wide, rep);
        let mut si: u64 = self.reg_w(6, t.asize);
        let mut di: u64 = self.reg_w(7, t.asize);
        let mut cnt: u64 = self.string_count(t);
        let ghost all = self@.compare_run(self@.cursor(t), t);
        let mut stopped = false;
        while cnt > 0 && !stopped
            invariant
                t.rep == rep,
                !stopped ==> all == self@.compare_run(Cursor { si, di, count: cnt }, t),
                stopped ==> all == (self@, Cursor { si, di, count: cnt }),
            decreases
                cnt,
                if stopped {
                    0int
                } else {
                    1int
                },
        {
            self.compare_one(si, di, t.bits);
            if self.pending_exception.is_some() {
                stopped = true;
            } else {
                si = advance(si, t);
                di = advance(di, t);
                cnt = cnt - 1;
                if !self.string_repeat(rep, cnt) {
                    stopped = true;
                }
            }
        }
        self.string_done(t, Some(si), Some(di), cnt);
    }

    pub fn scas(&mut self, rep: Rep, wide: bool)
        ensures
            final(self)@ == old(self)@.scas(rep, wide),
    {
        proof {
            reveal(State::scas);
            reveal(State::string_done);
        }
        let t = self.stride(wide, rep);
        let ghost si = self@.cursor(t).si;
        let mut di: u64 = self.reg_w(7, t.asize);
        let mut cnt: u64 = self.string_count(t);
        let ghost all = self@.scas_run(self@.cursor(t), t);
        let mut stopped = false;
        while cnt > 0 && !stopped
            invariant
                t.rep == rep,
                !stopped ==> all == self@.scas_run(Cursor { si, di, count: cnt }, t),
                stopped ==> all == (self@, Cursor { si, di, count: cnt }),
            decreases
                cnt,
                if stopped {
                    0int
                } else {
                    1int
                },
        {
            self.scas_one(di, t.bits);
            if self.pending_exception.is_some() {
                stopped = true;
            } else {
                di = advance(di, t);
                cnt = cnt - 1;
                if !self.string_repeat(rep, cnt) {
                    stopped = true;
                }
            }
        }
        self.string_done(t, None, Some(di), cnt);
    }
}

} // verus!
