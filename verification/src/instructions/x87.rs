//! The x87 instructions.
//!
//! Loads, stores and conversions are computed here. An arithmetic operation
//! leaves an outstanding request in the FPU instead, for whoever drives the
//! machine to answer.

use crate::cpu::address::Access;
use crate::cpu::Cpu;
use crate::float::{from_int, narrow, to_int, widen};
use crate::fpu::{FpuRequest, FpuView, FXSAVE_BYTES};
use crate::instructions::FpuOp;
use crate::modrm::ModRm;
use crate::state::State;
use vstd::prelude::*;

verus! {

/// Is a double a zero, of either sign?
pub open spec fn is_zero(bits: u64) -> bool {
    bits == 0 || bits == 0x8000_0000_0000_0000
}

impl State {
    /// The state with an FPU.
    pub open spec fn with_fpu(self, f: FpuView) -> State {
        State { fpu: f, ..self }
    }

    /// A 16-bit store to a memory operand.
    #[verifier::opaque]
    pub open spec fn store_word(self, m: ModRm, v: u16) -> State {
        self.store(self.rm_linear(m), 16, v as u64)
    }

    /// FSTCW. A store to a register is meaningless and does nothing.
    pub open spec fn fstcw(self, m: ModRm) -> State {
        if m.mod_field == 3 { self } else { self.store_word(m, self.fpu.control) }
    }

    /// FLDCW.
    #[verifier::opaque]
    pub open spec fn fldcw(self, m: ModRm) -> State {
        let (s, v) = self.load(self.rm_linear(m), 16);
        s.with_fpu(FpuView { control: v as u16, ..s.fpu })
    }

    /// FST: ST(0) copied to a register, or stored as a double or a single.
    #[verifier::opaque]
    pub open spec fn fst(self, m: ModRm, w64: bool) -> State {
        let v = self.fpu.st_i(0);
        if m.mod_field == 3 {
            self.with_fpu(self.fpu.set_st_i(m.rm as usize, v))
        } else if w64 {
            self.store(self.rm_linear(m), 64, v)
        } else {
            self.store(self.rm_linear(m), 32, crate::float::narrowed(v) as u64)
        }
    }

    /// FSTP: FST, then a pop.
    pub open spec fn fstp(self, m: ModRm, w64: bool) -> State {
        let s = self.fst(m, w64);
        s.with_fpu(s.fpu.pop())
    }

    /// FLD: a register, a double or a single pushed.
    #[verifier::opaque]
    pub open spec fn fld(self, m: ModRm, w64: bool) -> State {
        if m.mod_field == 3 {
            self.with_fpu(self.fpu.push(self.fpu.st_i(m.rm as usize)))
        } else {
            let (s, v) = self.load(self.rm_linear(m), if w64 { 64 } else { 32 });
            s.with_fpu(s.fpu.push(if w64 { v } else { crate::float::widened(v as u32) }))
        }
    }

    /// FILD: a signed integer of `w` bits, 32 or 16, pushed.
    #[verifier::opaque]
    pub open spec fn fild(self, m: ModRm, w: u32) -> State {
        let (s, v) = self.load(self.rm_linear(m), w);
        let n = if w == 32 { ((v as u32) as i32) as int } else { ((v as u16) as i16) as int };
        s.with_fpu(s.fpu.push(crate::float::of_int(n)))
    }

    /// FISTP: ST(0) stored as an integer of `w` bits, 32 or 16, and popped.
    #[verifier::opaque]
    pub open spec fn fistp(self, m: ModRm, w: u32) -> State {
        let v = crate::float::truncated(self.fpu.st_i(0)) as i32;
        let s = self.store(self.rm_linear(m), w, (v as u32) as u64);
        s.with_fpu(s.fpu.pop())
    }

    /// The right-hand operand of an arithmetic instruction.
    #[verifier::opaque]
    pub open spec fn fpu_operand(self, m: ModRm) -> (State, u64) {
        if m.mod_field == 3 {
            (self, self.fpu.st_i(m.rm as usize))
        } else {
            self.load(self.rm_linear(m), 64)
        }
    }

    /// FADD/FSUB/FMUL/FDIV: ST(0) takes the result, which is asked for. A
    /// division by zero leaves ST(0) as it is.
    #[verifier::opaque]
    pub open spec fn fop(self, op: FpuOp, m: ModRm) -> State {
        let (s, rhs) = self.fpu_operand(m);
        let lhs = s.fpu.st_i(0);
        if op == FpuOp::Div && is_zero(rhs) {
            s.with_fpu(s.fpu.set_st_i(0, lhs))
        } else {
            s.with_fpu(FpuView { request: Some(FpuRequest { op, lhs, rhs }), ..s.fpu })
        }
    }

    /// FXSAVE.
    #[verifier::opaque]
    pub open spec fn fxsave(self, m: ModRm) -> State {
        let (s, sp) = self.reach(self.rm_linear(m), FXSAVE_BYTES, Access::Write);
        if s.faulted() { s } else { State { mem: s.fpu.saved_to(s.mem, sp), ..s } }
    }

    /// FXRSTOR.
    #[verifier::opaque]
    pub open spec fn fxrstor(self, m: ModRm) -> State {
        let (s, sp) = self.reach(self.rm_linear(m), FXSAVE_BYTES, Access::Read);
        s.with_fpu(s.fpu.restored_from(s.mem, sp))
    }
}

impl Cpu {
    fn store_word(&mut self, m: &ModRm, v: u16)
        ensures
            final(self)@ == old(self)@.store_word(*m, v),
    {
        proof {
            reveal(State::store_word);
        }
        let linear: u64 = self.modrm_linear(m);
        self.store(linear, 16, v as u64);
    }

    pub fn fstcw(&mut self, m: &ModRm)
        ensures
            final(self)@ == old(self)@.fstcw(*m),
    {
        if !m.is_reg() {
            let v: u16 = self.fpu.control;
            self.store_word(m, v);
        }
    }

    pub fn fldcw(&mut self, m: &ModRm)
        ensures
            final(self)@ == old(self)@.fldcw(*m),
    {
        proof {
            reveal(State::fldcw);
        }
        let linear: u64 = self.modrm_linear(m);
        let v: u64 = self.load(linear, 16);
        self.fpu.control = v as u16;
    }

    pub fn fstsw_mem(&mut self, m: &ModRm)
        ensures
            final(self)@ == old(self)@.store_word(*m, old(self)@.fpu.status),
    {
        let v: u16 = self.fpu.fstsw();
        self.store_word(m, v);
    }

    pub fn fstsw_ax(&mut self)
        ensures
            final(self)@ == old(self)@.set_reg16(0, old(self)@.fpu.status),
    {
        let v: u16 = self.fpu.fstsw();
        self.set_reg16_idx(0, v);
    }

    pub fn fst(&mut self, m: &ModRm, w64: bool)
        ensures
            final(self)@ == old(self)@.fst(*m, w64),
    {
        proof {
            reveal(State::fst);
        }
        let v: u64 = self.fpu.st_i(0);
        if m.is_reg() {
            self.fpu.set_st_i(m.rm as usize, v);
            return;
        }
        let linear: u64 = self.modrm_linear(m);
        if w64 {
            self.store(linear, 64, v);
        } else {
            self.store(linear, 32, narrow(v) as u64);
        }
    }

    pub fn fstp(&mut self, m: &ModRm, w64: bool)
        ensures
            final(self)@ == old(self)@.fstp(*m, w64),
    {
        self.fst(m, w64);
        self.fpu.pop();
    }

    pub fn fld(&mut self, m: &ModRm, w64: bool)
        ensures
            final(self)@ == old(self)@.fld(*m, w64),
    {
        proof {
            reveal(State::fld);
        }
        if m.is_reg() {
            let v: u64 = self.fpu.st_i(m.rm as usize);
            self.fpu.push(v);
            return;
        }
        let linear: u64 = self.modrm_linear(m);
        let v: u64 = if w64 {
            self.load(linear, 64)
        } else {
            let single: u64 = self.load(linear, 32);
            widen(single as u32)
        };
        self.fpu.push(v);
    }

    pub fn fild(&mut self, m: &ModRm, w: u32)
        ensures
            final(self)@ == old(self)@.fild(*m, w),
    {
        proof {
            reveal(State::fild);
        }
        let linear: u64 = self.modrm_linear(m);
        let v: u64 = self.load(linear, w);
        let n: i32 = if w == 32 {
            (v as u32) as i32
        } else {
            ((v as u16) as i16) as i32
        };
        self.fpu.push(from_int(n));
    }

    pub fn fistp(&mut self, m: &ModRm, w: u32)
        ensures
            final(self)@ == old(self)@.fistp(*m, w),
    {
        proof {
            reveal(State::fistp);
        }
        let v: i32 = to_int(self.fpu.st_i(0));
        let linear: u64 = self.modrm_linear(m);
        self.store(linear, w, (v as u32) as u64);
        self.fpu.pop();
    }

    fn fpu_operand(&mut self, m: &ModRm) -> (v: u64)
        ensures
            (final(self)@, v) == old(self)@.fpu_operand(*m),
    {
        proof {
            reveal(State::fpu_operand);
        }
        if m.is_reg() {
            return self.fpu.st_i(m.rm as usize);
        }
        let linear: u64 = self.modrm_linear(m);
        self.load(linear, 64)
    }

    pub fn fop(&mut self, op: FpuOp, m: &ModRm)
        ensures
            final(self)@ == old(self)@.fop(op, *m),
    {
        proof {
            reveal(State::fop);
        }
        let rhs: u64 = self.fpu_operand(m);
        let lhs: u64 = self.fpu.st_i(0);
        if op == FpuOp::Div && (rhs == 0 || rhs == 0x8000_0000_0000_0000) {
            self.fpu.set_st_i(0, lhs);
        } else {
            self.fpu.ask(op, lhs, rhs);
        }
    }

    pub fn fxsave(&mut self, m: &ModRm)
        ensures
            final(self)@ == old(self)@.fxsave(*m),
    {
        proof {
            reveal(State::fxsave);
        }
        let linear: u64 = self.modrm_linear(m);
        let sp = self.reach(linear, FXSAVE_BYTES, true);
        if self.pending_exception.is_some() {
            return;
        }
        self.fpu.save_to(&mut self.mem, sp);
    }

    pub fn fxrstor(&mut self, m: &ModRm)
        ensures
            final(self)@ == old(self)@.fxrstor(*m),
    {
        proof {
            reveal(State::fxrstor);
        }
        let linear: u64 = self.modrm_linear(m);
        let sp = self.reach(linear, FXSAVE_BYTES, false);
        self.fpu.restore_from(&self.mem, sp);
    }
}

} // verus!
