//! Data movement: MOV in all its forms, sign and zero extension, far pointers,
//! exchanges, and the compare-and-exchange family.

use crate::cpu::address::Access;
use crate::cpu::{flags, Cpu, SegReg};
use crate::instructions::shift::sign_extend;
use crate::instructions::{AluOp, Cond};
use crate::modrm::ModRm;
use crate::state::State;
use vstd::prelude::*;

verus! {

/// The low `w` bits of `v`, sign-extended to 64.
pub open spec fn sext(v: u64, w: u32) -> u64 {
    crate::instructions::shift::extend(v, w) as u64
}

/// The bytes of a double word in the opposite order.
pub open spec fn swapped32(v: u32) -> u32 {
    (v << 24) | ((v & 0xFF00) << 8) | ((v >> 8) & 0xFF00) | (v >> 24)
}

/// The bytes of a quad word in the opposite order.
pub open spec fn swapped64(v: u64) -> u64 {
    ((swapped32(v as u32) as u64) << 32) | (swapped32((v >> 32) as u32) as u64)
}

impl State {
    /// MOV r/m, reg.
    pub open spec fn mov_rm_reg(self, m: ModRm, src: u8, w: u32) -> State {
        self.write_rm(m, w, self.reg_w(src, w))
    }

    /// MOV reg, r/m.
    #[verifier::opaque]
    pub open spec fn mov_reg_rm(self, m: ModRm, dst: u8, w: u32) -> State {
        let (s, v) = self.read_rm(m, w);
        s.set_reg_w(dst, w, v)
    }

    /// The linear address of a moffs operand, honouring any segment override.
    pub open spec fn moffs_linear(self, addr: u64) -> u64 {
        self.linear_addr(self.operand_seg(SegReg::Ds), addr)
    }

    /// MOV accumulator, moffs.
    #[verifier::opaque]
    pub open spec fn mov_acc_mem(self, addr: u64, w: u32) -> State {
        let (s, v) = self.load(self.moffs_linear(addr), w);
        s.set_reg_w(0, w, v)
    }

    /// MOV moffs, accumulator.
    #[verifier::opaque]
    pub open spec fn mov_mem_acc(self, addr: u64, w: u32) -> State {
        self.store(self.moffs_linear(addr), w, self.reg_w(0, w))
    }

    /// MOV sreg, r/m.
    #[verifier::opaque]
    pub open spec fn mov_seg_rm(self, seg: SegReg, m: ModRm) -> State {
        let (s, v) = self.read_rm(m, 16);
        s.load_seg(seg, v as u16)
    }

    /// LDS and its relatives: an offset, then a selector, from memory.
    #[verifier::opaque]
    pub open spec fn load_far_pointer(self, m: ModRm, seg: SegReg) -> State {
        let (w, step) = if self.pfx.opsize { (32u32, 4usize) } else { (16u32, 2usize) };
        let (s, sp) = self.reach(self.rm_linear(m), (step + 2) as u32, Access::Read);
        s.set_reg_w(m.reg, w, s.mem.span_read(sp, 0, w)).load_seg(
            seg,
            s.mem.span_read(sp, step, 16) as u16,
        )
    }

    /// MOVZX: an operand of `from` bits into a register of `w`.
    #[verifier::opaque]
    pub open spec fn movzx(self, m: ModRm, dst: u8, from: u32, w: u32) -> State {
        let (s, v) = self.read_rm(m, from);
        s.set_reg_w(dst, w, v)
    }

    /// MOVSX and MOVSXD.
    #[verifier::opaque]
    pub open spec fn movsx(self, m: ModRm, dst: u8, from: u32, w: u32) -> State {
        let (s, v) = self.read_rm(m, from);
        s.set_reg_w(dst, w, sext(v, from))
    }

    /// LEA: the effective address itself.
    pub open spec fn lea(self, m: ModRm, dst: u8) -> State {
        self.set_reg_w(dst, self.osize(), self.ea(m))
    }

    /// XCHG accumulator, reg.
    pub open spec fn xchg_acc(self, reg: u8, w: u32) -> State {
        self.set_reg_w(0, w, self.reg_w(reg, w)).set_reg_w(reg, w, self.reg_w(0, w))
    }

    /// XCHG r/m, reg.
    #[verifier::opaque]
    pub open spec fn xchg_rm(self, m: ModRm, reg: u8, w: u32) -> State {
        let (s, a) = self.read_rm(m, w);
        s.write_rm(m, w, s.reg_w(reg, w)).set_reg_w(reg, w, a)
    }

    /// CMPXCHG: on a match of accumulator and destination the source register
    /// is stored, otherwise the accumulator takes the destination's value. The
    /// flags are those of a comparison.
    #[verifier::opaque]
    pub open spec fn compare_exchange(self, m: ModRm, reg: u8, w: u32) -> State {
        let (s, dest) = self.read_rm(m, w);
        let acc = s.reg_w(0, w);
        let t = s.with_flags(s.alu(AluOp::Cmp, acc, dest, w).flags);
        if acc == dest { t.write_rm(m, w, t.reg_w(reg, w)) } else { t.set_reg_w(0, w, dest) }
    }

    /// XADD: the destination gets the sum, the source register the
    /// destination's old value. Where both are one register the sum wins.
    #[verifier::opaque]
    pub open spec fn xadd(self, m: ModRm, reg: u8, w: u32) -> State {
        let (s, dest) = self.read_rm(m, w);
        let o = s.alu(AluOp::Add, dest, s.reg_w(reg, w), w);
        let t = s.with_flags(o.flags);
        if m.mod_field == 3 {
            t.set_reg_w(reg, w, dest).write_rm(m, w, o.value)
        } else {
            t.write_rm(m, w, o.value).set_reg_w(reg, w, dest)
        }
    }

    /// CMPXCHG8B: EDX:EAX against the quad word in memory; on a match ECX:EBX
    /// is stored, otherwise EDX:EAX is loaded. Only ZF reports the outcome.
    #[verifier::opaque]
    pub open spec fn compare_exchange8b(self, m: ModRm) -> State {
        let (s, sp) = self.reach(self.rm_linear(m), 8, Access::Write);
        let lo = s.mem.span_read(sp, 0, 32) as u32;
        let hi = s.mem.span_read(sp, 4, 32) as u32;
        if lo == s.reg32(0) && hi == s.reg32(2) {
            let t = s.with_flag(flags::ZF, true);
            t.put_span(sp, 0, 32, t.reg32(3) as u64).put_span(sp, 4, 32, t.reg32(1) as u64)
        } else {
            s.with_flag(flags::ZF, false).set_reg32(0, lo).set_reg32(2, hi)
        }
    }

    /// BSWAP: a quad word at 64 bits, a double word otherwise.
    pub open spec fn bswap(self, reg: u8) -> State {
        let w = self.osize();
        let v = self.reg_w(reg, w);
        self.set_reg_w(
            reg,
            w,
            if w == 64 { swapped64(v) } else { swapped32(v as u32) as u64 },
        )
    }

    /// CMOVcc: the load happens only when the condition holds.
    pub open spec fn cmov(self, cond: Cond, m: ModRm, dst: u8) -> State {
        if cond.holds(self) { self.mov_reg_rm(m, dst, self.osize()) } else { self }
    }

    /// SETcc: one if the condition holds, else zero.
    pub open spec fn setcc(self, cond: Cond, m: ModRm) -> State {
        self.write_rm(m, 8, if cond.holds(self) { 1 } else { 0 })
    }

    /// CBW, CWDE and CDQE: the accumulator's low half sign-extended.
    pub open spec fn widen_acc(self, w: u32) -> State {
        self.set_reg_w(0, w, sext(self.reg_w(0, w / 2), w / 2))
    }

    /// CWD, CDQ and CQO: the data register filled with the accumulator's sign.
    pub open spec fn fill_sign(self, w: u32) -> State {
        self.set_reg_w(
            2,
            w,
            if (self.reg_w(0, w) >> ((w - 1) as u32)) & 1 != 0 { u64::MAX } else { 0 },
        )
    }
}

/// Sign-extend the low `w` bits of a value to 64.
pub fn sext_w(v: u64, w: u32) -> (r: u64)
    ensures
        r == sext(v, w),
{
    sign_extend(v, w) as u64
}

fn swap32(v: u32) -> (r: u32)
    ensures
        r == swapped32(v),
{
    (v << 24) | ((v & 0xFF00) << 8) | ((v >> 8) & 0xFF00) | (v >> 24)
}

fn swap64(v: u64) -> (r: u64)
    ensures
        r == swapped64(v),
{
    ((swap32(v as u32) as u64) << 32) | (swap32((v >> 32) as u32) as u64)
}

impl Cpu {
    pub fn mov_rm_reg(&mut self, m: &ModRm, src: u8, w: u32)
        ensures
            final(self)@ == old(self)@.mov_rm_reg(*m, src, w),
    {
        let v: u64 = self.reg_w(src, w);
        self.write_rm_w(m, w, v);
    }

    pub fn mov_reg_rm(&mut self, m: &ModRm, dst: u8, w: u32)
        ensures
            final(self)@ == old(self)@.mov_reg_rm(*m, dst, w),
    {
        proof {
            reveal(State::mov_reg_rm);
        }
        let v: u64 = self.read_rm_w(m, w);
        self.set_reg_w(dst, w, v);
    }

    pub fn mov_acc_mem(&mut self, addr: u64, w: u32)
        ensures
            final(self)@ == old(self)@.mov_acc_mem(addr, w),
    {
        proof {
            reveal(State::mov_acc_mem);
        }
        let linear: u64 = self.linear_addr(self.operand_seg_for_exec(SegReg::Ds), addr);
        let v: u64 = self.load(linear, w);
        self.set_reg_w(0, w, v);
    }

    pub fn mov_mem_acc(&mut self, addr: u64, w: u32)
        ensures
            final(self)@ == old(self)@.mov_mem_acc(addr, w),
    {
        proof {
            reveal(State::mov_mem_acc);
        }
        let linear: u64 = self.linear_addr(self.operand_seg_for_exec(SegReg::Ds), addr);
        let v: u64 = self.reg_w(0, w);
        self.store(linear, w, v);
    }

    pub fn mov_seg_rm(&mut self, seg: SegReg, m: &ModRm)
        ensures
            final(self)@ == old(self)@.mov_seg_rm(seg, *m),
    {
        proof {
            reveal(State::mov_seg_rm);
        }
        let v: u64 = self.read_rm_w(m, 16);
        self.load_seg(seg, v as u16);
    }

    /// Load a far pointer (offset + segment) from a memory operand into the
    /// `reg` field's register and the given segment register. Used by
    /// LDS/LES/LSS/LFS/LGS.
    pub fn load_far_pointer(&mut self, m: &ModRm, seg: SegReg)
        ensures
            final(self)@ == old(self)@.load_far_pointer(*m, seg),
    {
        proof {
            reveal(State::load_far_pointer);
        }
        // A 32- or 16-bit offset, then a 16-bit segment.
        let (w, step): (u32, usize) = if self.pfx.opsize { (32, 4) } else { (16, 2) };
        let linear: u64 = self.modrm_linear(m);
        let sp = self.reach(linear, (step + 2) as u32, false);
        let off: u64 = self.mem.span_read(sp, 0, w);
        let sel: u64 = self.mem.span_read(sp, step, 16);
        self.set_reg_w(m.reg, w, off);
        self.load_seg(seg, sel as u16);
    }

    pub fn movzx(&mut self, m: &ModRm, dst: u8, from: u32, w: u32)
        ensures
            final(self)@ == old(self)@.movzx(*m, dst, from, w),
    {
        proof {
            reveal(State::movzx);
        }
        let v: u64 = self.read_rm_w(m, from);
        self.set_reg_w(dst, w, v);
    }

    pub fn movsx(&mut self, m: &ModRm, dst: u8, from: u32, w: u32)
        ensures
            final(self)@ == old(self)@.movsx(*m, dst, from, w),
    {
        proof {
            reveal(State::movsx);
        }
        let v: u64 = self.read_rm_w(m, from);
        self.set_reg_w(dst, w, sext_w(v, from));
    }

    /// LEA. This is the same computation the addressing path does, minus the
    /// segment and the page tables -- including RIP-relative, which is how
    /// 64-bit code takes the address of its own data.
    pub fn lea(&mut self, m: &ModRm, dst: u8)
        ensures
            final(self)@ == old(self)@.lea(*m, dst),
    {
        let w: u32 = self.osize();
        let ea: u64 = self.modrm_ea(m);
        self.set_reg_w(dst, w, ea);
    }

    pub fn xchg_acc(&mut self, reg: u8, w: u32)
        ensures
            final(self)@ == old(self)@.xchg_acc(reg, w),
    {
        let a: u64 = self.reg_w(0, w);
        let r: u64 = self.reg_w(reg, w);
        self.set_reg_w(0, w, r);
        self.set_reg_w(reg, w, a);
    }

    pub fn xchg_rm(&mut self, m: &ModRm, reg: u8, w: u32)
        ensures
            final(self)@ == old(self)@.xchg_rm(*m, reg, w),
    {
        proof {
            reveal(State::xchg_rm);
        }
        let a: u64 = self.read_rm_w(m, w);
        let b: u64 = self.reg_w(reg, w);
        self.write_rm_w(m, w, b);
        self.set_reg_w(reg, w, a);
    }

    pub fn compare_exchange(&mut self, m: &ModRm, reg: u8, w: u32)
        ensures
            final(self)@ == old(self)@.compare_exchange(*m, reg, w),
    {
        proof {
            reveal(State::compare_exchange);
        }
        let dest: u64 = self.read_rm_w(m, w);
        let acc: u64 = self.reg_w(0, w);
        self.alu_w(AluOp::Cmp, acc, dest, w);
        if acc == dest {
            let v: u64 = self.reg_w(reg, w);
            self.write_rm_w(m, w, v);
        } else {
            self.set_reg_w(0, w, dest);
        }
    }

    pub fn xadd(&mut self, m: &ModRm, reg: u8, w: u32)
        ensures
            final(self)@ == old(self)@.xadd(*m, reg, w),
    {
        proof {
            reveal(State::xadd);
        }
        let dest: u64 = self.read_rm_w(m, w);
        let src: u64 = self.reg_w(reg, w);
        let sum: u64 = self.alu_w(AluOp::Add, dest, src, w);
        if m.is_reg() {
            self.set_reg_w(reg, w, dest);
            self.write_rm_w(m, w, sum);
        } else {
            self.write_rm_w(m, w, sum);
            self.set_reg_w(reg, w, dest);
        }
    }

    pub fn compare_exchange8b(&mut self, m: &ModRm)
        ensures
            final(self)@ == old(self)@.compare_exchange8b(*m),
    {
        proof {
            reveal(State::compare_exchange8b);
        }
        let linear: u64 = self.modrm_linear(m);
        let sp = self.reach(linear, 8, true);
        let lo: u32 = self.mem.span_read(sp, 0, 32) as u32;
        let hi: u32 = self.mem.span_read(sp, 4, 32) as u32;
        if lo == self.eax() && hi == self.edx() {
            self.set_flag(flags::ZF, true);
            let b: u32 = self.ebx();
            let c: u32 = self.ecx();
            self.put_span(sp, 0, 32, b as u64);
            self.put_span(sp, 4, 32, c as u64);
        } else {
            self.set_flag(flags::ZF, false);
            self.set_reg32_idx(0, lo);
            self.set_reg32_idx(2, hi);
        }
    }

    pub fn bswap(&mut self, reg: u8)
        ensures
            final(self)@ == old(self)@.bswap(reg),
    {
        let w: u32 = self.osize();
        let v: u64 = self.reg_w(reg, w);
        let r: u64 = if w == 64 {
            swap64(v)
        } else {
            swap32(v as u32) as u64
        };
        self.set_reg_w(reg, w, r);
    }

    pub fn cmov(&mut self, cond: Cond, m: &ModRm, dst: u8)
        ensures
            final(self)@ == old(self)@.cmov(cond, *m, dst),
    {
        if cond.test(self) {
            let w: u32 = self.osize();
            self.mov_reg_rm(m, dst, w);
        }
    }

    pub fn setcc(&mut self, cond: Cond, m: &ModRm)
        ensures
            final(self)@ == old(self)@.setcc(cond, *m),
    {
        let v: u64 = if cond.test(self) {
            1
        } else {
            0
        };
        self.write_rm_w(m, 8, v);
    }

    pub fn widen_acc(&mut self, w: u32)
        ensures
            final(self)@ == old(self)@.widen_acc(w),
    {
        let v: u64 = sext_w(self.reg_w(0, w / 2), w / 2);
        self.set_reg_w(0, w, v);
    }

    pub fn fill_sign(&mut self, w: u32)
        requires
            1 <= w <= 64,
        ensures
            final(self)@ == old(self)@.fill_sign(w),
    {
        let v: u64 = self.reg_w(0, w);
        let negative = (v >> (w - 1)) & 1 != 0;
        self.set_reg_w(2, w, if negative {
            u64::MAX
        } else {
            0
        });
    }
}

} // verus!
