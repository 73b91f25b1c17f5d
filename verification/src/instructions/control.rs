//! Control flow and the stack: branches, calls and returns near and far,
//! IRET, LOOP, and the PUSH and POP forms.

use crate::cpu::{flags, Cpu, DiagView, SegReg};
use crate::instructions::{Cond, LoopCond};
use crate::modrm::ModRm;
use crate::state::State;
use vstd::prelude::*;

verus! {

/// A software-written EFLAGS value merged onto the current one: only the
/// writable bits move, and the reserved bits keep their architectural values.
pub open spec fn flags_written(old_word: u32, new: u32) -> u32 {
    (new & flags::WRITABLE) | flags::ALWAYS_SET | (old_word & !flags::WRITABLE
        & !flags::ALWAYS_SET)
}

impl State {
    /// A near branch by a signed displacement, at the width of the current
    /// mode.
    pub open spec fn branch(self, rel: i64) -> State {
        if self.long64() {
            State { rip: self.rip.wrapping_add(rel as u64), ..self }
        } else if self.pfx.opsize {
            State { rip: self.eip().wrapping_add(rel as u32) as u64, ..self }
        } else {
            State { ip: self.ip.wrapping_add(rel as u16), ..self }
        }
    }

    /// A conditional branch.
    pub open spec fn branch_if(self, cond: Cond, rel: i64) -> State {
        if cond.holds(self) { self.branch(rel) } else { self }
    }

    /// A near jump to an address: all of RIP in 64-bit code, EIP otherwise.
    pub open spec fn goto(self, t: u64) -> State {
        if self.long64() {
            State { rip: t, ..self }
        } else {
            State { rip: (t as u32) as u64, ..self }
        }
    }

    /// The address a near call returns to.
    pub open spec fn return_address(self) -> u64 {
        if self.long64() { self.rip } else { self.eip() as u64 }
    }

    /// CALL rel16.
    pub open spec fn call16(self, rel: i16) -> State {
        let s = self.push(16, self.ip as u64);
        State { ip: s.ip.wrapping_add(rel as u16), ..s }
    }

    /// CALL rel32.
    #[verifier::opaque]
    pub open spec fn call32(self, rel: i32) -> State {
        let s = self.push(self.stack_width(), self.return_address());
        if s.faulted() { s } else { s.branch(rel as i64) }
    }

    /// RET at 16 bits.
    pub open spec fn ret16(self) -> State {
        let (s, t) = self.pop(16);
        State { ip: t as u16, ..s }
    }

    /// RET at the width of the stack.
    #[verifier::opaque]
    pub open spec fn ret32(self) -> State {
        let (s, t) = self.pop(self.stack_width());
        s.goto(t)
    }

    /// RET imm16: the arguments are dropped after the return address is popped.
    #[verifier::opaque]
    pub open spec fn ret_imm(self, imm: u16, w32: bool) -> State {
        if self.long64() {
            let (s, t) = self.pop(64);
            State { rip: t, ..s.with_reg64(4, s.reg64(4).wrapping_add(imm as u64)) }
        } else if w32 {
            let (s, t) = self.pop(32);
            State {
                rip: (t as u32) as u64,
                ..s.with_reg32(4, s.reg32(4).wrapping_add(imm as u32))
            }
        } else {
            let (s, t) = self.pop(16);
            State { ip: t as u16, ..s.with_reg16(4, s.reg16(4).wrapping_add(imm)) }
        }
    }

    /// CALL r/m16.
    #[verifier::opaque]
    pub open spec fn call_rm16(self, m: ModRm) -> State {
        let (s, t) = self.read_rm(m, 16);
        State { ip: t as u16, ..s.push(16, s.ip as u64) }
    }

    /// CALL r/m at the width of the stack.
    #[verifier::opaque]
    pub open spec fn call_rm(self, m: ModRm) -> State {
        let w = self.stack_width();
        let (s, t) = self.read_rm(m, w);
        let p = s.push(w, s.return_address());
        if p.faulted() { p } else { p.goto(t).unfetched() }
    }

    /// JMP r/m16.
    pub open spec fn jmp_rm16(self, m: ModRm) -> State {
        let (s, t) = self.read_rm(m, 16);
        State { ip: t as u16, ..s }
    }

    /// JMP r/m at the width of the stack.
    #[verifier::opaque]
    pub open spec fn jmp_rm(self, m: ModRm) -> State {
        let (s, t) = self.read_rm(m, self.stack_width());
        s.goto(t).unfetched()
    }

    /// LOOP, LOOPZ, LOOPNZ and JCXZ. JCXZ tests the count register; the others
    /// decrement it and test what is left, and perhaps ZF. The count register
    /// is as wide as the address size.
    #[verifier::opaque]
    pub open spec fn looped(self, cond: LoopCond, rel: i8) -> State {
        let w = self.asize();
        let left = crate::instructions::alu::trunc(self.reg_w(1, w).wrapping_sub(1), w);
        let s = if cond == LoopCond::Jcxz { self } else { self.with_reg_w(1, w, left) };
        let take = match cond {
            LoopCond::Jcxz => self.reg_w(1, w) == 0,
            LoopCond::Loop => left != 0,
            LoopCond::Loopz => left != 0 && self.flag(flags::ZF),
            LoopCond::Loopnz => left != 0 && !self.flag(flags::ZF),
        };
        if take { s.branch(rel as i64) } else { s }
    }

    /// JMP ptr16:16.
    #[verifier::opaque]
    pub open spec fn jmp_far16(self, off: u16, seg: u16) -> State {
        State { ip: off, ..self.load_seg(SegReg::Cs, seg) }.unfetched()
    }

    /// JMP ptr16:32.
    #[verifier::opaque]
    pub open spec fn jmp_far32(self, off: u32, seg: u16) -> State {
        State { rip: off as u64, ..self.load_seg(SegReg::Cs, seg) }.unfetched()
    }

    /// CALL ptr16:16.
    #[verifier::opaque]
    pub open spec fn call_far16(self, off: u16, seg: u16) -> State {
        self.push_all(16, seq![self.cs as u64, self.ip as u64]).jmp_far16(off, seg)
    }

    /// CALL ptr16:32.
    #[verifier::opaque]
    pub open spec fn call_far32(self, off: u32, seg: u16) -> State {
        self.push_all(32, seq![self.cs as u64, self.eip() as u64]).jmp_far32(off, seg)
    }

    /// RETF at 16 bits.
    #[verifier::opaque]
    pub open spec fn retf16(self) -> State {
        let (a, ip) = self.pop(16);
        let (b, cs) = State { ip: ip as u16, ..a }.pop(16);
        b.load_seg(SegReg::Cs, cs as u16)
    }

    /// RETF: 64-bit slots in 64-bit code, 32-bit ones otherwise, in
    /// compatibility mode too.
    #[verifier::opaque]
    pub open spec fn retf32(self) -> State {
        let w: u32 = if self.long64() { 64 } else { 32 };
        let (a, ip) = self.pop(w);
        let (b, cs) = a.pop(w);
        let s = b.load_seg(SegReg::Cs, cs as u16);
        State { rip: if w == 64 { ip } else { (ip as u32) as u64 }, ..s }.unfetched()
    }

    /// IRET at 16 bits: only the low half of the flags is restored.
    #[verifier::opaque]
    pub open spec fn iret16(self) -> State {
        let (a, ip) = self.pop(16);
        let (b, cs) = State { ip: ip as u16, ..a }.pop(16);
        let (c, f) = State { cs: cs as u16, ..b }.pop(16);
        c.with_flags(flags_written(c.flags, (c.flags & 0xFFFF_0000) | ((f as u16) as u32)))
    }

    /// IRETQ: the long-mode frame is always five 8-byte words.
    #[verifier::opaque]
    pub open spec fn iret64(self) -> State {
        let (a, rip) = self.pop(64);
        let (b, cs) = a.pop(64);
        let (c, f) = b.pop(64);
        let (d, rsp) = c.pop(64);
        let (e, ss) = d.pop(64);
        let s = e.load_seg(SegReg::Cs, cs as u16).load_seg(SegReg::Ss, ss as u16).with_reg64(
            4,
            rsp,
        );
        State { rip: rip, flags: flags_written(s.flags, f as u32), ..s }.unfetched()
    }

    /// IRETD: a return to a less privileged level restores the outer stack as
    /// well, before CS changes the privilege level.
    #[verifier::opaque]
    pub open spec fn iret32(self) -> State {
        let (a, ip) = self.pop(32);
        let (b, cs) = a.pop(32);
        let (c, f) = b.pop(32);
        let outer = if ((cs as u16) & 3) as u8 > c.cpl() {
            let (d, sp) = c.pop(32);
            let (e, ss) = d.pop(32);
            e.load_seg(SegReg::Ss, ss as u16).with_reg32(4, sp as u32)
        } else {
            c
        };
        let s = State { rip: (ip as u32) as u64, ..outer }.load_seg(SegReg::Cs, cs as u16);
        s.with_flags(flags_written(s.flags, f as u32)).unfetched()
    }

    /// PUSHF: VM and RF read back as zero in a 32- or 64-bit image.
    pub open spec fn pushf(self) -> State {
        let w = self.stack_width();
        if w >= 32 {
            self.push(w, (self.flags & !(flags::VM | flags::RF)) as u64)
        } else {
            self.push(16, self.flags as u64)
        }
    }

    /// POPF: a 16-bit image leaves the high half of the flags alone.
    #[verifier::opaque]
    pub open spec fn popf(self) -> State {
        let w = self.stack_width();
        let (s, f) = self.pop(w);
        if w >= 32 {
            s.with_flags(flags_written(s.flags, f as u32))
        } else {
            s.with_flags(flags_written(s.flags, (s.flags & 0xFFFF_0000) | (f as u32)))
        }
    }

    /// PUSHA: all eight registers in index order, the stack pointer as it was
    /// before the first push.
    #[verifier::opaque]
    pub open spec fn pusha(self, w: u32) -> State {
        self.push_all(w, Seq::new(8, |i: int| self.reg_w(i as u8, w)))
    }

    /// POPA: the reverse; the stored stack pointer is discarded.
    #[verifier::opaque]
    pub open spec fn popa(self, w: u32) -> State {
        let (s1, di) = self.pop(w);
        let (s2, si) = s1.pop(w);
        let (s3, bp) = s2.pop(w);
        let (s4, _sp) = s3.pop(w);
        let (s5, bx) = s4.pop(w);
        let (s6, dx) = s5.pop(w);
        let (s7, cx) = s6.pop(w);
        let (s8, ax) = s7.pop(w);
        s8.set_reg_w(7, w, di).set_reg_w(6, w, si).set_reg_w(5, w, bp).set_reg_w(3, w, bx).set_reg_w(
            2,
            w,
            dx,
        ).set_reg_w(1, w, cx).set_reg_w(0, w, ax)
    }

    /// POP reg.
    #[verifier::opaque]
    pub open spec fn pop_reg(self, dst: u8, w: u32) -> State {
        let (s, v) = self.pop(w);
        s.set_reg_w(dst, w, v)
    }

    /// PUSH r/m.
    #[verifier::opaque]
    pub open spec fn push_rm(self, m: ModRm, w: u32) -> State {
        let (s, v) = self.read_rm(m, w);
        s.push(w, v)
    }

    /// POP r/m: the pop comes first, so a destination addressed through the
    /// stack pointer sees the updated one.
    #[verifier::opaque]
    pub open spec fn pop_rm(self, m: ModRm, w: u32) -> State {
        let (s, v) = self.pop(w);
        s.write_rm(m, w, v)
    }

    /// POP sreg.
    #[verifier::opaque]
    pub open spec fn pop_seg(self, seg: SegReg) -> State {
        let (s, v) = self.pop(self.stack_width());
        s.load_seg(seg, v as u16)
    }

    /// LEAVE: the stack pointer takes the frame pointer, which is then popped.
    #[verifier::opaque]
    pub open spec fn leave(self, w32: bool) -> State {
        if self.long64() {
            self.with_reg64(4, self.reg64(5)).pop_reg(5, 64)
        } else if w32 {
            self.with_reg32(4, self.reg32(5)).pop_reg(5, 32)
        } else {
            self.with_reg16(4, self.reg16(5)).pop_reg(5, 16)
        }
    }

    /// The state with a system call from user mode logged, while debugging.
    pub open spec fn call_logged(self, vector: u8) -> State {
        if self.diag.debug_enabled && vector == 0x80 && self.cpl() == 3
            && self.diag.syscall_log.len() < 512 {
            State {
                diag: DiagView {
                    syscall_log: self.diag.syscall_log.push(
                        (
                            self.instructions_executed,
                            self.reg64(0),
                            self.reg64(3),
                            self.reg64(1),
                            self.reg64(2),
                        ),
                    ),
                    ..self.diag
                },
                ..self
            }
        } else {
            self
        }
    }
}

/// Merge a software-written EFLAGS value onto the current one.
pub fn write_flags(old_word: u32, new: u32) -> (f: u32)
    ensures
        f == flags_written(old_word, new),
{
    (new & flags::WRITABLE) | flags::ALWAYS_SET | (old_word & !flags::WRITABLE & !flags::ALWAYS_SET)
}

impl Cpu {
    /// Branch by a signed displacement, at the width of the current mode.
    ///
    /// A near branch in 64-bit mode moves the whole of RIP; in a legacy mode
    /// it wraps at 32 bits (or 16, with a 16-bit operand size). Doing it at
    /// one fixed width is how a jump in the high half of a 64-bit address
    /// space lands four gigabytes from where it meant to.
    pub fn branch_rel(&mut self, rel: i64)
        ensures
            final(self)@ == old(self)@.branch(rel),
    {
        if self.long64() {
            self.rip = self.rip.wrapping_add(rel as u64);
        } else if self.pfx.opsize {
            let t: u32 = self.eip().wrapping_add(rel as u32);
            self.set_eip(t);
        } else {
            self.ip = self.ip.wrapping_add(rel as u16);
        }
    }

    pub fn branch_if(&mut self, cond: Cond, rel: i64)
        ensures
            final(self)@ == old(self)@.branch_if(cond, rel),
    {
        if cond.test(self) {
            self.branch_rel(rel);
        }
    }

    pub fn goto(&mut self, t: u64)
        ensures
            final(self)@ == old(self)@.goto(t),
    {
        if self.long64() {
            self.rip = t;
        } else {
            self.set_eip(t as u32);
        }
    }

    pub fn return_address(&self) -> (a: u64)
        ensures
            a == self@.return_address(),
    {
        if self.long64() {
            self.rip
        } else {
            self.eip() as u64
        }
    }

    pub fn jmp16(&mut self, rel: i16)
        ensures
            final(self)@ == (State { ip: old(self)@.ip.wrapping_add(rel as u16), ..old(self)@ }),
    {
        self.ip = self.ip.wrapping_add(rel as u16);
    }

    pub fn call16(&mut self, rel: i16)
        ensures
            final(self)@ == old(self)@.call16(rel),
    {
        let next: u16 = self.ip;
        self.push_w(16, next as u64);
        self.ip = self.ip.wrapping_add(rel as u16);
    }

    pub fn call32(&mut self, rel: i32)
        ensures
            final(self)@ == old(self)@.call32(rel),
    {
        proof {
            reveal(State::call32);
        }
        let w: u32 = self.stack_width();
        let next: u64 = self.return_address();
        self.push_w(w, next);
        if self.pending_exception.is_some() {
            return;
        }
        self.branch_rel(rel as i64);
    }

    pub fn ret16(&mut self)
        ensures
            final(self)@ == old(self)@.ret16(),
    {
        let t: u64 = self.pop_w(16);
        self.ip = t as u16;
    }

    pub fn ret32(&mut self)
        ensures
            final(self)@ == old(self)@.ret32(),
    {
        proof {
            reveal(State::ret32);
        }
        let w: u32 = self.stack_width();
        let t: u64 = self.pop_w(w);
        self.goto(t);
    }

    pub fn ret_imm(&mut self, imm: u16, w32: bool)
        ensures
            final(self)@ == old(self)@.ret_imm(imm, w32),
    {
        proof {
            reveal(State::ret_imm);
        }
        if self.long64() {
            let t: u64 = self.pop_w(64);
            let sp: u64 = self.rsp().wrapping_add(imm as u64);
            self.set_rsp(sp);
            self.rip = t;
        } else if w32 {
            let t: u64 = self.pop_w(32);
            let sp: u32 = self.esp().wrapping_add(imm as u32);
            self.set_esp(sp);
            self.set_eip(t as u32);
        } else {
            let t: u64 = self.pop_w(16);
            let sp: u16 = self.sp().wrapping_add(imm);
            self.set_sp(sp);
            self.ip = t as u16;
        }
    }

    pub fn call_rm16(&mut self, m: &ModRm)
        ensures
            final(self)@ == old(self)@.call_rm16(*m),
    {
        proof {
            reveal(State::call_rm16);
        }
        let t: u64 = self.read_rm_w(m, 16);
        let next: u16 = self.ip;
        self.push_w(16, next as u64);
        self.ip = t as u16;
    }

    pub fn call_rm(&mut self, m: &ModRm)
        ensures
            final(self)@ == old(self)@.call_rm(*m),
    {
        proof {
            reveal(State::call_rm);
        }
        // The call target follows the operand size (64-bit by default in
        // 64-bit mode), and so does the return address pushed for it.
        let w: u32 = self.stack_width();
        let t: u64 = self.read_rm_w(m, w);
        let next: u64 = self.return_address();
        self.push_w(w, next);
        if self.pending_exception.is_some() {
            return;
        }
        self.goto(t);
        self.invalidate_phys_ip();
    }

    pub fn jmp_rm16(&mut self, m: &ModRm)
        ensures
            final(self)@ == old(self)@.jmp_rm16(*m),
    {
        let t: u64 = self.read_rm_w(m, 16);
        self.ip = t as u16;
    }

    pub fn jmp_rm(&mut self, m: &ModRm)
        ensures
            final(self)@ == old(self)@.jmp_rm(*m),
    {
        proof {
            reveal(State::jmp_rm);
        }
        let w: u32 = self.stack_width();
        let t: u64 = self.read_rm_w(m, w);
        self.goto(t);
        self.invalidate_phys_ip();
    }

    /// LOOP / LOOPZ / LOOPNZ / JCXZ. The count register follows the address
    /// size, so with 64-bit addressing LOOP counts RCX.
    pub fn loop_branch(&mut self, cond: LoopCond, rel: i8)
        ensures
            final(self)@ == old(self)@.looped(cond, rel),
    {
        proof {
            reveal(State::looped);
        }
        let w: u32 = self.asize();
        let count: u64 = self.reg_w(1, w);
        let left: u64 = crate::instructions::alu::trunc_w(count.wrapping_sub(1), w);
        let z = self.get_flag(flags::ZF);
        let take = match cond {
            LoopCond::Jcxz => count == 0,
            LoopCond::Loop => left != 0,
            LoopCond::Loopz => left != 0 && z,
            LoopCond::Loopnz => left != 0 && !z,
        };
        if cond != LoopCond::Jcxz {
            self.set_reg_w_raw(1, w, left);
        }
        if take {
            self.branch_rel(rel as i64);
        }
    }

    pub fn jmp_far16(&mut self, off: u16, seg: u16)
        ensures
            final(self)@ == old(self)@.jmp_far16(off, seg),
    {
        proof {
            reveal(State::jmp_far16);
        }
        self.load_seg(SegReg::Cs, seg);
        self.ip = off;
        self.invalidate_phys_ip();
    }

    /// The far jump is how a boot sequence *leaves* the mode it is in: it is
    /// the instruction that makes a newly loaded CS take effect, and in a
    /// 64-bit boot it is the step that turns compatibility-mode code into
    /// 64-bit code by landing in an L=1 segment.
    pub fn jmp_far32(&mut self, off: u32, seg: u16)
        ensures
            final(self)@ == old(self)@.jmp_far32(off, seg),
    {
        proof {
            reveal(State::jmp_far32);
        }
        self.load_seg(SegReg::Cs, seg);
        self.set_eip(off);
        self.invalidate_phys_ip();
    }

    pub fn call_far16(&mut self, off: u16, seg: u16)
        ensures
            final(self)@ == old(self)@.call_far16(off, seg),
    {
        proof {
            reveal(State::call_far16);
        }
        let ip: u16 = self.ip;
        let cs: u16 = self.cs;
        let frame: Vec<u64> = vec![cs as u64, ip as u64];
        self.push_all(16, &frame);
        self.jmp_far16(off, seg);
    }

    pub fn call_far32(&mut self, off: u32, seg: u16)
        ensures
            final(self)@ == old(self)@.call_far32(off, seg),
    {
        proof {
            reveal(State::call_far32);
        }
        let ip: u32 = self.eip();
        let cs: u16 = self.cs;
        let frame: Vec<u64> = vec![cs as u64, ip as u64];
        self.push_all(32, &frame);
        self.jmp_far32(off, seg);
    }

    pub fn retf16(&mut self)
        ensures
            final(self)@ == old(self)@.retf16(),
    {
        proof {
            reveal(State::retf16);
        }
        let ip: u64 = self.pop_w(16);
        self.ip = ip as u16;
        let cs: u64 = self.pop_w(16);
        self.load_seg(SegReg::Cs, cs as u16);
    }

    /// In 64-bit code, RETF pops a 64-bit RIP and a 16-bit CS, and loading CS
    /// updates the descriptor cache so that its L bit is read.
    pub fn retf32(&mut self)
        ensures
            final(self)@ == old(self)@.retf32(),
    {
        proof {
            reveal(State::retf32);
        }
        let wide = self.long64();
        let w: u32 = if wide {
            64
        } else {
            32
        };
        let ip: u64 = self.pop_w(w);
        let cs: u64 = self.pop_w(w);
        self.load_seg(SegReg::Cs, cs as u16);
        self.rip = if wide {
            ip
        } else {
            (ip as u32) as u64
        };
        self.invalidate_phys_ip();
    }

    pub fn iret16(&mut self)
        ensures
            final(self)@ == old(self)@.iret16(),
    {
        proof {
            reveal(State::iret16);
        }
        let ip: u64 = self.pop_w(16);
        self.ip = ip as u16;
        let cs: u64 = self.pop_w(16);
        self.cs = cs as u16;
        let f: u64 = self.pop_w(16);
        self.flags = write_flags(self.flags, (self.flags & 0xFFFF_0000) | ((f as u16) as u32));
    }

    /// IRETQ: in long mode the frame is always five 8-byte words -- SS:RSP
    /// included, whether or not the privilege level changes -- so it is popped
    /// unconditionally. Getting that wrong leaves RSP eight bytes off on every
    /// kernel-to-kernel return.
    pub fn iret64(&mut self)
        ensures
            final(self)@ == old(self)@.iret64(),
    {
        proof {
            reveal(State::iret64);
        }
        let rip: u64 = self.pop_w(64);
        let cs: u64 = self.pop_w(64);
        let f: u64 = self.pop_w(64);
        let rsp: u64 = self.pop_w(64);
        let ss: u64 = self.pop_w(64);
        self.load_seg(SegReg::Cs, cs as u16);
        self.load_seg(SegReg::Ss, ss as u16);
        self.set_rsp(rsp);
        self.rip = rip;
        self.flags = write_flags(self.flags, f as u32);
        self.invalidate_phys_ip();
    }

    pub fn iret32(&mut self)
        ensures
            final(self)@ == old(self)@.iret32(),
    {
        proof {
            reveal(State::iret32);
        }
        let ip: u64 = self.pop_w(32);
        let cs: u64 = self.pop_w(32);
        let f: u64 = self.pop_w(32);
        // Returning to a less privileged level: the frame carries the user
        // stack as well, and it must be restored before CS changes the CPL out
        // from under the pops.
        if ((cs as u16) & 3) as u8 > self.cpl() {
            let sp: u64 = self.pop_w(32);
            let ss: u64 = self.pop_w(32);
            self.load_seg(SegReg::Ss, ss as u16);
            self.set_esp(sp as u32);
        }
        self.set_eip(ip as u32);
        self.load_seg(SegReg::Cs, cs as u16);
        self.flags = write_flags(self.flags, f as u32);
        self.invalidate_phys_ip();
    }

    /// PUSHF/PUSHFD and POPF/POPFD follow the operand size. In 32-bit mode
    /// these move the whole of EFLAGS -- which is how Linux probes the AC and
    /// ID bits.
    pub fn pushf(&mut self)
        ensures
            final(self)@ == old(self)@.pushf(),
    {
        let w: u32 = self.stack_width();
        if w >= 32 {
            let f: u32 = self.flags & !(flags::VM | flags::RF);
            self.push_w(w, f as u64);
        } else {
            let f: u32 = self.flags;
            self.push_w(16, f as u64);
        }
    }

    pub fn popf(&mut self)
        ensures
            final(self)@ == old(self)@.popf(),
    {
        proof {
            reveal(State::popf);
        }
        let w: u32 = self.stack_width();
        let f: u64 = self.pop_w(w);
        if w >= 32 {
            self.flags = write_flags(self.flags, f as u32);
        } else {
            self.flags = write_flags(self.flags, (self.flags & 0xFFFF_0000) | (f as u32));
        }
    }

    pub fn pusha(&mut self, w: u32)
        ensures
            final(self)@ == old(self)@.pusha(w),
    {
        proof {
            reveal(State::pusha);
        }
        let mut frame: Vec<u64> = Vec::new();
        let mut i: u8 = 0;
        while i < 8
            invariant
                i <= 8,
                frame@ == Seq::new(i as nat, |k: int| self@.reg_w(k as u8, w)),
            decreases 8 - i,
        {
            frame.push(self.reg_w(i, w));
            i = i + 1;
        }
        self.push_all(w, &frame);
    }

    pub fn popa(&mut self, w: u32)
        ensures
            final(self)@ == old(self)@.popa(w),
    {
        proof {
            reveal(State::popa);
        }
        let di: u64 = self.pop_w(w);
        let si: u64 = self.pop_w(w);
        let bp: u64 = self.pop_w(w);
        let _sp: u64 = self.pop_w(w);
        let bx: u64 = self.pop_w(w);
        let dx: u64 = self.pop_w(w);
        let cx: u64 = self.pop_w(w);
        let ax: u64 = self.pop_w(w);
        self.set_reg_w(7, w, di);
        self.set_reg_w(6, w, si);
        self.set_reg_w(5, w, bp);
        self.set_reg_w(3, w, bx);
        self.set_reg_w(2, w, dx);
        self.set_reg_w(1, w, cx);
        self.set_reg_w(0, w, ax);
    }

    pub fn push_reg(&mut self, src: u8, w: u32)
        ensures
            final(self)@ == old(self)@.push(w, old(self)@.reg_w(src, w)),
    {
        let v: u64 = self.reg_w(src, w);
        self.push_w(w, v);
    }

    pub fn pop_reg(&mut self, dst: u8, w: u32)
        ensures
            final(self)@ == old(self)@.pop_reg(dst, w),
    {
        proof {
            reveal(State::pop_reg);
        }
        let v: u64 = self.pop_w(w);
        self.set_reg_w(dst, w, v);
    }

    pub fn push_rm(&mut self, m: &ModRm, w: u32)
        ensures
            final(self)@ == old(self)@.push_rm(*m, w),
    {
        proof {
            reveal(State::push_rm);
        }
        let v: u64 = self.read_rm_w(m, w);
        self.push_w(w, v);
    }

    pub fn pop_rm(&mut self, m: &ModRm, w: u32)
        ensures
            final(self)@ == old(self)@.pop_rm(*m, w),
    {
        proof {
            reveal(State::pop_rm);
        }
        let v: u64 = self.pop_w(w);
        self.write_rm_w(m, w, v);
    }

    /// The pushed value occupies the full operand size, but only the low 16
    /// bits carry the selector.
    pub fn push_seg(&mut self, seg: SegReg)
        ensures
            final(self)@ == old(self)@.push(
                old(self)@.stack_width(),
                old(self)@.seg(seg) as u64,
            ),
    {
        let w: u32 = self.stack_width();
        let v: u16 = self.seg(seg);
        self.push_w(w, v as u64);
    }

    pub fn pop_seg(&mut self, seg: SegReg)
        ensures
            final(self)@ == old(self)@.pop_seg(seg),
    {
        proof {
            reveal(State::pop_seg);
        }
        let w: u32 = self.stack_width();
        let v: u64 = self.pop_w(w);
        self.load_seg(seg, v as u16);
    }

    pub fn leave(&mut self, w32: bool)
        ensures
            final(self)@ == old(self)@.leave(w32),
    {
        proof {
            reveal(State::leave);
        }
        if self.long64() {
            let bp: u64 = self.reg64(5);
            self.set_rsp(bp);
            self.pop_reg(5, 64);
        } else if w32 {
            let bp: u32 = self.ebp();
            self.set_esp(bp);
            self.pop_reg(5, 32);
        } else {
            let bp: u16 = self.bp();
            self.set_sp(bp);
            self.pop_reg(5, 16);
        }
    }

    /// Record a system call from user mode: the sequence of calls ld.so makes
    /// is the quickest way to see which path it took.
    pub fn log_call(&mut self, vector: u8)
        ensures
            final(self)@ == old(self)@.call_logged(vector),
    {
        if self.diag.debug_enabled && vector == 0x80 && self.cpl() == 3
            && self.diag.syscall_log.len() < 512 {
            let entry: (u64, u64, u64, u64, u64) = (
                self.instructions_executed,
                self.reg64(0),
                self.reg64(3),
                self.reg64(1),
                self.reg64(2),
            );
            self.diag.syscall_log.push(entry);
        }
    }
}

} // verus!
