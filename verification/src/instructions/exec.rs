//! The executor.
//!
//! [`execute`] performs one decoded instruction. **A faulting instruction
//! commits nothing**: whatever it had done to the registers before it faulted
//! is taken back, so that the handler can fix things up and restart it. Traps
//! (#BP, #OF) are raised after the instruction completed and are not taken
//! back, and neither is a string instruction, which stops at the element that
//! faulted with its index and count registers pointing at it.

use crate::cpu::{flags, Cpu, SegReg};
use crate::fpu::{Fpu, FpuView};
use crate::instructions::interrupt::{protected_int, real_int};
use crate::instructions::mov::sext_w;
use crate::instructions::shift::BitOp;
use crate::instructions::Inst;
use crate::protected::Descriptor;
use crate::state::State;
use vstd::prelude::*;

verus! {

impl Inst {
    /// Is this a string instruction, which can be interrupted between
    /// elements?
    pub open spec fn is_string(self) -> bool {
        self is Movs || self is Stos || self is Lods || self is Cmps || self is Scas
    }
}

impl State {
    /// The width an 8- or 16-bit form names, or the operand size.
    pub open spec fn operand_width(self, width: u32) -> u32 {
        if width == 8 || width == 16 { width } else { self.osize() }
    }

    /// The width a full-size two-operand IMUL stores.
    pub open spec fn imul_width(self) -> u32 {
        if self.osize() == 64 { 64 } else { 32 }
    }

    /// INT n: a BIOS service if the vector is one, otherwise through the IDT
    /// or the IVT.
    #[verifier::opaque]
    pub open spec fn int_n(self, vector: u8) -> State {
        let (s, handled) = self.call_logged(vector).bios_service(vector);
        if handled {
            s
        } else if s.pe {
            s.protected_int(vector, None)
        } else {
            s.real_int(vector)
        }
    }

    /// The state with an unrecognised opcode counted. What is remembered with
    /// the count is where it was first seen.
    pub open spec fn opcode_noted(self, opcode: u16) -> State {
        let (n, at) = if self.unknown_ops.dom().contains(opcode) {
            self.unknown_ops[opcode]
        } else {
            (0, self.pc())
        };
        State { unknown_ops: self.unknown_ops.insert(opcode, (n.wrapping_add(1), at)), ..self }
    }

    /// An opcode the decoder does not know: an invalid-opcode exception.
    #[verifier::opaque]
    pub open spec fn unknown(self, opcode: u16) -> State {
        self.opcode_noted(opcode).raise(0x06, None)
    }

    /// The effect of an instruction: the MOV family.
    #[verifier::opaque]
    pub open spec fn move_inst(self, inst: Inst) -> State {
        match inst {
            Inst::Nop | Inst::Pause | Inst::Monitor | Inst::Invd | Inst::Wbinvd | Inst::NopHint => self,
            Inst::Mwait | Inst::Hlt => State { halted: true, ..self },
            Inst::MovRm8Reg { m, src } => self.mov_rm_reg(m, src, 8),
            Inst::MovRm16Reg { m, src } => self.mov_rm_reg(m, src, 16),
            Inst::MovRm32Reg { m, src } => self.mov_rm_reg(m, src, self.osize()),
            Inst::MovRegRm8 { m, dst } => self.mov_reg_rm(m, dst, 8),
            Inst::MovRegRm16 { m, dst } => self.mov_reg_rm(m, dst, 16),
            Inst::MovRegRm32 { m, dst } => self.mov_reg_rm(m, dst, self.osize()),
            Inst::MovRm8Imm { m, imm } => self.write_rm(m, 8, imm as u64),
            Inst::MovRm16Imm { m, imm } => self.write_rm(m, 16, imm as u64),
            Inst::MovRm32Imm { m, imm } => self.write_rm(m, self.osize(), crate::instructions::mov::sext(imm as u64, 32)),
            Inst::MovReg8Imm { dst, imm } => self.set_reg_w(dst, 8, imm as u64),
            Inst::MovReg16Imm { dst, imm } => self.set_reg_w(dst, 16, imm as u64),
            Inst::MovReg32Imm { dst, imm } => self.set_reg_w(dst, 32, imm as u64),
            Inst::MovReg64Imm { dst, imm } => self.set_reg_w(dst, 64, imm),
            Inst::MovAccMem8 { addr } => self.mov_acc_mem(addr as u64, 8),
            Inst::MovAccMem8Addr32 { addr } => self.mov_acc_mem(addr as u64, 8),
            Inst::MovAccMem8Addr64 { addr } => self.mov_acc_mem(addr, 8),
            Inst::MovMem8Acc { addr } => self.mov_mem_acc(addr as u64, 8),
            Inst::MovMem8AccAddr32 { addr } => self.mov_mem_acc(addr as u64, 8),
            Inst::MovMem8AccAddr64 { addr } => self.mov_mem_acc(addr, 8),
            Inst::MovAccMem16 { addr } => self.mov_acc_mem(addr as u64, 16),
            Inst::MovAccMem16Addr32 { addr } => self.mov_acc_mem(addr as u64, 16),
            Inst::MovMem16Acc { addr } => self.mov_mem_acc(addr as u64, 16),
            Inst::MovMem16AccAddr32 { addr } => self.mov_mem_acc(addr as u64, 16),
            Inst::MovAccMem32 { addr } => self.mov_acc_mem(addr, self.osize()),
            Inst::MovMem32Acc { addr } => self.mov_mem_acc(addr, self.osize()),
            Inst::MovRmSeg { m, seg } => self.write_rm(m, 16, self.seg(seg) as u64),
            Inst::MovSegRm { seg, m } => self.mov_seg_rm(seg, m),
            Inst::Lds { m } => self.load_far_pointer(m, SegReg::Ds),
            Inst::Les { m } => self.load_far_pointer(m, SegReg::Es),
            Inst::Lss { m } => self.load_far_pointer(m, SegReg::Ss),
            Inst::Lfs { m } => self.load_far_pointer(m, SegReg::Fs),
            Inst::Lgs { m } => self.load_far_pointer(m, SegReg::Gs),
            _ => self.arith_inst(inst),
        }
    }

    /// The effect of an instruction: arithmetic, shifts and bit operations.
    #[verifier::opaque]
    pub open spec fn arith_inst(self, inst: Inst) -> State {
        match inst {
            Inst::AluRm8Reg { op, m, reg, dir } => self.alu_rm_reg(op, m, reg, dir, 8),
            Inst::AluRm16Reg { op, m, reg, dir } => self.alu_rm_reg(op, m, reg, dir, 16),
            Inst::AluRm32Reg { op, m, reg, dir } => self.alu_rm_reg(op, m, reg, dir, self.osize()),
            Inst::AluRm8Imm { op, m, imm } => self.alu_rm_imm(op, m, imm as u64, 8),
            Inst::AluRm16Imm { op, m, imm, imm_is8: _ } => self.alu_rm_imm(op, m, imm as u64, 16),
            Inst::AluRm32Imm { op, m, imm, imm_is8: _ } => self.alu_rm_imm(op, m, crate::instructions::mov::sext(imm as u64, 32), self.osize()),
            Inst::AluAccImm8 { op, imm } => self.alu_acc_imm(op, imm as u64, 8),
            Inst::AluAccImm16 { op, imm } => self.alu_acc_imm(op, imm as u64, 16),
            Inst::AluAccImm32 { op, imm } => self.alu_acc_imm(op, crate::instructions::mov::sext(imm as u64, 32), self.osize()),
            Inst::IncReg16 { dst } => self.step_reg(dst, false, 16),
            Inst::DecReg16 { dst } => self.step_reg(dst, true, 16),
            Inst::IncReg32 { dst } => self.step_reg(dst, false, 32),
            Inst::DecReg32 { dst } => self.step_reg(dst, true, 32),
            Inst::IncRm8 { m } => self.step_rm(m, false, 8),
            Inst::DecRm8 { m } => self.step_rm(m, true, 8),
            Inst::IncRm16 { m } => self.step_rm(m, false, 16),
            Inst::DecRm16 { m } => self.step_rm(m, true, 16),
            Inst::IncRm32 { m } => self.step_rm(m, false, self.osize()),
            Inst::DecRm32 { m } => self.step_rm(m, true, self.osize()),
            Inst::TestRm8Imm { m, imm } => self.test_rm(m, imm as u64, 8),
            Inst::TestRm16Imm { m, imm } => self.test_rm(m, imm as u64, 16),
            Inst::TestRm32Imm { m, imm } => self.test_rm(m, crate::instructions::mov::sext(imm as u64, 32), self.osize()),
            Inst::TestRm8Reg { m, reg } => self.test_rm(m, self.reg_w(reg, 8), 8),
            Inst::TestRm16Reg { m, reg } => self.test_rm(m, self.reg_w(reg, 16), 16),
            Inst::TestRm32Reg { m, reg } => self.test_rm(m, self.reg_w(reg, self.osize()), self.osize()),
            Inst::TestAccImm8 { imm } => self.tested(self.reg_w(0, 8), imm as u64, 8),
            Inst::TestAccImm16 { imm } => self.tested(self.reg_w(0, 16), imm as u64, 16),
            Inst::TestAccImm32 { imm } => self.tested(self.reg_w(0, self.osize()), crate::instructions::mov::sext(imm as u64, 32), self.osize()),
            Inst::NotRm8 { m } => self.not_rm(m, 8),
            Inst::NotRm16 { m } => self.not_rm(m, 16),
            Inst::NotRm32 { m } => self.not_rm(m, self.osize()),
            Inst::NegRm8 { m } => self.neg_rm(m, 8),
            Inst::NegRm16 { m } => self.neg_rm(m, 16),
            Inst::NegRm32 { m } => self.neg_rm(m, self.osize()),
            Inst::MulRm8 { m } => self.mul_rm(m, 8),
            Inst::MulRm16 { m } => self.mul_rm(m, 16),
            Inst::MulRm32 { m } => self.mul_rm(m, self.osize()),
            Inst::ImulRm8 { m } => self.imul_rm(m, 8),
            Inst::ImulRm16 { m } => self.imul_rm(m, 16),
            Inst::ImulRm32 { m } => self.imul_rm(m, self.osize()),
            Inst::DivRm8 { m } => self.div_rm(m, 8),
            Inst::DivRm16 { m } => self.div_rm(m, 16),
            Inst::DivRm32 { m } => self.div_rm(m, self.osize()),
            Inst::IdivRm8 { m } => self.idiv_rm(m, 8),
            Inst::IdivRm16 { m } => self.idiv_rm(m, 16),
            Inst::IdivRm32 { m } => self.idiv_rm(m, self.osize()),
            Inst::ImulRegRm16 { m, dst } => self.imul_reg(m, dst, None, 16, 16),
            Inst::ImulRegRm32 { m, dst } => self.imul_reg(m, dst, None, self.osize(), self.imul_width()),
            Inst::ImulRegRmImm16 { m, dst, imm } => self.imul_reg(m, dst, Some(imm as int), 16, 16),
            Inst::ImulRegRmImm32 { m, dst, imm } => self.imul_reg(m, dst, Some(imm as int), self.osize(), self.imul_width()),
            Inst::Shift { op, m, width, count } => self.shift_rm(op, m, width, self.shift_count(count) as u32),
            Inst::ShiftImm { op, m, width, imm } => self.shift_rm(op, m, width, imm as u32),
            Inst::Shld { m, reg, count, w32 } => self.shift_double(m, reg, count, w32, true),
            Inst::Shrd { m, reg, count, w32 } => self.shift_double(m, reg, count, w32, false),
            Inst::Bsf { m, dst, w32: _ } => self.bit_scan(m, dst, false),
            Inst::Bsr { m, dst, w32: _ } => self.bit_scan(m, dst, true),
            Inst::Bt { m, bit } => self.bit_op(m, bit, BitOp::Test),
            Inst::Bts { m, bit } => self.bit_op(m, bit, BitOp::Raise),
            Inst::Btr { m, bit } => self.bit_op(m, bit, BitOp::Reset),
            Inst::Btc { m, bit } => self.bit_op(m, bit, BitOp::Complement),
            _ => self.flow_inst(inst),
        }
    }

    /// The effect of an instruction: the stack and control flow.
    #[verifier::opaque]
    pub open spec fn flow_inst(self, inst: Inst) -> State {
        match inst {
            Inst::Pusha { w32 } => self.pusha(if w32 { 32 } else { 16 }),
            Inst::Popa { w32 } => self.popa(if w32 { 32 } else { 16 }),
            Inst::PushReg16 { src } => self.push(16, self.reg_w(src, 16)),
            Inst::PushReg32 { src } => self.push(self.stack_width(), self.reg_w(src, self.stack_width())),
            Inst::PopReg16 { dst } => self.pop_reg(dst, 16),
            Inst::PopReg32 { dst } => self.pop_reg(dst, self.stack_width()),
            Inst::PushImm16 { imm } => self.push(16, imm as u64),
            Inst::PushImm32 { imm } => self.push(self.stack_width(), crate::instructions::mov::sext(imm as u64, 32)),
            Inst::PushRm16 { m } => self.push_rm(m, 16),
            Inst::PushRm32 { m } => self.push_rm(m, self.stack_width()),
            Inst::PopRm16 { m } => self.pop_rm(m, 16),
            Inst::PopRm32 { m } => self.pop_rm(m, self.stack_width()),
            Inst::PushSeg { seg } => self.push(self.stack_width(), self.seg(seg) as u64),
            Inst::PopSeg { seg } => self.pop_seg(seg),
            Inst::Leave { w32 } => self.leave(w32),
            Inst::Pushf => self.pushf(),
            Inst::Popf => self.popf(),
            Inst::JmpRel8 { rel } => self.branch(rel as i64),
            Inst::JmpRel16 { rel } => State { ip: self.ip.wrapping_add(rel as u16), ..self },
            Inst::JmpRel32 { rel } => self.branch(rel as i64),
            Inst::Jcc { cond, rel } => self.branch_if(cond, rel as i64),
            Inst::Jcc32 { cond, rel } => self.branch_if(cond, rel as i64),
            Inst::CallRel16 { rel } => self.call16(rel),
            Inst::CallRel32 { rel } => self.call32(rel),
            Inst::Ret => self.ret16(),
            Inst::Ret32 => self.ret32(),
            Inst::RetImm { imm, w32 } => self.ret_imm(imm, w32),
            Inst::CallRm16 { m } => self.call_rm16(m),
            Inst::CallRm32 { m } => self.call_rm(m),
            Inst::JmpRm16 { m } => self.jmp_rm16(m),
            Inst::JmpRm32 { m } => self.jmp_rm(m),
            Inst::Loop { cond, rel } => self.looped(cond, rel),
            Inst::JmpFar { off, seg } => self.jmp_far16(off, seg),
            Inst::CallFar { off, seg } => self.call_far16(off, seg),
            Inst::JmpFar32 { off, seg } => self.jmp_far32(off, seg),
            Inst::CallFar32 { off, seg } => self.call_far32(off, seg),
            Inst::Retf => self.retf16(),
            Inst::Retf32 => self.retf32(),
            Inst::Int { vector } => self.int_n(vector),
            Inst::Int3 => self.raise(0x03, None),
            Inst::Into => if self.flag(flags::OF) { self.raise(0x04, None) } else { self },
            Inst::Iret => self.iret16(),
            Inst::Iret32 => if self.long_mode() { self.iret64() } else { self.iret32() },
            _ => self.data_inst(inst),
        }
    }

    /// The effect of an instruction: extension, exchange, strings and flag control.
    #[verifier::opaque]
    pub open spec fn data_inst(self, inst: Inst) -> State {
        match inst {
            Inst::Movzx8 { m, dst } => self.movzx(m, dst, 8, self.osize()),
            Inst::Movzx16 { m, dst } => self.movzx(m, dst, 16, self.osize()),
            Inst::Movsx8 { m, dst } => self.movsx(m, dst, 8, self.osize()),
            Inst::Movsx16 { m, dst } => self.movsx(m, dst, 16, self.osize()),
            Inst::Movsxd { m, dst } => self.movsx(m, dst, 32, self.osize()),
            Inst::Lea { m, dst } => self.lea(m, dst),
            Inst::XchgAxReg { reg } => self.xchg_acc(reg, 16),
            Inst::XchgEaxReg { reg } => self.xchg_acc(reg, self.osize()),
            Inst::XchgRmReg { m, reg, width } => self.xchg_rm(m, reg, self.operand_width(width)),
            Inst::Cmpxchg { m, reg, width } => self.compare_exchange(m, reg, self.operand_width(width)),
            Inst::Xadd { m, reg, width } => self.xadd(m, reg, self.operand_width(width)),
            Inst::Cmpxchg8b { m } => self.compare_exchange8b(m),
            Inst::Bswap { reg } => self.bswap(reg),
            Inst::Cmovcc { cond, m, dst, w32: _ } => self.cmov(cond, m, dst),
            Inst::Setcc { cond, m } => self.setcc(cond, m),
            Inst::Cbw => self.widen_acc(16),
            Inst::Cwd => self.fill_sign(16),
            Inst::Cwde => self.widen_acc(self.osize()),
            Inst::Cdq => self.fill_sign(self.osize()),
            Inst::Movs { rep, w } => self.movs(rep, w),
            Inst::Stos { rep, w } => self.stos(rep, w),
            Inst::Lods { rep, w } => self.lods(rep, w),
            Inst::Cmps { rep, w } => self.compare(rep, w),
            Inst::Scas { rep, w } => self.scas(rep, w),
            Inst::Clc => self.with_flag(flags::CF, false),
            Inst::Stc => self.with_flag(flags::CF, true),
            Inst::Cli => self.with_flag(flags::IF, false),
            Inst::Sti => self.with_flag(flags::IF, true),
            Inst::Cld => self.with_flag(flags::DF, false),
            Inst::Std => self.with_flag(flags::DF, true),
            Inst::Cmc => self.with_flag(flags::CF, !self.flag(flags::CF)),
            _ => self.system_inst(inst),
        }
    }

    /// The effect of an instruction: system and x87 instructions.
    #[verifier::opaque]
    pub open spec fn system_inst(self, inst: Inst) -> State {
        match inst {
            Inst::Lgdt { m } => self.lgdt(m),
            Inst::Lidt { m } => self.lidt(m),
            Inst::Sgdt { m } => self.store_table(m, self.gdt_limit, self.gdt_base),
            Inst::Sidt { m } => self.store_table(m, self.idt_limit, self.idt_base),
            Inst::Smsw { m } => self.smsw(m),
            Inst::Lmsw { m } => self.lmsw(m),
            Inst::Xgetbv => self.xgetbv(),
            Inst::Xsetbv => self.xsetbv(),
            Inst::Clac => self.set_ac(false),
            Inst::Stac => self.set_ac(true),
            Inst::Invlpg { m } => self.invlpg(self.rm_linear(m)),
            Inst::MovCr { cr, reg } => self.set_reg_w(reg, self.system_width(), self.control(cr)),
            Inst::MovToCr { cr, reg } => self.mov_to_cr(cr, reg),
            Inst::MovDr { dr, reg } => self.mov_dr(dr, reg),
            Inst::MovToDr { dr, reg } => self.mov_to_dr(dr, reg),
            Inst::Clts => State { cr0: self.cr0 & !0x8, ..self },
            Inst::Syscall => self.syscall(),
            Inst::Sysret => self.sysret(),
            Inst::Swapgs => self.swapgs(),
            Inst::Rdtscp => self.with_pair(self.tsc).set_reg32(1, 0),
            Inst::Rdtsc => self.with_pair(self.tsc),
            Inst::Cpuid => self.cpuid(),
            Inst::Rdmsr => self.with_pair(self.read_msr(self.reg32(1))),
            Inst::Wrmsr => self.write_msr(self.reg32(1), self.pair()),
            Inst::InAlImm { port } => self.in8(port as u16),
            Inst::InAxImm { port } => self.in16(port as u16),
            Inst::InAlDx => self.in8(self.reg16(2)),
            Inst::InAxDx => self.in16(self.reg16(2)),
            Inst::OutImmAl { port } => self.port_out(port as u16, self.reg64(0) as u8),
            Inst::OutImmAx { port } => self.port_out16(port as u16, self.reg16(0)),
            Inst::OutDxAl => self.port_out(self.reg16(2), self.reg64(0) as u8),
            Inst::OutDxAx => self.port_out16(self.reg16(2), self.reg16(0)),
            Inst::Lldt { m } => self.lldt(m),
            Inst::Ltr { m } => self.ltr(m),
            Inst::Sldt { m } => self.write_rm(m, 16, self.ldt_selector as u64),
            Inst::Str { m } => self.write_rm(m, 16, self.tr_selector as u64),
            Inst::Fninit => self.with_fpu(FpuView::reset()),
            Inst::Fstcw { m } => self.fstcw(m),
            Inst::Fldcw { m } => self.fldcw(m),
            Inst::FstswAx => self.set_reg16(0, self.fpu.status),
            Inst::Fstsw { m } => self.store_word(m, self.fpu.status),
            Inst::Fst { m, w64 } => self.fst(m, w64),
            Inst::Fstp { m, w64 } => self.fstp(m, w64),
            Inst::Fld { m, w64 } => self.fld(m, w64),
            Inst::Fild { m } => self.fild(m, 32),
            Inst::Fild16 { m } => self.fild(m, 16),
            Inst::Fistp { m } => self.fistp(m, 32),
            Inst::Fistp16 { m } => self.fistp(m, 16),
            Inst::Fop { op, m } => self.fop(op, m),
            Inst::Fxsave { m } => self.fxsave(m),
            Inst::Fxrstor { m } => self.fxrstor(m),
            Inst::Unknown { opcode } => self.unknown(opcode),
            _ => self,
        }
    }

    /// Is a fault pending, as opposed to a trap?
    pub open spec fn fault_pending(self) -> bool {
        match self.pending_exception {
            Some((vector, _)) => vector != 3 && vector != 4,
            None => false,
        }
    }

    /// A later state with this one's registers: the general, segment, table
    /// and x87 registers, the flags, the instruction pointer and where the
    /// instruction started.
    #[verifier::opaque]
    pub open spec fn registers_into(self, s: State) -> State {
        State {
            regs: self.regs,
            es: self.es,
            cs: self.cs,
            ss: self.ss,
            ds: self.ds,
            fs: self.fs,
            gs: self.gs,
            ip: self.ip,
            rip: self.rip,
            ip_start: self.ip_start,
            rip_start: self.rip_start,
            flags: self.flags,
            gdt_base: self.gdt_base,
            gdt_limit: self.gdt_limit,
            idt_base: self.idt_base,
            idt_limit: self.idt_limit,
            tr_selector: self.tr_selector,
            tr_base: self.tr_base,
            tr_limit: self.tr_limit,
            ldt_selector: self.ldt_selector,
            ldt_base: self.ldt_base,
            ldt_limit: self.ldt_limit,
            seg_desc: self.seg_desc,
            fpu: self.fpu,
            ..s
        }
    }

    /// The effect of an instruction. One that faults leaves the registers as
    /// they were.
    #[verifier::opaque]
    pub open spec fn execute(self, inst: Inst) -> State {
        let s = self.move_inst(inst);
        if s.fault_pending() && !inst.is_string() { self.registers_into(s) } else { s }
    }
}

/// The registers as they were before an instruction.
struct Registers {
    regs: [u64; 16],
    segs: [u16; 6],
    ip: u16,
    rip: u64,
    start: (u16, u64),
    flags: u32,
    gdt: (u64, u16),
    idt: (u64, u16),
    tr: (u16, u64, u32),
    ldt: (u16, u64, u32),
    seg_desc: [Descriptor; 6],
    fpu: Fpu,
}

impl Registers {
    /// Are these the registers of a state?
    spec fn of(self, s: State) -> bool {
        &&& self.regs@ == s.regs
        &&& self.segs@ == seq![s.es, s.cs, s.ss, s.ds, s.fs, s.gs]
        &&& self.ip == s.ip
        &&& self.rip == s.rip
        &&& self.start == (s.ip_start, s.rip_start)
        &&& self.flags == s.flags
        &&& self.gdt == (s.gdt_base, s.gdt_limit)
        &&& self.idt == (s.idt_base, s.idt_limit)
        &&& self.tr == (s.tr_selector, s.tr_base, s.tr_limit)
        &&& self.ldt == (s.ldt_selector, s.ldt_base, s.ldt_limit)
        &&& self.seg_desc@ == s.seg_desc
        &&& self.fpu@ == s.fpu
    }
}

impl Inst {
    fn is_string_inst(&self) -> (b: bool)
        ensures
            b == self.is_string(),
    {
        match *self {
            Inst::Movs { .. } => true,
            Inst::Stos { .. } => true,
            Inst::Lods { .. } => true,
            Inst::Cmps { .. } => true,
            Inst::Scas { .. } => true,
            _ => false,
        }
    }
}

impl Cpu {
    fn operand_width(&self, width: u32) -> (w: u32)
        ensures
            w == self@.operand_width(width),
    {
        if width == 8 || width == 16 {
            width
        } else {
            self.osize()
        }
    }

    fn imul_width(&self) -> (w: u32)
        ensures
            w == self@.imul_width(),
    {
        if self.osize() == 64 {
            64
        } else {
            32
        }
    }

    /// INT n. BIOS services (INT 0x10/0x16/0x13) are handled natively.
    fn int_n(&mut self, vector: u8)
        ensures
            final(self)@ == old(self)@.int_n(vector),
    {
        proof {
            reveal(State::int_n);
        }
        self.log_call(vector);
        if self.bios_call(vector) {
            return;
        }
        if self.pe {
            // Protected-mode interrupt through the IDT.
            protected_int(self, vector);
        } else {
            // Real-mode interrupt through the IVT.
            real_int(self, vector);
        }
    }

    /// Record an opcode the decoder could not handle, for diagnostics. The
    /// instruction pointer stored is that of the *first* sighting (the
    /// instruction has already been fetched, so it points past the opcode).
    pub fn note_unknown_opcode(&mut self, opcode: u16)
        ensures
            final(self)@ == old(self)@.opcode_noted(opcode),
    {
        let pc: u64 = self.pc();
        let (n, at): (u64, u64) = match self.unknown_ops.get(&opcode) {
            Some(e) => *e,
            None => (0, pc),
        };
        self.unknown_ops.insert(opcode, (n.wrapping_add(1), at));
    }

    /// Invalid opcode exception (#UD, vector 0x06). The opcode is recorded so
    /// a debug run can list every instruction the decoder is missing in one
    /// pass.
    fn unknown(&mut self, opcode: u16)
        ensures
            final(self)@ == old(self)@.unknown(opcode),
    {
        proof {
            reveal(State::unknown);
        }
        self.note_unknown_opcode(opcode);
        self.raise(0x06, None);
    }

    /// Perform an instruction: the MOV family.
    fn move_inst(&mut self, inst: &Inst)
        ensures
            final(self)@ == old(self)@.move_inst(*inst),
    {
        proof {
            reveal(State::move_inst);
        }
        match *inst {
            Inst::Nop | Inst::Pause | Inst::Monitor | Inst::Invd | Inst::Wbinvd | Inst::NopHint => {},
            Inst::Mwait | Inst::Hlt => {
                self.halted = true;
            },
            Inst::MovRm8Reg { m, src } => {
                self.mov_rm_reg(&m, src, 8);
            },
            Inst::MovRm16Reg { m, src } => {
                self.mov_rm_reg(&m, src, 16);
            },
            Inst::MovRm32Reg { m, src } => {
                let w: u32 = self.osize();
                self.mov_rm_reg(&m, src, w);
            },
            Inst::MovRegRm8 { m, dst } => {
                self.mov_reg_rm(&m, dst, 8);
            },
            Inst::MovRegRm16 { m, dst } => {
                self.mov_reg_rm(&m, dst, 16);
            },
            Inst::MovRegRm32 { m, dst } => {
                let w: u32 = self.osize();
                self.mov_reg_rm(&m, dst, w);
            },
            Inst::MovRm8Imm { m, imm } => {
                self.write_rm_w(&m, 8, imm as u64);
            },
            Inst::MovRm16Imm { m, imm } => {
                self.write_rm_w(&m, 16, imm as u64);
            },
            Inst::MovRm32Imm { m, imm } => {
                // C7 /0 takes an imm32 even at 64-bit operand size, and
                // **sign-extends** it.
                let w: u32 = self.osize();
                self.write_rm_w(&m, w, sext_w(imm as u64, 32));
            },
            Inst::MovReg8Imm { dst, imm } => {
                self.set_reg_w(dst, 8, imm as u64);
            },
            Inst::MovReg16Imm { dst, imm } => {
                self.set_reg_w(dst, 16, imm as u64);
            },
            Inst::MovReg32Imm { dst, imm } => {
                self.set_reg_w(dst, 32, imm as u64);
            },
            Inst::MovReg64Imm { dst, imm } => {
                self.set_reg_w(dst, 64, imm);
            },
            Inst::MovAccMem8 { addr } => {
                self.mov_acc_mem(addr as u64, 8);
            },
            Inst::MovAccMem8Addr32 { addr } => {
                self.mov_acc_mem(addr as u64, 8);
            },
            Inst::MovAccMem8Addr64 { addr } => {
                self.mov_acc_mem(addr, 8);
            },
            Inst::MovMem8AccAddr64 { addr } => {
                self.mov_mem_acc(addr, 8);
            },
            Inst::MovMem8Acc { addr } => {
                self.mov_mem_acc(addr as u64, 8);
            },
            Inst::MovMem8AccAddr32 { addr } => {
                self.mov_mem_acc(addr as u64, 8);
            },
            Inst::MovAccMem16 { addr } => {
                self.mov_acc_mem(addr as u64, 16);
            },
            Inst::MovAccMem16Addr32 { addr } => {
                self.mov_acc_mem(addr as u64, 16);
            },
            Inst::MovMem16Acc { addr } => {
                self.mov_mem_acc(addr as u64, 16);
            },
            Inst::MovMem16AccAddr32 { addr } => {
                self.mov_mem_acc(addr as u64, 16);
            },
            Inst::MovAccMem32 { addr } => {
                let w: u32 = self.osize();
                self.mov_acc_mem(addr, w);
            },
            Inst::MovMem32Acc { addr } => {
                let w: u32 = self.osize();
                self.mov_mem_acc(addr, w);
            },
            Inst::MovRmSeg { m, seg } => {
                let v: u16 = self.seg(seg);
                self.write_rm_w(&m, 16, v as u64);
            },
            Inst::MovSegRm { seg, m } => {
                self.mov_seg_rm(seg, &m);
            },
            Inst::Lds { m } => {
                self.load_far_pointer(&m, SegReg::Ds);
            },
            Inst::Les { m } => {
                self.load_far_pointer(&m, SegReg::Es);
            },
            Inst::Lss { m } => {
                self.load_far_pointer(&m, SegReg::Ss);
            },
            Inst::Lfs { m } => {
                self.load_far_pointer(&m, SegReg::Fs);
            },
            Inst::Lgs { m } => {
                self.load_far_pointer(&m, SegReg::Gs);
            },
            _ => self.arith_inst(inst),
        }
    }

    /// Perform an instruction: arithmetic, shifts and bit operations.
    fn arith_inst(&mut self, inst: &Inst)
        ensures
            final(self)@ == old(self)@.arith_inst(*inst),
    {
        proof {
            reveal(State::arith_inst);
        }
        match *inst {
            Inst::AluRm8Reg { op, m, reg, dir } => {
                self.alu_rm_reg(op, &m, reg, dir, 8);
            },
            Inst::AluRm16Reg { op, m, reg, dir } => {
                self.alu_rm_reg(op, &m, reg, dir, 16);
            },
            Inst::AluRm32Reg { op, m, reg, dir } => {
                let w: u32 = self.osize();
                self.alu_rm_reg(op, &m, reg, dir, w);
            },
            Inst::AluRm8Imm { op, m, imm } => {
                self.alu_rm_imm(op, &m, imm as u64, 8);
            },
            Inst::AluRm16Imm { op, m, imm, imm_is8: _ } => {
                self.alu_rm_imm(op, &m, imm as u64, 16);
            },
            Inst::AluRm32Imm { op, m, imm, imm_is8: _ } => {
                // The immediate is imm32 (or a sign-extended imm8) whatever the
                // operand size: 64-bit forms sign-extend it.
                let w: u32 = self.osize();
                self.alu_rm_imm(op, &m, sext_w(imm as u64, 32), w);
            },
            Inst::AluAccImm8 { op, imm } => {
                self.alu_acc_imm(op, imm as u64, 8);
            },
            Inst::AluAccImm16 { op, imm } => {
                self.alu_acc_imm(op, imm as u64, 16);
            },
            Inst::AluAccImm32 { op, imm } => {
                let w: u32 = self.osize();
                self.alu_acc_imm(op, sext_w(imm as u64, 32), w);
            },
            Inst::IncReg16 { dst } => {
                self.step_reg(dst, false, 16);
            },
            Inst::DecReg16 { dst } => {
                self.step_reg(dst, true, 16);
            },
            Inst::IncReg32 { dst } => {
                self.step_reg(dst, false, 32);
            },
            Inst::DecReg32 { dst } => {
                self.step_reg(dst, true, 32);
            },
            Inst::IncRm8 { m } => {
                self.step_rm(&m, false, 8);
            },
            Inst::DecRm8 { m } => {
                self.step_rm(&m, true, 8);
            },
            Inst::IncRm16 { m } => {
                self.step_rm(&m, false, 16);
            },
            Inst::DecRm16 { m } => {
                self.step_rm(&m, true, 16);
            },
            Inst::IncRm32 { m } => {
                let w: u32 = self.osize();
                self.step_rm(&m, false, w);
            },
            Inst::DecRm32 { m } => {
                let w: u32 = self.osize();
                self.step_rm(&m, true, w);
            },
            Inst::TestRm8Imm { m, imm } => {
                self.test_rm(&m, imm as u64, 8);
            },
            Inst::TestRm16Imm { m, imm } => {
                self.test_rm(&m, imm as u64, 16);
            },
            Inst::TestRm32Imm { m, imm } => {
                let w: u32 = self.osize();
                self.test_rm(&m, sext_w(imm as u64, 32), w);
            },
            Inst::TestRm8Reg { m, reg } => {
                let b: u64 = self.reg_w(reg, 8);
                self.test_rm(&m, b, 8);
            },
            Inst::TestRm16Reg { m, reg } => {
                let b: u64 = self.reg_w(reg, 16);
                self.test_rm(&m, b, 16);
            },
            Inst::TestRm32Reg { m, reg } => {
                let w: u32 = self.osize();
                let b: u64 = self.reg_w(reg, w);
                self.test_rm(&m, b, w);
            },
            Inst::TestAccImm8 { imm } => {
                let a: u64 = self.reg_w(0, 8);
                self.test_values(a, imm as u64, 8);
            },
            Inst::TestAccImm16 { imm } => {
                let a: u64 = self.reg_w(0, 16);
                self.test_values(a, imm as u64, 16);
            },
            Inst::TestAccImm32 { imm } => {
                let w: u32 = self.osize();
                let a: u64 = self.reg_w(0, w);
                self.test_values(a, sext_w(imm as u64, 32), w);
            },
            Inst::NotRm8 { m } => {
                self.not_rm(&m, 8);
            },
            Inst::NotRm16 { m } => {
                self.not_rm(&m, 16);
            },
            Inst::NotRm32 { m } => {
                let w: u32 = self.osize();
                self.not_rm(&m, w);
            },
            Inst::NegRm8 { m } => {
                self.neg_rm(&m, 8);
            },
            Inst::NegRm16 { m } => {
                self.neg_rm(&m, 16);
            },
            Inst::NegRm32 { m } => {
                let w: u32 = self.osize();
                self.neg_rm(&m, w);
            },
            Inst::MulRm8 { m } => {
                self.mul_rm(&m, 8);
            },
            Inst::MulRm16 { m } => {
                self.mul_rm(&m, 16);
            },
            Inst::MulRm32 { m } => {
                let w: u32 = self.osize();
                self.mul_rm(&m, w);
            },
            Inst::ImulRm8 { m } => {
                self.imul_rm(&m, 8);
            },
            Inst::ImulRm16 { m } => {
                self.imul_rm(&m, 16);
            },
            Inst::ImulRm32 { m } => {
                let w: u32 = self.osize();
                self.imul_rm(&m, w);
            },
            Inst::DivRm8 { m } => {
                self.div_rm(&m, 8);
            },
            Inst::DivRm16 { m } => {
                self.div_rm(&m, 16);
            },
            Inst::DivRm32 { m } => {
                let w: u32 = self.osize();
                self.div_rm(&m, w);
            },
            Inst::IdivRm8 { m } => {
                self.idiv_rm(&m, 8);
            },
            Inst::IdivRm16 { m } => {
                self.idiv_rm(&m, 16);
            },
            Inst::IdivRm32 { m } => {
                let w: u32 = self.osize();
                self.idiv_rm(&m, w);
            },
            Inst::ImulRegRm16 { m, dst } => {
                self.imul_reg_rm(&m, dst, 16, 16);
            },
            Inst::ImulRegRm32 { m, dst } => {
                let w: u32 = self.osize();
                let rw: u32 = self.imul_width();
                self.imul_reg_rm(&m, dst, w, rw);
            },
            Inst::ImulRegRmImm16 { m, dst, imm } => {
                self.imul_reg_imm(&m, dst, imm as i32, 16, 16);
            },
            Inst::ImulRegRmImm32 { m, dst, imm } => {
                let w: u32 = self.osize();
                let rw: u32 = self.imul_width();
                self.imul_reg_imm(&m, dst, imm, w, rw);
            },
            Inst::Shift { op, m, width, count } => {
                let n: u8 = self.shift_count(count);
                self.do_shift(op, &m, width, n as u32);
            },
            Inst::ShiftImm { op, m, width, imm } => {
                self.do_shift(op, &m, width, imm as u32);
            },
            Inst::Shld { m, reg, count, w32 } => {
                self.shift_double(&m, reg, count, w32, true);
            },
            Inst::Shrd { m, reg, count, w32 } => {
                self.shift_double(&m, reg, count, w32, false);
            },
            Inst::Bsf { m, dst, w32: _ } => {
                self.bit_scan(&m, dst, false);
            },
            Inst::Bsr { m, dst, w32: _ } => {
                self.bit_scan(&m, dst, true);
            },
            Inst::Bt { m, bit } => {
                self.bit_op(&m, bit, BitOp::Test);
            },
            Inst::Bts { m, bit } => {
                self.bit_op(&m, bit, BitOp::Raise);
            },
            Inst::Btr { m, bit } => {
                self.bit_op(&m, bit, BitOp::Reset);
            },
            Inst::Btc { m, bit } => {
                self.bit_op(&m, bit, BitOp::Complement);
            },
            _ => self.flow_inst(inst),
        }
    }

    /// Perform an instruction: the stack and control flow.
    fn flow_inst(&mut self, inst: &Inst)
        ensures
            final(self)@ == old(self)@.flow_inst(*inst),
    {
        proof {
            reveal(State::flow_inst);
        }
        match *inst {
            Inst::Pusha { w32 } => {
                let w: u32 = if w32 {
                    32
                } else {
                    16
                };
                self.pusha(w);
            },
            Inst::Popa { w32 } => {
                let w: u32 = if w32 {
                    32
                } else {
                    16
                };
                self.popa(w);
            },
            Inst::PushReg16 { src } => {
                self.push_reg(src, 16);
            },
            Inst::PushReg32 { src } => {
                // In 64-bit mode PUSH and POP of a register are 64-bit and there is
                // no encoding for anything narrower: the stack width is not the
                // operand size.
                let w: u32 = self.stack_width();
                self.push_reg(src, w);
            },
            Inst::PopReg16 { dst } => {
                self.pop_reg(dst, 16);
            },
            Inst::PopReg32 { dst } => {
                let w: u32 = self.stack_width();
                self.pop_reg(dst, w);
            },
            Inst::PushImm16 { imm } => {
                self.push_w(16, imm as u64);
            },
            Inst::PushImm32 { imm } => {
                let w: u32 = self.stack_width();
                self.push_w(w, sext_w(imm as u64, 32));
            },
            Inst::PushRm16 { m } => {
                self.push_rm(&m, 16);
            },
            Inst::PushRm32 { m } => {
                let w: u32 = self.stack_width();
                self.push_rm(&m, w);
            },
            Inst::PopRm16 { m } => {
                self.pop_rm(&m, 16);
            },
            Inst::PopRm32 { m } => {
                let w: u32 = self.stack_width();
                self.pop_rm(&m, w);
            },
            Inst::PushSeg { seg } => {
                self.push_seg(seg);
            },
            Inst::PopSeg { seg } => {
                self.pop_seg(seg);
            },
            Inst::Leave { w32 } => {
                self.leave(w32);
            },
            Inst::Pushf => {
                self.pushf();
            },
            Inst::Popf => {
                self.popf();
            },
            Inst::JmpRel8 { rel } => {
                self.branch_rel(rel as i64);
            },
            Inst::JmpRel16 { rel } => {
                self.jmp16(rel);
            },
            Inst::JmpRel32 { rel } => {
                self.branch_rel(rel as i64);
            },
            Inst::Jcc { cond, rel } => {
                self.branch_if(cond, rel as i64);
            },
            Inst::Jcc32 { cond, rel } => {
                self.branch_if(cond, rel as i64);
            },
            Inst::CallRel16 { rel } => {
                self.call16(rel);
            },
            Inst::CallRel32 { rel } => {
                self.call32(rel);
            },
            Inst::Ret => {
                self.ret16();
            },
            Inst::Ret32 => {
                self.ret32();
            },
            Inst::RetImm { imm, w32 } => {
                self.ret_imm(imm, w32);
            },
            Inst::CallRm16 { m } => {
                self.call_rm16(&m);
            },
            Inst::CallRm32 { m } => {
                self.call_rm(&m);
            },
            Inst::JmpRm16 { m } => {
                self.jmp_rm16(&m);
            },
            Inst::JmpRm32 { m } => {
                self.jmp_rm(&m);
            },
            Inst::Loop { cond, rel } => {
                self.loop_branch(cond, rel);
            },
            Inst::JmpFar { off, seg } => {
                self.jmp_far16(off, seg);
            },
            Inst::CallFar { off, seg } => {
                self.call_far16(off, seg);
            },
            Inst::JmpFar32 { off, seg } => {
                self.jmp_far32(off, seg);
            },
            Inst::CallFar32 { off, seg } => {
                self.call_far32(off, seg);
            },
            Inst::Retf => {
                self.retf16();
            },
            Inst::Retf32 => {
                self.retf32();
            },
            Inst::Int { vector } => {
                self.int_n(vector);
            },
            Inst::Int3 => {
                // Breakpoint exception (#BP, vector 0x03). No error code.
                self.raise(0x03, None);
            },
            Inst::Into => {
                // Overflow exception (#OF, vector 0x04) if OF is set.
                if self.get_flag(flags::OF) {
                    self.raise(0x04, None);
                }
            },
            Inst::Iret => {
                self.iret16();
            },
            Inst::Iret32 => {
                if self.long_mode() {
                    self.iret64();
                } else {
                    self.iret32();
                }
            },
            _ => self.data_inst(inst),
        }
    }

    /// Perform an instruction: extension, exchange, strings and flag control.
    fn data_inst(&mut self, inst: &Inst)
        ensures
            final(self)@ == old(self)@.data_inst(*inst),
    {
        proof {
            reveal(State::data_inst);
        }
        match *inst {
            Inst::Movzx8 { m, dst } => {
                let w: u32 = self.osize();
                self.movzx(&m, dst, 8, w);
            },
            Inst::Movzx16 { m, dst } => {
                let w: u32 = self.osize();
                self.movzx(&m, dst, 16, w);
            },
            Inst::Movsx8 { m, dst } => {
                let w: u32 = self.osize();
                self.movsx(&m, dst, 8, w);
            },
            Inst::Movsx16 { m, dst } => {
                let w: u32 = self.osize();
                self.movsx(&m, dst, 16, w);
            },
            Inst::Movsxd { m, dst } => {
                let w: u32 = self.osize();
                self.movsx(&m, dst, 32, w);
            },
            Inst::Lea { m, dst } => {
                self.lea(&m, dst);
            },
            Inst::XchgAxReg { reg } => {
                self.xchg_acc(reg, 16);
            },
            Inst::XchgEaxReg { reg } => {
                let w: u32 = self.osize();
                self.xchg_acc(reg, w);
            },
            Inst::XchgRmReg { m, reg, width } => {
                let w: u32 = self.operand_width(width);
                self.xchg_rm(&m, reg, w);
            },
            Inst::Cmpxchg { m, reg, width } => {
                let w: u32 = self.operand_width(width);
                self.compare_exchange(&m, reg, w);
            },
            Inst::Xadd { m, reg, width } => {
                let w: u32 = self.operand_width(width);
                self.xadd(&m, reg, w);
            },
            Inst::Cmpxchg8b { m } => {
                self.compare_exchange8b(&m);
            },
            Inst::Bswap { reg } => {
                self.bswap(reg);
            },
            Inst::Cmovcc { cond, m, dst, w32: _ } => {
                self.cmov(cond, &m, dst);
            },
            Inst::Setcc { cond, m } => {
                self.setcc(cond, &m);
            },
            Inst::Cbw => {
                self.widen_acc(16);
            },
            Inst::Cwd => {
                self.fill_sign(16);
            },
            Inst::Cwde => {
                let w: u32 = self.osize();
                self.widen_acc(w);
            },
            Inst::Cdq => {
                let w: u32 = self.osize();
                self.fill_sign(w);
            },
            Inst::Movs { rep, w } => {
                self.movs(rep, w);
            },
            Inst::Stos { rep, w } => {
                self.stos(rep, w);
            },
            Inst::Lods { rep, w } => {
                self.lods(rep, w);
            },
            Inst::Cmps { rep, w } => {
                self.compare(rep, w);
            },
            Inst::Scas { rep, w } => {
                self.scas(rep, w);
            },
            Inst::Clc => {
                self.set_flag(flags::CF, false);
            },
            Inst::Stc => {
                self.set_flag(flags::CF, true);
            },
            Inst::Cli => {
                self.set_flag(flags::IF, false);
            },
            Inst::Sti => {
                self.set_flag(flags::IF, true);
            },
            Inst::Cld => {
                self.set_flag(flags::DF, false);
            },
            Inst::Std => {
                self.set_flag(flags::DF, true);
            },
            Inst::Cmc => {
                let c = self.get_flag(flags::CF);
                self.set_flag(flags::CF, !c);
            },
            _ => self.system_inst(inst),
        }
    }

    /// Perform an instruction: system and x87 instructions.
    fn system_inst(&mut self, inst: &Inst)
        ensures
            final(self)@ == old(self)@.system_inst(*inst),
    {
        proof {
            reveal(State::system_inst);
        }
        match *inst {
            Inst::Lgdt { m } => {
                self.lgdt(&m);
            },
            Inst::Lidt { m } => {
                self.lidt(&m);
            },
            Inst::Sgdt { m } => {
                let limit: u16 = self.gdt_limit;
                let base: u64 = self.gdt_base;
                self.store_table(&m, limit, base);
            },
            Inst::Sidt { m } => {
                let limit: u16 = self.idt_limit;
                let base: u64 = self.idt_base;
                self.store_table(&m, limit, base);
            },
            Inst::Smsw { m } => {
                self.smsw(&m);
            },
            Inst::Lmsw { m } => {
                self.lmsw(&m);
            },
            Inst::Xgetbv => {
                self.xgetbv();
            },
            Inst::Xsetbv => {
                self.xsetbv();
            },
            Inst::Clac => {
                self.set_ac(false);
            },
            Inst::Stac => {
                self.set_ac(true);
            },
            Inst::Invlpg { m } => {
                // INVLPG names a *linear* address, not a physical one: the mapping
                // it is dropping may be the one that no longer works.
                let linear: u64 = self.modrm_linear(&m);
                self.invlpg(linear);
            },
            Inst::MovCr { cr, reg } => {
                self.mov_cr(cr, reg);
            },
            Inst::MovToCr { cr, reg } => {
                self.mov_to_cr(cr, reg);
            },
            Inst::MovDr { dr, reg } => {
                self.mov_dr(dr, reg);
            },
            Inst::MovToDr { dr, reg } => {
                self.mov_to_dr(dr, reg);
            },
            Inst::Clts => {
                // Clear CR0.TS (bit 3).
                self.cr0 = self.cr0 & !0x8;
            },
            Inst::Syscall => {
                self.syscall();
            },
            Inst::Sysret => {
                self.sysret();
            },
            Inst::Swapgs => {
                self.swapgs();
            },
            Inst::Rdtscp => {
                // RDTSC, plus the processor id (always 0 here) in ECX.
                let t: u64 = self.rdtsc();
                self.set_pair(t);
                self.set_reg32_idx(1, 0);
            },
            Inst::Rdtsc => {
                let t: u64 = self.rdtsc();
                self.set_pair(t);
            },
            Inst::Cpuid => {
                self.cpuid();
            },
            Inst::Rdmsr => {
                self.rdmsr();
            },
            Inst::Wrmsr => {
                self.wrmsr();
            },
            Inst::InAlImm { port } => {
                self.in8(port as u16);
            },
            Inst::InAxImm { port } => {
                self.in16(port as u16);
            },
            Inst::InAlDx => {
                let port: u16 = self.dx();
                self.in8(port);
            },
            Inst::InAxDx => {
                let port: u16 = self.dx();
                self.in16(port);
            },
            Inst::OutImmAl { port } => {
                self.out8(port as u16);
            },
            Inst::OutImmAx { port } => {
                self.out16(port as u16);
            },
            Inst::OutDxAl => {
                let port: u16 = self.dx();
                self.out8(port);
            },
            Inst::OutDxAx => {
                let port: u16 = self.dx();
                self.out16(port);
            },
            Inst::Lldt { m } => {
                self.lldt(&m);
            },
            Inst::Ltr { m } => {
                self.ltr(&m);
            },
            Inst::Sldt { m } => {
                let v: u16 = self.ldt_selector;
                self.write_rm_w(&m, 16, v as u64);
            },
            Inst::Str { m } => {
                let v: u16 = self.tr_selector;
                self.write_rm_w(&m, 16, v as u64);
            },
            Inst::Fninit => {
                self.fpu.finit();
            },
            Inst::Fstcw { m } => {
                self.fstcw(&m);
            },
            Inst::Fldcw { m } => {
                self.fldcw(&m);
            },
            Inst::FstswAx => {
                self.fstsw_ax();
            },
            Inst::Fstsw { m } => {
                self.fstsw_mem(&m);
            },
            Inst::Fst { m, w64 } => {
                self.fst(&m, w64);
            },
            Inst::Fstp { m, w64 } => {
                self.fstp(&m, w64);
            },
            Inst::Fld { m, w64 } => {
                self.fld(&m, w64);
            },
            Inst::Fild { m } => {
                self.fild(&m, 32);
            },
            Inst::Fild16 { m } => {
                self.fild(&m, 16);
            },
            Inst::Fistp { m } => {
                self.fistp(&m, 32);
            },
            Inst::Fistp16 { m } => {
                self.fistp(&m, 16);
            },
            Inst::Fop { op, m } => {
                self.fop(op, &m);
            },
            Inst::Fxsave { m } => {
                self.fxsave(&m);
            },
            Inst::Fxrstor { m } => {
                self.fxrstor(&m);
            },
            Inst::Unknown { opcode } => {
                self.unknown(opcode);
            },
            _ => {},
        }
    }

    /// The registers as they are now.
    fn registers(&self) -> (r: Registers)
        ensures
            r.of(self@),
    {
        Registers {
            regs: self.regs,
            segs: [self.es, self.cs, self.ss, self.ds, self.fs, self.gs],
            ip: self.ip,
            rip: self.rip,
            start: (self.ip_start, self.rip_start),
            flags: self.flags,
            gdt: (self.gdt_base, self.gdt_limit),
            idt: (self.idt_base, self.idt_limit),
            tr: (self.tr_selector, self.tr_base, self.tr_limit),
            ldt: (self.ldt_selector, self.ldt_base, self.ldt_limit),
            seg_desc: self.seg_desc,
            fpu: Fpu {
                control: self.fpu.control,
                status: self.fpu.status,
                tag: self.fpu.tag,
                st: self.fpu.st,
                top: self.fpu.top,
                request: self.fpu.request,
            },
        }
    }

    /// Put registers back.
    fn restore(&mut self, r: Registers, Ghost(before): Ghost<State>)
        requires
            r.of(before),
        ensures
            final(self)@ == before.registers_into(old(self)@),
    {
        proof {
            reveal(State::registers_into);
        }
        self.regs = r.regs;
        self.es = r.segs[0];
        self.cs = r.segs[1];
        self.ss = r.segs[2];
        self.ds = r.segs[3];
        self.fs = r.segs[4];
        self.gs = r.segs[5];
        self.ip = r.ip;
        self.rip = r.rip;
        self.ip_start = r.start.0;
        self.rip_start = r.start.1;
        self.flags = r.flags;
        self.gdt_base = r.gdt.0;
        self.gdt_limit = r.gdt.1;
        self.idt_base = r.idt.0;
        self.idt_limit = r.idt.1;
        self.tr_selector = r.tr.0;
        self.tr_base = r.tr.1;
        self.tr_limit = r.tr.2;
        self.ldt_selector = r.ldt.0;
        self.ldt_base = r.ldt.1;
        self.ldt_limit = r.ldt.2;
        self.seg_desc = r.seg_desc;
        self.fpu = r.fpu;
    }
}

/// Execute a decoded instruction.
pub fn execute(cpu: &mut Cpu, inst: &Inst)
    ensures
        final(cpu)@ == old(cpu)@.execute(*inst),
{
    proof {
        reveal(State::execute);
    }
    let ghost before = cpu@;
    let saved = cpu.registers();
    cpu.move_inst(inst);
    let fault = match cpu.pending_exception {
        Some((vector, _)) => vector != 3 && vector != 4,
        None => false,
    };
    if fault && !inst.is_string_inst() {
        cpu.restore(saved, Ghost(before));
    }
}

} // verus!
