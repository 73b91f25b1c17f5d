//! The decoder.
//!
//! [`decode`] consumes the prefixes, which settle the operand and address
//! sizes, and then the opcode with whatever follows it.

use crate::cpu::{Cpu, Prefixes, SegReg};
use crate::instructions::{
    AluOp, BitOffset, Cond, Dir, FpuOp, Inst, LoopCond, Rep, ShiftCount, ShiftOp,
};
use crate::modrm::ModRm;
use crate::state::State;
use vstd::prelude::*;

verus! {

/// The segment register a `reg` field names.
pub open spec fn seg_of(i: u8) -> SegReg {
    let k = i & 7;
    if k == 0 {
        SegReg::Es
    } else if k == 1 {
        SegReg::Cs
    } else if k == 2 {
        SegReg::Ss
    } else if k == 3 {
        SegReg::Ds
    } else if k == 4 {
        SegReg::Fs
    } else {
        SegReg::Gs
    }
}

/// Is a byte a REX prefix? They exist only in 64-bit code.
pub open spec fn is_rex(b: u8, long64: bool) -> bool {
    long64 && 0x40 <= b <= 0x4F
}

/// Is a byte one of the legacy prefixes?
#[verifier::opaque]
pub open spec fn is_legacy_prefix(b: u8) -> bool {
    b == 0xF0 || b == 0xF3 || b == 0xF2 || b == 0x66 || b == 0x67 || b == 0x2E || b == 0x36 || b
        == 0x3E || b == 0x26 || b == 0x64 || b == 0x65
}

/// The sizes and prefixes an instruction starts with: 32-bit operands and
/// 64-bit addresses in 64-bit code, elsewhere what the code segment says.
#[verifier::opaque]
pub open spec fn initial_prefixes(long64: bool, d32: bool) -> Prefixes {
    Prefixes {
        opsize: long64 || d32,
        addrsize: long64 || d32,
        addr64: long64,
        rex_present: false,
        rex_w: false,
        rex_r: false,
        rex_x: false,
        rex_b: false,
        seg_override: None,
    }
}

/// The prefixes once all have been seen. REX.W wins over everything: a 0x66
/// seen earlier does not undo it.
#[verifier::opaque]
pub open spec fn settled(p: Prefixes) -> Prefixes {
    Prefixes { opsize: p.opsize || p.rex_w, ..p }
}

/// A segment override. In 64-bit code only FS and GS can be overridden with.
pub open spec fn overridden(p: Prefixes, seg: SegReg, ignored: bool) -> Prefixes {
    if ignored { p } else { Prefixes { seg_override: Some(seg), ..p } }
}

/// The prefixes once one more has been seen. A legacy prefix cancels a REX
/// prefix before it; 0x66 and 0x67 toggle the sizes, or in 64-bit code choose
/// the smaller one.
#[verifier::opaque]
pub open spec fn prefix_applied(p: Prefixes, b: u8, long64: bool) -> Prefixes {
    if is_rex(b, long64) {
        Prefixes {
            rex_present: true,
            rex_w: b & 8 != 0,
            rex_r: b & 4 != 0,
            rex_x: b & 2 != 0,
            rex_b: b & 1 != 0,
            ..p
        }
    } else {
        let q = Prefixes {
            rex_present: false,
            rex_w: false,
            rex_r: false,
            rex_x: false,
            rex_b: false,
            ..p
        };
        if b == 0x66 {
            Prefixes { opsize: !long64 && !q.opsize, ..q }
        } else if b == 0x67 && long64 {
            Prefixes { addr64: false, ..q }
        } else if b == 0x67 {
            Prefixes { addrsize: !q.addrsize, ..q }
        } else if b == 0x2E {
            overridden(q, SegReg::Cs, long64)
        } else if b == 0x36 {
            overridden(q, SegReg::Ss, long64)
        } else if b == 0x3E {
            overridden(q, SegReg::Ds, long64)
        } else if b == 0x26 {
            overridden(q, SegReg::Es, long64)
        } else if b == 0x64 {
            overridden(q, SegReg::Fs, false)
        } else if b == 0x65 {
            overridden(q, SegReg::Gs, false)
        } else {
            q
        }
    }
}

/// The repeat prefix once one more prefix has been seen.
#[verifier::opaque]
pub open spec fn rep_applied(rep: Rep, b: u8) -> Rep {
    if b == 0xF3 {
        Rep::Repe
    } else if b == 0xF2 {
        Rep::Repne
    } else {
        rep
    }
}

impl State {
    /// The state with an instruction's prefixes.
    pub open spec fn with_prefixes(self, p: Prefixes) -> State {
        State { pfx: p, ..self }
    }

    /// REX.B as the high bit of an opcode-embedded register number.
    pub open spec fn rb(self) -> u8 {
        if self.pfx.rex_b { 8 } else { 0 }
    }

    /// The state at the first byte that is not a prefix, and the repeat prefix
    /// seen on the way. `limit` bounds the number of prefixes.
    pub open spec fn prefixed(self, rep: Rep, limit: u64) -> (State, Rep)
        decreases limit,
    {
        let (s, b) = self.peek8();
        if limit == 0 || !(is_rex(b, s.long64()) || is_legacy_prefix(b)) {
            (s, rep)
        } else {
            let (t, _) = s.with_prefixes(prefix_applied(s.pfx, b, s.long64())).fetch8();
            t.prefixed(rep_applied(rep, b), (limit - 1) as u64)
        }
    }

    /// The state with the prefixes consumed.
    #[verifier::opaque]
    pub open spec fn prefixes(self) -> (State, Rep) {
        let start = self.with_prefixes(
            initial_prefixes(self.long64(), self.pe && self.seg_desc[1].d_b),
        );
        let (s, rep) = start.prefixed(Rep::No, u64::MAX);
        (s.with_prefixes(settled(s.pfx)), rep)
    }

    /// The two-operand ALU block below 0x40: bits 3-5 of the opcode name the
    /// operation, bits 0-2 the form.
    #[verifier::opaque]
    pub open spec fn decode_alu(self, op: u8, w32: bool) -> (State, Inst) {
        let f = AluOp::of(op / 8);
        let form = op % 8;
        if form < 4 {
            let (s, m) = self.fetch_modrm();
            let dir = if form < 2 { Dir::RmReg } else { Dir::RegRm };
            if form % 2 == 0 {
                (s, Inst::AluRm8Reg { op: f, m, reg: m.reg, dir })
            } else if w32 {
                (s, Inst::AluRm32Reg { op: f, m, reg: m.reg, dir })
            } else {
                (s, Inst::AluRm16Reg { op: f, m, reg: m.reg, dir })
            }
        } else if form == 4 {
            let (s, imm) = self.fetch8();
            (s, Inst::AluAccImm8 { op: f, imm })
        } else if w32 {
            let (s, imm) = self.fetch32();
            (s, Inst::AluAccImm32 { op: f, imm })
        } else {
            let (s, imm) = self.fetch16();
            (s, Inst::AluAccImm16 { op: f, imm })
        }
    }

    /// One-byte PUSH and POP of segment registers.
    #[verifier::opaque]
    pub open spec fn decode_seg(self, op: u8, rep: Rep, w32: bool) -> (State, Inst) {
        if op == 0x06 {
            (self, Inst::PushSeg { seg: SegReg::Es })
        } else if op == 0x07 {
            (self, Inst::PopSeg { seg: SegReg::Es })
        } else if op == 0x0E {
            (self, Inst::PushSeg { seg: SegReg::Cs })
        } else if op == 0x16 {
            (self, Inst::PushSeg { seg: SegReg::Ss })
        } else if op == 0x17 {
            (self, Inst::PopSeg { seg: SegReg::Ss })
        } else if op == 0x1E {
            (self, Inst::PushSeg { seg: SegReg::Ds })
        } else if op == 0x1F {
            (self, Inst::PopSeg { seg: SegReg::Ds })
        } else {
            (self, Inst::Unknown { opcode: op as u16 })
        }
    }

    /// Opcodes 0x40-0x7F: INC, DEC, PUSH, POP and short conditional jumps.
    #[verifier::opaque]
    pub open spec fn decode_4x(self, op: u8, rep: Rep, w32: bool) -> (State, Inst) {
        if 0x40 <= op <= 0x47 {
            if w32 {
                (self, Inst::IncReg32 { dst: (op - 0x40) as u8 })
            } else {
                (self, Inst::IncReg16 { dst: (op - 0x40) as u8 })
            }
        } else if 0x48 <= op <= 0x4F {
            if w32 {
                (self, Inst::DecReg32 { dst: (op - 0x48) as u8 })
            } else {
                (self, Inst::DecReg16 { dst: (op - 0x48) as u8 })
            }
        } else if 0x50 <= op <= 0x57 {
            if w32 {
                (self, Inst::PushReg32 { src: ((op - 0x50) as u8) | self.rb() })
            } else {
                (self, Inst::PushReg16 { src: ((op - 0x50) as u8) | self.rb() })
            }
        } else if 0x58 <= op <= 0x5F {
            if w32 {
                (self, Inst::PopReg32 { dst: ((op - 0x58) as u8) | self.rb() })
            } else {
                (self, Inst::PopReg16 { dst: ((op - 0x58) as u8) | self.rb() })
            }
        } else if op == 0x60 {
            (self, Inst::Pusha { w32 })
        } else if op == 0x61 {
            (self, Inst::Popa { w32 })
        } else if op == 0x63 {
            let (s1, m) = self.fetch_modrm();
            if s1.long64() {
                (s1, Inst::Movsxd { m, dst: m.reg })
            } else {
                (s1, Inst::Nop)
            }
        } else if op == 0x68 {
            if w32 {
                let (s1, imm) = self.fetch32();
                (s1, Inst::PushImm32 { imm })
            } else {
                let (s1, imm) = self.fetch16();
                (s1, Inst::PushImm16 { imm })
            }
        } else if op == 0x69 {
            let (s1, m) = self.fetch_modrm();
            if w32 {
                let (s2, imm) = s1.fetch32();
                (s2, Inst::ImulRegRmImm32 { m, dst: m.reg, imm: imm as i32 })
            } else {
                let (s2, imm) = s1.fetch16();
                (s2, Inst::ImulRegRmImm16 { m, dst: m.reg, imm: imm as i16 })
            }
        } else if op == 0x6A {
            let (s1, imm) = self.fetch8();
            if w32 {
                (s1, Inst::PushImm32 { imm: ((imm as i8) as i32) as u32 })
            } else {
                (s1, Inst::PushImm16 { imm: ((imm as i8) as i16) as u16 })
            }
        } else if op == 0x6B {
            let (s1, m) = self.fetch_modrm();
            let (s2, imm) = s1.fetch8();
            if w32 {
                (s2, Inst::ImulRegRmImm32 { m, dst: m.reg, imm: (imm as i8) as i32 })
            } else {
                (s2, Inst::ImulRegRmImm16 { m, dst: m.reg, imm: (imm as i8) as i16 })
            }
        } else if 0x70 <= op <= 0x7F {
            let (s1, rel) = self.fetch8();
            (s1, Inst::Jcc { cond: Cond::of((op - 0x70) as u8), rel: rel as i8 })
        } else {
            (self, Inst::Unknown { opcode: op as u16 })
        }
    }

    /// Opcodes 0x80-0x9F: immediate ALU forms, MOV, XCHG and LEA.
    #[verifier::opaque]
    pub open spec fn decode_8x(self, op: u8, rep: Rep, w32: bool) -> (State, Inst) {
        if op == 0x80 {
            let (s1, m) = self.fetch_modrm();
            let (s2, imm) = s1.fetch8();
            (s2, Inst::AluRm8Imm { op: AluOp::of(m.reg), m, imm: imm })
        } else if op == 0x81 {
            let (s1, m) = self.fetch_modrm();
            if w32 {
                let (s2, imm) = s1.fetch32();
                (s2, Inst::AluRm32Imm { op: AluOp::of(m.reg), m, imm: imm, imm_is8: false })
            } else {
                let (s2, imm) = s1.fetch16();
                (s2, Inst::AluRm16Imm { op: AluOp::of(m.reg), m, imm: imm, imm_is8: false })
            }
        } else if op == 0x83 {
            let (s1, m) = self.fetch_modrm();
            let (s2, imm) = s1.fetch8();
            if w32 {
                (s2, Inst::AluRm32Imm { op: AluOp::of(m.reg), m, imm: ((imm as i8) as i32) as u32, imm_is8: true })
            } else {
                (s2, Inst::AluRm16Imm { op: AluOp::of(m.reg), m, imm: ((imm as i8) as i16) as u16, imm_is8: true })
            }
        } else if op == 0x84 {
            let (s1, m) = self.fetch_modrm();
            (s1, Inst::TestRm8Reg { m, reg: m.reg })
        } else if op == 0x85 {
            let (s1, m) = self.fetch_modrm();
            if w32 {
                (s1, Inst::TestRm32Reg { m, reg: m.reg })
            } else {
                (s1, Inst::TestRm16Reg { m, reg: m.reg })
            }
        } else if op == 0x86 {
            let (s1, m) = self.fetch_modrm();
            (s1, Inst::XchgRmReg { m, reg: m.reg, width: 8 })
        } else if op == 0x87 {
            let (s1, m) = self.fetch_modrm();
            (s1, Inst::XchgRmReg { m, reg: m.reg, width: s1.osize() })
        } else if op == 0x88 {
            let (s1, m) = self.fetch_modrm();
            (s1, Inst::MovRm8Reg { m, src: m.reg })
        } else if op == 0x89 {
            let (s1, m) = self.fetch_modrm();
            if w32 {
                (s1, Inst::MovRm32Reg { m, src: m.reg })
            } else {
                (s1, Inst::MovRm16Reg { m, src: m.reg })
            }
        } else if op == 0x8A {
            let (s1, m) = self.fetch_modrm();
            (s1, Inst::MovRegRm8 { m, dst: m.reg })
        } else if op == 0x8B {
            let (s1, m) = self.fetch_modrm();
            if w32 {
                (s1, Inst::MovRegRm32 { m, dst: m.reg })
            } else {
                (s1, Inst::MovRegRm16 { m, dst: m.reg })
            }
        } else if op == 0x8C {
            let (s1, m) = self.fetch_modrm();
            (s1, Inst::MovRmSeg { m, seg: seg_of(m.reg) })
        } else if op == 0x8D {
            let (s1, m) = self.fetch_modrm();
            (s1, Inst::Lea { m, dst: m.reg })
        } else if op == 0x8E {
            let (s1, m) = self.fetch_modrm();
            (s1, Inst::MovSegRm { seg: seg_of(m.reg), m })
        } else if op == 0x8F {
            let (s1, m) = self.fetch_modrm();
            if m.reg & 7 == 0 {
                if w32 {
                    (s1, Inst::PopRm32 { m })
                } else {
                    (s1, Inst::PopRm16 { m })
                }
            } else {
                (s1, Inst::Unknown { opcode: 0x008F })
            }
        } else if op == 0x90 {
            if self.pfx.rex_b {
                if w32 {
                    (self, Inst::XchgEaxReg { reg: 8 })
                } else {
                    (self, Inst::XchgAxReg { reg: 8 })
                }
            } else {
                if rep == Rep::Repe {
                    (self, Inst::Pause)
                } else {
                    (self, Inst::Nop)
                }
            }
        } else if 0x91 <= op <= 0x97 {
            if w32 {
                (self, Inst::XchgEaxReg { reg: ((op - 0x90) as u8) | self.rb() })
            } else {
                (self, Inst::XchgAxReg { reg: ((op - 0x90) as u8) | self.rb() })
            }
        } else if op == 0x98 {
            if w32 {
                (self, Inst::Cwde)
            } else {
                (self, Inst::Cbw)
            }
        } else if op == 0x99 {
            if w32 {
                (self, Inst::Cdq)
            } else {
                (self, Inst::Cwd)
            }
        } else if op == 0x9A {
            if w32 {
                let (s1, off) = self.fetch32();
                let (s2, seg) = s1.fetch16();
                (s2, Inst::CallFar32 { off, seg })
            } else {
                let (s1, off) = self.fetch16();
                let (s2, seg) = s1.fetch16();
                (s2, Inst::CallFar { off, seg })
            }
        } else if op == 0x9B {
            (self, Inst::Nop)
        } else if op == 0x9C {
            (self, Inst::Pushf)
        } else if op == 0x9D {
            (self, Inst::Popf)
        } else {
            (self, Inst::Unknown { opcode: op as u16 })
        }
    }

    /// Opcodes 0xA0-0xCF: moffs, strings, immediate MOV, returns and interrupts.
    #[verifier::opaque]
    pub open spec fn decode_ax(self, op: u8, rep: Rep, w32: bool) -> (State, Inst) {
        if op == 0xA0 {
            if self.pfx.addr64 {
                let (s1, addr) = self.fetch64();
                (s1, Inst::MovAccMem8Addr64 { addr })
            } else if self.pfx.addrsize {
                let (s1, addr) = self.fetch32();
                (s1, Inst::MovAccMem8Addr32 { addr })
            } else {
                let (s1, addr) = self.fetch16();
                (s1, Inst::MovAccMem8 { addr })
            }
        } else if op == 0xA1 {
            if self.pfx.addr64 {
                let (s1, addr) = self.fetch64();
                (s1, Inst::MovAccMem32 { addr })
            } else {
                if self.pfx.addrsize {
                    let (s1, addr) = self.fetch32();
                    if w32 {
                        (s1, Inst::MovAccMem32 { addr: addr as u64 })
                    } else {
                        (s1, Inst::MovAccMem16Addr32 { addr })
                    }
                } else {
                    let (s1, addr) = self.fetch16();
                    if w32 {
                        (s1, Inst::MovAccMem32 { addr: addr as u64 })
                    } else {
                        (s1, Inst::MovAccMem16 { addr })
                    }
                }
            }
        } else if op == 0xA2 {
            if self.pfx.addr64 {
                let (s1, addr) = self.fetch64();
                (s1, Inst::MovMem8AccAddr64 { addr })
            } else if self.pfx.addrsize {
                let (s1, addr) = self.fetch32();
                (s1, Inst::MovMem8AccAddr32 { addr })
            } else {
                let (s1, addr) = self.fetch16();
                (s1, Inst::MovMem8Acc { addr })
            }
        } else if op == 0xA3 {
            if self.pfx.addr64 {
                let (s1, addr) = self.fetch64();
                (s1, Inst::MovMem32Acc { addr })
            } else {
                if self.pfx.addrsize {
                    let (s1, addr) = self.fetch32();
                    if w32 {
                        (s1, Inst::MovMem32Acc { addr: addr as u64 })
                    } else {
                        (s1, Inst::MovMem16AccAddr32 { addr })
                    }
                } else {
                    let (s1, addr) = self.fetch16();
                    if w32 {
                        (s1, Inst::MovMem32Acc { addr: addr as u64 })
                    } else {
                        (s1, Inst::MovMem16Acc { addr })
                    }
                }
            }
        } else if op == 0xA4 {
            (self, Inst::Movs { rep, w: false })
        } else if op == 0xA5 {
            (self, Inst::Movs { rep, w: true })
        } else if op == 0xA6 {
            (self, Inst::Cmps { rep, w: false })
        } else if op == 0xA7 {
            (self, Inst::Cmps { rep, w: true })
        } else if op == 0xAA {
            (self, Inst::Stos { rep, w: false })
        } else if op == 0xAB {
            (self, Inst::Stos { rep, w: true })
        } else if op == 0xAC {
            (self, Inst::Lods { rep, w: false })
        } else if op == 0xAD {
            (self, Inst::Lods { rep, w: true })
        } else if op == 0xAE {
            (self, Inst::Scas { rep, w: false })
        } else if op == 0xAF {
            (self, Inst::Scas { rep, w: true })
        } else if op == 0xA8 {
            let (s1, imm) = self.fetch8();
            (s1, Inst::TestAccImm8 { imm })
        } else if op == 0xA9 {
            if w32 {
                let (s1, imm) = self.fetch32();
                (s1, Inst::TestAccImm32 { imm })
            } else {
                let (s1, imm) = self.fetch16();
                (s1, Inst::TestAccImm16 { imm })
            }
        } else if 0xB0 <= op <= 0xB7 {
            let (s1, imm) = self.fetch8();
            (s1, Inst::MovReg8Imm { dst: ((op - 0xB0) as u8) | s1.rb(), imm })
        } else if 0xB8 <= op <= 0xBF {
            if self.pfx.rex_w {
                let (s1, imm) = self.fetch64();
                (s1, Inst::MovReg64Imm { dst: ((op - 0xB8) as u8) | s1.rb(), imm })
            } else {
                if w32 {
                    let (s1, imm) = self.fetch32();
                    (s1, Inst::MovReg32Imm { dst: ((op - 0xB8) as u8) | s1.rb(), imm })
                } else {
                    let (s1, imm) = self.fetch16();
                    (s1, Inst::MovReg16Imm { dst: ((op - 0xB8) as u8) | s1.rb(), imm })
                }
            }
        } else if op == 0xC0 {
            let (s1, m) = self.fetch_modrm();
            let (s2, imm) = s1.fetch8();
            (s2, Inst::ShiftImm { op: ShiftOp::of(m.reg), m, width: 8, imm })
        } else if op == 0xC1 {
            let (s1, m) = self.fetch_modrm();
            let (s2, imm) = s1.fetch8();
            (s2, Inst::ShiftImm { op: ShiftOp::of(m.reg), m, width: s2.osize(), imm })
        } else if op == 0xC2 {
            let (s1, imm) = self.fetch16();
            (s1, Inst::RetImm { imm, w32 })
        } else if op == 0xC3 {
            if w32 {
                (self, Inst::Ret32)
            } else {
                (self, Inst::Ret)
            }
        } else if op == 0xC4 {
            let (s1, m) = self.fetch_modrm();
            (s1, Inst::Les { m })
        } else if op == 0xC5 {
            let (s1, m) = self.fetch_modrm();
            (s1, Inst::Lds { m })
        } else if op == 0xC6 {
            let (s1, m) = self.fetch_modrm();
            let (s2, imm) = s1.fetch8();
            (s2, Inst::MovRm8Imm { m, imm })
        } else if op == 0xC7 {
            let (s1, m) = self.fetch_modrm();
            if w32 {
                let (s2, imm) = s1.fetch32();
                (s2, Inst::MovRm32Imm { m, imm })
            } else {
                let (s2, imm) = s1.fetch16();
                (s2, Inst::MovRm16Imm { m, imm })
            }
        } else if op == 0xC9 {
            (self, Inst::Leave { w32 })
        } else if op == 0xCB {
            if w32 {
                (self, Inst::Retf32)
            } else {
                (self, Inst::Retf)
            }
        } else if op == 0xCC {
            (self, Inst::Int3)
        } else if op == 0xCD {
            let (s1, vector) = self.fetch8();
            (s1, Inst::Int { vector })
        } else if op == 0xCE {
            (self, Inst::Into)
        } else if op == 0xCF {
            if w32 {
                (self, Inst::Iret32)
            } else {
                (self, Inst::Iret)
            }
        } else {
            (self, Inst::Unknown { opcode: op as u16 })
        }
    }

    /// Opcodes 0xD0-0xDF: shifts and the x87 escapes.
    #[verifier::opaque]
    pub open spec fn decode_dx(self, op: u8, rep: Rep, w32: bool) -> (State, Inst) {
        if op == 0xD0 {
            let (s1, m) = self.fetch_modrm();
            (s1, Inst::Shift { op: ShiftOp::of(m.reg), m, width: 8, count: ShiftCount::One })
        } else if op == 0xD1 {
            let (s1, m) = self.fetch_modrm();
            (s1, Inst::Shift { op: ShiftOp::of(m.reg), m, width: s1.osize(), count: ShiftCount::One })
        } else if op == 0xD2 {
            let (s1, m) = self.fetch_modrm();
            (s1, Inst::Shift { op: ShiftOp::of(m.reg), m, width: 8, count: ShiftCount::Cl })
        } else if op == 0xD3 {
            let (s1, m) = self.fetch_modrm();
            (s1, Inst::Shift { op: ShiftOp::of(m.reg), m, width: s1.osize(), count: ShiftCount::Cl })
        } else if op == 0xD8 {
            let (s1, m) = self.fetch_modrm();
            if m.reg & 7 == 1 {
                (s1, Inst::Fop { op: FpuOp::Mul, m })
            } else if m.reg & 7 == 4 {
                (s1, Inst::Fop { op: FpuOp::Sub, m })
            } else if m.reg & 7 == 6 {
                (s1, Inst::Fop { op: FpuOp::Div, m })
            } else {
                (s1, Inst::Fop { op: FpuOp::Add, m })
            }
        } else if op == 0xD9 {
            let (s1, m) = self.fetch_modrm();
            if m.reg & 7 == 0 {
                (s1, Inst::Fld { m, w64: false })
            } else if m.reg & 7 == 2 {
                (s1, Inst::Fst { m, w64: false })
            } else if m.reg & 7 == 3 {
                (s1, Inst::Fstp { m, w64: false })
            } else if m.reg & 7 == 5 {
                (s1, Inst::Fldcw { m })
            } else if m.reg & 7 == 7 {
                if m.mod_field == 3 && m.rm == 4 {
                    (s1, Inst::FstswAx)
                } else {
                    (s1, Inst::Fstcw { m })
                }
            } else {
                (s1, Inst::Fstcw { m })
            }
        } else if op == 0xDA {
            let (s1, m) = self.fetch_modrm();
            if m.reg & 7 == 1 {
                (s1, Inst::Fop { op: FpuOp::Mul, m })
            } else if m.reg & 7 == 4 {
                (s1, Inst::Fop { op: FpuOp::Sub, m })
            } else if m.reg & 7 == 6 {
                (s1, Inst::Fop { op: FpuOp::Div, m })
            } else {
                (s1, Inst::Fop { op: FpuOp::Add, m })
            }
        } else if op == 0xDB {
            let (s1, m) = self.fetch_modrm();
            if m.reg & 7 == 3 {
                (s1, Inst::Fistp { m })
            } else if m.reg & 7 == 4 {
                if m.mod_field == 3 && m.rm == 3 {
                    (s1, Inst::Fninit)
                } else {
                    (s1, Inst::Fstcw { m })
                }
            } else if m.reg & 7 == 7 {
                if m.mod_field == 3 && m.rm == 0 {
                    (s1, Inst::FstswAx)
                } else {
                    (s1, Inst::Fstcw { m })
                }
            } else {
                (s1, Inst::Fild { m })
            }
        } else if op == 0xDC {
            let (s1, m) = self.fetch_modrm();
            if m.reg & 7 == 1 {
                (s1, Inst::Fop { op: FpuOp::Mul, m })
            } else if m.reg & 7 == 4 {
                (s1, Inst::Fop { op: FpuOp::Sub, m })
            } else if m.reg & 7 == 6 {
                (s1, Inst::Fop { op: FpuOp::Div, m })
            } else {
                (s1, Inst::Fop { op: FpuOp::Add, m })
            }
        } else if op == 0xDD {
            let (s1, m) = self.fetch_modrm();
            if m.reg & 7 == 0 {
                (s1, Inst::Fld { m, w64: true })
            } else if m.reg & 7 == 3 {
                (s1, Inst::Fstp { m, w64: true })
            } else if m.reg & 7 == 7 {
                (s1, Inst::Fstsw { m })
            } else {
                (s1, Inst::Fst { m, w64: true })
            }
        } else if op == 0xDE {
            let (s1, m) = self.fetch_modrm();
            if m.reg & 7 == 1 {
                (s1, Inst::Fop { op: FpuOp::Mul, m })
            } else if m.reg & 7 == 4 {
                (s1, Inst::Fop { op: FpuOp::Sub, m })
            } else if m.reg & 7 == 6 {
                (s1, Inst::Fop { op: FpuOp::Div, m })
            } else {
                (s1, Inst::Fop { op: FpuOp::Add, m })
            }
        } else if op == 0xDF {
            let (s1, m) = self.fetch_modrm();
            if m.reg & 7 == 3 {
                (s1, Inst::Fistp16 { m })
            } else if m.reg & 7 == 4 {
                if m.mod_field == 3 && m.rm == 0 {
                    (s1, Inst::FstswAx)
                } else {
                    (s1, Inst::Fstsw { m })
                }
            } else {
                (s1, Inst::Fild16 { m })
            }
        } else {
            (self, Inst::Unknown { opcode: op as u16 })
        }
    }

    /// Opcodes 0xE0-0xFF: loops, I/O, jumps, flag control and groups 3 to 5.
    #[verifier::opaque]
    pub open spec fn decode_ex(self, op: u8, rep: Rep, w32: bool) -> (State, Inst) {
        if op == 0xE0 {
            let (s1, rel) = self.fetch8();
            (s1, Inst::Loop { cond: LoopCond::Loop, rel: rel as i8 })
        } else if op == 0xE1 {
            let (s1, rel) = self.fetch8();
            (s1, Inst::Loop { cond: LoopCond::Loopz, rel: rel as i8 })
        } else if op == 0xE2 {
            let (s1, rel) = self.fetch8();
            (s1, Inst::Loop { cond: LoopCond::Loopnz, rel: rel as i8 })
        } else if op == 0xE3 {
            let (s1, rel) = self.fetch8();
            (s1, Inst::Loop { cond: LoopCond::Jcxz, rel: rel as i8 })
        } else if op == 0xE4 {
            let (s1, port) = self.fetch8();
            (s1, Inst::InAlImm { port })
        } else if op == 0xE5 {
            let (s1, port) = self.fetch8();
            (s1, Inst::InAxImm { port })
        } else if op == 0xE6 {
            let (s1, port) = self.fetch8();
            (s1, Inst::OutImmAl { port })
        } else if op == 0xE7 {
            let (s1, port) = self.fetch8();
            (s1, Inst::OutImmAx { port })
        } else if op == 0xE8 {
            if w32 {
                let (s1, rel) = self.fetch32();
                (s1, Inst::CallRel32 { rel: rel as i32 })
            } else {
                let (s1, rel) = self.fetch16();
                (s1, Inst::CallRel16 { rel: rel as i16 })
            }
        } else if op == 0xE9 {
            if w32 {
                let (s1, rel) = self.fetch32();
                (s1, Inst::JmpRel32 { rel: rel as i32 })
            } else {
                let (s1, rel) = self.fetch16();
                (s1, Inst::JmpRel16 { rel: rel as i16 })
            }
        } else if op == 0xEA {
            if w32 {
                let (s1, off) = self.fetch32();
                let (s2, seg) = s1.fetch16();
                (s2, Inst::JmpFar32 { off, seg })
            } else {
                let (s1, off) = self.fetch16();
                let (s2, seg) = s1.fetch16();
                (s2, Inst::JmpFar { off, seg })
            }
        } else if op == 0xEB {
            let (s1, rel) = self.fetch8();
            (s1, Inst::JmpRel8 { rel: rel as i8 })
        } else if op == 0xEC {
            (self, Inst::InAlDx)
        } else if op == 0xED {
            (self, Inst::InAxDx)
        } else if op == 0xEE {
            (self, Inst::OutDxAl)
        } else if op == 0xEF {
            (self, Inst::OutDxAx)
        } else if op == 0xF4 {
            (self, Inst::Hlt)
        } else if op == 0xF5 {
            (self, Inst::Cmc)
        } else if op == 0xF6 {
            let (s1, m) = self.fetch_modrm();
            if m.reg & 7 == 0 {
                let (s2, imm) = s1.fetch8();
                (s2, Inst::TestRm8Imm { m, imm })
            } else if m.reg & 7 == 2 {
                (s1, Inst::NotRm8 { m })
            } else if m.reg & 7 == 3 {
                (s1, Inst::NegRm8 { m })
            } else if m.reg & 7 == 4 {
                (s1, Inst::MulRm8 { m })
            } else if m.reg & 7 == 5 {
                (s1, Inst::ImulRm8 { m })
            } else if m.reg & 7 == 6 {
                (s1, Inst::DivRm8 { m })
            } else {
                (s1, Inst::IdivRm8 { m })
            }
        } else if op == 0xF7 {
            let (s1, m) = self.fetch_modrm();
            if m.reg & 7 == 0 {
                if w32 {
                    let (s2, imm) = s1.fetch32();
                    (s2, Inst::TestRm32Imm { m, imm })
                } else {
                    let (s2, imm) = s1.fetch16();
                    (s2, Inst::TestRm16Imm { m, imm })
                }
            } else if m.reg & 7 == 2 {
                if w32 {
                    (s1, Inst::NotRm32 { m })
                } else {
                    (s1, Inst::NotRm16 { m })
                }
            } else if m.reg & 7 == 3 {
                if w32 {
                    (s1, Inst::NegRm32 { m })
                } else {
                    (s1, Inst::NegRm16 { m })
                }
            } else if m.reg & 7 == 4 {
                if w32 {
                    (s1, Inst::MulRm32 { m })
                } else {
                    (s1, Inst::MulRm16 { m })
                }
            } else if m.reg & 7 == 5 {
                if w32 {
                    (s1, Inst::ImulRm32 { m })
                } else {
                    (s1, Inst::ImulRm16 { m })
                }
            } else if m.reg & 7 == 6 {
                if w32 {
                    (s1, Inst::DivRm32 { m })
                } else {
                    (s1, Inst::DivRm16 { m })
                }
            } else {
                if w32 {
                    (s1, Inst::IdivRm32 { m })
                } else {
                    (s1, Inst::IdivRm16 { m })
                }
            }
        } else if op == 0xF8 {
            (self, Inst::Clc)
        } else if op == 0xF9 {
            (self, Inst::Stc)
        } else if op == 0xFA {
            (self, Inst::Cli)
        } else if op == 0xFB {
            (self, Inst::Sti)
        } else if op == 0xFC {
            (self, Inst::Cld)
        } else if op == 0xFD {
            (self, Inst::Std)
        } else if op == 0xFE {
            let (s1, m) = self.fetch_modrm();
            if m.reg & 7 == 0 {
                (s1, Inst::IncRm8 { m })
            } else if m.reg & 7 == 1 {
                (s1, Inst::DecRm8 { m })
            } else {
                (s1, Inst::Unknown { opcode: 0x00FE })
            }
        } else if op == 0xFF {
            let (s1, m) = self.fetch_modrm();
            if m.reg & 7 == 0 {
                if w32 {
                    (s1, Inst::IncRm32 { m })
                } else {
                    (s1, Inst::IncRm16 { m })
                }
            } else if m.reg & 7 == 1 {
                if w32 {
                    (s1, Inst::DecRm32 { m })
                } else {
                    (s1, Inst::DecRm16 { m })
                }
            } else if m.reg & 7 == 2 {
                if w32 {
                    (s1, Inst::CallRm32 { m })
                } else {
                    (s1, Inst::CallRm16 { m })
                }
            } else if m.reg & 7 == 4 {
                if w32 {
                    (s1, Inst::JmpRm32 { m })
                } else {
                    (s1, Inst::JmpRm16 { m })
                }
            } else if m.reg & 7 == 6 {
                if w32 {
                    (s1, Inst::PushRm32 { m })
                } else {
                    (s1, Inst::PushRm16 { m })
                }
            } else {
                (s1, Inst::Unknown { opcode: 0x00FF })
            }
        } else {
            (self, Inst::Unknown { opcode: op as u16 })
        }
    }

    /// Two-byte opcodes 0F 00-9F: system instructions and conditions.
    #[verifier::opaque]
    pub open spec fn decode_0f_low(self, op: u8, rep: Rep, w32: bool) -> (State, Inst) {
        if op == 0x00 {
            let (s1, m) = self.fetch_modrm();
            if m.reg & 7 == 0 {
                (s1, Inst::Sldt { m })
            } else if m.reg & 7 == 1 {
                (s1, Inst::Str { m })
            } else if m.reg & 7 == 2 {
                (s1, Inst::Lldt { m })
            } else if m.reg & 7 == 3 {
                (s1, Inst::Ltr { m })
            } else {
                (s1, Inst::Nop)
            }
        } else if op == 0x01 {
            let (s1, m) = self.fetch_modrm();
            if m.mod_field == 3 {
                if m.reg & 7 == 1 {
                    if m.rm_raw == 0 {
                        (s1, Inst::Monitor)
                    } else if m.rm_raw == 1 {
                        (s1, Inst::Mwait)
                    } else if m.rm_raw == 2 {
                        (s1, Inst::Clac)
                    } else if m.rm_raw == 3 {
                        (s1, Inst::Stac)
                    } else {
                        (s1, Inst::Unknown { opcode: 0x0F01 })
                    }
                } else if m.reg & 7 == 2 {
                    if m.rm_raw == 0 {
                        (s1, Inst::Xgetbv)
                    } else if m.rm_raw == 1 {
                        (s1, Inst::Xsetbv)
                    } else {
                        (s1, Inst::Unknown { opcode: 0x0F01 })
                    }
                } else if m.reg & 7 == 4 {
                    (s1, Inst::Smsw { m })
                } else if m.reg & 7 == 6 {
                    (s1, Inst::Lmsw { m })
                } else if m.reg & 7 == 7 {
                    if m.rm_raw == 0 {
                        (s1, Inst::Swapgs)
                    } else if m.rm_raw == 1 {
                        (s1, Inst::Rdtscp)
                    } else {
                        (s1, Inst::Unknown { opcode: 0x0F01 })
                    }
                } else {
                    (s1, Inst::Unknown { opcode: 0x0F01 })
                }
            } else {
                if m.reg & 7 == 0 {
                    (s1, Inst::Sgdt { m })
                } else if m.reg & 7 == 1 {
                    (s1, Inst::Sidt { m })
                } else if m.reg & 7 == 2 {
                    (s1, Inst::Lgdt { m })
                } else if m.reg & 7 == 3 {
                    (s1, Inst::Lidt { m })
                } else if m.reg & 7 == 4 {
                    (s1, Inst::Smsw { m })
                } else if m.reg & 7 == 6 {
                    (s1, Inst::Lmsw { m })
                } else if m.reg & 7 == 7 {
                    (s1, Inst::Invlpg { m })
                } else {
                    (s1, Inst::Unknown { opcode: 0x0F01 })
                }
            }
        } else if op == 0x05 {
            (self, Inst::Syscall)
        } else if op == 0x06 {
            (self, Inst::Clts)
        } else if op == 0x07 {
            (self, Inst::Sysret)
        } else if op == 0x08 {
            (self, Inst::Invd)
        } else if op == 0x09 {
            (self, Inst::Wbinvd)
        } else if op == 0x0B {
            (self, Inst::Unknown { opcode: 0x0F0B })
        } else if op == 0x0D {
            let (s1, m) = self.fetch_modrm();
            (s1, Inst::NopHint)
        } else if op == 0x18 {
            let (s1, m) = self.fetch_modrm();
            (s1, Inst::NopHint)
        } else if 0x19 <= op <= 0x1E {
            let (s1, m) = self.fetch_modrm();
            (s1, Inst::Nop)
        } else if op == 0x1F {
            let (s1, m) = self.fetch_modrm();
            (s1, Inst::NopHint)
        } else if op == 0x20 {
            let (s1, m) = self.fetch_modrm();
            (s1, Inst::MovCr { cr: m.reg, reg: m.rm_raw | s1.rb() })
        } else if op == 0x21 {
            let (s1, m) = self.fetch_modrm();
            (s1, Inst::MovDr { dr: m.reg & 7, reg: m.rm_raw | s1.rb() })
        } else if op == 0x22 {
            let (s1, m) = self.fetch_modrm();
            (s1, Inst::MovToCr { cr: m.reg, reg: m.rm_raw | s1.rb() })
        } else if op == 0x23 {
            let (s1, m) = self.fetch_modrm();
            (s1, Inst::MovToDr { dr: m.reg & 7, reg: m.rm_raw | s1.rb() })
        } else if op == 0x30 {
            (self, Inst::Wrmsr)
        } else if op == 0x31 {
            (self, Inst::Rdtsc)
        } else if op == 0x32 {
            (self, Inst::Rdmsr)
        } else if op == 0x38 {
            let (s1, op3) = self.fetch8();
            let (s2, m) = s1.fetch_modrm();
            (s2, Inst::Unknown { opcode: 0x0F38 })
        } else if 0x40 <= op <= 0x4F {
            let (s1, m) = self.fetch_modrm();
            (s1, Inst::Cmovcc { cond: Cond::of(op & 0xF), m, dst: m.reg, w32 })
        } else if 0x80 <= op <= 0x8F {
            let (s1, rel) = self.fetch32();
            (s1, Inst::Jcc32 { cond: Cond::of((op - 0x80) as u8), rel: rel as i32 })
        } else if 0x90 <= op <= 0x9F {
            let (s1, m) = self.fetch_modrm();
            (s1, Inst::Setcc { cond: Cond::of(op & 0xF), m })
        } else {
            (self, Inst::Unknown { opcode: 0x0F00u16 | (op as u16) })
        }
    }

    /// Two-byte opcodes 0F A0-FF: bit operations, extension and exchange.
    #[verifier::opaque]
    pub open spec fn decode_0f_high(self, op: u8, rep: Rep, w32: bool) -> (State, Inst) {
        if op == 0xA0 {
            (self, Inst::PushSeg { seg: SegReg::Fs })
        } else if op == 0xA1 {
            (self, Inst::PopSeg { seg: SegReg::Fs })
        } else if op == 0xA2 {
            (self, Inst::Cpuid)
        } else if op == 0xA3 {
            let (s1, m) = self.fetch_modrm();
            (s1, Inst::Bt { m, bit: BitOffset::Reg(m.reg) })
        } else if op == 0xA4 {
            let (s1, m) = self.fetch_modrm();
            let (s2, imm) = s1.fetch8();
            (s2, Inst::Shld { m, reg: m.reg, count: ShiftCount::Imm(imm), w32 })
        } else if op == 0xA5 {
            let (s1, m) = self.fetch_modrm();
            (s1, Inst::Shld { m, reg: m.reg, count: ShiftCount::Cl, w32 })
        } else if op == 0xA8 {
            (self, Inst::PushSeg { seg: SegReg::Gs })
        } else if op == 0xA9 {
            (self, Inst::PopSeg { seg: SegReg::Gs })
        } else if op == 0xAB {
            let (s1, m) = self.fetch_modrm();
            (s1, Inst::Bts { m, bit: BitOffset::Reg(m.reg) })
        } else if op == 0xAC {
            let (s1, m) = self.fetch_modrm();
            let (s2, imm) = s1.fetch8();
            (s2, Inst::Shrd { m, reg: m.reg, count: ShiftCount::Imm(imm), w32 })
        } else if op == 0xAD {
            let (s1, m) = self.fetch_modrm();
            (s1, Inst::Shrd { m, reg: m.reg, count: ShiftCount::Cl, w32 })
        } else if op == 0xAE {
            let (s1, m) = self.fetch_modrm();
            if m.mod_field == 3 || m.reg & 7 == 7 {
                (s1, Inst::NopHint)
            } else {
                if m.reg & 7 == 0 {
                    (s1, Inst::Fxsave { m })
                } else if m.reg & 7 == 1 {
                    (s1, Inst::Fxrstor { m })
                } else {
                    (s1, Inst::Unknown { opcode: 0x0FAE })
                }
            }
        } else if op == 0xAF {
            let (s1, m) = self.fetch_modrm();
            if w32 {
                (s1, Inst::ImulRegRm32 { m, dst: m.reg })
            } else {
                (s1, Inst::ImulRegRm16 { m, dst: m.reg })
            }
        } else if op == 0xB0 {
            let (s1, m) = self.fetch_modrm();
            (s1, Inst::Cmpxchg { m, reg: m.reg, width: 8 })
        } else if op == 0xB1 {
            let (s1, m) = self.fetch_modrm();
            (s1, Inst::Cmpxchg { m, reg: m.reg, width: s1.osize() })
        } else if op == 0xB2 {
            let (s1, m) = self.fetch_modrm();
            (s1, Inst::Lss { m })
        } else if op == 0xB3 {
            let (s1, m) = self.fetch_modrm();
            (s1, Inst::Btr { m, bit: BitOffset::Reg(m.reg) })
        } else if op == 0xB4 {
            let (s1, m) = self.fetch_modrm();
            (s1, Inst::Lfs { m })
        } else if op == 0xB5 {
            let (s1, m) = self.fetch_modrm();
            (s1, Inst::Lgs { m })
        } else if op == 0xB6 {
            let (s1, m) = self.fetch_modrm();
            (s1, Inst::Movzx8 { m, dst: m.reg })
        } else if op == 0xB7 {
            let (s1, m) = self.fetch_modrm();
            (s1, Inst::Movzx16 { m, dst: m.reg })
        } else if op == 0xBA {
            let (s1, m) = self.fetch_modrm();
            let (s2, imm) = s1.fetch8();
            if m.reg & 7 == 4 {
                (s2, Inst::Bt { m, bit: BitOffset::Imm(imm) })
            } else if m.reg & 7 == 5 {
                (s2, Inst::Bts { m, bit: BitOffset::Imm(imm) })
            } else if m.reg & 7 == 6 {
                (s2, Inst::Btr { m, bit: BitOffset::Imm(imm) })
            } else {
                (s2, Inst::Btc { m, bit: BitOffset::Imm(imm) })
            }
        } else if op == 0xBB {
            let (s1, m) = self.fetch_modrm();
            (s1, Inst::Btc { m, bit: BitOffset::Reg(m.reg) })
        } else if op == 0xBC {
            let (s1, m) = self.fetch_modrm();
            (s1, Inst::Bsf { m, dst: m.reg, w32 })
        } else if op == 0xBD {
            let (s1, m) = self.fetch_modrm();
            (s1, Inst::Bsr { m, dst: m.reg, w32 })
        } else if op == 0xBE {
            let (s1, m) = self.fetch_modrm();
            (s1, Inst::Movsx8 { m, dst: m.reg })
        } else if op == 0xBF {
            let (s1, m) = self.fetch_modrm();
            (s1, Inst::Movsx16 { m, dst: m.reg })
        } else if op == 0xC0 {
            let (s1, m) = self.fetch_modrm();
            (s1, Inst::Xadd { m, reg: m.reg, width: 8 })
        } else if op == 0xC1 {
            let (s1, m) = self.fetch_modrm();
            (s1, Inst::Xadd { m, reg: m.reg, width: s1.osize() })
        } else if op == 0xC7 {
            let (s1, m) = self.fetch_modrm();
            if m.reg & 7 == 1 {
                (s1, Inst::Cmpxchg8b { m })
            } else {
                (s1, Inst::Unknown { opcode: 0x0FC7 })
            }
        } else if 0xC8 <= op <= 0xCF {
            (self, Inst::Bswap { reg: ((op - 0xC8) as u8) | self.rb() })
        } else {
            (self, Inst::Unknown { opcode: 0x0F00u16 | (op as u16) })
        }
    }

    /// The instruction an opcode begins, with everything that follows the
    /// opcode consumed.
    #[verifier::opaque]
    pub open spec fn decode_op(self, op: u8, rep: Rep) -> (State, Inst) {
        let w32 = self.pfx.opsize;
        if op == 0x0F {
            let (s, op2) = self.fetch8();
            if op2 < 0xA0 {
                s.decode_0f_low(op2, rep, w32)
            } else {
                s.decode_0f_high(op2, rep, w32)
            }
        } else if op < 0x40 && op % 8 < 6 {
            self.decode_alu(op, w32)
        } else if op < 0x40 {
            self.decode_seg(op, rep, w32)
        } else if op < 0x80 {
            self.decode_4x(op, rep, w32)
        } else if op < 0xA0 {
            self.decode_8x(op, rep, w32)
        } else if op < 0xD0 {
            self.decode_ax(op, rep, w32)
        } else if op < 0xE0 {
            self.decode_dx(op, rep, w32)
        } else {
            self.decode_ex(op, rep, w32)
        }
    }

    /// The next instruction.
    #[verifier::opaque]
    pub open spec fn decode(self) -> (State, Inst) {
        let (s, rep) = self.prefixes();
        let (t, op) = s.fetch8();
        t.decode_op(op, rep)
    }
}

/// The segment register a `reg` field names.
pub fn seg_from_index(i: u8) -> (s: SegReg)
    ensures
        s == seg_of(i),
{
    match i & 7 {
        0 => SegReg::Es,
        1 => SegReg::Cs,
        2 => SegReg::Ss,
        3 => SegReg::Ds,
        4 => SegReg::Fs,
        _ => SegReg::Gs,
    }
}

fn legacy_prefix(b: u8) -> (r: bool)
    ensures
        r == is_legacy_prefix(b),
{
    proof {
        reveal(is_legacy_prefix);
    }
    match b {
        0xF0 | 0xF3 | 0xF2 | 0x66 | 0x67 | 0x2E | 0x36 | 0x3E | 0x26 | 0x64 | 0x65 => true,
        _ => false,
    }
}

fn override_with(p: Prefixes, seg: SegReg, ignored: bool) -> (q: Prefixes)
    ensures
        q == overridden(p, seg, ignored),
{
    if ignored {
        p
    } else {
        Prefixes { seg_override: Some(seg), ..p }
    }
}

/// Take one more prefix into account.
fn apply_prefix(p: Prefixes, b: u8, long64: bool) -> (r: Prefixes)
    ensures
        r == prefix_applied(p, b, long64),
{
    proof {
        reveal(prefix_applied);
    }
    // REX (0x40-0x4F) exists only in 64-bit mode, where it displaces the
    // one-byte INC/DEC forms entirely, and it must be the **last** prefix
    // before the opcode: a legacy prefix after one cancels it.
    if long64 && 0x40 <= b && b <= 0x4F {
        return Prefixes {
            rex_present: true,
            rex_w: b & 8 != 0,
            rex_r: b & 4 != 0,
            rex_x: b & 2 != 0,
            rex_b: b & 1 != 0,
            ..p
        };
    }
    let q = Prefixes {
        rex_present: false,
        rex_w: false,
        rex_r: false,
        rex_x: false,
        rex_b: false,
        ..p
    };
    match b {
        0x66 => Prefixes { opsize: !long64 && !q.opsize, ..q },
        0x67 => if long64 {
            Prefixes { addr64: false, ..q }
        } else {
            Prefixes { addrsize: !q.addrsize, ..q }
        },
        // In 64-bit mode CS, DS, ES and SS overrides are ignored -- those
        // segments have no base to override. FS and GS keep theirs.
        0x2E => override_with(q, SegReg::Cs, long64),
        0x36 => override_with(q, SegReg::Ss, long64),
        0x3E => override_with(q, SegReg::Ds, long64),
        0x26 => override_with(q, SegReg::Es, long64),
        0x64 => override_with(q, SegReg::Fs, false),
        0x65 => override_with(q, SegReg::Gs, false),
        // LOCK: a uniprocessor with no concurrent bus master, so the prefix is
        // consumed and the instruction runs normally. REP and REPNE are kept
        // by the caller.
        _ => q,
    }
}

fn apply_rep(rep: Rep, b: u8) -> (r: Rep)
    ensures
        r == rep_applied(rep, b),
{
    proof {
        reveal(rep_applied);
    }
    match b {
        0xF3 => Rep::Repe,
        0xF2 => Rep::Repne,
        _ => rep,
    }
}

fn start_prefixes(long64: bool, d32: bool) -> (p: Prefixes)
    ensures
        p == initial_prefixes(long64, d32),
{
    proof {
        reveal(initial_prefixes);
    }
    Prefixes {
        opsize: long64 || d32,
        addrsize: long64 || d32,
        addr64: long64,
        rex_present: false,
        rex_w: false,
        rex_r: false,
        rex_x: false,
        rex_b: false,
        seg_override: None,
    }
}

/// REX.W wins over everything: it is the one prefix that can *widen* the
/// operand size, and a 0x66 seen earlier does not undo it.
fn settle(p: Prefixes) -> (q: Prefixes)
    ensures
        q == settled(p),
{
    proof {
        reveal(settled);
    }
    Prefixes { opsize: p.opsize || p.rex_w, ..p }
}

impl Cpu {
    /// REX.B as the high bit of an opcode-embedded register number.
    fn rb(&self) -> (r: u8)
        ensures
            r == self@.rb(),
    {
        if self.pfx.rex_b {
            8
        } else {
            0
        }
    }

    /// Consume the prefixes.
    ///
    /// The defaults come from the mode. In a legacy mode they come from the
    /// code segment: a D=1 code segment defaults to 32-bit operands and
    /// addressing, otherwise 16-bit, and 0x66/0x67 *toggle* the size. In
    /// 64-bit mode they do not come from the segment at all and are fixed at
    /// 32-bit operands and 64-bit addressing, with 0x66 selecting 16-bit
    /// operands, 0x67 selecting 32-bit addressing, and REX.W selecting 64-bit
    /// operands.
    fn take_prefixes(&mut self) -> (rep: Rep)
        ensures
            (final(self)@, rep) == old(self)@.prefixes(),
    {
        proof {
            reveal(State::prefixes);
        }
        let wide = self.long64();
        let d32 = self.pe && self.seg_desc[1].d_b;
        self.pfx = start_prefixes(wide, d32);
        let mut rep = Rep::No;
        let mut limit: u64 = u64::MAX;
        let mut more = true;
        let ghost all = self@.prefixed(Rep::No, u64::MAX);
        while more
            invariant
                more ==> all == self@.prefixed(rep, limit),
                !more ==> all == (self@, rep),
            decreases
                limit,
                if more {
                    1int
                } else {
                    0int
                },
        {
            let b: u8 = self.peek_u8();
            let long64 = self.long64();
            if limit == 0 || !((long64 && 0x40 <= b && b <= 0x4F) || legacy_prefix(b)) {
                more = false;
            } else {
                self.pfx = apply_prefix(self.pfx, b, long64);
                self.fetch_u8();
                rep = apply_rep(rep, b);
                limit = limit - 1;
            }
        }
        self.pfx = settle(self.pfx);
        rep
    }

    /// The two-operand ALU block.
    fn decode_alu(&mut self, op: u8, w32: bool) -> (inst: Inst)
        ensures
            (final(self)@, inst) == old(self)@.decode_alu(op, w32),
    {
        proof {
            reveal(State::decode_alu);
        }
        let f = AluOp::from_index(op / 8);
        let form: u8 = op % 8;
        if form < 4 {
            let m: ModRm = self.fetch_modrm();
            let dir = if form < 2 {
                Dir::RmReg
            } else {
                Dir::RegRm
            };
            if form % 2 == 0 {
                Inst::AluRm8Reg { op: f, m, reg: m.reg, dir }
            } else if w32 {
                Inst::AluRm32Reg { op: f, m, reg: m.reg, dir }
            } else {
                Inst::AluRm16Reg { op: f, m, reg: m.reg, dir }
            }
        } else if form == 4 {
            let imm: u8 = self.fetch_u8();
            Inst::AluAccImm8 { op: f, imm }
        } else if w32 {
            let imm: u32 = self.fetch_u32();
            Inst::AluAccImm32 { op: f, imm }
        } else {
            let imm: u16 = self.fetch_u16();
            Inst::AluAccImm16 { op: f, imm }
        }
    }

    /// One-byte PUSH and POP of segment registers.
    fn decode_seg(&mut self, op: u8, rep: Rep, w32: bool) -> (inst: Inst)
        ensures
            (final(self)@, inst) == old(self)@.decode_seg(op, rep, w32),
    {
        proof {
            reveal(State::decode_seg);
        }
        match op {
            0x06 => {
                Inst::PushSeg { seg: SegReg::Es }
            },
            0x07 => {
                Inst::PopSeg { seg: SegReg::Es }
            },
            0x0E => {
                Inst::PushSeg { seg: SegReg::Cs }
            },
            0x16 => {
                Inst::PushSeg { seg: SegReg::Ss }
            },
            0x17 => {
                Inst::PopSeg { seg: SegReg::Ss }
            },
            0x1E => {
                Inst::PushSeg { seg: SegReg::Ds }
            },
            0x1F => {
                Inst::PopSeg { seg: SegReg::Ds }
            },
            _ => Inst::Unknown { opcode: op as u16 },
        }
    }

    /// Opcodes 0x40-0x7F: INC, DEC, PUSH, POP and short conditional jumps.
    fn decode_4x(&mut self, op: u8, rep: Rep, w32: bool) -> (inst: Inst)
        ensures
            (final(self)@, inst) == old(self)@.decode_4x(op, rep, w32),
    {
        proof {
            reveal(State::decode_4x);
        }
        match op {
            0x40..=0x47 => {
                if w32 {
                    Inst::IncReg32 { dst: op - 0x40 }
                } else {
                    Inst::IncReg16 { dst: op - 0x40 }
                }
            },
            0x48..=0x4F => {
                if w32 {
                    Inst::DecReg32 { dst: op - 0x48 }
                } else {
                    Inst::DecReg16 { dst: op - 0x48 }
                }
            },
            0x50..=0x57 => {
                if w32 {
                    Inst::PushReg32 { src: (op - 0x50) | self.rb() }
                } else {
                    Inst::PushReg16 { src: (op - 0x50) | self.rb() }
                }
            },
            0x58..=0x5F => {
                if w32 {
                    Inst::PopReg32 { dst: (op - 0x58) | self.rb() }
                } else {
                    Inst::PopReg16 { dst: (op - 0x58) | self.rb() }
                }
            },
            0x60 => {
                Inst::Pusha { w32 }
            },
            0x61 => {
                Inst::Popa { w32 }
            },
            0x63 => {
                let m: ModRm = self.fetch_modrm();
                if self.long64() {
                    Inst::Movsxd { m, dst: m.reg }
                } else {
                    Inst::Nop
                }
            },
            0x68 => {
                if w32 {
                    let imm: u32 = self.fetch_u32();
                    Inst::PushImm32 { imm }
                } else {
                    let imm: u16 = self.fetch_u16();
                    Inst::PushImm16 { imm }
                }
            },
            0x69 => {
                let m: ModRm = self.fetch_modrm();
                if w32 {
                    let imm: u32 = self.fetch_u32();
                    Inst::ImulRegRmImm32 { m, dst: m.reg, imm: imm as i32 }
                } else {
                    let imm: u16 = self.fetch_u16();
                    Inst::ImulRegRmImm16 { m, dst: m.reg, imm: imm as i16 }
                }
            },
            0x6A => {
                let imm: u8 = self.fetch_u8();
                if w32 {
                    Inst::PushImm32 { imm: ((imm as i8) as i32) as u32 }
                } else {
                    Inst::PushImm16 { imm: ((imm as i8) as i16) as u16 }
                }
            },
            0x6B => {
                let m: ModRm = self.fetch_modrm();
                let imm: u8 = self.fetch_u8();
                if w32 {
                    Inst::ImulRegRmImm32 { m, dst: m.reg, imm: (imm as i8) as i32 }
                } else {
                    Inst::ImulRegRmImm16 { m, dst: m.reg, imm: (imm as i8) as i16 }
                }
            },
            0x70..=0x7F => {
                let rel: u8 = self.fetch_u8();
                Inst::Jcc { cond: Cond::from_jcc(op - 0x70), rel: rel as i8 }
            },
            _ => Inst::Unknown { opcode: op as u16 },
        }
    }

    /// Opcodes 0x80-0x9F: immediate ALU forms, MOV, XCHG and LEA.
    fn decode_8x(&mut self, op: u8, rep: Rep, w32: bool) -> (inst: Inst)
        ensures
            (final(self)@, inst) == old(self)@.decode_8x(op, rep, w32),
    {
        proof {
            reveal(State::decode_8x);
        }
        match op {
            0x80 => {
                let m: ModRm = self.fetch_modrm();
                let imm: u8 = self.fetch_u8();
                Inst::AluRm8Imm { op: AluOp::from_index(m.reg), m, imm: imm }
            },
            0x81 => {
                let m: ModRm = self.fetch_modrm();
                if w32 {
                    let imm: u32 = self.fetch_u32();
                    Inst::AluRm32Imm { op: AluOp::from_index(m.reg), m, imm: imm, imm_is8: false }
                } else {
                    let imm: u16 = self.fetch_u16();
                    Inst::AluRm16Imm { op: AluOp::from_index(m.reg), m, imm: imm, imm_is8: false }
                }
            },
            0x83 => {
                let m: ModRm = self.fetch_modrm();
                let imm: u8 = self.fetch_u8();
                if w32 {
                    Inst::AluRm32Imm { op: AluOp::from_index(m.reg), m, imm: ((imm as i8) as i32) as u32, imm_is8: true }
                } else {
                    Inst::AluRm16Imm { op: AluOp::from_index(m.reg), m, imm: ((imm as i8) as i16) as u16, imm_is8: true }
                }
            },
            0x84 => {
                let m: ModRm = self.fetch_modrm();
                Inst::TestRm8Reg { m, reg: m.reg }
            },
            0x85 => {
                let m: ModRm = self.fetch_modrm();
                if w32 {
                    Inst::TestRm32Reg { m, reg: m.reg }
                } else {
                    Inst::TestRm16Reg { m, reg: m.reg }
                }
            },
            0x86 => {
                let m: ModRm = self.fetch_modrm();
                Inst::XchgRmReg { m, reg: m.reg, width: 8 }
            },
            0x87 => {
                let m: ModRm = self.fetch_modrm();
                Inst::XchgRmReg { m, reg: m.reg, width: self.osize() }
            },
            0x88 => {
                let m: ModRm = self.fetch_modrm();
                Inst::MovRm8Reg { m, src: m.reg }
            },
            0x89 => {
                let m: ModRm = self.fetch_modrm();
                if w32 {
                    Inst::MovRm32Reg { m, src: m.reg }
                } else {
                    Inst::MovRm16Reg { m, src: m.reg }
                }
            },
            0x8A => {
                let m: ModRm = self.fetch_modrm();
                Inst::MovRegRm8 { m, dst: m.reg }
            },
            0x8B => {
                let m: ModRm = self.fetch_modrm();
                if w32 {
                    Inst::MovRegRm32 { m, dst: m.reg }
                } else {
                    Inst::MovRegRm16 { m, dst: m.reg }
                }
            },
            0x8C => {
                let m: ModRm = self.fetch_modrm();
                Inst::MovRmSeg { m, seg: seg_from_index(m.reg) }
            },
            0x8D => {
                let m: ModRm = self.fetch_modrm();
                Inst::Lea { m, dst: m.reg }
            },
            0x8E => {
                let m: ModRm = self.fetch_modrm();
                Inst::MovSegRm { seg: seg_from_index(m.reg), m }
            },
            0x8F => {
                let m: ModRm = self.fetch_modrm();
                if m.reg & 7 == 0 {
                    if w32 {
                        Inst::PopRm32 { m }
                    } else {
                        Inst::PopRm16 { m }
                    }
                } else {
                    Inst::Unknown { opcode: 0x008F }
                }
            },
            0x90 => {
                if self.pfx.rex_b {
                    if w32 {
                        Inst::XchgEaxReg { reg: 8 }
                    } else {
                        Inst::XchgAxReg { reg: 8 }
                    }
                } else {
                    if rep == Rep::Repe {
                        Inst::Pause
                    } else {
                        Inst::Nop
                    }
                }
            },
            0x91..=0x97 => {
                if w32 {
                    Inst::XchgEaxReg { reg: (op - 0x90) | self.rb() }
                } else {
                    Inst::XchgAxReg { reg: (op - 0x90) | self.rb() }
                }
            },
            0x98 => {
                if w32 {
                    Inst::Cwde
                } else {
                    Inst::Cbw
                }
            },
            0x99 => {
                if w32 {
                    Inst::Cdq
                } else {
                    Inst::Cwd
                }
            },
            0x9A => {
                if w32 {
                    let off: u32 = self.fetch_u32();
                    let seg: u16 = self.fetch_u16();
                    Inst::CallFar32 { off, seg }
                } else {
                    let off: u16 = self.fetch_u16();
                    let seg: u16 = self.fetch_u16();
                    Inst::CallFar { off, seg }
                }
            },
            0x9B => {
                Inst::Nop
            },
            0x9C => {
                Inst::Pushf
            },
            0x9D => {
                Inst::Popf
            },
            _ => Inst::Unknown { opcode: op as u16 },
        }
    }

    /// Opcodes 0xA0-0xCF: moffs, strings, immediate MOV, returns and interrupts.
    fn decode_ax(&mut self, op: u8, rep: Rep, w32: bool) -> (inst: Inst)
        ensures
            (final(self)@, inst) == old(self)@.decode_ax(op, rep, w32),
    {
        proof {
            reveal(State::decode_ax);
        }
        match op {
            0xA0 => {
                if self.pfx.addr64 {
                    let addr: u64 = self.fetch_u64();
                    Inst::MovAccMem8Addr64 { addr }
                } else if self.pfx.addrsize {
                    let addr: u32 = self.fetch_u32();
                    Inst::MovAccMem8Addr32 { addr }
                } else {
                    let addr: u16 = self.fetch_u16();
                    Inst::MovAccMem8 { addr }
                }
            },
            0xA1 => {
                if self.pfx.addr64 {
                    let addr: u64 = self.fetch_u64();
                    Inst::MovAccMem32 { addr }
                } else {
                    if self.pfx.addrsize {
                        let addr: u32 = self.fetch_u32();
                        if w32 {
                            Inst::MovAccMem32 { addr: addr as u64 }
                        } else {
                            Inst::MovAccMem16Addr32 { addr }
                        }
                    } else {
                        let addr: u16 = self.fetch_u16();
                        if w32 {
                            Inst::MovAccMem32 { addr: addr as u64 }
                        } else {
                            Inst::MovAccMem16 { addr }
                        }
                    }
                }
            },
            0xA2 => {
                if self.pfx.addr64 {
                    let addr: u64 = self.fetch_u64();
                    Inst::MovMem8AccAddr64 { addr }
                } else if self.pfx.addrsize {
                    let addr: u32 = self.fetch_u32();
                    Inst::MovMem8AccAddr32 { addr }
                } else {
                    let addr: u16 = self.fetch_u16();
                    Inst::MovMem8Acc { addr }
                }
            },
            0xA3 => {
                if self.pfx.addr64 {
                    let addr: u64 = self.fetch_u64();
                    Inst::MovMem32Acc { addr }
                } else {
                    if self.pfx.addrsize {
                        let addr: u32 = self.fetch_u32();
                        if w32 {
                            Inst::MovMem32Acc { addr: addr as u64 }
                        } else {
                            Inst::MovMem16AccAddr32 { addr }
                        }
                    } else {
                        let addr: u16 = self.fetch_u16();
                        if w32 {
                            Inst::MovMem32Acc { addr: addr as u64 }
                        } else {
                            Inst::MovMem16Acc { addr }
                        }
                    }
                }
            },
            0xA4 => {
                Inst::Movs { rep, w: false }
            },
            0xA5 => {
                Inst::Movs { rep, w: true }
            },
            0xA6 => {
                Inst::Cmps { rep, w: false }
            },
            0xA7 => {
                Inst::Cmps { rep, w: true }
            },
            0xAA => {
                Inst::Stos { rep, w: false }
            },
            0xAB => {
                Inst::Stos { rep, w: true }
            },
            0xAC => {
                Inst::Lods { rep, w: false }
            },
            0xAD => {
                Inst::Lods { rep, w: true }
            },
            0xAE => {
                Inst::Scas { rep, w: false }
            },
            0xAF => {
                Inst::Scas { rep, w: true }
            },
            0xA8 => {
                let imm: u8 = self.fetch_u8();
                Inst::TestAccImm8 { imm }
            },
            0xA9 => {
                if w32 {
                    let imm: u32 = self.fetch_u32();
                    Inst::TestAccImm32 { imm }
                } else {
                    let imm: u16 = self.fetch_u16();
                    Inst::TestAccImm16 { imm }
                }
            },
            0xB0..=0xB7 => {
                let imm: u8 = self.fetch_u8();
                Inst::MovReg8Imm { dst: (op - 0xB0) | self.rb(), imm }
            },
            0xB8..=0xBF => {
                if self.pfx.rex_w {
                    let imm: u64 = self.fetch_u64();
                    Inst::MovReg64Imm { dst: (op - 0xB8) | self.rb(), imm }
                } else {
                    if w32 {
                        let imm: u32 = self.fetch_u32();
                        Inst::MovReg32Imm { dst: (op - 0xB8) | self.rb(), imm }
                    } else {
                        let imm: u16 = self.fetch_u16();
                        Inst::MovReg16Imm { dst: (op - 0xB8) | self.rb(), imm }
                    }
                }
            },
            0xC0 => {
                let m: ModRm = self.fetch_modrm();
                let imm: u8 = self.fetch_u8();
                Inst::ShiftImm { op: ShiftOp::from_index(m.reg), m, width: 8, imm }
            },
            0xC1 => {
                let m: ModRm = self.fetch_modrm();
                let imm: u8 = self.fetch_u8();
                Inst::ShiftImm { op: ShiftOp::from_index(m.reg), m, width: self.osize(), imm }
            },
            0xC2 => {
                let imm: u16 = self.fetch_u16();
                Inst::RetImm { imm, w32 }
            },
            0xC3 => {
                if w32 {
                    Inst::Ret32
                } else {
                    Inst::Ret
                }
            },
            0xC4 => {
                let m: ModRm = self.fetch_modrm();
                Inst::Les { m }
            },
            0xC5 => {
                let m: ModRm = self.fetch_modrm();
                Inst::Lds { m }
            },
            0xC6 => {
                let m: ModRm = self.fetch_modrm();
                let imm: u8 = self.fetch_u8();
                Inst::MovRm8Imm { m, imm }
            },
            0xC7 => {
                let m: ModRm = self.fetch_modrm();
                if w32 {
                    let imm: u32 = self.fetch_u32();
                    Inst::MovRm32Imm { m, imm }
                } else {
                    let imm: u16 = self.fetch_u16();
                    Inst::MovRm16Imm { m, imm }
                }
            },
            0xC9 => {
                Inst::Leave { w32 }
            },
            0xCB => {
                if w32 {
                    Inst::Retf32
                } else {
                    Inst::Retf
                }
            },
            0xCC => {
                Inst::Int3
            },
            0xCD => {
                let vector: u8 = self.fetch_u8();
                Inst::Int { vector }
            },
            0xCE => {
                Inst::Into
            },
            0xCF => {
                if w32 {
                    Inst::Iret32
                } else {
                    Inst::Iret
                }
            },
            _ => Inst::Unknown { opcode: op as u16 },
        }
    }

    /// Opcodes 0xD0-0xDF: shifts and the x87 escapes.
    fn decode_dx(&mut self, op: u8, rep: Rep, w32: bool) -> (inst: Inst)
        ensures
            (final(self)@, inst) == old(self)@.decode_dx(op, rep, w32),
    {
        proof {
            reveal(State::decode_dx);
        }
        match op {
            0xD0 => {
                let m: ModRm = self.fetch_modrm();
                Inst::Shift { op: ShiftOp::from_index(m.reg), m, width: 8, count: ShiftCount::One }
            },
            0xD1 => {
                let m: ModRm = self.fetch_modrm();
                Inst::Shift { op: ShiftOp::from_index(m.reg), m, width: self.osize(), count: ShiftCount::One }
            },
            0xD2 => {
                let m: ModRm = self.fetch_modrm();
                Inst::Shift { op: ShiftOp::from_index(m.reg), m, width: 8, count: ShiftCount::Cl }
            },
            0xD3 => {
                let m: ModRm = self.fetch_modrm();
                Inst::Shift { op: ShiftOp::from_index(m.reg), m, width: self.osize(), count: ShiftCount::Cl }
            },
            0xD8 => {
                let m: ModRm = self.fetch_modrm();
                match m.reg & 7 {
                    1 => {
                        Inst::Fop { op: FpuOp::Mul, m }
                    },
                    4 => {
                        Inst::Fop { op: FpuOp::Sub, m }
                    },
                    6 => {
                        Inst::Fop { op: FpuOp::Div, m }
                    },
                    _ => {
                        Inst::Fop { op: FpuOp::Add, m }
                    },
                }
            },
            0xD9 => {
                let m: ModRm = self.fetch_modrm();
                match m.reg & 7 {
                    0 => {
                        Inst::Fld { m, w64: false }
                    },
                    2 => {
                        Inst::Fst { m, w64: false }
                    },
                    3 => {
                        Inst::Fstp { m, w64: false }
                    },
                    5 => {
                        Inst::Fldcw { m }
                    },
                    7 => {
                        if m.mod_field == 3 && m.rm == 4 {
                            Inst::FstswAx
                        } else {
                            Inst::Fstcw { m }
                        }
                    },
                    _ => {
                        Inst::Fstcw { m }
                    },
                }
            },
            0xDA => {
                let m: ModRm = self.fetch_modrm();
                match m.reg & 7 {
                    1 => {
                        Inst::Fop { op: FpuOp::Mul, m }
                    },
                    4 => {
                        Inst::Fop { op: FpuOp::Sub, m }
                    },
                    6 => {
                        Inst::Fop { op: FpuOp::Div, m }
                    },
                    _ => {
                        Inst::Fop { op: FpuOp::Add, m }
                    },
                }
            },
            0xDB => {
                let m: ModRm = self.fetch_modrm();
                match m.reg & 7 {
                    3 => {
                        Inst::Fistp { m }
                    },
                    4 => {
                        if m.mod_field == 3 && m.rm == 3 {
                            Inst::Fninit
                        } else {
                            Inst::Fstcw { m }
                        }
                    },
                    7 => {
                        if m.mod_field == 3 && m.rm == 0 {
                            Inst::FstswAx
                        } else {
                            Inst::Fstcw { m }
                        }
                    },
                    _ => {
                        Inst::Fild { m }
                    },
                }
            },
            0xDC => {
                let m: ModRm = self.fetch_modrm();
                match m.reg & 7 {
                    1 => {
                        Inst::Fop { op: FpuOp::Mul, m }
                    },
                    4 => {
                        Inst::Fop { op: FpuOp::Sub, m }
                    },
                    6 => {
                        Inst::Fop { op: FpuOp::Div, m }
                    },
                    _ => {
                        Inst::Fop { op: FpuOp::Add, m }
                    },
                }
            },
            0xDD => {
                let m: ModRm = self.fetch_modrm();
                match m.reg & 7 {
                    0 => {
                        Inst::Fld { m, w64: true }
                    },
                    3 => {
                        Inst::Fstp { m, w64: true }
                    },
                    7 => {
                        Inst::Fstsw { m }
                    },
                    _ => {
                        Inst::Fst { m, w64: true }
                    },
                }
            },
            0xDE => {
                let m: ModRm = self.fetch_modrm();
                match m.reg & 7 {
                    1 => {
                        Inst::Fop { op: FpuOp::Mul, m }
                    },
                    4 => {
                        Inst::Fop { op: FpuOp::Sub, m }
                    },
                    6 => {
                        Inst::Fop { op: FpuOp::Div, m }
                    },
                    _ => {
                        Inst::Fop { op: FpuOp::Add, m }
                    },
                }
            },
            0xDF => {
                let m: ModRm = self.fetch_modrm();
                match m.reg & 7 {
                    3 => {
                        Inst::Fistp16 { m }
                    },
                    4 => {
                        if m.mod_field == 3 && m.rm == 0 {
                            Inst::FstswAx
                        } else {
                            Inst::Fstsw { m }
                        }
                    },
                    _ => {
                        Inst::Fild16 { m }
                    },
                }
            },
            _ => Inst::Unknown { opcode: op as u16 },
        }
    }

    /// Opcodes 0xE0-0xFF: loops, I/O, jumps, flag control and groups 3 to 5.
    fn decode_ex(&mut self, op: u8, rep: Rep, w32: bool) -> (inst: Inst)
        ensures
            (final(self)@, inst) == old(self)@.decode_ex(op, rep, w32),
    {
        proof {
            reveal(State::decode_ex);
        }
        match op {
            0xE0 => {
                let rel: u8 = self.fetch_u8();
                Inst::Loop { cond: LoopCond::Loop, rel: rel as i8 }
            },
            0xE1 => {
                let rel: u8 = self.fetch_u8();
                Inst::Loop { cond: LoopCond::Loopz, rel: rel as i8 }
            },
            0xE2 => {
                let rel: u8 = self.fetch_u8();
                Inst::Loop { cond: LoopCond::Loopnz, rel: rel as i8 }
            },
            0xE3 => {
                let rel: u8 = self.fetch_u8();
                Inst::Loop { cond: LoopCond::Jcxz, rel: rel as i8 }
            },
            0xE4 => {
                let port: u8 = self.fetch_u8();
                Inst::InAlImm { port }
            },
            0xE5 => {
                let port: u8 = self.fetch_u8();
                Inst::InAxImm { port }
            },
            0xE6 => {
                let port: u8 = self.fetch_u8();
                Inst::OutImmAl { port }
            },
            0xE7 => {
                let port: u8 = self.fetch_u8();
                Inst::OutImmAx { port }
            },
            0xE8 => {
                if w32 {
                    let rel: u32 = self.fetch_u32();
                    Inst::CallRel32 { rel: rel as i32 }
                } else {
                    let rel: u16 = self.fetch_u16();
                    Inst::CallRel16 { rel: rel as i16 }
                }
            },
            0xE9 => {
                if w32 {
                    let rel: u32 = self.fetch_u32();
                    Inst::JmpRel32 { rel: rel as i32 }
                } else {
                    let rel: u16 = self.fetch_u16();
                    Inst::JmpRel16 { rel: rel as i16 }
                }
            },
            0xEA => {
                if w32 {
                    let off: u32 = self.fetch_u32();
                    let seg: u16 = self.fetch_u16();
                    Inst::JmpFar32 { off, seg }
                } else {
                    let off: u16 = self.fetch_u16();
                    let seg: u16 = self.fetch_u16();
                    Inst::JmpFar { off, seg }
                }
            },
            0xEB => {
                let rel: u8 = self.fetch_u8();
                Inst::JmpRel8 { rel: rel as i8 }
            },
            0xEC => {
                Inst::InAlDx
            },
            0xED => {
                Inst::InAxDx
            },
            0xEE => {
                Inst::OutDxAl
            },
            0xEF => {
                Inst::OutDxAx
            },
            0xF4 => {
                Inst::Hlt
            },
            0xF5 => {
                Inst::Cmc
            },
            0xF6 => {
                let m: ModRm = self.fetch_modrm();
                match m.reg & 7 {
                    0 => {
                        let imm: u8 = self.fetch_u8();
                        Inst::TestRm8Imm { m, imm }
                    },
                    2 => {
                        Inst::NotRm8 { m }
                    },
                    3 => {
                        Inst::NegRm8 { m }
                    },
                    4 => {
                        Inst::MulRm8 { m }
                    },
                    5 => {
                        Inst::ImulRm8 { m }
                    },
                    6 => {
                        Inst::DivRm8 { m }
                    },
                    _ => {
                        Inst::IdivRm8 { m }
                    },
                }
            },
            0xF7 => {
                let m: ModRm = self.fetch_modrm();
                match m.reg & 7 {
                    0 => {
                        if w32 {
                            let imm: u32 = self.fetch_u32();
                            Inst::TestRm32Imm { m, imm }
                        } else {
                            let imm: u16 = self.fetch_u16();
                            Inst::TestRm16Imm { m, imm }
                        }
                    },
                    2 => {
                        if w32 {
                            Inst::NotRm32 { m }
                        } else {
                            Inst::NotRm16 { m }
                        }
                    },
                    3 => {
                        if w32 {
                            Inst::NegRm32 { m }
                        } else {
                            Inst::NegRm16 { m }
                        }
                    },
                    4 => {
                        if w32 {
                            Inst::MulRm32 { m }
                        } else {
                            Inst::MulRm16 { m }
                        }
                    },
                    5 => {
                        if w32 {
                            Inst::ImulRm32 { m }
                        } else {
                            Inst::ImulRm16 { m }
                        }
                    },
                    6 => {
                        if w32 {
                            Inst::DivRm32 { m }
                        } else {
                            Inst::DivRm16 { m }
                        }
                    },
                    _ => {
                        if w32 {
                            Inst::IdivRm32 { m }
                        } else {
                            Inst::IdivRm16 { m }
                        }
                    },
                }
            },
            0xF8 => {
                Inst::Clc
            },
            0xF9 => {
                Inst::Stc
            },
            0xFA => {
                Inst::Cli
            },
            0xFB => {
                Inst::Sti
            },
            0xFC => {
                Inst::Cld
            },
            0xFD => {
                Inst::Std
            },
            0xFE => {
                let m: ModRm = self.fetch_modrm();
                match m.reg & 7 {
                    0 => {
                        Inst::IncRm8 { m }
                    },
                    1 => {
                        Inst::DecRm8 { m }
                    },
                    _ => {
                        Inst::Unknown { opcode: 0x00FE }
                    },
                }
            },
            0xFF => {
                let m: ModRm = self.fetch_modrm();
                match m.reg & 7 {
                    0 => {
                        if w32 {
                            Inst::IncRm32 { m }
                        } else {
                            Inst::IncRm16 { m }
                        }
                    },
                    1 => {
                        if w32 {
                            Inst::DecRm32 { m }
                        } else {
                            Inst::DecRm16 { m }
                        }
                    },
                    2 => {
                        if w32 {
                            Inst::CallRm32 { m }
                        } else {
                            Inst::CallRm16 { m }
                        }
                    },
                    4 => {
                        if w32 {
                            Inst::JmpRm32 { m }
                        } else {
                            Inst::JmpRm16 { m }
                        }
                    },
                    6 => {
                        if w32 {
                            Inst::PushRm32 { m }
                        } else {
                            Inst::PushRm16 { m }
                        }
                    },
                    _ => {
                        Inst::Unknown { opcode: 0x00FF }
                    },
                }
            },
            _ => Inst::Unknown { opcode: op as u16 },
        }
    }

    /// Two-byte opcodes 0F 00-9F: system instructions and conditions.
    fn decode_0f_low(&mut self, op: u8, rep: Rep, w32: bool) -> (inst: Inst)
        ensures
            (final(self)@, inst) == old(self)@.decode_0f_low(op, rep, w32),
    {
        proof {
            reveal(State::decode_0f_low);
        }
        match op {
            0x00 => {
                let m: ModRm = self.fetch_modrm();
                match m.reg & 7 {
                    0 => {
                        Inst::Sldt { m }
                    },
                    1 => {
                        Inst::Str { m }
                    },
                    2 => {
                        Inst::Lldt { m }
                    },
                    3 => {
                        Inst::Ltr { m }
                    },
                    _ => {
                        Inst::Nop
                    },
                }
            },
            0x01 => {
                let m: ModRm = self.fetch_modrm();
                if m.mod_field == 3 {
                    match m.reg & 7 {
                        1 => {
                            match m.rm_raw {
                                0 => {
                                    Inst::Monitor
                                },
                                1 => {
                                    Inst::Mwait
                                },
                                2 => {
                                    Inst::Clac
                                },
                                3 => {
                                    Inst::Stac
                                },
                                _ => {
                                    Inst::Unknown { opcode: 0x0F01 }
                                },
                            }
                        },
                        2 => {
                            match m.rm_raw {
                                0 => {
                                    Inst::Xgetbv
                                },
                                1 => {
                                    Inst::Xsetbv
                                },
                                _ => {
                                    Inst::Unknown { opcode: 0x0F01 }
                                },
                            }
                        },
                        4 => {
                            Inst::Smsw { m }
                        },
                        6 => {
                            Inst::Lmsw { m }
                        },
                        7 => {
                            match m.rm_raw {
                                0 => {
                                    Inst::Swapgs
                                },
                                1 => {
                                    Inst::Rdtscp
                                },
                                _ => {
                                    Inst::Unknown { opcode: 0x0F01 }
                                },
                            }
                        },
                        _ => {
                            Inst::Unknown { opcode: 0x0F01 }
                        },
                    }
                } else {
                    match m.reg & 7 {
                        0 => {
                            Inst::Sgdt { m }
                        },
                        1 => {
                            Inst::Sidt { m }
                        },
                        2 => {
                            Inst::Lgdt { m }
                        },
                        3 => {
                            Inst::Lidt { m }
                        },
                        4 => {
                            Inst::Smsw { m }
                        },
                        6 => {
                            Inst::Lmsw { m }
                        },
                        7 => {
                            Inst::Invlpg { m }
                        },
                        _ => {
                            Inst::Unknown { opcode: 0x0F01 }
                        },
                    }
                }
            },
            0x05 => {
                Inst::Syscall
            },
            0x06 => {
                Inst::Clts
            },
            0x07 => {
                Inst::Sysret
            },
            0x08 => {
                Inst::Invd
            },
            0x09 => {
                Inst::Wbinvd
            },
            0x0B => {
                Inst::Unknown { opcode: 0x0F0B }
            },
            0x0D => {
                let m: ModRm = self.fetch_modrm();
                Inst::NopHint
            },
            0x18 => {
                let m: ModRm = self.fetch_modrm();
                Inst::NopHint
            },
            0x19..=0x1E => {
                let m: ModRm = self.fetch_modrm();
                Inst::Nop
            },
            0x1F => {
                let m: ModRm = self.fetch_modrm();
                Inst::NopHint
            },
            0x20 => {
                let m: ModRm = self.fetch_modrm();
                Inst::MovCr { cr: m.reg, reg: m.rm_raw | self.rb() }
            },
            0x21 => {
                let m: ModRm = self.fetch_modrm();
                Inst::MovDr { dr: m.reg & 7, reg: m.rm_raw | self.rb() }
            },
            0x22 => {
                let m: ModRm = self.fetch_modrm();
                Inst::MovToCr { cr: m.reg, reg: m.rm_raw | self.rb() }
            },
            0x23 => {
                let m: ModRm = self.fetch_modrm();
                Inst::MovToDr { dr: m.reg & 7, reg: m.rm_raw | self.rb() }
            },
            0x30 => {
                Inst::Wrmsr
            },
            0x31 => {
                Inst::Rdtsc
            },
            0x32 => {
                Inst::Rdmsr
            },
            0x38 => {
                let op3: u8 = self.fetch_u8();
                let m: ModRm = self.fetch_modrm();
                Inst::Unknown { opcode: 0x0F38 }
            },
            0x40..=0x4F => {
                let m: ModRm = self.fetch_modrm();
                Inst::Cmovcc { cond: Cond::from_jcc(op & 0xF), m, dst: m.reg, w32 }
            },
            0x80..=0x8F => {
                let rel: u32 = self.fetch_u32();
                Inst::Jcc32 { cond: Cond::from_jcc(op - 0x80), rel: rel as i32 }
            },
            0x90..=0x9F => {
                let m: ModRm = self.fetch_modrm();
                Inst::Setcc { cond: Cond::from_jcc(op & 0xF), m }
            },
            _ => Inst::Unknown { opcode: 0x0F00u16 | (op as u16) },
        }
    }

    /// Two-byte opcodes 0F A0-FF: bit operations, extension and exchange.
    fn decode_0f_high(&mut self, op: u8, rep: Rep, w32: bool) -> (inst: Inst)
        ensures
            (final(self)@, inst) == old(self)@.decode_0f_high(op, rep, w32),
    {
        proof {
            reveal(State::decode_0f_high);
        }
        match op {
            0xA0 => {
                Inst::PushSeg { seg: SegReg::Fs }
            },
            0xA1 => {
                Inst::PopSeg { seg: SegReg::Fs }
            },
            0xA2 => {
                Inst::Cpuid
            },
            0xA3 => {
                let m: ModRm = self.fetch_modrm();
                Inst::Bt { m, bit: BitOffset::Reg(m.reg) }
            },
            0xA4 => {
                let m: ModRm = self.fetch_modrm();
                let imm: u8 = self.fetch_u8();
                Inst::Shld { m, reg: m.reg, count: ShiftCount::Imm(imm), w32 }
            },
            0xA5 => {
                let m: ModRm = self.fetch_modrm();
                Inst::Shld { m, reg: m.reg, count: ShiftCount::Cl, w32 }
            },
            0xA8 => {
                Inst::PushSeg { seg: SegReg::Gs }
            },
            0xA9 => {
                Inst::PopSeg { seg: SegReg::Gs }
            },
            0xAB => {
                let m: ModRm = self.fetch_modrm();
                Inst::Bts { m, bit: BitOffset::Reg(m.reg) }
            },
            0xAC => {
                let m: ModRm = self.fetch_modrm();
                let imm: u8 = self.fetch_u8();
                Inst::Shrd { m, reg: m.reg, count: ShiftCount::Imm(imm), w32 }
            },
            0xAD => {
                let m: ModRm = self.fetch_modrm();
                Inst::Shrd { m, reg: m.reg, count: ShiftCount::Cl, w32 }
            },
            0xAE => {
                let m: ModRm = self.fetch_modrm();
                if m.mod_field == 3 || m.reg & 7 == 7 {
                    Inst::NopHint
                } else {
                    match m.reg & 7 {
                        0 => {
                            Inst::Fxsave { m }
                        },
                        1 => {
                            Inst::Fxrstor { m }
                        },
                        _ => {
                            Inst::Unknown { opcode: 0x0FAE }
                        },
                    }
                }
            },
            0xAF => {
                let m: ModRm = self.fetch_modrm();
                if w32 {
                    Inst::ImulRegRm32 { m, dst: m.reg }
                } else {
                    Inst::ImulRegRm16 { m, dst: m.reg }
                }
            },
            0xB0 => {
                let m: ModRm = self.fetch_modrm();
                Inst::Cmpxchg { m, reg: m.reg, width: 8 }
            },
            0xB1 => {
                let m: ModRm = self.fetch_modrm();
                Inst::Cmpxchg { m, reg: m.reg, width: self.osize() }
            },
            0xB2 => {
                let m: ModRm = self.fetch_modrm();
                Inst::Lss { m }
            },
            0xB3 => {
                let m: ModRm = self.fetch_modrm();
                Inst::Btr { m, bit: BitOffset::Reg(m.reg) }
            },
            0xB4 => {
                let m: ModRm = self.fetch_modrm();
                Inst::Lfs { m }
            },
            0xB5 => {
                let m: ModRm = self.fetch_modrm();
                Inst::Lgs { m }
            },
            0xB6 => {
                let m: ModRm = self.fetch_modrm();
                Inst::Movzx8 { m, dst: m.reg }
            },
            0xB7 => {
                let m: ModRm = self.fetch_modrm();
                Inst::Movzx16 { m, dst: m.reg }
            },
            0xBA => {
                let m: ModRm = self.fetch_modrm();
                let imm: u8 = self.fetch_u8();
                match m.reg & 7 {
                    4 => {
                        Inst::Bt { m, bit: BitOffset::Imm(imm) }
                    },
                    5 => {
                        Inst::Bts { m, bit: BitOffset::Imm(imm) }
                    },
                    6 => {
                        Inst::Btr { m, bit: BitOffset::Imm(imm) }
                    },
                    _ => {
                        Inst::Btc { m, bit: BitOffset::Imm(imm) }
                    },
                }
            },
            0xBB => {
                let m: ModRm = self.fetch_modrm();
                Inst::Btc { m, bit: BitOffset::Reg(m.reg) }
            },
            0xBC => {
                let m: ModRm = self.fetch_modrm();
                Inst::Bsf { m, dst: m.reg, w32 }
            },
            0xBD => {
                let m: ModRm = self.fetch_modrm();
                Inst::Bsr { m, dst: m.reg, w32 }
            },
            0xBE => {
                let m: ModRm = self.fetch_modrm();
                Inst::Movsx8 { m, dst: m.reg }
            },
            0xBF => {
                let m: ModRm = self.fetch_modrm();
                Inst::Movsx16 { m, dst: m.reg }
            },
            0xC0 => {
                let m: ModRm = self.fetch_modrm();
                Inst::Xadd { m, reg: m.reg, width: 8 }
            },
            0xC1 => {
                let m: ModRm = self.fetch_modrm();
                Inst::Xadd { m, reg: m.reg, width: self.osize() }
            },
            0xC7 => {
                let m: ModRm = self.fetch_modrm();
                if m.reg & 7 == 1 {
                    Inst::Cmpxchg8b { m }
                } else {
                    Inst::Unknown { opcode: 0x0FC7 }
                }
            },
            0xC8..=0xCF => {
                Inst::Bswap { reg: (op - 0xC8) | self.rb() }
            },
            _ => Inst::Unknown { opcode: 0x0F00u16 | (op as u16) },
        }
    }

    /// Decode what follows the prefixes.
    ///
    /// `w32` selects between the 16-bit and the wider instruction *shapes*.
    /// The wider one covers both 32 and 64 bits; the operand size says which.
    fn decode_op(&mut self, op: u8, rep: Rep) -> (inst: Inst)
        ensures
            (final(self)@, inst) == old(self)@.decode_op(op, rep),
    {
        proof {
            reveal(State::decode_op);
        }
        let w32 = self.pfx.opsize;
        if op == 0x0F {
            let op2: u8 = self.fetch_u8();
            if op2 < 0xA0 {
                self.decode_0f_low(op2, rep, w32)
            } else {
                self.decode_0f_high(op2, rep, w32)
            }
        } else if op < 0x40 && op % 8 < 6 {
            self.decode_alu(op, w32)
        } else if op < 0x40 {
            self.decode_seg(op, rep, w32)
        } else if op < 0x80 {
            self.decode_4x(op, rep, w32)
        } else if op < 0xA0 {
            self.decode_8x(op, rep, w32)
        } else if op < 0xD0 {
            self.decode_ax(op, rep, w32)
        } else if op < 0xE0 {
            self.decode_dx(op, rep, w32)
        } else {
            self.decode_ex(op, rep, w32)
        }
    }
}

/// Decode the next instruction. The prefix state it leaves persists through
/// [`crate::instructions::execute`], which runs after it returns.
pub fn decode(cpu: &mut Cpu) -> (inst: Inst)
    ensures
        (final(cpu)@, inst) == old(cpu)@.decode(),
{
    proof {
        reveal(State::decode);
    }
    let rep = cpu.take_prefixes();
    let op: u8 = cpu.fetch_u8();
    cpu.decode_op(op, rep)
}

} // verus!
