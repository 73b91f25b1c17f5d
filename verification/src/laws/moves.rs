//! Laws of data movement: what each move, extension, exchange and flag
//! instruction takes and where it puts it.

use crate::cpu::address::Access;
use crate::instructions::shift::extend;
use crate::instructions::{AluOp, Cond, Inst, ShiftCount, ShiftOp};
use crate::laws::arith::is_width;
use crate::laws::bytes::stored;
use crate::laws::effects::{full, lemma_committed, widened, written};
use crate::laws::fields::{lemma_displacement, lemma_narrow};
use crate::laws::jumps::{asked, law_conditions_are_numbered};
use crate::laws::sums::{as_signed, lemma_powers, lemma_signed};
use crate::laws::views::law_registers_are_remainders;
use crate::modrm::ModRm;
use crate::state::State;
use vstd::arithmetic::power2::{lemma2_to64, pow2};
use vstd::prelude::*;

verus! {

/// The width an encoding names, or the full operand size.
pub open spec fn sized(s: State, width: u32) -> u32 {
    if width == 8 || width == 16 { width } else { full(s) }
}

/// An r/m operand is a register where the mode field is 3, and otherwise what is
/// at its linear address.
pub proof fn law_operands_are_registers_or_memory(s: State, m: ModRm, w: u32, v: u64)
    ensures
        s.read_rm(m, w) == if m.mod_field == 3 {
            (s, s.reg_w(m.rm, w))
        } else {
            s.load(s.rm_linear(m), w)
        },
        !s.faulted() ==> s.write_rm(m, w, v) == if m.mod_field == 3 {
            s.with_reg_w(m.rm, w, v)
        } else {
            s.store(s.rm_linear(m), w, v)
        },
        s.faulted() ==> s.write_rm(m, w, v) == s,
{
    reveal(State::read_rm);
    reveal(State::write_rm);
}

/// What a move to an r/m operand stores, and at which width.
pub open spec fn moved_out(s: State, inst: Inst) -> Option<(ModRm, u32, u64)> {
    match inst {
        Inst::MovRm8Reg { m, src } => Some((m, 8, s.reg_w(src, 8))),
        Inst::MovRm16Reg { m, src } => Some((m, 16, s.reg_w(src, 16))),
        Inst::MovRm32Reg { m, src } => Some((m, full(s), s.reg_w(src, full(s)))),
        Inst::MovRm8Imm { m, imm } => Some((m, 8, imm as u64)),
        Inst::MovRm16Imm { m, imm } => Some((m, 16, imm as u64)),
        Inst::MovRm32Imm { m, imm } => Some((m, full(s), widened(imm))),
        _ => None,
    }
}

/// A move stores the register or the immediate, a double-word immediate
/// sign-extended to the operand size.
pub proof fn law_moves_to_operands(s: State, inst: Inst)
    requires
        !s.execute(inst).faulted(),
        moved_out(s, inst) is Some,
    ensures
        ({
            let (m, w, v) = moved_out(s, inst)->0;
            s.execute(inst) == s.write_rm(m, w, v)
        }),
{
    lemma_committed(s, inst);
    reveal(State::move_inst);
    match inst {
        Inst::MovRm32Imm { m, imm } => crate::laws::effects::lemma_sext32(imm),
        _ => {},
    }
}

/// A move to a register loads the operand or the immediate.
pub proof fn law_moves_to_registers(s: State, inst: Inst)
    requires
        !s.execute(inst).faulted(),
    ensures
        match inst {
            Inst::MovRegRm8 { m, dst } => s.execute(inst) == ({
                let (t, v) = s.read_rm(m, 8);
                t.with_reg_w(dst, 8, v)
            }),
            Inst::MovRegRm16 { m, dst } => s.execute(inst) == ({
                let (t, v) = s.read_rm(m, 16);
                t.with_reg_w(dst, 16, v)
            }),
            Inst::MovRegRm32 { m, dst } => s.execute(inst) == ({
                let (t, v) = s.read_rm(m, full(s));
                t.with_reg_w(dst, full(s), v)
            }),
            Inst::MovReg8Imm { dst, imm } => s.execute(inst) == s.with_reg_w(dst, 8, imm as u64),
            Inst::MovReg16Imm { dst, imm } => s.execute(inst) == s.with_reg_w(dst, 16, imm as u64),
            Inst::MovReg32Imm { dst, imm } => s.execute(inst) == s.with_reg_w(dst, 32, imm as u64),
            Inst::MovReg64Imm { dst, imm } => s.execute(inst) == s.with_reg_w(dst, 64, imm),
            _ => true,
        },
{
    lemma_committed(s, inst);
    match inst {
        Inst::MovRegRm8 { m, dst } => {
            reveal(State::move_inst);
            reveal(State::mov_reg_rm);
            reveal(State::set_reg_w);
        },
        Inst::MovRegRm16 { m, dst } => {
            reveal(State::move_inst);
            reveal(State::mov_reg_rm);
            reveal(State::set_reg_w);
        },
        Inst::MovRegRm32 { m, dst } => {
            reveal(State::move_inst);
            reveal(State::mov_reg_rm);
            reveal(State::set_reg_w);
        },
        Inst::MovReg8Imm { dst, imm } => {
            reveal(State::move_inst);
            reveal(State::set_reg_w);
        },
        Inst::MovReg16Imm { dst, imm } => {
            reveal(State::move_inst);
            reveal(State::set_reg_w);
        },
        Inst::MovReg32Imm { dst, imm } => {
            reveal(State::move_inst);
            reveal(State::set_reg_w);
        },
        Inst::MovReg64Imm { dst, imm } => {
            reveal(State::move_inst);
            reveal(State::set_reg_w);
        },
        _ => {},
    }
}

/// A value sign-extended to 64 bits.
pub open spec fn stretched(v: u64, w: u32) -> u64 {
    (as_signed(v as int, w) % 0x1_0000_0000_0000_0000) as u64
}

/// Sign extension as a number.
pub(crate) proof fn lemma_sext(v: u64, w: u32)
    requires
        is_width(w),
        v < pow2(w as nat),
    ensures
        crate::instructions::mov::sext(v, w) == stretched(v, w),
        extend(v, w) == as_signed(v as int, w),
{
    lemma_powers(w);
    crate::laws::shift::lemma_signs(v, 0);
    vstd::arithmetic::div_mod::lemma_small_mod(v as nat, pow2(w as nat));
    lemma_signed(v as int, v, w);
    assert(extend(v, w) == crate::instructions::alu::signed(v, w));
    lemma_displacement(extend(v, w), 0);
}

/// Is this one of the data instructions?
pub open spec fn is_data(inst: Inst) -> bool {
    match inst {
        Inst::Movzx8 { .. } | Inst::Movzx16 { .. } | Inst::Movsx8 { .. } | Inst::Movsx16 { .. }
        | Inst::Movsxd { .. } | Inst::Lea { .. } | Inst::XchgAxReg { .. } | Inst::XchgEaxReg { .. }
        | Inst::XchgRmReg { .. } | Inst::Cmpxchg { .. } | Inst::Xadd { .. } | Inst::Bswap { .. }
        | Inst::Cmovcc { .. } | Inst::Setcc { .. } | Inst::Cbw | Inst::Cwd | Inst::Cwde | Inst::Cdq
        | Inst::Clc | Inst::Stc | Inst::Cli | Inst::Sti | Inst::Cld | Inst::Std | Inst::Cmc
        | Inst::Movs { .. } | Inst::Stos { .. } | Inst::Lods { .. } | Inst::Cmps { .. }
        | Inst::Scas { .. } => true,
        _ => false,
    }
}

#[verifier::spinoff_prover]
#[verifier::rlimit(60)]
proof fn lemma_not_move(s: State, inst: Inst)
    requires
        is_data(inst),
    ensures
        s.move_inst(inst) == s.arith_inst(inst),
{
    reveal(State::move_inst);
}

#[verifier::spinoff_prover]
#[verifier::rlimit(60)]
proof fn lemma_not_arith(s: State, inst: Inst)
    requires
        is_data(inst),
    ensures
        s.arith_inst(inst) == s.flow_inst(inst),
{
    reveal(State::arith_inst);
}

#[verifier::spinoff_prover]
#[verifier::rlimit(60)]
proof fn lemma_not_flow(s: State, inst: Inst)
    requires
        is_data(inst),
    ensures
        s.flow_inst(inst) == s.data_inst(inst),
{
    reveal(State::flow_inst);
}

/// The data instructions are none of the moves, sums and jumps.
pub(crate) proof fn lemma_data(s: State, inst: Inst)
    requires
        is_data(inst),
        !s.execute(inst).faulted(),
    ensures
        s.execute(inst) == s.data_inst(inst),
{
    lemma_committed(s, inst);
    lemma_not_move(s, inst);
    lemma_not_arith(s, inst);
    lemma_not_flow(s, inst);
}

/// What an r/m operand yields fits its width.
proof fn lemma_fits(s: State, m: ModRm, w: u32)
    requires
        w == 8 || w == 16 || w == 32,
        s.regs.len() == 16,
    ensures
        s.read_rm(m, w).1 < pow2(w as nat),
{
    reveal(State::read_rm);
    reveal(State::load);
    reveal(State::load_at);
    reveal(State::read_split);
    lemma2_to64();
    lemma_powers(w);
    if m.mod_field != 3 {
        let (a, phys) = s.access(s.rm_linear(m), crate::cpu::address::Access::Read);
        let n = crate::cpu::operand::bytes_of(w);
        let (b, next) = a.next_page(s.rm_linear(m), phys, crate::cpu::address::Access::Read);
        crate::laws::bytes::lemma_gathered(
            b.mem,
            phys,
            (0x1000 - (phys & 0xFFF)) as usize,
            next,
            n as int,
        );
    }
}

/// MOVZX and MOVSX widen an operand to the full operand size: with zeros above
/// it, or as the signed number it is.
pub proof fn law_extensions_keep_the_number(s: State, inst: Inst)
    requires
        s.regs.len() == 16,
        !s.execute(inst).faulted(),
    ensures
        match inst {
            Inst::Movzx8 { m, dst } => s.execute(inst) == ({
                let (t, v) = s.read_rm(m, 8);
                t.with_reg_w(dst, full(s), v)
            }),
            Inst::Movzx16 { m, dst } => s.execute(inst) == ({
                let (t, v) = s.read_rm(m, 16);
                t.with_reg_w(dst, full(s), v)
            }),
            Inst::Movsx8 { m, dst } => s.execute(inst) == ({
                let (t, v) = s.read_rm(m, 8);
                t.with_reg_w(dst, full(s), stretched(v, 8))
            }),
            Inst::Movsx16 { m, dst } => s.execute(inst) == ({
                let (t, v) = s.read_rm(m, 16);
                t.with_reg_w(dst, full(s), stretched(v, 16))
            }),
            Inst::Movsxd { m, dst } => s.execute(inst) == ({
                let (t, v) = s.read_rm(m, 32);
                t.with_reg_w(dst, full(s), stretched(v, 32))
            }),
            Inst::Lea { m, dst } => s.execute(inst) == s.with_reg_w(
                dst,
                full(s),
                if s.pfx.addrsize { s.ea32(m).0 } else { s.ea16(m) as u64 },
            ),
            _ => true,
        },
{
    match inst {
        Inst::Movzx8 { m, dst } => {
            lemma_data(s, inst);
            reveal(State::data_inst);
            reveal(State::movzx);
            reveal(State::set_reg_w);
        },
        Inst::Movzx16 { m, dst } => {
            lemma_data(s, inst);
            reveal(State::data_inst);
            reveal(State::movzx);
            reveal(State::set_reg_w);
        },
        Inst::Movsx8 { m, dst } => {
            lemma_data(s, inst);
            reveal(State::data_inst);
            reveal(State::movsx);
            reveal(State::set_reg_w);
            lemma_fits(s, m, 8);
            lemma_sext(s.read_rm(m, 8).1, 8);
        },
        Inst::Movsx16 { m, dst } => {
            lemma_data(s, inst);
            reveal(State::data_inst);
            reveal(State::movsx);
            reveal(State::set_reg_w);
            lemma_fits(s, m, 16);
            lemma_sext(s.read_rm(m, 16).1, 16);
        },
        Inst::Movsxd { m, dst } => {
            lemma_data(s, inst);
            reveal(State::data_inst);
            reveal(State::movsx);
            reveal(State::set_reg_w);
            lemma_fits(s, m, 32);
            lemma_sext(s.read_rm(m, 32).1, 32);
        },
        Inst::Lea { m, dst } => {
            lemma_data(s, inst);
            reveal(State::data_inst);
            reveal(State::set_reg_w);
        },
        _ => {},
    }
}

/// XCHG puts each of two operands where the other was; XADD puts the sum in the
/// first and the first's old value in the second; CMPXCHG compares with the
/// accumulator and stores the register where they are equal, else loads the
/// accumulator.
pub proof fn law_exchanges(s: State, inst: Inst)
    requires
        !s.execute(inst).faulted(),
    ensures
        match inst {
            Inst::XchgAxReg { reg } => s.execute(inst) == s.with_reg_w(
                0,
                16,
                s.reg_w(reg, 16),
            ).with_reg_w(reg, 16, s.reg_w(0, 16)),
            Inst::XchgEaxReg { reg } => s.execute(inst) == s.with_reg_w(
                0,
                full(s),
                s.reg_w(reg, full(s)),
            ).with_reg_w(reg, full(s), s.reg_w(0, full(s))),
            Inst::XchgRmReg { m, reg, width } => s.execute(inst) == ({
                let w = sized(s, width);
                let (t, v) = s.read_rm(m, w);
                t.write_rm(m, w, t.reg_w(reg, w)).with_reg_w(reg, w, v)
            }),
            Inst::Xadd { m, reg, width } => s.execute(inst) == ({
                let w = sized(s, width);
                let (t, v) = s.read_rm(m, w);
                let o = t.alu(AluOp::Add, v, t.reg_w(reg, w), w);
                let u = State { flags: o.flags, ..t };
                if m.mod_field == 3 {
                    u.with_reg_w(reg, w, v).with_reg_w(m.rm, w, o.value)
                } else {
                    u.write_rm(m, w, o.value).with_reg_w(reg, w, v)
                }
            }),
            Inst::Cmpxchg { m, reg, width } => s.execute(inst) == ({
                let w = sized(s, width);
                let (t, v) = s.read_rm(m, w);
                let acc = t.reg_w(0, w);
                let u = State { flags: t.alu(AluOp::Cmp, acc, v, w).flags, ..t };
                if acc == v {
                    u.write_rm(m, w, u.reg_w(reg, w))
                } else {
                    u.with_reg_w(0, w, v)
                }
            }),
            _ => true,
        },
{
    match inst {
        Inst::XchgAxReg { reg } => {
            lemma_data(s, inst);
            reveal(State::data_inst);
            lemma_kept(s, 0, 16, s.reg_w(reg, 16));
        },
        Inst::XchgEaxReg { reg } => {
            lemma_data(s, inst);
            reveal(State::data_inst);
            lemma_kept(s, 0, full(s), s.reg_w(reg, full(s)));
        },
        Inst::XchgRmReg { m, reg, width } => {
            lemma_data(s, inst);
            reveal(State::data_inst);
            reveal(State::xchg_rm);
            reveal(State::set_reg_w);
        },
        Inst::Xadd { m, reg, width } => {
            lemma_data(s, inst);
            reveal(State::data_inst);
            reveal(State::xadd);
            reveal(State::set_reg_w);
            reveal(State::write_rm);
            reveal(State::with_reg_w);
        },
        Inst::Cmpxchg { m, reg, width } => {
            lemma_data(s, inst);
            reveal(State::data_inst);
            reveal(State::compare_exchange);
            reveal(State::set_reg_w);
        },
        _ => {},
    }
}

/// Writing a register faults nothing.
proof fn lemma_kept(s: State, i: u8, w: u32, v: u64)
    ensures
        s.set_reg_w(i, w, v).faulted() == s.faulted(),
        !s.faulted() ==> s.set_reg_w(i, w, v) == s.with_reg_w(i, w, v),
        forall|j: u8, x: u64|
            ({
                let t = #[trigger] s.set_reg_w(i, w, v).set_reg_w(j, w, x);
                &&& t.faulted() == s.faulted()
                &&& !s.faulted() ==> t == s.with_reg_w(i, w, v).with_reg_w(j, w, x)
            }),
{
    reveal(State::set_reg_w);
    reveal(State::with_reg_w);
}

/// SETcc stores one or zero; CMOVcc moves or does nothing. Both go by the
/// numbered condition.
pub proof fn law_conditional_moves(s: State, inst: Inst, i: u8)
    requires
        !s.execute(inst).faulted(),
    ensures
        match inst {
            Inst::Setcc { cond, m } => cond == Cond::of(i) ==> s.execute(inst) == s.write_rm(
                m,
                8,
                if asked(i as int % 16, s.flags) { 1 } else { 0 },
            ),
            Inst::Cmovcc { cond, m, dst, w32: _ } => cond == Cond::of(i) ==> s.execute(inst)
                == if asked(i as int % 16, s.flags) {
                let (t, v) = s.read_rm(m, full(s));
                t.with_reg_w(dst, full(s), v)
            } else {
                s
            },
            _ => true,
        },
{
    law_conditions_are_numbered(i, s);
    match inst {
        Inst::Setcc { cond, m } => {
            lemma_data(s, inst);
            reveal(State::data_inst);
        },
        Inst::Cmovcc { cond, m, dst, w32: _ } => {
            lemma_data(s, inst);
            reveal(State::data_inst);
            reveal(State::mov_reg_rm);
            reveal(State::set_reg_w);
        },
        _ => {},
    }
}

/// CBW, CWDE and CDQE widen the lower half of the accumulator as a signed
/// number; CWD, CDQ and CQO fill the data register with the accumulator's sign.
pub proof fn law_the_accumulator_is_widened(s: State, inst: Inst)
    requires
        s.regs.len() == 16,
        !s.execute(inst).faulted(),
    ensures
        ({
            let w = if inst is Cbw || inst is Cwd { 16 } else { full(s) };
            let a = s.regs[0];
            &&& inst is Cbw || inst is Cwde ==> s.execute(inst) == s.with_reg_w(
                0,
                w,
                stretched(a, w / 2),
            )
            &&& inst is Cwd || inst is Cdq ==> s.execute(inst) == s.with_reg_w(
                2,
                w,
                if as_signed(a as int, w) < 0 { 0xFFFF_FFFF_FFFF_FFFF } else { 0 },
            )
        }),
{
    let w = if inst is Cbw || inst is Cwd { 16 } else { full(s) };
    lemma2_to64();
    if inst is Cbw || inst is Cwde {
        lemma_data(s, inst);
        reveal(State::data_inst);
        reveal(State::set_reg_w);
        let h = w / 2;
        lemma_powers(h);
        law_registers_are_remainders(s, 0, h);
        vstd::arithmetic::div_mod::lemma_mod_bound(s.regs[0] as int, pow2(h as nat) as int);
        lemma_sext(s.reg_w(0, h), h);
        vstd::arithmetic::div_mod::lemma_mod_twice(s.regs[0] as int, pow2(h as nat) as int);
    }
    if inst is Cwd || inst is Cdq {
        lemma_data(s, inst);
        reveal(State::data_inst);
        reveal(State::set_reg_w);
        lemma_powers(w);
        law_registers_are_remainders(s, 0, w);
        let v = s.reg_w(0, w);
        vstd::arithmetic::div_mod::lemma_mod_bound(s.regs[0] as int, pow2(w as nat) as int);
        crate::laws::shift::lemma_bit(v, (w - 1) as u32);
        crate::laws::shift::lemma_sign_bit(v as int, w);
    }
}

/// The instructions that set, clear or flip one flag: CF is bit 0, IF bit 9, DF
/// bit 10. Nothing else changes.
pub proof fn law_flag_instructions(s: State, inst: Inst)
    requires
        !s.execute(inst).faulted(),
    ensures
        ({
            let on = |bit: u32| State { flags: s.flags | bit, ..s };
            let off = |bit: u32| State { flags: s.flags & !bit, ..s };
            let t = s.execute(inst);
            &&& inst is Clc ==> t == off(1)
            &&& inst is Stc ==> t == on(1)
            &&& inst is Cmc ==> t == if s.flags & 1 != 0 { off(1) } else { on(1) }
            &&& inst is Cli ==> t == off(0x200)
            &&& inst is Sti ==> t == on(0x200)
            &&& inst is Cld ==> t == off(0x400)
            &&& inst is Std ==> t == on(0x400)
        }),
{
    if inst is Clc || inst is Stc || inst is Cmc || inst is Cli || inst is Sti || inst is Cld
        || inst is Std {
        lemma_data(s, inst);
        reveal(State::data_inst);
    }
}

/// A shift or rotate takes its count from the encoding or from CL, and puts the
/// result and the flags in place.
pub proof fn law_shift_instructions(
    s: State,
    inst: Inst,
    op: ShiftOp,
    m: ModRm,
    width: u32,
    imm: u8,
)
    requires
        s.regs.len() == 16,
        !s.execute(inst).faulted(),
    ensures
        ({
            let (t, v) = s.read_rm(m, width);
            let after = |n: u32|
                ({
                    let o = crate::instructions::shift::shifted(op, t.flags, v, n, width);
                    written(t, o.flags, m, width, o.value)
                });
            &&& inst == (Inst::Shift { op, m, width, count: ShiftCount::One }) ==> s.execute(inst)
                == after(1)
            &&& inst == (Inst::Shift { op, m, width, count: ShiftCount::Cl }) ==> s.execute(inst)
                == after((s.regs[1] % 0x100) as u32)
            &&& inst == (Inst::ShiftImm { op, m, width, imm }) ==> s.execute(inst) == after(
                imm as u32,
            )
        }),
{
    lemma_committed(s, inst);
    reveal(State::move_inst);
    reveal(State::arith_inst);
    reveal(State::shift_rm);
    crate::laws::fields::lemma_fields8(1);
    lemma_narrow(s.regs[1]);
}

/// CMPXCHG8B compares EDX:EAX with the eight bytes at its operand. Where they are
/// equal it sets ZF and stores ECX:EBX there, else it clears ZF and loads EDX:EAX
/// from there; the low half comes first in memory.
pub proof fn law_wide_compare_and_exchange(s: State, m: ModRm, phys: usize)
    requires
        ({
            let (a, p) = s.access(s.rm_linear(m), Access::Write);
            p == phys && !a.faulted() && a.regs.len() == 16
        }),
        phys & 0xFFF <= 0xFF0,
        phys < 0xFFFF_FFF0,
    ensures
        ({
            let a = s.access(s.rm_linear(m), Access::Write).0;
            let lo = stored(a.mem, phys, 4);
            let hi = stored(a.mem, (phys + 4) as usize, 4);
            let r = |i: int| a.regs[i] as int % 0x1_0000_0000;
            s.compare_exchange8b(m) == if lo == r(0) && hi == r(2) {
                State {
                    flags: a.flags | 0x40,
                    mem: a.mem.write_w(phys, 32, r(3) as u64).write_w(
                        (phys + 4) as usize,
                        32,
                        r(1) as u64,
                    ),
                    ..a
                }
            } else {
                State { flags: a.flags & !0x40, ..a }.with_reg_w(0, 32, lo as u64).with_reg_w(
                    2,
                    32,
                    hi as u64,
                )
            }
        }),
{
    reveal(State::compare_exchange8b);
    reveal(State::reach);
    reveal(State::put_span);
    reveal(State::set_reg32);
    reveal(State::with_reg_w);
    reveal(crate::memory::MemView::span_read);
    reveal(crate::memory::MemView::span_write);
    let a = s.access(s.rm_linear(m), Access::Write).0;
    assert(s.reach(s.rm_linear(m), 8, Access::Write) == (a, crate::cpu::span::Span::flat(phys)));
    assert(phys.wrapping_add(0) == phys && phys.wrapping_add(4) == phys + 4);
    crate::laws::bytes::lemma_stored(a.mem, phys, 32);
    crate::laws::bytes::lemma_stored(a.mem, (phys + 4) as usize, 32);
    lemma_narrow(a.regs[0]);
    lemma_narrow(a.regs[1]);
    lemma_narrow(a.regs[2]);
    lemma_narrow(a.regs[3]);
    crate::laws::fields::lemma_fields8(0);
    crate::laws::fields::lemma_fields8(1);
    crate::laws::fields::lemma_fields8(2);
    crate::laws::fields::lemma_fields8(3);
}

} // verus!
