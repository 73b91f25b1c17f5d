//! Laws of the arithmetic instructions: which operands an instruction takes,
//! what it computes and where the result goes.

use crate::instructions::alu::{bitwise, even_parity, modulus, trunc};
use crate::instructions::{AluOp, Dir, Inst};
use crate::laws::arith::is_width;
use crate::laws::fields::lemma_joined;
use crate::laws::sums::{
    as_signed, carry, described, law_addition_is_exact, law_subtraction_is_exact, lemma_low_ones,
    lemma_powers, others_kept,
};
use crate::modrm::ModRm;
use crate::state::State;
use vstd::arithmetic::power2::pow2;
use vstd::prelude::*;

verus! {

/// The full operand size: 64 bits with REX.W, else 32 or 16.
pub open spec fn full(s: State) -> u32 {
    if s.pfx.rex_w {
        64
    } else if s.pfx.opsize {
        32
    } else {
        16
    }
}

/// The remainder of a value at a width.
pub open spec fn low(v: int, w: u32) -> int {
    v % pow2(w as nat) as int
}

/// AND, OR and XOR work bit by bit on the low `w` bits, and clear CF and OF.
#[verifier::spinoff_prover]
pub proof fn law_bitwise_operations(s: State, op: AluOp, a: u64, b: u64, w: u32)
    requires
        is_width(w),
        op == AluOp::And || op == AluOp::Or || op == AluOp::Xor,
    ensures
        ({
            let o = s.alu(op, a, b, w);
            let r = if op == AluOp::And {
                a & b
            } else if op == AluOp::Or {
                a | b
            } else {
                a ^ b
            };
            &&& o.value == low(r as int, w)
            &&& o.flags & 1 == 0
            &&& o.flags & 0x800 == 0
            &&& o.flags & 0x10 == s.flags & 0x10
            &&& described(o, w)
            &&& others_kept(s.flags, o.flags)
        }),
{
    reveal(crate::instructions::alu::operate);
    reveal(crate::instructions::alu::logic_flags);
    lemma_powers(w);
    lemma_low_bits(a, b, w);
    let o = s.alu(op, a, b, w);
    let r = o.value;
    lemma_logic(s.flags, r, w);
    lemma_low_ones(r);
}

/// Bitwise operations on low bits are the low bits of bitwise operations.
proof fn lemma_low_bits(a: u64, b: u64, w: u32)
    requires
        is_width(w),
    ensures
        trunc(a, w) & trunc(b, w) == (a & b) as int % modulus(w),
        trunc(a, w) | trunc(b, w) == (a | b) as int % modulus(w),
        trunc(a, w) ^ trunc(b, w) == (a ^ b) as int % modulus(w),
{
    lemma_joined(0, 0, 0, 0, 0, 0, a, b);
    if w == 8 {
        assert(trunc(a, 8) == a % 0x100 && trunc(b, 8) == b % 0x100);
    } else if w == 16 {
        assert(trunc(a, 16) == a % 0x1_0000 && trunc(b, 16) == b % 0x1_0000);
    } else if w == 32 {
        assert(trunc(a, 32) == a % 0x1_0000_0000 && trunc(b, 32) == b % 0x1_0000_0000);
    } else {
        assert(trunc(a, 64) == a && trunc(b, 64) == b);
    }
}

/// What the bitwise operations leave in the flags.
pub(crate) proof fn lemma_logic(word: u32, r: u64, w: u32)
    ensures
        ({
            let f = bitwise(word, r, w).flags;
            &&& f & 1 == 0
            &&& f & 0x800 == 0
            &&& f & 0x10 == word & 0x10
            &&& f & 0x40 != 0 <==> r == 0
            &&& f & 0x80 != 0 <==> r >= modulus(w) / 2
            &&& f & 4 != 0 <==> even_parity(r as u8)
            &&& others_kept(word, f)
        }),
{
    reveal(crate::instructions::alu::logic_flags);
    crate::laws::fields::lemma_logic_bits(
        word,
        r >= modulus(w) / 2,
        r == 0,
        even_parity(r as u8),
    );
}

/// The state after an instruction that set flags and wrote its first operand.
pub open spec fn written(t: State, f: u32, m: ModRm, w: u32, v: u64) -> State {
    State { flags: f, ..t }.write_rm(m, w, v)
}

/// An instruction that raises nothing has the effect it is defined by.
pub(crate) proof fn lemma_committed(s: State, inst: Inst)
    requires
        !s.execute(inst).faulted(),
    ensures
        s.execute(inst) == s.move_inst(inst),
{
    reveal(State::execute);
    reveal(State::registers_into);
}

/// A two-operand instruction on r/m and a register computes first operand op
/// second operand, the destination being the first, and puts the result there,
/// CMP nowhere.
pub proof fn law_alu_instructions(s: State, inst: Inst, op: AluOp, m: ModRm, reg: u8, dir: Dir, w: u32)
    requires
        inst == (Inst::AluRm8Reg { op, m, reg, dir }) && w == 8 || inst == (Inst::AluRm16Reg {
            op,
            m,
            reg,
            dir,
        }) && w == 16 || inst == (Inst::AluRm32Reg { op, m, reg, dir }) && w == full(s),
        !s.execute(inst).faulted(),
    ensures
        ({
            let (t, v) = s.read_rm(m, w);
            let r = s.reg_w(reg, w);
            let o = if dir == Dir::RmReg { t.alu(op, v, r, w) } else { t.alu(op, r, v, w) };
            s.execute(inst) == if op == AluOp::Cmp {
                State { flags: o.flags, ..t }
            } else if dir == Dir::RmReg {
                written(t, o.flags, m, w, o.value)
            } else {
                State { flags: o.flags, ..t }.with_reg_w(reg, w, o.value)
            }
        }),
{
    lemma_committed(s, inst);
    reveal(State::move_inst);
    reveal(State::arith_inst);
    reveal(State::alu_rm_reg);
    reveal(State::set_reg_w);
}

/// What a two-operand instruction leaves whose second operand is an immediate.
pub open spec fn with_immediate(s: State, op: AluOp, m: ModRm, imm: u64, w: u32) -> State {
    let (t, v) = s.read_rm(m, w);
    let o = t.alu(op, v, imm, w);
    if op == AluOp::Cmp {
        State { flags: o.flags, ..t }
    } else {
        written(t, o.flags, m, w, o.value)
    }
}

/// And on the accumulator.
pub open spec fn on_accumulator(s: State, op: AluOp, imm: u64, w: u32) -> State {
    let o = s.alu(op, s.reg_w(0, w), imm, w);
    if op == AluOp::Cmp {
        State { flags: o.flags, ..s }
    } else {
        State { flags: o.flags, ..s }.with_reg_w(0, w, o.value)
    }
}

/// A double-word immediate at the full operand size: sign-extended.
pub open spec fn widened(imm: u32) -> u64 {
    (as_signed(imm as int, 32) % 0x1_0000_0000_0000_0000) as u64
}

/// And so with an immediate, or on the accumulator. A double-word immediate is
/// sign-extended.
pub proof fn law_alu_immediates(s: State, inst: Inst)
    requires
        !s.execute(inst).faulted(),
    ensures
        match inst {
            Inst::AluRm8Imm { op, m, imm } => s.execute(inst) == with_immediate(
                s,
                op,
                m,
                imm as u64,
                8,
            ),
            Inst::AluRm16Imm { op, m, imm, imm_is8: _ } => s.execute(inst) == with_immediate(
                s,
                op,
                m,
                imm as u64,
                16,
            ),
            Inst::AluRm32Imm { op, m, imm, imm_is8: _ } => s.execute(inst) == with_immediate(
                s,
                op,
                m,
                widened(imm),
                full(s),
            ),
            Inst::AluAccImm8 { op, imm } => s.execute(inst) == on_accumulator(s, op, imm as u64, 8),
            Inst::AluAccImm16 { op, imm } => s.execute(inst) == on_accumulator(
                s,
                op,
                imm as u64,
                16,
            ),
            Inst::AluAccImm32 { op, imm } => s.execute(inst) == on_accumulator(
                s,
                op,
                widened(imm),
                full(s),
            ),
            _ => true,
        },
{
    lemma_committed(s, inst);
    reveal(State::move_inst);
    reveal(State::arith_inst);
    reveal(State::alu_rm_imm);
    reveal(State::alu_acc_imm);
    reveal(State::set_reg_w);
    match inst {
        Inst::AluRm32Imm { op: _, m: _, imm: i, imm_is8: _ } => {
            lemma_sext32(i);
        },
        Inst::AluAccImm32 { op: _, imm: i } => {
            lemma_sext32(i);
        },
        _ => {},
    }
}

/// A double word sign-extended to a quad word.
pub(crate) proof fn lemma_sext32(i: u32)
    ensures
        crate::instructions::mov::sext(i as u64, 32) == as_signed(i as int, 32)
            % 0x1_0000_0000_0000_0000,
{
    crate::laws::fields::lemma_extended(0, 0, i);
    crate::laws::operands::lemma_signed32(i);
    crate::laws::fields::lemma_fields64(i as u64, 0);
}

/// INC and DEC add or take one at the width, keep CF, and describe the result in
/// the other flags.
#[verifier::spinoff_prover]
pub proof fn law_steps(s: State, v: u64, down: bool, w: u32)
    requires
        is_width(w),
    ensures
        ({
            let o = s.stepped(v, down, w);
            let one = if down { -1int } else { 1int };
            &&& o.value == low(v + one, w)
            &&& o.flags & 1 == s.flags & 1
            &&& o.flags & 0x800 != 0 <==> as_signed(o.value as int, w) != as_signed(v as int, w) + one
            &&& described(o, w)
            &&& others_kept(s.flags, o.flags)
        }),
{
    lemma_powers(w);
    let p = s.alu(if down { AluOp::Sub } else { AluOp::Add }, v, 1, w);
    if down {
        law_subtraction_is_exact(s, AluOp::Sub, v, 1, w);
    } else {
        law_addition_is_exact(s, v, 1, w, false);
    }
    crate::laws::fields::lemma_carry_kept(s.flags, p.flags);
    let m = pow2(w as nat) as int;
    crate::laws::sums::lemma_signed_one(w);
    assert(1int % m == 1) by (nonlinear_arith)
        requires
            m >= 0x100,
    ;
    let one = if down { -1int } else { 1int };
    let c = if down { -carry(p.flags) } else { carry(p.flags) };
    assert(p.value + c * m == v as int % m + one) by {
        assert((-carry(p.flags)) * m == -(carry(p.flags) * m)) by (nonlinear_arith);
    }
    lemma_reduced(p.value as int, c, v as int, one, m);
}

/// A number that differs by a multiple of the modulus is the remainder.
proof fn lemma_reduced(x: int, c: int, v: int, d: int, m: int)
    requires
        m > 0,
        0 <= x < m,
        x + c * m == v % m + d,
    ensures
        x == (v + d) % m,
{
    vstd::arithmetic::div_mod::lemma_fundamental_div_mod(v, m);
    let q = v / m;
    assert(v + d == x + (c + q) * m) by (nonlinear_arith)
        requires
            v == m * q + v % m,
            x + c * m == v % m + d,
    ;
    vstd::arithmetic::div_mod::lemma_fundamental_div_mod_converse(v + d, m, c + q, x);
}

/// INC or DEC of an operand.
pub open spec fn step_written(s: State, m: ModRm, down: bool, w: u32) -> State {
    let (t, v) = s.read_rm(m, w);
    let o = t.stepped(v, down, w);
    written(t, o.flags, m, w, o.value)
}

/// NEG of an operand: it is taken from zero.
pub open spec fn neg_written(s: State, m: ModRm, w: u32) -> State {
    let (t, v) = s.read_rm(m, w);
    let o = t.alu(AluOp::Sub, 0, v, w);
    written(t, o.flags, m, w, o.value)
}

/// NOT of an operand: its complement, and no flags.
pub open spec fn not_written(s: State, m: ModRm, w: u32) -> State {
    let (t, v) = s.read_rm(m, w);
    t.write_rm(m, w, (u64::MAX - v) as u64)
}

/// Which operand INC, DEC, NOT and NEG work on: it is read, and written back.
pub proof fn law_one_operand_instructions(s: State, inst: Inst)
    requires
        !s.execute(inst).faulted(),
    ensures
        match inst {
            Inst::IncRm8 { m } => s.execute(inst) == step_written(s, m, false, 8),
            Inst::IncRm16 { m } => s.execute(inst) == step_written(s, m, false, 16),
            Inst::IncRm32 { m } => s.execute(inst) == step_written(s, m, false, full(s)),
            Inst::DecRm8 { m } => s.execute(inst) == step_written(s, m, true, 8),
            Inst::DecRm16 { m } => s.execute(inst) == step_written(s, m, true, 16),
            Inst::DecRm32 { m } => s.execute(inst) == step_written(s, m, true, full(s)),
            Inst::NegRm8 { m } => s.execute(inst) == neg_written(s, m, 8),
            Inst::NegRm16 { m } => s.execute(inst) == neg_written(s, m, 16),
            Inst::NegRm32 { m } => s.execute(inst) == neg_written(s, m, full(s)),
            Inst::NotRm8 { m } => s.execute(inst) == not_written(s, m, 8),
            Inst::NotRm16 { m } => s.execute(inst) == not_written(s, m, 16),
            Inst::NotRm32 { m } => s.execute(inst) == not_written(s, m, full(s)),
            _ => true,
        },
{
    lemma_committed(s, inst);
    reveal(State::move_inst);
    reveal(State::arith_inst);
    reveal(State::step_rm);
    reveal(State::neg_rm);
    reveal(State::not_rm);
    match inst {
        Inst::NotRm8 { m } => {
            crate::laws::fields::lemma_complement(s.read_rm(m, 8).1);
        },
        Inst::NotRm16 { m } => {
            crate::laws::fields::lemma_complement(s.read_rm(m, 16).1);
        },
        Inst::NotRm32 { m } => {
            crate::laws::fields::lemma_complement(s.read_rm(m, full(s)).1);
        },
        _ => {},
    }
}

/// INC and DEC of a register, and TEST, which writes nothing.
pub proof fn law_register_steps_and_tests(s: State, inst: Inst)
    requires
        !s.execute(inst).faulted(),
    ensures
        ({
            let e = s.execute(inst);
            match inst {
                Inst::IncReg16 { dst } => e == (State {
                    flags: s.stepped(s.reg_w(dst, 16), false, 16).flags,
                    ..s
                }).with_reg_w(dst, 16, s.stepped(s.reg_w(dst, 16), false, 16).value),
                Inst::DecReg16 { dst } => e == (State {
                    flags: s.stepped(s.reg_w(dst, 16), true, 16).flags,
                    ..s
                }).with_reg_w(dst, 16, s.stepped(s.reg_w(dst, 16), true, 16).value),
                Inst::IncReg32 { dst } => e == (State {
                    flags: s.stepped(s.reg_w(dst, 32), false, 32).flags,
                    ..s
                }).with_reg_w(dst, 32, s.stepped(s.reg_w(dst, 32), false, 32).value),
                Inst::DecReg32 { dst } => e == (State {
                    flags: s.stepped(s.reg_w(dst, 32), true, 32).flags,
                    ..s
                }).with_reg_w(dst, 32, s.stepped(s.reg_w(dst, 32), true, 32).value),
                Inst::TestRm8Reg { m, reg } => tests(s, e, m, s.reg_w(reg, 8), 8),
                Inst::TestRm16Reg { m, reg } => tests(s, e, m, s.reg_w(reg, 16), 16),
                Inst::TestRm32Reg { m, reg } => tests(s, e, m, s.reg_w(reg, full(s)), full(s)),
                Inst::TestRm8Imm { m, imm } => tests(s, e, m, imm as u64, 8),
                Inst::TestRm16Imm { m, imm } => tests(s, e, m, imm as u64, 16),
                Inst::TestRm32Imm { m, imm } => tests(
                    s,
                    e,
                    m,
                    widened(imm),
                    full(s),
                ),
                Inst::TestAccImm8 { imm } => e == (State {
                    flags: s.alu(AluOp::And, s.reg_w(0, 8), imm as u64, 8).flags,
                    ..s
                }),
                Inst::TestAccImm16 { imm } => e == (State {
                    flags: s.alu(AluOp::And, s.reg_w(0, 16), imm as u64, 16).flags,
                    ..s
                }),
                Inst::TestAccImm32 { imm } => e == (State {
                    flags: s.alu(
                        AluOp::And,
                        s.reg_w(0, full(s)),
                        widened(imm),
                        full(s),
                    ).flags,
                    ..s
                }),
                _ => true,
            }
        }),
{
    lemma_committed(s, inst);
    reveal(State::move_inst);
    reveal(State::arith_inst);
    reveal(State::step_reg);
    reveal(State::test_rm);
    reveal(State::set_reg_w);
    match inst {
        Inst::TestRm32Imm { m: _, imm } => {
            lemma_sext32(imm);
        },
        Inst::TestAccImm32 { imm } => {
            lemma_sext32(imm);
        },
        _ => {},
    }
}

/// The flags of AND, and nothing else but the reading of the operand.
pub open spec fn tests(s: State, e: State, m: ModRm, b: u64, w: u32) -> bool {
    let (t, v) = s.read_rm(m, w);
    e == (State { flags: t.alu(AluOp::And, v, b, w).flags, ..t })
}

} // verus!
