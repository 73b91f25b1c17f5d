//! Laws of control flow: where each branch goes, what a condition asks of the
//! flags, and how the stack pointer moves.

use crate::cpu::SegReg;
use crate::instructions::{Cond, Inst, LoopCond};
use crate::laws::effects::{lemma_committed, low};
use crate::laws::fields::{lemma_displacement, lemma_fields8, lemma_narrow};
use crate::laws::sums::lemma_powers;
use crate::laws::views::{law_registers_are_remainders, law_register_writes_replace_their_part};
use crate::state::State;
use vstd::arithmetic::power2::{lemma2_to64, pow2};
use vstd::prelude::*;

verus! {

/// The instruction pointer moved by a displacement from where it is: RIP in
/// 64-bit code, EIP at an operand size of 32 bits, else IP. Each wraps at its
/// own size.
pub open spec fn displaced(s: State, rel: int) -> State {
    if s.long64() {
        State { rip: ((s.rip + rel) % 0x1_0000_0000_0000_0000) as u64, ..s }
    } else if s.pfx.opsize {
        State { rip: ((s.rip as int % 0x1_0000_0000 + rel) % 0x1_0000_0000) as u64, ..s }
    } else {
        State { ip: ((s.ip + rel) % 0x1_0000) as u16, ..s }
    }
}

/// The instruction pointer set: all of RIP in 64-bit code, else EIP.
pub open spec fn moved(s: State, t: int) -> State {
    State { rip: (if s.long64() { t } else { t % 0x1_0000_0000 }) as u64, ..s }
}

/// A branch adds its displacement.
proof fn lemma_branch(s: State, rel: i64)
    ensures
        s.branch(rel) == displaced(s, rel as int),
{
    lemma_displacement(rel, 0);
    lemma_narrow(s.rip);
    lemma_far(s.rip, rel as u64, rel as int);
    lemma_near(s.eip(), rel as u32, rel as int);
    lemma_short(s.ip, rel as u16, rel as int);
}

pub(crate) proof fn lemma_far(a: u64, x: u64, rel: int)
    requires
        x == rel % 0x1_0000_0000_0000_0000,
    ensures
        a.wrapping_add(x) == (a + rel) % 0x1_0000_0000_0000_0000,
{
    vstd::arithmetic::div_mod::lemma_add_mod_noop_right(
        a as int,
        rel,
        0x1_0000_0000_0000_0000,
    );
}

proof fn lemma_near(a: u32, x: u32, rel: int)
    requires
        x == rel % 0x1_0000_0000,
    ensures
        a.wrapping_add(x) == (a + rel) % 0x1_0000_0000,
{
    vstd::arithmetic::div_mod::lemma_add_mod_noop_right(a as int, rel, 0x1_0000_0000);
}

proof fn lemma_short(a: u16, x: u16, rel: int)
    requires
        x == rel % 0x1_0000,
    ensures
        a.wrapping_add(x) == (a + rel) % 0x1_0000,
{
    vstd::arithmetic::div_mod::lemma_add_mod_noop_right(a as int, rel, 0x1_0000);
}

/// Branches, calls and returns are among the instructions of control flow.
proof fn lemma_flow(s: State, inst: Inst)
    requires
        inst is JmpRel8 || inst is JmpRel16 || inst is JmpRel32 || inst is Jcc || inst is Jcc32
            || inst is Loop || inst is CallRel16 || inst is CallRel32 || inst is CallRm32
            || inst is JmpRm32 || inst is Ret || inst is Ret32 || inst is RetImm,
        !s.execute(inst).faulted(),
    ensures
        s.execute(inst) == s.flow_inst(inst),
{
    lemma_committed(s, inst);
    reveal(State::move_inst);
    reveal(State::arith_inst);
}

/// What a condition of a given number asks of the flags: overflow, carry, zero,
/// carry or zero, sign, parity, sign unlike overflow, that or zero. An odd
/// number asks for the opposite.
pub open spec fn asked(n: int, word: u32) -> bool {
    let (cf, pf, zf) = (word & 1 != 0, word & 4 != 0, word & 0x40 != 0);
    let (sf, of) = (word & 0x80 != 0, word & 0x800 != 0);
    let yes = seq![of, cf, zf, cf || zf, sf, pf, sf != of, zf || sf != of][n / 2];
    if n % 2 == 0 { yes } else { !yes }
}

/// The conditions are numbered by the low four bits of an opcode.
pub proof fn law_conditions_are_numbered(i: u8, s: State)
    ensures
        Cond::of(i).holds(s) <==> asked(i as int % 16, s.flags),
{
    lemma_fields8(i);
}

/// A relative jump adds its displacement to the instruction pointer; a
/// conditional one does so where its condition holds, and changes nothing else.
pub proof fn law_jumps_are_relative(s: State, inst: Inst, i: u8)
    requires
        !s.execute(inst).faulted(),
    ensures
        match inst {
            Inst::JmpRel8 { rel } => s.execute(inst) == displaced(s, rel as int),
            Inst::JmpRel32 { rel } => s.execute(inst) == displaced(s, rel as int),
            Inst::JmpRel16 { rel } => s.execute(inst) == (State {
                ip: ((s.ip + rel) % 0x1_0000) as u16,
                ..s
            }),
            Inst::Jcc { cond, rel } => cond == Cond::of(i) ==> s.execute(inst) == if asked(
                i as int % 16,
                s.flags,
            ) {
                displaced(s, rel as int)
            } else {
                s
            },
            Inst::Jcc32 { cond, rel } => cond == Cond::of(i) ==> s.execute(inst) == if asked(
                i as int % 16,
                s.flags,
            ) {
                displaced(s, rel as int)
            } else {
                s
            },
            _ => true,
        },
{
    law_conditions_are_numbered(i, s);
    match inst {
        Inst::JmpRel8 { rel } => {
            lemma_flow(s, inst);
            reveal(State::flow_inst);
            lemma_branch(s, rel as i64);
        },
        Inst::JmpRel32 { rel } => {
            lemma_flow(s, inst);
            reveal(State::flow_inst);
            lemma_branch(s, rel as i64);
        },
        Inst::JmpRel16 { rel } => {
            lemma_flow(s, inst);
            reveal(State::flow_inst);
            lemma_displacement(0, rel);
            lemma_short(s.ip, rel as u16, rel as int);
        },
        Inst::Jcc { cond, rel } => {
            lemma_flow(s, inst);
            reveal(State::flow_inst);
            lemma_branch(s, rel as i64);
        },
        Inst::Jcc32 { cond, rel } => {
            lemma_flow(s, inst);
            reveal(State::flow_inst);
            lemma_branch(s, rel as i64);
        },
        _ => {},
    }
}

/// The count register at the address size.
pub open spec fn count(s: State) -> int {
    s.regs[1] as int % pow2(s.asize() as nat) as int
}

/// LOOP takes one from the count register, at the address size, and goes back
/// while something is left, LOOPZ and LOOPNZ only while ZF is set or clear;
/// JCXZ goes where the count is zero and counts nothing.
#[verifier::spinoff_prover]
pub proof fn law_loops_count_down(s: State, cond: LoopCond, rel: i8)
    requires
        s.regs.len() == 16,
        !s.execute(Inst::Loop { cond, rel }).faulted(),
    ensures
        ({
            let t = s.execute(Inst::Loop { cond, rel });
            let w = s.asize();
            let left = (count(s) - 1) % pow2(w as nat) as int;
            let zf = s.flags & 0x40 != 0;
            let counted = if cond == LoopCond::Jcxz { s } else { s.with_reg_w(1, w, left as u64) };
            let again = match cond {
                LoopCond::Jcxz => count(s) == 0,
                LoopCond::Loop => left != 0,
                LoopCond::Loopz => left != 0 && zf,
                LoopCond::Loopnz => left != 0 && !zf,
            };
            t == if again { displaced(counted, rel as int) } else { counted }
        }),
{
    let inst = Inst::Loop { cond, rel };
    lemma_flow(s, inst);
    reveal(State::flow_inst);
    reveal(State::looped);
    lemma2_to64();
    let w = s.asize();
    lemma_powers(w);
    law_registers_are_remainders(s, 1, w);
    let c = s.reg_w(1, w);
    assert(c == count(s));
    let left = crate::instructions::alu::trunc(c.wrapping_sub(1), w);
    lemma_counted(c, w);
    assert(left == (count(s) - 1) % pow2(w as nat) as int);
    let counted = if cond == LoopCond::Jcxz { s } else { s.with_reg_w(1, w, left) };
    law_register_writes_replace_their_part(s, 1, w, left, 1);
    lemma_branch(counted, rel as i64);
}

/// One less, at a width.
proof fn lemma_counted(c: u64, w: u32)
    requires
        w == 16 || w == 32 || w == 64,
        c < pow2(w as nat),
    ensures
        crate::instructions::alu::trunc(c.wrapping_sub(1), w) == (c - 1) % pow2(w as nat) as int,
{
    lemma2_to64();
    lemma_powers(w);
    lemma_narrow(c.wrapping_sub(1));
    if w == 16 {
        assert(c.wrapping_sub(1) % 0x1_0000 == (c - 1) % 0x1_0000);
    } else if w == 32 {
        assert(c.wrapping_sub(1) % 0x1_0000_0000 == (c - 1) % 0x1_0000_0000);
    } else {
        assert(c.wrapping_sub(1) == (c - 1) % 0x1_0000_0000_0000_0000);
    }
}

/// The width of the stack pointer for a slot of `w` bits: 64 bits in 64-bit code
/// and for quad words, 32 in protected mode, 16 in real mode.
pub open spec fn pointer(s: State, w: u32) -> u32 {
    if w == 64 || s.long64() {
        64
    } else if s.pe {
        32
    } else {
        16
    }
}

/// The stack pointer.
pub open spec fn top(s: State, w: u32) -> int {
    s.regs[4] as int % pow2(pointer(s, w) as nat) as int
}

/// A push goes below the stack pointer: `w / 8` bytes down, where the value is
/// stored, and there the stack pointer is left.
#[verifier::spinoff_prover]
pub proof fn law_pushes_go_down(s: State, w: u32, v: u64)
    requires
        s.regs.len() == 16,
        w == 16 || w == 32 || w == 64,
        !s.push(w, v).faulted(),
    ensures
        ({
            let p = pointer(s, w);
            let below = ((top(s, w) - w / 8) % pow2(p as nat) as int) as u64;
            let t = s.push(w, v);
            if p == 16 {
                let at = ((s.ss * 16 + below) % 0x10_0000) as usize;
                t == State { mem: s.mem.write_w(at, w, v), ..s.with_reg_w(4, 16, below) }
            } else {
                t == s.store(s.linear_addr(SegReg::Ss, below), w, v).with_reg_w(4, p, below)
            }
        }),
{
    reveal(State::push);
    reveal(State::with_reg_w);
    lemma2_to64();
    let p = pointer(s, w);
    lemma_powers(p);
    law_registers_are_remainders(s, 4, p);
    let below = ((top(s, w) - w / 8) % pow2(p as nat) as int) as u64;
    lemma_below(top(s, w), w as int / 8, p);
}

/// A pop takes the value at the stack pointer and moves it `w / 8` bytes up.
#[verifier::spinoff_prover]
pub proof fn law_pops_go_up(s: State, w: u32)
    requires
        s.regs.len() == 16,
        w == 16 || w == 32 || w == 64,
        !s.pop(w).0.faulted(),
    ensures
        ({
            let p = pointer(s, w);
            let at = top(s, w) as u64;
            let above = ((at + w / 8) % pow2(p as nat) as int) as u64;
            let (t, v) = s.pop(w);
            if p == 16 {
                &&& t == s.with_reg_w(4, 16, above)
                &&& v == s.mem.read_w(((s.ss * 16 + at) % 0x10_0000) as usize, w)
            } else {
                let (a, x) = s.load(s.linear_addr(SegReg::Ss, at), w);
                &&& t == a.with_reg_w(4, p, above)
                &&& v == x
            }
        }),
{
    reveal(State::pop);
    reveal(State::with_reg_w);
    lemma2_to64();
    let p = pointer(s, w);
    lemma_powers(p);
    law_registers_are_remainders(s, 4, p);
    lemma_above(top(s, w), w as int / 8, p);
}

/// A pointer some bytes lower.
proof fn lemma_below(t: int, n: int, p: u32)
    requires
        p == 16 || p == 32 || p == 64,
        0 <= t < pow2(p as nat),
        n == 2 || n == 4 || n == 8,
    ensures
        0 <= (t - n) % (pow2(p as nat) as int) < pow2(p as nat),
        (t - n) % pow2(p as nat) as int == if t >= n { t - n } else { t - n + pow2(p as nat) },
{
    lemma2_to64();
    lemma_powers(p);
    if p == 16 {
    } else if p == 32 {
    } else {
    }
}

/// A pointer some bytes higher.
proof fn lemma_above(t: int, n: int, p: u32)
    requires
        p == 16 || p == 32 || p == 64,
        0 <= t < pow2(p as nat),
        n == 2 || n == 4 || n == 8,
    ensures
        0 <= (t + n) % (pow2(p as nat) as int) < pow2(p as nat),
        (t + n) % pow2(p as nat) as int == if t + n < pow2(p as nat) {
            t + n
        } else {
            t + n - pow2(p as nat)
        },
{
    lemma2_to64();
    lemma_powers(p);
    if p == 16 {
    } else if p == 32 {
    } else {
    }
}

/// The width of a near return address: that of a stack slot.
pub open spec fn slot(s: State) -> u32 {
    if s.long64() {
        64
    } else if s.pfx.opsize {
        32
    } else {
        16
    }
}

/// A near call pushes the address after it and goes where a jump with the same
/// operand goes.
#[verifier::spinoff_prover]
pub proof fn law_calls_push_the_return_address(s: State, inst: Inst)
    requires
        !s.execute(inst).faulted(),
    ensures
        ({
            let next = if s.long64() { s.rip } else { (s.rip as int % 0x1_0000_0000) as u64 };
            match inst {
                Inst::CallRel16 { rel } => ({
                    let p = s.push(16, s.ip as u64);
                    s.execute(inst) == (State { ip: ((p.ip + rel) % 0x1_0000) as u16, ..p })
                }),
                Inst::CallRel32 { rel } => s.execute(inst) == displaced(
                    s.push(slot(s), next),
                    rel as int,
                ),
                Inst::CallRm32 { m } => ({
                    let (a, t) = s.read_rm(m, slot(s));
                    s.execute(inst) == moved(
                        a.push(slot(s), a.return_address()),
                        t as int,
                    ).unfetched()
                }),
                Inst::JmpRm32 { m } => ({
                    let (a, t) = s.read_rm(m, slot(s));
                    s.execute(inst) == moved(a, t as int).unfetched()
                }),
                _ => true,
            }
        }),
{
    lemma_narrow(s.rip);
    match inst {
        Inst::CallRel16 { rel } => {
            lemma_flow(s, inst);
            reveal(State::flow_inst);
            lemma_displacement(0, rel);
            lemma_short(s.push(16, s.ip as u64).ip, rel as u16, rel as int);
        },
        Inst::CallRel32 { rel } => {
            lemma_flow(s, inst);
            reveal(State::flow_inst);
            reveal(State::call32);
            let p = s.push(s.stack_width(), s.return_address());
            lemma_branch(p, rel as i64);
        },
        Inst::CallRm32 { m } => {
            lemma_flow(s, inst);
            reveal(State::flow_inst);
            reveal(State::call_rm);
            let (a, t) = s.read_rm(m, slot(s));
            lemma_narrow(t);
        },
        Inst::JmpRm32 { m } => {
            lemma_flow(s, inst);
            reveal(State::flow_inst);
            reveal(State::jmp_rm);
            let (a, t) = s.read_rm(m, slot(s));
            lemma_narrow(t);
        },
        _ => {},
    }
}

/// A near return pops its address; with an immediate it then drops that many
/// bytes of arguments.
#[verifier::spinoff_prover]
pub proof fn law_returns_pop_their_address(s: State, inst: Inst)
    requires
        !s.execute(inst).faulted(),
    ensures
        match inst {
            Inst::Ret => ({
                let (a, t) = s.pop(16);
                s.execute(inst) == (State { ip: (t % 0x1_0000) as u16, ..a })
            }),
            Inst::Ret32 => ({
                let (a, t) = s.pop(slot(s));
                s.execute(inst) == moved(a, t as int)
            }),
            Inst::RetImm { imm, w32 } => ({
                let w: u32 = if s.long64() {
                    64
                } else if w32 {
                    32
                } else {
                    16
                };
                let (a, t) = s.pop(w);
                let dropped = ((a.reg_w(4, w) + imm) % pow2(w as nat) as int) as u64;
                let b = a.with_reg_w(4, w, dropped);
                s.execute(inst) == if w == 16 {
                    State { ip: (t % 0x1_0000) as u16, ..b }
                } else if w == 32 {
                    State { rip: t % 0x1_0000_0000, ..b }
                } else {
                    State { rip: t, ..b }
                }
            }),
            _ => true,
        },
{
    match inst {
        Inst::Ret => {
            lemma_flow(s, inst);
            reveal(State::flow_inst);
            lemma_narrow(s.pop(16).1);
        },
        Inst::Ret32 => {
            lemma_flow(s, inst);
            reveal(State::flow_inst);
            reveal(State::ret32);
            lemma_narrow(s.pop(slot(s)).1);
        },
        Inst::RetImm { imm, w32 } => {
            lemma_flow(s, inst);
            reveal(State::flow_inst);
            lemma_ret_imm(s, imm, w32);
        },
        _ => {},
    }
}

proof fn lemma_ret_imm(s: State, imm: u16, w32: bool)
    ensures
        ({
            let w: u32 = if s.long64() {
                64
            } else if w32 {
                32
            } else {
                16
            };
            let (a, t) = s.pop(w);
            let dropped = ((a.reg_w(4, w) + imm) % pow2(w as nat) as int) as u64;
            let b = a.with_reg_w(4, w, dropped);
            s.ret_imm(imm, w32) == if w == 16 {
                State { ip: (t % 0x1_0000) as u16, ..b }
            } else if w == 32 {
                State { rip: t % 0x1_0000_0000, ..b }
            } else {
                State { rip: t, ..b }
            }
        }),
{
    reveal(State::ret_imm);
    reveal(State::with_reg_w);
    lemma2_to64();
    if s.long64() {
        let (a, t) = s.pop(64);
        assert(a.reg64(4).wrapping_add(imm as u64) == (a.reg64(4) + imm) % 0x1_0000_0000_0000_0000);
    } else if w32 {
        let (a, t) = s.pop(32);
        lemma_narrow(t);
        assert(a.reg32(4).wrapping_add(imm as u32) == (a.reg32(4) + imm) % 0x1_0000_0000);
    } else {
        let (a, t) = s.pop(16);
        lemma_narrow(t);
        assert(a.reg16(4).wrapping_add(imm) == (a.reg16(4) + imm) % 0x1_0000);
    }
}

} // verus!
