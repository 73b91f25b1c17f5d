//! Laws of multiplication and division: the registers hold the whole product,
//! and quotient and remainder give back the dividend.

use crate::instructions::alu::{modulus, signed, trunc};
use crate::instructions::muldiv::{carry_overflow, high_of, quotient, remainder, word_of};
use crate::instructions::Inst;
use crate::laws::arith::{is_width, law_division};
use crate::laws::effects::{full, lemma_committed, low};
use crate::laws::sums::{as_signed, lemma_powers, lemma_signed};
use crate::laws::views::{
    law_register_writes_replace_their_part, law_registers_are_remainders, lemma_other_reg,
    lemma_read_back,
};
use crate::modrm::ModRm;
use crate::state::State;
use vstd::arithmetic::power2::pow2;
use vstd::prelude::*;

verus! {

/// The double-width number in the accumulator: AX, or data register and
/// accumulator.
pub open spec fn accumulated(s: State, w: u32) -> int {
    if w == 8 {
        s.regs[0] as int % 0x1_0000
    } else {
        low(s.regs[2] as int, w) * pow2(w as nat) + low(s.regs[0] as int, w)
    }
}

/// That number read as two's complement of twice the width.
pub open spec fn signed_accumulated(s: State, w: u32) -> int {
    let d = accumulated(s, w);
    let m = pow2(w as nat) as int;
    if 2 * d < m * m { d } else { d - m * m }
}

/// Nothing but the accumulator, the data register and the flags differs.
pub open spec fn only_products(s: State, t: State) -> bool {
    &&& t == (State { regs: t.regs, flags: t.flags, ..s })
    &&& t.regs.len() == 16
    &&& forall|j: int| 0 <= j < 16 && j != 0 && j != 2 ==> #[trigger] t.regs[j] == s.regs[j]
}

/// Carry and overflow are both set or both clear, and nothing else has changed.
pub open spec fn both(old: u32, new: u32, on: bool) -> bool {
    &&& new & 1 != 0 <==> on
    &&& new & 0x800 != 0 <==> on
    &&& new & !0x801 == old & !0x801
}

pub(crate) proof fn lemma_both(word: u32, on: bool)
    ensures
        both(word, carry_overflow(word, on), on),
{
    crate::laws::fields::lemma_two_flags(word, on, on);
}

/// The accumulator and the data register after a double-width product.
#[verifier::spinoff_prover]
proof fn lemma_product(s: State, p: int, w: u32)
    requires
        is_width(w),
        s.regs.len() == 16,
        !s.faulted(),
        w == 8 ==> -0x8000 <= p < 0x1_0000,
    ensures
        ({
            let t = s.with_product(p, w);
            let m = pow2(w as nat) as int;
            &&& only_products(s, t)
            &&& t.flags == s.flags
            &&& w == 8 ==> accumulated(t, w) == p % 0x1_0000
            &&& w != 8 ==> accumulated(t, w) == p / m % m * m + p % m
        }),
{
    reveal(State::with_product);
    reveal(State::set_reg_w);
    lemma_powers(w);
    if w == 8 {
        let v = word_of(p, 16);
        let t = s.with_reg_w(0, 16, v);
        assert forall|j: int| 0 <= j < 16 && j != 0 && j != 2 implies #[trigger] t.regs[j]
            == s.regs[j] by {
            law_register_writes_replace_their_part(s, 0, 16, v, j);
        }
        law_register_writes_replace_their_part(s, 0, 16, v, 0);
        law_register_writes_replace_their_part(s, 0, 16, v, 2);
    } else {
        let a = word_of(p, w);
        let d = high_of(p, w);
        let u = s.with_reg_w(0, w, a);
        let t = u.with_reg_w(2, w, d);
        law_register_writes_replace_their_part(s, 0, w, a, 0);
        assert forall|j: int| 0 <= j < 16 && j != 0 && j != 2 implies #[trigger] t.regs[j]
            == s.regs[j] by {
            law_register_writes_replace_their_part(s, 0, w, a, j);
            law_register_writes_replace_their_part(u, 2, w, d, j);
        }
        lemma_read_back(s, 0, w, a);
        lemma_read_back(u, 2, w, d);
        lemma_other_reg(u, 2, 0, w, d);
        law_register_writes_replace_their_part(u, 2, w, d, 0);
        law_registers_are_remainders(t, 0, w);
        law_registers_are_remainders(t, 2, w);
        let m = modulus(w);
        vstd::arithmetic::div_mod::lemma_mod_twice(p, m);
        vstd::arithmetic::div_mod::lemma_mod_twice(p / m, m);
    }
}

/// MUL: the accumulator holds the product of accumulator and operand, whole,
/// and carry and overflow say that it is wider than the operand.
pub open spec fn multiplied(s: State, e: State, m: ModRm, w: u32) -> bool {
    let (t, v) = s.read_rm(m, w);
    let p = low(v as int, w) * low(t.regs[0] as int, w);
    &&& only_products(t, e)
    &&& accumulated(e, w) == p
    &&& both(t.flags, e.flags, p >= pow2(w as nat))
}

/// One-operand IMUL: the same for signed numbers; carry and overflow say that
/// the product does not fit in the operand's width.
pub open spec fn multiplied_signed(s: State, e: State, m: ModRm, w: u32) -> bool {
    let (t, v) = s.read_rm(m, w);
    let p = as_signed(v as int, w) * as_signed(t.regs[0] as int, w);
    let half = pow2((w - 1) as nat) as int;
    &&& only_products(t, e)
    &&& signed_accumulated(e, w) == p
    &&& both(t.flags, e.flags, !(-half <= p < half))
}

#[verifier::spinoff_prover]
proof fn lemma_mul(s: State, m: ModRm, w: u32)
    requires
        is_width(w),
        s.read_rm(m, w).0.regs.len() == 16,
        !s.mul_rm(m, w).faulted(),
        !s.read_rm(m, w).0.faulted(),
    ensures
        multiplied(s, s.mul_rm(m, w), m, w),
{
    reveal(State::mul_rm);
    lemma_powers(w);
    let (t, v) = s.read_rm(m, w);
    law_registers_are_remainders(t, 0, w);
    let n = modulus(w);
    let a = low(v as int, w);
    let b = low(t.regs[0] as int, w);
    assert(trunc(v, w) == a);
    assert(trunc(t.reg_w(0, w), w) == b) by {
        assert(b % n == b) by (nonlinear_arith)
            requires
                n > 0,
                b == t.regs[0] as int % n,
        ;
    }
    let p = a * b;
    assert(0 <= p < n * n) by (nonlinear_arith)
        requires
            0 <= a < n,
            0 <= b < n,
            p == a * b,
    ;
    if w == 8 {
        assert(n == 0x100 && n * n == 0x1_0000);
    }
    lemma_product(t, p, w);
    let u = t.with_product(p, w);
    lemma_both(u.flags, p >= n);
    if w == 8 {
        assert(n * n == 0x1_0000);
        assert(p % 0x1_0000 == p);
    } else {
        lemma_whole(p, n);
    }
}

/// A number below the square of a modulus, put together from its halves.
proof fn lemma_whole(p: int, n: int)
    requires
        n > 0,
        0 <= p < n * n,
    ensures
        p / n % n * n + p % n == p,
{
    vstd::arithmetic::div_mod::lemma_fundamental_div_mod(p, n);
    let q = p / n;
    assert(0 <= q < n) by (nonlinear_arith)
        requires
            p == n * q + p % n,
            0 <= p % n < n,
            0 <= p < n * n,
            n > 0,
    ;
    assert(q % n == q) by (nonlinear_arith)
        requires
            0 <= q < n,
    ;
    assert(q * n == n * q) by (nonlinear_arith);
}

/// MUL at every width.
pub proof fn law_mul_gives_the_whole_product(s: State, inst: Inst)
    requires
        !s.execute(inst).faulted(),
    ensures
        match inst {
            Inst::MulRm8 { m } => ready(s, m, 8) ==> multiplied(s, s.execute(inst), m, 8),
            Inst::MulRm16 { m } => ready(s, m, 16) ==> multiplied(s, s.execute(inst), m, 16),
            Inst::MulRm32 { m } => ready(s, m, full(s)) ==> multiplied(
                s,
                s.execute(inst),
                m,
                full(s),
            ),
            _ => true,
        },
{
    lemma_committed(s, inst);
    reveal(State::move_inst);
    reveal(State::arith_inst);
    match inst {
        Inst::MulRm8 { m } => if ready(s, m, 8) {
            lemma_mul(s, m, 8);
        },
        Inst::MulRm16 { m } => if ready(s, m, 16) {
            lemma_mul(s, m, 16);
        },
        Inst::MulRm32 { m } => if ready(s, m, full(s)) {
            lemma_mul(s, m, full(s));
        },
        _ => {},
    }
}

/// The operand can be read, and the machine has its registers.
pub open spec fn ready(s: State, m: ModRm, w: u32) -> bool {
    !s.read_rm(m, w).0.faulted() && s.read_rm(m, w).0.regs.len() == 16
}

#[verifier::spinoff_prover]
proof fn lemma_imul(s: State, m: ModRm, w: u32)
    requires
        is_width(w),
        ready(s, m, w),
    ensures
        multiplied_signed(s, s.imul_rm(m, w), m, w),
{
    reveal(State::imul_rm);
    lemma_powers(w);
    let (t, v) = s.read_rm(m, w);
    law_registers_are_remainders(t, 0, w);
    let n = modulus(w);
    let b0 = low(t.regs[0] as int, w);
    assert(b0 % n == b0) by (nonlinear_arith)
        requires
            n > 0,
            b0 == t.regs[0] as int % n,
    ;
    let x = trunc(v, w);
    let y = trunc(t.reg_w(0, w), w);
    assert(y == b0);
    lemma_signed(v as int, x, w);
    lemma_signed(t.regs[0] as int, y, w);
    let a = signed(x, w);
    let b = signed(y, w);
    let p = a * b;
    let half = n / 2;
    let square = half * half;
    assert(-square <= p <= square) by (nonlinear_arith)
        requires
            -half <= a < half,
            -half <= b < half,
            p == a * b,
            half > 0,
            square == half * half,
    ;
    assert(4 * square == n * n && square > 0) by (nonlinear_arith)
        requires
            n == 2 * half,
            half > 0,
            square == half * half,
    ;
    if w == 8 {
        assert(half == 0x80 && n == 0x100);
        assert(n * n == 0x1_0000);
    }
    lemma_product(t, p, w);
    let u = t.with_product(p, w);
    lemma_both(u.flags, !crate::instructions::alu::fits(p, w));
    if w != 8 {
        if p >= 0 {
            lemma_whole(p, n);
        } else {
            lemma_whole(p + n * n, n);
            lemma_shifted(p, n);
        }
    }
}

/// Adding the square of a modulus does not show in the halves.
proof fn lemma_shifted(p: int, n: int)
    requires
        n > 0,
    ensures
        (p + n * n) % n == p % n,
        (p + n * n) / n % n == p / n % n,
{
    vstd::arithmetic::div_mod::lemma_fundamental_div_mod(p, n);
    assert(p + n * n == n * (p / n + n) + p % n) by (nonlinear_arith)
        requires
            p == n * (p / n) + p % n,
    ;
    assert(n * (p / n + n) == (p / n + n) * n) by (nonlinear_arith);
    vstd::arithmetic::div_mod::lemma_fundamental_div_mod_converse(
        p + n * n,
        n,
        p / n + n,
        p % n,
    );
    vstd::arithmetic::div_mod::lemma_mod_add_multiples_vanish(p / n, n);
}

/// IMUL with one operand, at every width.
pub proof fn law_imul_gives_the_whole_product(s: State, inst: Inst)
    requires
        !s.execute(inst).faulted(),
    ensures
        match inst {
            Inst::ImulRm8 { m } => ready(s, m, 8) ==> multiplied_signed(s, s.execute(inst), m, 8),
            Inst::ImulRm16 { m } => ready(s, m, 16) ==> multiplied_signed(
                s,
                s.execute(inst),
                m,
                16,
            ),
            Inst::ImulRm32 { m } => ready(s, m, full(s)) ==> multiplied_signed(
                s,
                s.execute(inst),
                m,
                full(s),
            ),
            _ => true,
        },
{
    lemma_committed(s, inst);
    reveal(State::move_inst);
    reveal(State::arith_inst);
    match inst {
        Inst::ImulRm8 { m } => if ready(s, m, 8) {
            lemma_imul(s, m, 8);
        },
        Inst::ImulRm16 { m } => if ready(s, m, 16) {
            lemma_imul(s, m, 16);
        },
        Inst::ImulRm32 { m } => if ready(s, m, full(s)) {
            lemma_imul(s, m, full(s));
        },
        _ => {},
    }
}

/// The quotient and the remainder a division leaves: AL and AH, or accumulator
/// and data register.
pub open spec fn quotient_in(s: State, w: u32) -> int {
    low(s.regs[0] as int, w)
}

pub open spec fn remainder_in(s: State, w: u32) -> int {
    if w == 8 { s.regs[0] as int / 0x100 % 0x100 } else { low(s.regs[2] as int, w) }
}

/// DIV: with a zero divisor, or at 32 and 64 bits a quotient too wide, a divide
/// error; otherwise the quotient and remainder of the double-width accumulator,
/// the quotient cut to the width at 8 and 16 bits.
pub open spec fn divided(s: State, e: State, m: ModRm, w: u32) -> bool {
    let (t, v) = s.read_rm(m, w);
    let a = accumulated(t, w);
    let b = low(v as int, w);
    let n = pow2(w as nat) as int;
    if b == 0 || (w >= 32 && a / b >= n) {
        e.pending_exception == Some((0u8, None::<u32>))
    } else {
        &&& only_products(t, e)
        &&& e.flags == t.flags
        &&& quotient_in(e, w) == a / b % n
        &&& remainder_in(e, w) == a % b
    }
}

/// IDIV: the same for signed numbers, the quotient rounded towards zero and the
/// remainder with the sign of the dividend, both as two's complement.
pub open spec fn divided_signed(s: State, e: State, m: ModRm, w: u32) -> bool {
    let (t, v) = s.read_rm(m, w);
    let a = signed_accumulated(t, w);
    let b = as_signed(v as int, w);
    let n = pow2(w as nat) as int;
    let half = pow2((w - 1) as nat) as int;
    let wide = pow2(w as nat) * pow2(w as nat);
    if b == 0 {
        e.pending_exception == Some((0u8, None::<u32>))
    } else {
        exists|q: int|
            {
                let r = a - #[trigger] (q * b);
                &&& -magnitude(b) < r < magnitude(b)
                &&& r == 0 || (r < 0 <==> a < 0)
                &&& if 2 * q == wide || (w >= 32 && !(-half <= q < half)) {
                    e.pending_exception == Some((0u8, None::<u32>))
                } else {
                    &&& only_products(t, e)
                    &&& e.flags == t.flags
                    &&& quotient_in(e, w) == q % n
                    &&& remainder_in(e, w) == r % n
                }
            }
    }
}

/// The magnitude of a number.
pub open spec fn magnitude(v: int) -> int {
    if v < 0 { -v } else { v }
}

/// The dividend, as the registers have it.
proof fn lemma_dividend(t: State, w: u32)
    requires
        is_width(w),
        t.regs.len() == 16,
    ensures
        t.dividend(w) == accumulated(t, w),
        t.signed_dividend(w) == signed_accumulated(t, w),
        0 <= accumulated(t, w) < modulus(w) * modulus(w),
{
    lemma_powers(w);
    let n = modulus(w);
    law_registers_are_remainders(t, 0, 16);
    lemma_powers(16);
    if w != 8 {
        law_registers_are_remainders(t, 0, w);
        law_registers_are_remainders(t, 2, w);
        vstd::arithmetic::div_mod::lemma_mod_twice(t.regs[0] as int, n);
        vstd::arithmetic::div_mod::lemma_mod_twice(t.regs[2] as int, n);
        let x = low(t.regs[2] as int, w);
        let y = low(t.regs[0] as int, w);
        assert(0 <= x * n + y < n * n) by (nonlinear_arith)
            requires
                0 <= x < n,
                0 <= y < n,
        ;
    } else {
        assert(n * n == 0x1_0000) by (nonlinear_arith)
            requires
                n == 0x100,
        ;
    }
}

/// The registers after a division.
#[verifier::spinoff_prover]
proof fn lemma_divided(t: State, q: int, r: int, w: u32)
    requires
        is_width(w),
        t.regs.len() == 16,
        !t.faulted(),
    ensures
        ({
            let e = t.with_division(q, r, w);
            &&& only_products(t, e)
            &&& e.flags == t.flags
            &&& quotient_in(e, w) == q % modulus(w)
            &&& remainder_in(e, w) == r % modulus(w)
        }),
{
    reveal(State::with_division);
    reveal(State::set_reg8_of);
    reveal(State::set_reg_w);
    lemma_powers(w);
    let n = modulus(w);
    let a = word_of(q, w);
    let d = word_of(r, w);
    vstd::arithmetic::div_mod::lemma_mod_twice(q, n);
    vstd::arithmetic::div_mod::lemma_mod_twice(r, n);
    if w == 8 {
        crate::laws::fields::lemma_fields8(0);
        let x = t.regs[0];
        let y = crate::cpu::regs::put8_low(x, a as u8);
        let z = crate::cpu::regs::put8_high(y, d as u8);
        crate::laws::fields::lemma_replaced(x, 0, a as u8);
        crate::laws::fields::lemma_replaced(y, 0, d as u8);
        assert(y == x as int / 0x100 * 0x100 + a);
        assert(y as int % 0x100 == a);
        assert(z == y as int / 0x1_0000 * 0x1_0000 + d * 0x100 + a);
        assert(z as int % 0x100 == a);
        assert(z as int / 0x100 % 0x100 == d);
    } else {
        let u = t.with_reg_w(0, w, a);
        let e = u.with_reg_w(2, w, d);
        law_register_writes_replace_their_part(t, 0, w, a, 0);
        assert forall|j: int| 0 <= j < 16 && j != 0 && j != 2 implies #[trigger] e.regs[j]
            == t.regs[j] by {
            law_register_writes_replace_their_part(t, 0, w, a, j);
            law_register_writes_replace_their_part(u, 2, w, d, j);
        }
        lemma_read_back(t, 0, w, a);
        lemma_read_back(u, 2, w, d);
        lemma_other_reg(u, 2, 0, w, d);
        law_register_writes_replace_their_part(u, 2, w, d, 0);
        law_registers_are_remainders(e, 0, w);
        law_registers_are_remainders(e, 2, w);
    }
}

#[verifier::spinoff_prover]
proof fn lemma_div(s: State, m: ModRm, w: u32)
    requires
        is_width(w),
        ready(s, m, w),
    ensures
        divided(s, s.div_rm(m, w), m, w),
        s.div_rm(m, w).faulted() ==> s.div_rm(m, w).pending_exception == Some((0u8, None::<u32>)),
{
    reveal(State::div_rm);
    lemma_powers(w);
    let (t, v) = s.read_rm(m, w);
    let a = accumulated(t, w);
    let b = low(v as int, w);
    let n = modulus(w);
    lemma_dividend(t, w);
    assert(trunc(v, w) == b);
    if b != 0 {
        lemma_divided(t, a / b, a % b, w);
        assert(a % b % n == a % b) by (nonlinear_arith)
            requires
                0 <= a % b < b,
                b < n,
        ;
    }
}

#[verifier::spinoff_prover]
proof fn lemma_idiv(s: State, m: ModRm, w: u32)
    requires
        is_width(w),
        ready(s, m, w),
    ensures
        divided_signed(s, s.idiv_rm(m, w), m, w),
        s.idiv_rm(m, w).faulted() ==> s.idiv_rm(m, w).pending_exception == Some((0u8, None::<u32>)),
{
    reveal(State::idiv_rm);
    lemma_powers(w);
    let (t, v) = s.read_rm(m, w);
    let a = signed_accumulated(t, w);
    let x = trunc(v, w);
    lemma_dividend(t, w);
    lemma_signed(v as int, x, w);
    let b = as_signed(v as int, w);
    if b != 0 {
        let q = quotient(a, b);
        let r = remainder(a, b);
        law_division(a, b);
        lemma_divided(t, q, r, w);
        assert((q * b) + r == a);
        let n = modulus(w);
        let wide = n * n;
        assert(wide == pow2(w as nat) * pow2(w as nat));
    }
}

/// DIV and IDIV at every width.
pub proof fn law_division_gives_quotient_and_remainder(s: State, inst: Inst)
    ensures
        match inst {
            Inst::DivRm8 { m } => ready(s, m, 8) ==> divided(s, s.execute(inst), m, 8),
            Inst::DivRm16 { m } => ready(s, m, 16) ==> divided(s, s.execute(inst), m, 16),
            Inst::DivRm32 { m } => ready(s, m, full(s)) ==> divided(s, s.execute(inst), m, full(s)),
            Inst::IdivRm8 { m } => ready(s, m, 8) ==> divided_signed(s, s.execute(inst), m, 8),
            Inst::IdivRm16 { m } => ready(s, m, 16) ==> divided_signed(s, s.execute(inst), m, 16),
            Inst::IdivRm32 { m } => ready(s, m, full(s)) ==> divided_signed(
                s,
                s.execute(inst),
                m,
                full(s),
            ),
            _ => true,
        },
{
    reveal(State::execute);
    reveal(State::registers_into);
    reveal(State::move_inst);
    reveal(State::arith_inst);
    match inst {
        Inst::DivRm8 { m } => if ready(s, m, 8) {
            lemma_div(s, m, 8);
        },
        Inst::DivRm16 { m } => if ready(s, m, 16) {
            lemma_div(s, m, 16);
        },
        Inst::DivRm32 { m } => if ready(s, m, full(s)) {
            lemma_div(s, m, full(s));
        },
        Inst::IdivRm8 { m } => if ready(s, m, 8) {
            lemma_idiv(s, m, 8);
            lemma_committed_signed(s, s.idiv_rm(m, 8), s.execute(inst), m, 8);
        },
        Inst::IdivRm16 { m } => if ready(s, m, 16) {
            lemma_idiv(s, m, 16);
            lemma_committed_signed(s, s.idiv_rm(m, 16), s.execute(inst), m, 16);
        },
        Inst::IdivRm32 { m } => if ready(s, m, full(s)) {
            lemma_idiv(s, m, full(s));
            lemma_committed_signed(s, s.idiv_rm(m, full(s)), s.execute(inst), m, full(s));
        },
        _ => {},
    }
}

/// What holds of the effect holds of the execution, which takes back what a
/// divide error had done.
proof fn lemma_committed_signed(s: State, x: State, e: State, m: ModRm, w: u32)
    requires
        divided_signed(s, x, m, w),
        ready(s, m, w),
        x.faulted() ==> x.pending_exception == Some((0u8, None::<u32>)),
        x.faulted() ==> e.pending_exception == x.pending_exception,
        !x.faulted() ==> e == x,
    ensures
        divided_signed(s, e, m, w),
{
    let (t, v) = s.read_rm(m, w);
    let a = signed_accumulated(t, w);
    let b = as_signed(v as int, w);
    let n = pow2(w as nat) as int;
    let half = pow2((w - 1) as nat) as int;
    let wide = pow2(w as nat) * pow2(w as nat);
    if b != 0 {
        let q = choose|q: int|
            {
                let r = a - #[trigger] (q * b);
                &&& -magnitude(b) < r < magnitude(b)
                &&& r == 0 || (r < 0 <==> a < 0)
                &&& if 2 * q == wide || (w >= 32 && !(-half <= q < half)) {
                    x.pending_exception == Some((0u8, None::<u32>))
                } else {
                    &&& only_products(t, x)
                    &&& x.flags == t.flags
                    &&& quotient_in(x, w) == q % n
                    &&& remainder_in(x, w) == r % n
                }
            };
        assert(q * b == q * b);
    }
}

/// IMUL with two or three operands: the destination takes the product of the
/// signed operands at the width, and carry and overflow say that it does not
/// fit.
#[verifier::spinoff_prover]
pub proof fn law_imul_truncates(s: State, dst: u8, p: int, w: u32)
    requires
        w == 16 || w == 32 || w == 64,
        s.regs.len() == 16,
        dst < 16,
        !s.faulted(),
    ensures
        ({
            let e = s.imul_store(dst, p, w);
            let half = pow2((w - 1) as nat) as int;
            &&& e.reg_w(dst, w) == p % pow2(w as nat) as int
            &&& e.flags & 1 != 0 <==> !(-half <= p < half)
            &&& e.flags & 0x800 != 0 <==> !(-half <= p < half)
            &&& e == (State { regs: e.regs, flags: e.flags, ..s })
            &&& forall|j: int| 0 <= j < 16 && j != dst ==> #[trigger] e.regs[j] == s.regs[j]
        }),
{
    reveal(State::imul_store);
    reveal(State::set_reg_w);
    reveal(crate::instructions::alu::logic_flags);
    lemma_powers(w);
    let r = word_of(p, w);
    let t = s.with_reg_w(dst, w, r);
    lemma_read_back(s, dst, w, r);
    vstd::arithmetic::div_mod::lemma_mod_twice(p, modulus(w));
    let f = carry_overflow(t.flags, !crate::instructions::alu::fits(p, w));
    law_register_writes_replace_their_part(s, dst, w, r, 0);
    lemma_both(t.flags, !crate::instructions::alu::fits(p, w));
    crate::laws::fields::lemma_result_bits(
        f,
        r >= modulus(w) / 2,
        r == 0,
        crate::instructions::alu::even_parity(r as u8),
    );
    law_registers_are_remainders(t, dst, w);
    let e = s.imul_store(dst, p, w);
    law_registers_are_remainders(e, dst, w);
    assert forall|j: int| 0 <= j < 16 && j != dst implies #[trigger] e.regs[j] == s.regs[j] by {
        law_register_writes_replace_their_part(s, dst, w, r, j);
    }
}

/// Which numbers IMUL with two or three operands multiplies: the operand and
/// the destination register, or the operand and the immediate, all signed.
pub proof fn law_imul_operands(s: State, inst: Inst)
    requires
        !s.execute(inst).faulted(),
    ensures
        match inst {
            Inst::ImulRegRm16 { m, dst } => ({
                let (t, v) = s.read_rm(m, 16);
                s.execute(inst) == t.imul_store(
                    dst,
                    as_signed(v as int, 16) * as_signed(t.reg_w(dst, 16) as int, 16),
                    16,
                )
            }),
            Inst::ImulRegRm32 { m, dst } => ({
                let w = full(s);
                let (t, v) = s.read_rm(m, w);
                s.execute(inst) == t.imul_store(
                    dst,
                    as_signed(v as int, w) * as_signed(t.reg_w(dst, w) as int, w),
                    if w == 64 { 64 } else { 32 },
                )
            }),
            Inst::ImulRegRmImm16 { m, dst, imm } => ({
                let (t, v) = s.read_rm(m, 16);
                s.execute(inst) == t.imul_store(dst, as_signed(v as int, 16) * imm, 16)
            }),
            Inst::ImulRegRmImm32 { m, dst, imm } => ({
                let w = full(s);
                let (t, v) = s.read_rm(m, w);
                s.execute(inst) == t.imul_store(
                    dst,
                    as_signed(v as int, w) * imm,
                    if w == 64 { 64 } else { 32 },
                )
            }),
            _ => true,
        },
{
    lemma_committed(s, inst);
    reveal(State::move_inst);
    reveal(State::arith_inst);
    reveal(State::imul_reg);
    let w = full(s);
    match inst {
        Inst::ImulRegRm16 { m, dst } => {
            let (t, v) = s.read_rm(m, 16);
            lemma_powers(16);
            lemma_signed(v as int, trunc(v, 16), 16);
            lemma_signed(t.reg_w(dst, 16) as int, trunc(t.reg_w(dst, 16), 16), 16);
        },
        Inst::ImulRegRm32 { m, dst } => {
            let (t, v) = s.read_rm(m, w);
            lemma_powers(w);
            lemma_signed(v as int, trunc(v, w), w);
            lemma_signed(t.reg_w(dst, w) as int, trunc(t.reg_w(dst, w), w), w);
        },
        Inst::ImulRegRmImm16 { m, dst: _, imm: _ } => {
            let (t, v) = s.read_rm(m, 16);
            lemma_powers(16);
            lemma_signed(v as int, trunc(v, 16), 16);
        },
        Inst::ImulRegRmImm32 { m, dst: _, imm: _ } => {
            let (t, v) = s.read_rm(m, w);
            lemma_powers(w);
            lemma_signed(v as int, trunc(v, w), w);
        },
        _ => {},
    }
}

} // verus!
