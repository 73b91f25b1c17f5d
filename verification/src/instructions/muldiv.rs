//! Multiplication and division.
//!
//! The products and quotients are stated as integers; what the registers take
//! is their two's-complement image at the operand's width.

use crate::cpu::{flags, Cpu};
use crate::instructions::alu::{put_flag, set_logic, signed_w, size};
use crate::modrm::ModRm;
use crate::state::State;
use vstd::prelude::*;

verus! {

/// A number as a `w`-bit two's-complement word.
pub open spec fn word_of(v: int, w: u32) -> u64 {
    (v % crate::instructions::alu::modulus(w)) as u64
}

/// The part of a number above its low `w` bits, as a word.
pub open spec fn high_of(v: int, w: u32) -> u64 {
    word_of(v / crate::instructions::alu::modulus(w), w)
}

/// The magnitude of a number.
pub open spec fn magnitude(v: int) -> int {
    if v < 0 { -v } else { v }
}

/// Division rounding toward zero.
pub open spec fn quotient(a: int, b: int) -> int {
    let q = magnitude(a) / magnitude(b);
    if (a < 0) == (b < 0) { q } else { -q }
}

/// What division leaves: it has the sign of the dividend.
pub open spec fn remainder(a: int, b: int) -> int {
    let r = magnitude(a) % magnitude(b);
    if a < 0 { -r } else { r }
}

/// A flags word with carry and overflow both set or both clear.
pub open spec fn carry_overflow(word: u32, on: bool) -> u32 {
    crate::instructions::alu::put(
        crate::instructions::alu::put(word, flags::CF, on),
        flags::OF,
        on,
    )
}

impl State {
    /// A double-width product in the accumulator: AX for bytes, the data and
    /// accumulator registers for everything else.
    #[verifier::opaque]
    pub open spec fn with_product(self, p: int, w: u32) -> State {
        if w == 8 {
            self.set_reg_w(0, 16, word_of(p, 16))
        } else {
            self.set_reg_w(0, w, word_of(p, w)).set_reg_w(2, w, high_of(p, w))
        }
    }

    /// MUL: carry and overflow say that the high half is not zero.
    #[verifier::opaque]
    pub open spec fn mul_rm(self, m: ModRm, w: u32) -> State {
        let (s, v) = self.read_rm(m, w);
        let p = crate::instructions::alu::trunc(v, w) * crate::instructions::alu::trunc(
            s.reg_w(0, w),
            w,
        );
        let t = s.with_product(p, w);
        t.with_flags(carry_overflow(t.flags, p >= crate::instructions::alu::modulus(w)))
    }

    /// One-operand IMUL: carry and overflow say that the product did not fit
    /// in the low half.
    #[verifier::opaque]
    pub open spec fn imul_rm(self, m: ModRm, w: u32) -> State {
        let (s, v) = self.read_rm(m, w);
        let p = crate::instructions::alu::signed(crate::instructions::alu::trunc(v, w), w)
            * crate::instructions::alu::signed(
            crate::instructions::alu::trunc(s.reg_w(0, w), w),
            w,
        );
        let t = s.with_product(p, w);
        t.with_flags(carry_overflow(t.flags, !crate::instructions::alu::fits(p, w)))
    }

    /// The truncated product of a two- or three-operand IMUL stored in a
    /// register, with sign, zero and parity from it.
    #[verifier::opaque]
    pub open spec fn imul_store(self, dst: u8, p: int, w: u32) -> State {
        let r = word_of(p, w);
        let t = self.set_reg_w(dst, w, r);
        t.with_flags(
            crate::instructions::alu::logic_flags(
                carry_overflow(t.flags, !crate::instructions::alu::fits(p, w)),
                r,
                w,
            ),
        )
    }

    /// IMUL reg, r/m, factor: operands of `w` bits, result of `rw`.
    #[verifier::opaque]
    pub open spec fn imul_reg(self, m: ModRm, dst: u8, factor: Option<int>, w: u32, rw: u32) -> State {
        let (s, v) = self.read_rm(m, w);
        let a = crate::instructions::alu::signed(crate::instructions::alu::trunc(v, w), w);
        let b = match factor {
            Some(f) => f,
            None => crate::instructions::alu::signed(
                crate::instructions::alu::trunc(s.reg_w(dst, w), w),
                w,
            ),
        };
        s.imul_store(dst, a * b, rw)
    }

    /// The double-width dividend of a division at `w` bits, unsigned.
    pub open spec fn dividend(self, w: u32) -> int {
        if w == 8 {
            self.reg16(0) as int
        } else {
            crate::instructions::alu::trunc(self.reg_w(2, w), w)
                * crate::instructions::alu::modulus(w) + crate::instructions::alu::trunc(
                self.reg_w(0, w),
                w,
            )
        }
    }

    /// The dividend read as a two's-complement number of twice the width.
    pub open spec fn signed_dividend(self, w: u32) -> int {
        let d = self.dividend(w);
        let square = crate::instructions::alu::modulus(w) * crate::instructions::alu::modulus(w);
        if 2 * d < square { d } else { d - square }
    }

    /// The results of a division in the registers that take them: AL and AH,
    /// or the accumulator and the data register.
    #[verifier::opaque]
    pub open spec fn with_division(self, q: int, r: int, w: u32) -> State {
        if w == 8 {
            self.set_reg8_of(0, false, word_of(q, 8) as u8).set_reg8_of(0, true, word_of(r, 8) as u8)
        } else {
            self.set_reg_w(0, w, word_of(q, w)).set_reg_w(2, w, word_of(r, w))
        }
    }

    /// A byte of one of the first four registers, whatever prefix there is.
    #[verifier::opaque]
    pub open spec fn set_reg8_of(self, i: u8, high: bool, v: u8) -> State {
        if self.faulted() {
            self
        } else if high {
            self.with_reg64(i, crate::cpu::regs::put8_high(self.reg64(i), v))
        } else {
            self.with_reg64(i, crate::cpu::regs::put8_low(self.reg64(i), v))
        }
    }

    /// DIV. A zero divisor is a divide error, and so is a quotient too wide
    /// for its destination at 32 and 64 bits; the narrower forms truncate it.
    #[verifier::opaque]
    pub open spec fn div_rm(self, m: ModRm, w: u32) -> State {
        let (s, v) = self.read_rm(m, w);
        let b = crate::instructions::alu::trunc(v, w) as int;
        let a = s.dividend(w);
        if b == 0 {
            s.raise(0, None)
        } else if w != 8 && w != 16 && a / b >= crate::instructions::alu::modulus(w) {
            s.raise(0, None)
        } else {
            s.with_division(a / b, a % b, w)
        }
    }

    /// IDIV. The most negative dividend over minus one has no quotient at all
    /// and is a divide error at every width.
    #[verifier::opaque]
    pub open spec fn idiv_rm(self, m: ModRm, w: u32) -> State {
        let (s, v) = self.read_rm(m, w);
        let b = crate::instructions::alu::signed(crate::instructions::alu::trunc(v, w), w);
        let a = s.signed_dividend(w);
        let square = crate::instructions::alu::modulus(w) * crate::instructions::alu::modulus(w);
        if b == 0 {
            s.raise(0, None)
        } else if 2 * quotient(a, b) == square {
            s.raise(0, None)
        } else if w != 8 && w != 16 && !crate::instructions::alu::fits(quotient(a, b), w) {
            s.raise(0, None)
        } else {
            s.with_division(quotient(a, b), remainder(a, b), w)
        }
    }
}

/// A sign and a magnitude.
#[derive(Clone, Copy)]
pub struct Signed {
    pub negative: bool,
    pub size: u128,
}

impl Signed {
    /// The number.
    pub open spec fn value(self) -> int {
        if self.negative { -self.size } else { self.size as int }
    }
}

/// A `w`-bit word as sign and magnitude.
fn operand(v: u64, w: u32) -> (r: Signed)
    ensures
        r.value() == crate::instructions::alu::signed(crate::instructions::alu::trunc(v, w), w),
        r.size <= 0x8000_0000_0000_0000,
        r.negative ==> r.size > 0,
{
    let s: i128 = signed_w(crate::instructions::alu::trunc_w(v, w), w);
    if s < 0 {
        Signed { negative: true, size: (-s) as u128 }
    } else {
        Signed { negative: false, size: s as u128 }
    }
}

/// The product of two numbers.
fn product(a: Signed, b: Signed) -> (r: Signed)
    requires
        a.size <= 0x8000_0000_0000_0000,
        b.size <= 0x8000_0000_0000_0000,
    ensures
        r.value() == a.value() * b.value(),
        r.size <= 0x4000_0000_0000_0000_0000_0000_0000_0000,
{
    assert(a.size * b.size <= 0x8000_0000_0000_0000 * 0x8000_0000_0000_0000) by (nonlinear_arith)
        requires
            a.size <= 0x8000_0000_0000_0000,
            b.size <= 0x8000_0000_0000_0000,
    ;
    assert(a.value() * b.value() == if a.negative == b.negative {
        a.size * b.size
    } else {
        -(a.size * b.size)
    }) by {
        let x = a.size as int;
        let y = b.size as int;
        assert((-x) * (-y) == x * y) by (nonlinear_arith);
        assert((-x) * y == -(x * y)) by (nonlinear_arith);
        assert(x * (-y) == -(x * y)) by (nonlinear_arith);
    }
    Signed { negative: a.negative != b.negative, size: a.size * b.size }
}

/// The low `w` bits of a number, and the `w` bits above them.
fn halves(v: Signed, w: u32) -> (r: (u64, u64))
    requires
        v.size <= 0xFFFF_FFFF_FFFF_FFFF_0000_0000_0000_0000,
    ensures
        r.0 == word_of(v.value(), w),
        r.1 == high_of(v.value(), w),
{
    let m: u128 = size(w);
    let low: u128 = v.size % m;
    let high: u128 = (v.size / m) % m;
    if !v.negative {
        proof {
            lemma_halves(v.size as int, w);
        }
        (low as u64, high as u64)
    } else if low == 0 {
        proof {
            lemma_halves(v.size as int, w);
        }
        (0, (if high == 0 {
            0
        } else {
            m - high
        }) as u64)
    } else {
        proof {
            lemma_halves(v.size as int, w);
        }
        ((m - low) as u64, (m - 1 - high) as u64)
    }
}

/// The halves of a number and of its negation.
proof fn lemma_halves(x: int, w: u32)
    requires
        x >= 0,
    ensures
        ({
            let m = crate::instructions::alu::modulus(w);
            let low = x % m;
            let high = (x / m) % m;
            &&& 0 <= low < m
            &&& 0 <= high < m
            &&& (-x) % m == (if low == 0 { 0 } else { m - low })
            &&& ((-x) / m) % m == (if low == 0 {
                if high == 0 { 0 } else { m - high }
            } else {
                m - 1 - high
            })
        }),
{
    if w == 8 {
    } else if w == 16 {
    } else if w == 32 {
    } else {
    }
}

/// Is a number outside the signed range of `w` bits?
fn misfits(v: Signed, w: u32) -> (b: bool)
    ensures
        b == !crate::instructions::alu::fits(v.value(), w),
{
    let half: u128 = size(w) / 2;
    if v.negative {
        v.size > half
    } else {
        v.size >= half
    }
}

fn set_carry_overflow(word: u32, on: bool) -> (f: u32)
    ensures
        f == carry_overflow(word, on),
{
    put_flag(put_flag(word, flags::CF, on), flags::OF, on)
}

impl Cpu {
    /// Put a double-width product in the accumulator.
    fn store_product(&mut self, p: Signed, w: u32)
        requires
            p.size <= 0xFFFF_FFFF_FFFF_FFFF_0000_0000_0000_0000,
        ensures
            final(self)@ == old(self)@.with_product(p.value(), w),
    {
        proof {
            reveal(State::with_product);
        }
        if w == 8 {
            let (low, _): (u64, u64) = halves(p, 16);
            self.set_reg_w(0, 16, low);
        } else {
            let (low, high): (u64, u64) = halves(p, w);
            self.set_reg_w(0, w, low);
            self.set_reg_w(2, w, high);
        }
    }

    pub fn mul_rm(&mut self, m: &ModRm, w: u32)
        ensures
            final(self)@ == old(self)@.mul_rm(*m, w),
    {
        proof {
            reveal(State::mul_rm);
        }
        let v: u64 = self.read_rm_w(m, w);
        let a: u64 = self.reg_w(0, w);
        let x: u128 = crate::instructions::alu::trunc_w(v, w) as u128;
        let y: u128 = crate::instructions::alu::trunc_w(a, w) as u128;
        assert(x * y <= 0xFFFF_FFFF_FFFF_FFFF * 0xFFFF_FFFF_FFFF_FFFF) by (nonlinear_arith)
            requires
                0 <= x <= 0xFFFF_FFFF_FFFF_FFFF,
                0 <= y <= 0xFFFF_FFFF_FFFF_FFFF,
        ;
        let p: u128 = x * y;
        self.store_product(Signed { negative: false, size: p }, w);
        self.flags = set_carry_overflow(self.flags, p >= size(w));
    }

    pub fn imul_rm(&mut self, m: &ModRm, w: u32)
        ensures
            final(self)@ == old(self)@.imul_rm(*m, w),
    {
        proof {
            reveal(State::imul_rm);
        }
        let v: u64 = self.read_rm_w(m, w);
        let a: u64 = self.reg_w(0, w);
        let p = product(operand(v, w), operand(a, w));
        self.store_product(p, w);
        self.flags = set_carry_overflow(self.flags, misfits(p, w));
    }

    /// Store a two/three-operand IMUL result. CF and OF are set when the full
    /// signed product did not fit; SF/ZF/PF are architecturally undefined but
    /// are set from the truncated result, which is what real CPUs do.
    fn imul_store(&mut self, dst: u8, p: Signed, w: u32)
        requires
            p.size <= 0xFFFF_FFFF_FFFF_FFFF_0000_0000_0000_0000,
        ensures
            final(self)@ == old(self)@.imul_store(dst, p.value(), w),
    {
        proof {
            reveal(State::imul_store);
        }
        let (r, _): (u64, u64) = halves(p, w);
        self.set_reg_w(dst, w, r);
        self.flags = set_logic(set_carry_overflow(self.flags, misfits(p, w)), r, w);
    }

    /// IMUL reg, r/m.
    pub fn imul_reg_rm(&mut self, m: &ModRm, dst: u8, w: u32, rw: u32)
        ensures
            final(self)@ == old(self)@.imul_reg(*m, dst, None, w, rw),
    {
        proof {
            reveal(State::imul_reg);
        }
        let v: u64 = self.read_rm_w(m, w);
        let b: u64 = self.reg_w(dst, w);
        let p = product(operand(v, w), operand(b, w));
        self.imul_store(dst, p, rw);
    }

    /// IMUL reg, r/m, imm.
    pub fn imul_reg_imm(&mut self, m: &ModRm, dst: u8, imm: i32, w: u32, rw: u32)
        ensures
            final(self)@ == old(self)@.imul_reg(*m, dst, Some(imm as int), w, rw),
    {
        proof {
            reveal(State::imul_reg);
        }
        let v: u64 = self.read_rm_w(m, w);
        let b = if imm < 0 {
            Signed { negative: true, size: (-(imm as i64)) as u128 }
        } else {
            Signed { negative: false, size: imm as u128 }
        };
        let p = product(operand(v, w), b);
        self.imul_store(dst, p, rw);
    }

    /// The double-width dividend of a division.
    fn dividend(&self, w: u32) -> (d: u128)
        ensures
            d == self@.dividend(w),
            d < crate::instructions::alu::modulus(w) * crate::instructions::alu::modulus(w),
    {
        if w == 8 {
            self.reg16_idx(0) as u128
        } else {
            let high: u128 = crate::instructions::alu::trunc_w(self.reg_w(2, w), w) as u128;
            let low: u128 = crate::instructions::alu::trunc_w(self.reg_w(0, w), w) as u128;
            let m: u128 = size(w);
            proof {
                lemma_dividend(high as int, low as int, w);
            }
            high * m + low
        }
    }

    /// Store a byte register of the accumulator.
    fn set_acc8(&mut self, high: bool, v: u8)
        ensures
            final(self)@ == old(self)@.set_reg8_of(0, high, v),
    {
        proof {
            reveal(State::set_reg8_of);
        }
        if self.pending_exception.is_some() {
            return;
        }
        let a: u64 = self.reg64(0);
        if high {
            self.set_reg64_raw(0, (a & 0xFFFF_FFFF_FFFF_00FF) | ((v as u64) << 8));
        } else {
            self.set_reg64_raw(0, (a & 0xFFFF_FFFF_FFFF_FF00) | (v as u64));
        }
    }

    /// Put the results of a division where they belong.
    fn store_division(&mut self, q: Signed, r: Signed, w: u32)
        requires
            q.size <= 0xFFFF_FFFF_FFFF_FFFF_0000_0000_0000_0000,
            r.size <= 0xFFFF_FFFF_FFFF_FFFF_0000_0000_0000_0000,
        ensures
            final(self)@ == old(self)@.with_division(q.value(), r.value(), w),
    {
        proof {
            reveal(State::with_division);
        }
        let (quot, _): (u64, u64) = halves(q, w);
        let (rem, _): (u64, u64) = halves(r, w);
        if w == 8 {
            self.set_acc8(false, quot as u8);
            self.set_acc8(true, rem as u8);
        } else {
            self.set_reg_w(0, w, quot);
            self.set_reg_w(2, w, rem);
        }
    }

    pub fn div_rm(&mut self, m: &ModRm, w: u32)
        ensures
            final(self)@ == old(self)@.div_rm(*m, w),
    {
        proof {
            reveal(State::div_rm);
        }
        let v: u64 = self.read_rm_w(m, w);
        let b: u128 = crate::instructions::alu::trunc_w(v, w) as u128;
        let a: u128 = self.dividend(w);
        if b == 0 {
            self.raise(0, None);
            return;
        }
        let q: u128 = a / b;
        let r: u128 = a % b;
        // A quotient too wide for the destination is also a #DE, not a
        // truncated answer.
        if w != 8 && w != 16 && q >= size(w) {
            self.raise(0, None);
            return;
        }
        proof {
            lemma_quotient(a as int, b as int, w);
        }
        self.store_division(
            Signed { negative: false, size: q },
            Signed { negative: false, size: r },
            w,
        );
    }

    /// The dividend as sign and magnitude.
    fn signed_dividend(&self, w: u32) -> (d: Signed)
        ensures
            d.value() == self@.signed_dividend(w),
            d.negative ==> d.size > 0,
            2 * d.size <= crate::instructions::alu::modulus(w)
                * crate::instructions::alu::modulus(w),
    {
        let raw: u128 = self.dividend(w);
        let m: u128 = size(w);
        proof {
            lemma_square(w);
        }
        // Half the square of the modulus: the first negative dividend.
        let half: u128 = if w == 8 {
            0x8000
        } else if w == 16 {
            0x8000_0000
        } else if w == 32 {
            0x8000_0000_0000_0000
        } else {
            0x8000_0000_0000_0000_0000_0000_0000_0000
        };
        if raw < half {
            Signed { negative: false, size: raw }
        } else {
            Signed { negative: true, size: half - (raw - half) }
        }
    }

    pub fn idiv_rm(&mut self, m: &ModRm, w: u32)
        ensures
            final(self)@ == old(self)@.idiv_rm(*m, w),
    {
        proof {
            reveal(State::idiv_rm);
            lemma_square(w);
        }
        let v: u64 = self.read_rm_w(m, w);
        let b = operand(v, w);
        let a = self.signed_dividend(w);
        if b.size == 0 {
            self.raise(0, None);
            return;
        }
        let q: u128 = a.size / b.size;
        let r: u128 = a.size % b.size;
        let quot = Signed { negative: a.negative != b.negative, size: q };
        let rem = Signed { negative: a.negative, size: r };
        proof {
            assert(magnitude(a.value()) == a.size);
            assert(magnitude(b.value()) == b.size);
            assert((a.value() < 0) == a.negative);
            assert((b.value() < 0) == b.negative);
            lemma_bound(a.size as int, b.size as int);
        }
        assert(quot.value() == quotient(a.value(), b.value()));
        assert(rem.value() == remainder(a.value(), b.value()));
        let half: u128 = if w == 8 {
            0x8000
        } else if w == 16 {
            0x8000_0000
        } else if w == 32 {
            0x8000_0000_0000_0000
        } else {
            0x8000_0000_0000_0000_0000_0000_0000_0000
        };
        if !quot.negative && q == half {
            self.raise(0, None);
            return;
        }
        if w != 8 && w != 16 && misfits(quot, w) {
            self.raise(0, None);
            return;
        }
        self.store_division(quot, rem, w);
    }
}

/// The squares of the moduli.
proof fn lemma_square(w: u32)
    ensures
        ({
            let m = crate::instructions::alu::modulus(w);
            m * m == (if w == 8 {
                0x1_0000int
            } else if w == 16 {
                0x1_0000_0000int
            } else if w == 32 {
                0x1_0000_0000_0000_0000int
            } else {
                0x1_0000_0000_0000_0000_0000_0000_0000_0000int
            })
        }),
{
}

/// Two words side by side fit in twice the width.
proof fn lemma_dividend(high: int, low: int, w: u32)
    requires
        0 <= high < crate::instructions::alu::modulus(w),
        0 <= low < crate::instructions::alu::modulus(w),
    ensures
        0 <= high * crate::instructions::alu::modulus(w) + low,
        high * crate::instructions::alu::modulus(w) + low < crate::instructions::alu::modulus(w)
            * crate::instructions::alu::modulus(w),
        high * crate::instructions::alu::modulus(w) + low
            < 0x1_0000_0000_0000_0000_0000_0000_0000_0000,
        0 <= high * crate::instructions::alu::modulus(w)
            < 0x1_0000_0000_0000_0000_0000_0000_0000_0000,
{
    lemma_square(w);
    if w == 8 {
    } else if w == 16 {
    } else if w == 32 {
    } else {
    }
}

/// A quotient is no larger than what was divided, a remainder less than the
/// divisor.
proof fn lemma_bound(a: int, b: int)
    requires
        a >= 0,
        b > 0,
    ensures
        0 <= a / b <= a,
        0 <= a % b < b,
{
    assert(0 <= a / b <= a && 0 <= a % b < b) by (nonlinear_arith)
        requires
            a >= 0,
            b > 0,
    ;
}

/// The quotient of an accepted division can be stored.
proof fn lemma_quotient(a: int, b: int, w: u32)
    requires
        0 <= a < crate::instructions::alu::modulus(w) * crate::instructions::alu::modulus(w),
        0 < b < crate::instructions::alu::modulus(w),
        w != 8 && w != 16 ==> a / b < crate::instructions::alu::modulus(w),
    ensures
        a / b <= 0xFFFF_FFFF_FFFF_FFFF_0000_0000_0000_0000,
        a % b <= 0xFFFF_FFFF_FFFF_FFFF_0000_0000_0000_0000,
{
    lemma_square(w);
    lemma_bound(a, b);
}

} // verus!
