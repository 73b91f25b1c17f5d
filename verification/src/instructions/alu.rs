//! The arithmetic-logic unit: results and flags of the two-operand operations
//! at every width.
//!
//! The flags are where the subtleties live, so they are stated as arithmetic:
//! the carry flag says that the unsigned result did not fit, the overflow flag
//! that the signed one did not.

use crate::cpu::{flags, Cpu};
use crate::instructions::AluOp;
use crate::state::State;
use vstd::prelude::*;

verus! {

/// Two to the power of a width. Widths other than 8, 16 and 32 stand for 64.
pub open spec fn modulus(w: u32) -> int {
    if w == 8 {
        0x100
    } else if w == 16 {
        0x1_0000
    } else if w == 32 {
        0x1_0000_0000
    } else {
        0x1_0000_0000_0000_0000
    }
}

/// The low `w` bits of a value.
pub open spec fn trunc(v: u64, w: u32) -> u64 {
    (v as int % modulus(w)) as u64
}

/// A `w`-bit value read as a two's-complement number.
pub open spec fn signed(v: u64, w: u32) -> int {
    if v < modulus(w) / 2 { v as int } else { v - modulus(w) }
}

/// Does a signed result fit in `w` bits?
pub open spec fn fits(v: int, w: u32) -> bool {
    -modulus(w) / 2 <= v < modulus(w) / 2
}

/// Is the number of ones in a byte even?
pub open spec fn even_parity(v: u8) -> bool {
    ((v & 1) + ((v >> 1) & 1) + ((v >> 2) & 1) + ((v >> 3) & 1) + ((v >> 4) & 1) + ((v >> 5) & 1)
        + ((v >> 6) & 1) + ((v >> 7) & 1)) % 2 == 0
}

/// A flags word with one flag set or cleared.
pub open spec fn put(word: u32, f: u32, on: bool) -> u32 {
    crate::cpu::regs::flag_put(word, f, on)
}

/// Sign, zero and parity of a `w`-bit result.
#[verifier::opaque]
pub open spec fn logic_flags(word: u32, r: u64, w: u32) -> u32 {
    put(
        put(put(word, flags::SF, r >= modulus(w) / 2), flags::ZF, r == 0),
        flags::PF,
        even_parity(r as u8),
    )
}

/// Carry, adjust and overflow.
pub open spec fn carry_flags(word: u32, cf: bool, af: bool, of: bool) -> u32 {
    put(put(put(word, flags::CF, cf), flags::AF, af), flags::OF, of)
}

/// Carry and overflow cleared, as the bitwise operations leave them.
pub open spec fn no_carry(word: u32) -> u32 {
    put(put(word, flags::CF, false), flags::OF, false)
}

/// What an operation produces: a result and a flags word.
pub struct Outcome {
    pub value: u64,
    pub flags: u32,
}

/// `a + b + carry` on `w` bits.
#[verifier::opaque]
pub open spec fn added(word: u32, a: u64, b: u64, carry: int, w: u32) -> Outcome {
    let r = ((a + b + carry) % modulus(w)) as u64;
    Outcome {
        value: r,
        flags: carry_flags(
            logic_flags(word, r, w),
            a + b + carry >= modulus(w),
            a % 16 + b % 16 + carry >= 16,
            !fits(signed(a, w) + signed(b, w) + carry, w),
        ),
    }
}

/// `a - b - borrow` on `w` bits.
#[verifier::opaque]
pub open spec fn subtracted(word: u32, a: u64, b: u64, borrow: int, w: u32) -> Outcome {
    let r = ((a - b - borrow) % modulus(w)) as u64;
    Outcome {
        value: r,
        flags: carry_flags(
            logic_flags(word, r, w),
            a < b + borrow,
            a % 16 < b % 16 + borrow,
            !fits(signed(a, w) - signed(b, w) - borrow, w),
        ),
    }
}

/// A bitwise result: carry and overflow clear, adjust unchanged.
pub open spec fn bitwise(word: u32, r: u64, w: u32) -> Outcome {
    Outcome { value: r, flags: no_carry(logic_flags(word, r, w)) }
}

/// The carry flag as a number.
pub open spec fn carry_in(word: u32) -> int {
    if word & flags::CF != 0 { 1 } else { 0 }
}

/// An ALU operation on two operands, of which the low `w` bits count.
#[verifier::opaque]
pub open spec fn operate(op: AluOp, word: u32, a: u64, b: u64, w: u32) -> Outcome {
    let x = trunc(a, w);
    let y = trunc(b, w);
    match op {
        AluOp::Add => added(word, x, y, 0, w),
        AluOp::Adc => added(word, x, y, carry_in(word), w),
        AluOp::Sub => subtracted(word, x, y, 0, w),
        AluOp::Cmp => subtracted(word, x, y, 0, w),
        AluOp::Sbb => subtracted(word, x, y, carry_in(word), w),
        AluOp::And => bitwise(word, x & y, w),
        AluOp::Or => bitwise(word, x | y, w),
        AluOp::Xor => bitwise(word, x ^ y, w),
    }
}

impl State {
    /// The state with an outcome's flags.
    pub open spec fn with_flags(self, word: u32) -> State {
        State { flags: word, ..self }
    }

    /// The outcome of an ALU operation under the current flags.
    pub open spec fn alu(self, op: AluOp, a: u64, b: u64, w: u32) -> Outcome {
        operate(op, self.flags, a, b, w)
    }
}

proof fn lemma_parity(v: u8)
    by (bit_vector)
    ensures
        ((((v ^ (v >> 4u8)) ^ ((v ^ (v >> 4u8)) >> 2u8)) ^ (((v ^ (v >> 4u8)) ^ ((v ^ (v >> 4u8))
            >> 2u8)) >> 1u8)) & 1u8 == 0u8) == (((v & 1) + ((v >> 1u8) & 1) + ((v >> 2u8) & 1) + ((v
            >> 3u8) & 1) + ((v >> 4u8) & 1) + ((v >> 5u8) & 1) + ((v >> 6u8) & 1) + ((v >> 7u8) & 1))
            % 2 == 0),
{
}

/// Is the number of ones in a byte even?
pub fn parity(v: u8) -> (b: bool)
    ensures
        b == even_parity(v),
{
    proof {
        lemma_parity(v);
    }
    let v: u8 = v ^ (v >> 4);
    let v: u8 = v ^ (v >> 2);
    let v: u8 = v ^ (v >> 1);
    (v & 1) == 0
}

/// Set or clear a flag of a flags word.
pub fn put_flag(word: u32, f: u32, on: bool) -> (r: u32)
    ensures
        r == put(word, f, on),
{
    if on {
        word | f
    } else {
        word & !f
    }
}

/// Two to the power of a width.
pub fn size(w: u32) -> (m: u128)
    ensures
        m == modulus(w),
{
    match w {
        8 => 0x100,
        16 => 0x1_0000,
        32 => 0x1_0000_0000,
        _ => 0x1_0000_0000_0000_0000,
    }
}

/// The low `w` bits of a value.
pub fn trunc_w(v: u64, w: u32) -> (r: u64)
    ensures
        r == trunc(v, w),
        r < modulus(w),
{
    match w {
        8 => v % 0x100,
        16 => v % 0x1_0000,
        32 => v % 0x1_0000_0000,
        _ => v,
    }
}

/// A `w`-bit value as a two's-complement number.
pub fn signed_w(v: u64, w: u32) -> (r: i128)
    ensures
        r == signed(v, w),
{
    let m: i128 = size(w) as i128;
    if (v as i128) < m / 2 {
        v as i128
    } else {
        v as i128 - m
    }
}

/// Sign, zero and parity of a result.
pub fn set_logic(word: u32, r: u64, w: u32) -> (f: u32)
    ensures
        f == logic_flags(word, r, w),
{
    proof {
        reveal(logic_flags);
    }
    let s = (r as u128) >= size(w) / 2;
    put_flag(
        put_flag(put_flag(word, flags::SF, s), flags::ZF, r == 0),
        flags::PF,
        parity(r as u8),
    )
}

/// Carry, adjust and overflow.
fn set_carry(word: u32, cf: bool, af: bool, of: bool) -> (f: u32)
    ensures
        f == carry_flags(word, cf, af, of),
{
    put_flag(put_flag(put_flag(word, flags::CF, cf), flags::AF, af), flags::OF, of)
}

/// A number less than a modulus away from its range wraps once.
proof fn lemma_wrap(t: int, w: u32)
    requires
        -modulus(w) <= t < 2 * modulus(w),
    ensures
        t % modulus(w) == (if t < 0 {
            t + modulus(w)
        } else if t >= modulus(w) {
            t - modulus(w)
        } else {
            t
        }),
{
    if w == 8 {
    } else if w == 16 {
    } else if w == 32 {
    } else {
    }
}

/// Add with a carry of zero or one.
fn add_w(word: u32, a: u64, b: u64, carry: u64, w: u32) -> (r: (u64, u32))
    requires
        carry <= 1,
        a < modulus(w),
        b < modulus(w),
    ensures
        (Outcome { value: r.0, flags: r.1 }) == added(word, a, b, carry as int, w),
{
    proof {
        reveal(added);
    }
    let m: u128 = size(w);
    let half: i128 = (m / 2) as i128;
    let total: u128 = a as u128 + b as u128 + carry as u128;
    let v: u64 = (if total >= m {
        total - m
    } else {
        total
    }) as u64;
    proof {
        lemma_wrap(a + b + carry, w);
    }
    let sum: i128 = signed_w(a, w) + signed_w(b, w) + carry as i128;
    let f: u32 = set_carry(
        set_logic(word, v, w),
        total >= m,
        a % 16 + b % 16 + carry >= 16,
        sum < -half || sum >= half,
    );
    (v, f)
}

/// Subtract with a borrow of zero or one.
fn sub_w(word: u32, a: u64, b: u64, borrow: u64, w: u32) -> (r: (u64, u32))
    requires
        borrow <= 1,
        a < modulus(w),
        b < modulus(w),
    ensures
        (Outcome { value: r.0, flags: r.1 }) == subtracted(word, a, b, borrow as int, w),
{
    proof {
        reveal(subtracted);
    }
    let m: u128 = size(w);
    let half: i128 = (m / 2) as i128;
    let take: u128 = b as u128 + borrow as u128;
    let v: u64 = (if (a as u128) < take {
        a as u128 + m - take
    } else {
        a as u128 - take
    }) as u64;
    proof {
        lemma_wrap(a - b - borrow, w);
    }
    let difference: i128 = signed_w(a, w) - signed_w(b, w) - borrow as i128;
    let f: u32 = set_carry(
        set_logic(word, v, w),
        (a as u128) < take,
        a % 16 < b % 16 + borrow,
        difference < -half || difference >= half,
    );
    (v, f)
}

/// A bitwise result.
fn bitwise_w(word: u32, r: u64, w: u32) -> (o: (u64, u32))
    ensures
        (Outcome { value: o.0, flags: o.1 }) == bitwise(word, r, w),
{
    let f: u32 = set_logic(word, r, w);
    (r, put_flag(put_flag(f, flags::CF, false), flags::OF, false))
}

/// An ALU operation at 8, 16, 32 or 64 bits: its result and the flags.
pub fn alu_flags(op: AluOp, word: u32, a: u64, b: u64, w: u32) -> (r: (u64, u32))
    ensures
        (Outcome { value: r.0, flags: r.1 }) == operate(op, word, a, b, w),
{
    proof {
        reveal(operate);
    }
    let x: u64 = trunc_w(a, w);
    let y: u64 = trunc_w(b, w);
    let c: u64 = if word & flags::CF != 0 {
        1
    } else {
        0
    };
    match op {
        AluOp::Add => add_w(word, x, y, 0, w),
        AluOp::Adc => add_w(word, x, y, c, w),
        AluOp::Sub => sub_w(word, x, y, 0, w),
        AluOp::Cmp => sub_w(word, x, y, 0, w),
        AluOp::Sbb => sub_w(word, x, y, c, w),
        AluOp::And => bitwise_w(word, x & y, w),
        AluOp::Or => bitwise_w(word, x | y, w),
        AluOp::Xor => bitwise_w(word, x ^ y, w),
    }
}

impl Cpu {
    /// An ALU operation at whatever width the instruction is running: the
    /// flags are set and the result returned.
    pub fn alu_w(&mut self, op: AluOp, a: u64, b: u64, w: u32) -> (r: u64)
        ensures
            r == old(self)@.alu(op, a, b, w).value,
            final(self)@ == old(self)@.with_flags(old(self)@.alu(op, a, b, w).flags),
    {
        let (r, f): (u64, u32) = alu_flags(op, self.flags, a, b, w);
        self.flags = f;
        r
    }
}

} // verus!
