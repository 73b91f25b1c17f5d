//! Shifts, rotates and single-bit operations.
//!
//! Rules worth stating, because they are easy to get subtly wrong:
//! - The count is masked to 5 bits for every operand size **except 64-bit,
//!   where it is masked to 6**.
//! - A count of 0 changes nothing, flags included.
//! - RCL/RCR rotate through a `width + 1`-bit quantity (the operand plus CF),
//!   so their effective count is taken modulo `width + 1`.
//! - OF is architecturally defined only for a count of 1; it is left clear
//!   otherwise.

use crate::cpu::{flags, Cpu};
use crate::instructions::alu::{put_flag, set_logic, Outcome};
use crate::instructions::ShiftOp;
use crate::modrm::ModRm;
use crate::state::State;
use vstd::prelude::*;

verus! {

/// A shift's operand width: 8, 16, 32, and 64 for anything else.
pub open spec fn shift_size(w: u32) -> u32 {
    if w == 8 || w == 16 || w == 32 { w } else { 64 }
}

/// All-ones for the low `w` bits.
pub open spec fn ones(w: u32) -> u64 {
    if w >= 64 { u64::MAX } else { ((1u64 << w) - 1) as u64 }
}

/// The effective count of a shift.
pub open spec fn effective(n: u32, w: u32) -> u32 {
    n & (if w == 64 { 0x3Fu32 } else { 0x1Fu32 })
}

pub open spec fn least(a: u32, b: u32) -> u32 {
    if a < b { a } else { b }
}

/// The low `w` bits of `v`, sign-extended to 64.
pub open spec fn extend(v: u64, w: u32) -> i64 {
    if w == 8 {
        ((v as u8) as i8) as i64
    } else if w == 16 {
        ((v as u16) as i16) as i64
    } else if w == 32 {
        ((v as u32) as i32) as i64
    } else {
        v as i64
    }
}

/// The top bit of a `w`-bit operand.
pub open spec fn top_bit(w: u32) -> u64 {
    1u64 << ((w - 1) as u32)
}

/// The bit below the top one.
pub open spec fn second_bit(r: u64, w: u32) -> bool {
    (r >> ((w - 2) as u32)) & 1 != 0
}

/// One step of a 65-bit rotate left through carry.
pub open spec fn rcl_step(x: (u64, bool)) -> (u64, bool) {
    ((x.0 << 1) | (if x.1 { 1u64 } else { 0u64 }), x.0 >> 63 != 0)
}

/// One step of a 65-bit rotate right through carry.
pub open spec fn rcr_step(x: (u64, bool)) -> (u64, bool) {
    ((x.0 >> 1) | ((if x.1 { 1u64 } else { 0u64 }) << 63), x.0 & 1 != 0)
}

/// A 65-bit rotate through carry by `k` places.
pub open spec fn rotated65(x: (u64, bool), k: int, left: bool) -> (u64, bool)
    decreases k,
{
    if k <= 0 {
        x
    } else if left {
        rcl_step(rotated65(x, k - 1, left))
    } else {
        rcr_step(rotated65(x, k - 1, left))
    }
}

/// A rotate by `k` places of the `w + 1`-bit quantity made of an operand of `w`
/// bits and, above it, the carry.
pub open spec fn rotated_wide(v: u64, carry: bool, k: u32, w: u32, left: bool) -> u64 {
    let bits = (w + 1) as u32;
    let wide = v | ((if carry { 1u64 } else { 0u64 }) << w);
    let rest = (bits - k) as u32;
    if k == 0 {
        wide
    } else if left {
        ((wide << k) | (wide >> rest)) & ones(bits)
    } else {
        ((wide >> k) | (wide << rest)) & ones(bits)
    }
}

/// A rotate through carry by `k` places on an operand of `w` bits: the operand
/// and the carry it leaves.
pub open spec fn rotated_carry(v: u64, carry: bool, k: u32, w: u32, left: bool) -> (u64, bool) {
    if w == 64 {
        rotated65((v, carry), k as int, left)
    } else {
        let rot = rotated_wide(v, carry, k, w, left);
        (rot & ones(w), (rot >> w) & 1 != 0)
    }
}

/// A flags word with carry and overflow replaced, as a rotate leaves it.
pub open spec fn rotate_flags(word: u32, cf: bool, of: bool) -> u32 {
    crate::instructions::alu::put(crate::instructions::alu::put(word, flags::CF, cf), flags::OF, of)
}

/// A flags word after a shift: carry, then the result's sign, zero and
/// parity, then overflow.
pub open spec fn shift_flags(word: u32, r: u64, w: u32, cf: bool, of: bool) -> u32 {
    crate::instructions::alu::put(
        crate::instructions::alu::logic_flags(
            crate::instructions::alu::put(word, flags::CF, cf),
            r,
            w,
        ),
        flags::OF,
        of,
    )
}

/// A shift left by `n` places: the last bit shifted out is the carry.
#[verifier::opaque]
pub open spec fn shl(word: u32, v: u64, n: u32, w: u32) -> Outcome {
    let r = (v << least(n, 63)) & ones(w);
    let cf = n <= w && (v >> ((w - least(n, w)) as u32)) & 1 != 0;
    Outcome {
        value: r,
        flags: shift_flags(word, r, w, cf, n == 1 && ((r & top_bit(w) != 0) != cf)),
    }
}

/// A logical shift right by `n` places.
#[verifier::opaque]
pub open spec fn shr(word: u32, v: u64, n: u32, w: u32) -> Outcome {
    let r = if n >= w { 0u64 } else { v >> n };
    let cf = n <= w && (v >> ((n - 1) as u32)) & 1 != 0;
    Outcome {
        value: r,
        flags: shift_flags(word, r, w, cf, n == 1 && v & top_bit(w) != 0),
    }
}

/// An arithmetic shift right by `n` places: the sign bit is replicated.
#[verifier::opaque]
pub open spec fn sar(word: u32, v: u64, n: u32, w: u32) -> Outcome {
    let sv = extend(v, w);
    let r = ((sv >> least(n, (w - 1) as u32)) as u64) & ones(w);
    let cf = (sv >> least((n - 1) as u32, (w - 1) as u32)) & 1 != 0;
    Outcome { value: r, flags: shift_flags(word, r, w, cf, false) }
}

/// A rotate left.
#[verifier::opaque]
pub open spec fn rol(word: u32, v: u64, n: u32, w: u32) -> Outcome {
    let k = n % w;
    let r = if k == 0 { v } else { ((v << k) | (v >> ((w - k) as u32))) & ones(w) };
    let cf = r & 1 != 0;
    Outcome {
        value: r,
        flags: rotate_flags(word, cf, n == 1 && ((r & top_bit(w) != 0) != cf)),
    }
}

/// A rotate right.
#[verifier::opaque]
pub open spec fn ror(word: u32, v: u64, n: u32, w: u32) -> Outcome {
    let k = n % w;
    let r = if k == 0 { v } else { ((v >> k) | (v << ((w - k) as u32))) & ones(w) };
    let cf = r & top_bit(w) != 0;
    Outcome { value: r, flags: rotate_flags(word, cf, n == 1 && cf != second_bit(r, w)) }
}

/// A rotate through carry.
#[verifier::opaque]
pub open spec fn rc(word: u32, v: u64, n: u32, w: u32, left: bool) -> Outcome {
    let (r, cf) = rotated_carry(v, word & flags::CF != 0, n % ((w + 1) as u32), w, left);
    let of = if left {
        n == 1 && ((r & top_bit(w) != 0) != cf)
    } else {
        n == 1 && ((r & top_bit(w) != 0) != second_bit(r, w))
    };
    Outcome { value: r, flags: rotate_flags(word, cf, of) }
}

/// A shift or rotate of an operand of `width` bits by a raw count.
#[verifier::opaque]
pub open spec fn shifted(op: ShiftOp, word: u32, v: u64, count: u32, width: u32) -> Outcome {
    let w = shift_size(width);
    let n = effective(count, w);
    let x = v & ones(w);
    if n == 0 {
        Outcome { value: v, flags: word }
    } else {
        match op {
            ShiftOp::Shl => shl(word, x, n, w),
            ShiftOp::Shr => shr(word, x, n, w),
            ShiftOp::Sar => sar(word, x, n, w),
            ShiftOp::Rol => rol(word, x, n, w),
            ShiftOp::Ror => ror(word, x, n, w),
            ShiftOp::Rcl => rc(word, x, n, w, true),
            ShiftOp::Rcr => rc(word, x, n, w, false),
        }
    }
}

impl State {
    /// The state after the r/m operand has been shifted.
    #[verifier::opaque]
    pub open spec fn shift_rm(self, op: ShiftOp, m: ModRm, width: u32, n: u32) -> State {
        let (s, v) = self.read_rm(m, width);
        let o = shifted(op, s.flags, v, n, width);
        s.with_flags(o.flags).write_rm(m, width, o.value)
    }
}

/// What a bit-test instruction does to the bit it selects.
#[derive(Clone, Copy, PartialEq, Eq, Structural, Debug)]
pub enum BitOp {
    Test,
    Raise,
    Reset,
    Complement,
}

/// A value with the operation applied to bit `b`.
pub open spec fn bit_applied(v: u64, b: u32, op: BitOp) -> u64 {
    match op {
        BitOp::Test => v,
        BitOp::Raise => v | (1u64 << b),
        BitOp::Reset => v & !(1u64 << b),
        BitOp::Complement => v ^ (1u64 << b),
    }
}

proof fn lemma_one(w: u32)
    ensures
        w < 64 ==> (1u64 << w) >= 1,
{
    crate::bits::lemma_masks();
}

/// All-ones for the low `width` bits. `1 << 64` is undefined, so the widest
/// case cannot be written as `(1 << w) - 1`.
pub fn mask_w(width: u32) -> (m: u64)
    ensures
        m == ones(width),
{
    proof {
        lemma_one(width);
    }
    if width >= 64 {
        u64::MAX
    } else {
        (1u64 << width) - 1
    }
}

fn lesser(a: u32, b: u32) -> (r: u32)
    ensures
        r == least(a, b),
{
    if a < b {
        a
    } else {
        b
    }
}

/// Sign-extend the low `width` bits of `v` to i64.
pub fn sign_extend(v: u64, width: u32) -> (r: i64)
    ensures
        r == extend(v, width),
{
    match width {
        8 => ((v as u8) as i8) as i64,
        16 => ((v as u16) as i16) as i64,
        32 => ((v as u32) as i32) as i64,
        _ => v as i64,
    }
}

/// Rotate a 65-bit quantity (a 64-bit operand plus the carry flag) left or
/// right by `k`, returning the operand and the new carry.
///
/// It gets its own function because 65 bits do not fit anywhere: the trick
/// the narrower widths use -- park the carry in bit `width` of a u64 -- has
/// nowhere to park it here.
pub fn rcl_rcr64(v: u64, carry: u64, k: u32, left: bool) -> (r: (u64, bool))
    ensures
        r == rotated65((v, carry != 0), k as int, left),
{
    let mut val: u64 = v;
    let mut c = carry != 0;
    let mut i: u32 = 0;
    while i < k
        invariant
            i <= k,
            (val, c) == rotated65((v, carry != 0), i as int, left),
        decreases k - i,
    {
        let bit: u64 = if c {
            1
        } else {
            0
        };
        if left {
            let out = val >> 63 != 0;
            val = (val << 1) | bit;
            c = out;
        } else {
            let out = val & 1 != 0;
            val = (val >> 1) | (bit << 63);
            c = out;
        }
        i = i + 1;
    }
    (val, c)
}

fn set_rotate(word: u32, cf: bool, of: bool) -> (f: u32)
    ensures
        f == rotate_flags(word, cf, of),
{
    put_flag(put_flag(word, flags::CF, cf), flags::OF, of)
}

fn set_shift(word: u32, r: u64, w: u32, cf: bool, of: bool) -> (f: u32)
    ensures
        f == shift_flags(word, r, w, cf, of),
{
    put_flag(set_logic(put_flag(word, flags::CF, cf), r, w), flags::OF, of)
}

/// SHL, SHR or SAR by a count of at least one.
fn shift_linear(op: ShiftOp, word: u32, v: u64, n: u32, w: u32) -> (r: (u64, u32))
    requires
        1 <= n < 64,
        w == 8 || w == 16 || w == 32 || w == 64,
        op == ShiftOp::Shl || op == ShiftOp::Shr || op == ShiftOp::Sar,
    ensures
        (Outcome { value: r.0, flags: r.1 }) == (match op {
            ShiftOp::Shl => shl(word, v, n, w),
            ShiftOp::Shr => shr(word, v, n, w),
            _ => sar(word, v, n, w),
        }),
{
    proof {
        reveal(shl);
        reveal(shr);
        reveal(sar);
    }
    let mask: u64 = mask_w(w);
    let msb: u64 = 1u64 << (w - 1);
    match op {
        ShiftOp::Shl => {
            let r: u64 = (v << lesser(n, 63)) & mask;
            let cf = n <= w && (v >> (w - lesser(n, w))) & 1 != 0;
            // OF (count 1) = MSB of the result XOR the new CF.
            (r, set_shift(word, r, w, cf, n == 1 && ((r & msb != 0) != cf)))
        },
        ShiftOp::Shr => {
            let r: u64 = if n >= w {
                0
            } else {
                v >> n
            };
            let cf = n <= w && (v >> (n - 1)) & 1 != 0;
            // OF (count 1) = MSB of the *original* operand.
            (r, set_shift(word, r, w, cf, n == 1 && v & msb != 0))
        },
        _ => {
            // A count at or past the width saturates to all-sign-bits.
            let sv: i64 = sign_extend(v, w);
            let r: u64 = ((sv >> lesser(n, w - 1)) as u64) & mask;
            let cf = (sv >> lesser(n - 1, w - 1)) & 1 != 0;
            (r, set_shift(word, r, w, cf, false))
        },
    }
}

/// ROL or ROR by a count of at least one.
fn rotate(left: bool, word: u32, v: u64, n: u32, w: u32) -> (r: (u64, u32))
    requires
        1 <= n < 64,
        w == 8 || w == 16 || w == 32 || w == 64,
    ensures
        (Outcome { value: r.0, flags: r.1 }) == (if left {
            rol(word, v, n, w)
        } else {
            ror(word, v, n, w)
        }),
{
    proof {
        reveal(rol);
        reveal(ror);
    }
    let mask: u64 = mask_w(w);
    let msb: u64 = 1u64 << (w - 1);
    let k: u32 = n % w;
    if left {
        let r: u64 = if k == 0 {
            v
        } else {
            ((v << k) | (v >> (w - k))) & mask
        };
        let cf = r & 1 != 0;
        (r, set_rotate(word, cf, n == 1 && ((r & msb != 0) != cf)))
    } else {
        let r: u64 = if k == 0 {
            v
        } else {
            ((v >> k) | (v << (w - k))) & mask
        };
        let cf = r & msb != 0;
        // OF (count 1) = XOR of the two most significant result bits.
        let second = (r >> (w - 2)) & 1 != 0;
        (r, set_rotate(word, cf, n == 1 && cf != second))
    }
}

/// RCL or RCR by a count of at least one.
fn rotate_carry(left: bool, word: u32, v: u64, n: u32, w: u32) -> (r: (u64, u32))
    requires
        1 <= n < 64,
        w == 8 || w == 16 || w == 32 || w == 64,
    ensures
        (Outcome { value: r.0, flags: r.1 }) == rc(word, v, n, w, left),
{
    proof {
        reveal(rc);
    }
    let msb: u64 = 1u64 << (w - 1);
    let bits: u32 = w + 1;
    let k: u32 = n % bits;
    let carry: u64 = if word & flags::CF != 0 {
        1
    } else {
        0
    };
    let (r, cf): (u64, bool) = if w == 64 {
        rcl_rcr64(v, carry, k, left)
    } else {
        let wide: u64 = v | (carry << w);
        let full: u64 = mask_w(bits);
        let rot: u64 = if k == 0 {
            wide
        } else if left {
            ((wide << k) | (wide >> (bits - k))) & full
        } else {
            ((wide >> k) | (wide << (bits - k))) & full
        };
        (rot & mask_w(w), (rot >> w) & 1 != 0)
    };
    let of = if left {
        n == 1 && ((r & msb != 0) != cf)
    } else {
        let second = (r >> (w - 2)) & 1 != 0;
        n == 1 && ((r & msb != 0) != second)
    };
    // Rotates leave SF/ZF/PF alone.
    (r, set_rotate(word, cf, of))
}

/// A shift or rotate of `width` bits: its result, in the low `width` bits, and
/// the flags.
pub fn shift_w(op: ShiftOp, word: u32, v: u64, count: u32, width: u32) -> (r: (u64, u32))
    ensures
        (Outcome { value: r.0, flags: r.1 }) == shifted(op, word, v, count, width),
{
    proof {
        reveal(shifted);
        crate::bits::lemma_masks();
    }
    let w: u32 = if width == 8 || width == 16 || width == 32 {
        width
    } else {
        64
    };
    let n: u32 = count & (if w == 64 {
        0x3Fu32
    } else {
        0x1Fu32
    });
    if n == 0 {
        return (v, word);
    }
    let x: u64 = v & mask_w(w);
    match op {
        ShiftOp::Shl | ShiftOp::Shr | ShiftOp::Sar => shift_linear(op, word, x, n, w),
        ShiftOp::Rol => rotate(true, word, x, n, w),
        ShiftOp::Ror => rotate(false, word, x, n, w),
        ShiftOp::Rcl => rotate_carry(true, word, x, n, w),
        ShiftOp::Rcr => rotate_carry(false, word, x, n, w),
    }
}

/// Apply a bit operation to bit `b` of a value.
pub fn apply_bit(v: u64, b: u32, op: BitOp) -> (r: u64)
    requires
        b < 64,
    ensures
        r == bit_applied(v, b, op),
{
    match op {
        BitOp::Test => v,
        BitOp::Raise => v | (1u64 << b),
        BitOp::Reset => v & !(1u64 << b),
        BitOp::Complement => v ^ (1u64 << b),
    }
}

impl Cpu {
    /// Perform a shift/rotate of `width` bits, set the flags, and return the
    /// result in the low `width` bits.
    pub fn shift_width(&mut self, op: ShiftOp, v: u64, n: u32, width: u32) -> (r: u64)
        ensures
            r == shifted(op, old(self)@.flags, v, n, width).value,
            final(self)@ == old(self)@.with_flags(
                shifted(op, old(self)@.flags, v, n, width).flags,
            ),
    {
        let (r, f): (u64, u32) = shift_w(op, self.flags, v, n, width);
        self.flags = f;
        r
    }

    /// Read the r/m operand at `width` bits, shift it, and write it back.
    pub fn do_shift(&mut self, op: ShiftOp, m: &ModRm, width: u32, n: u32)
        ensures
            final(self)@ == old(self)@.shift_rm(op, *m, width, n),
    {
        proof {
            reveal(State::shift_rm);
        }
        let v: u64 = self.read_rm_w(m, width);
        let r: u64 = self.shift_width(op, v, n, width);
        self.write_rm_w(m, width, r);
    }
}

} // verus!
