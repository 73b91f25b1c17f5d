//! Arithmetic on operands: the two-operand ALU forms, INC and DEC, TEST, NOT
//! and NEG, the double-precision shifts, bit scans and bit tests.

use crate::cpu::address::Access;
use crate::cpu::operand::{byte_count, bytes_of};
use crate::cpu::{flags, Cpu};
use crate::instructions::alu::{alu_flags, put_flag, set_logic, Outcome};
use crate::instructions::shift::{apply_bit, sign_extend, BitOp};
use crate::instructions::{AluOp, BitOffset, Dir, ShiftCount};
use crate::modrm::ModRm;
use crate::state::State;
use vstd::prelude::*;

verus! {

/// An outcome whose carry flag is the one there was before: INC and DEC.
pub open spec fn carry_kept(word: u32, f: u32) -> u32 {
    crate::instructions::alu::put(f, flags::CF, word & flags::CF != 0)
}

/// The lowest bit set in `v` at or above `from`, or 64.
pub open spec fn lowest_set(v: u64, from: u32) -> u32
    decreases 64 - from,
{
    if from >= 64 {
        64
    } else if (v >> from) & 1 != 0 {
        from
    } else {
        lowest_set(v, (from + 1) as u32)
    }
}

/// The highest bit set in `v` below `end`, or zero.
pub open spec fn highest_set(v: u64, end: u32) -> u32
    decreases end,
{
    if end == 0 {
        0
    } else if (v >> ((end - 1) as u32)) & 1 != 0 {
        (end - 1) as u32
    } else {
        highest_set(v, (end - 1) as u32)
    }
}

/// The flags after a double-precision shift.
pub open spec fn double_flags(word: u32, r: u64, w: u32, cf: bool, of: bool) -> u32 {
    crate::instructions::alu::logic_flags(
        crate::instructions::alu::put(
            crate::instructions::alu::put(word, flags::CF, cf),
            flags::OF,
            of,
        ),
        r,
        w,
    )
}

/// SHLD by `n` places, `1 <= n < 64` at 64 bits and `1 <= n < 32` below: `d`
/// shifted left with the top of `src` fed in. At 16 bits the shift is made in
/// 32.
#[verifier::opaque]
pub open spec fn shld(word: u32, d: u64, src: u64, n: u32, w: u32) -> Outcome {
    if w == 64 {
        let r = (d << n) | (src >> ((64 - n) as u32));
        let cf = (d >> ((64 - n) as u32)) & 1 != 0;
        Outcome { value: r, flags: double_flags(word, r, 64, cf, ((d ^ r) >> 63) & 1 != 0) }
    } else if w == 32 {
        let (a, b) = (d as u32, src as u32);
        let r = (a << n) | (b >> ((32 - n) as u32));
        let cf = (a >> ((32 - n) as u32)) & 1 != 0;
        Outcome {
            value: r as u64,
            flags: double_flags(word, r as u64, 32, cf, ((a ^ r) >> 31) & 1 != 0),
        }
    } else {
        let (a, b) = (d as u16, src as u16);
        let wide = ((a as u32) << 16) | (b as u32);
        let r = ((wide << n) >> 16) as u16;
        let cf = if n < 16 { (a >> ((16 - n) as u32)) & 1 != 0 } else { a & 1 != 0 };
        Outcome {
            value: r as u64,
            flags: double_flags(word, r as u64, 16, cf, ((a ^ r) >> 15) & 1 != 0),
        }
    }
}

/// SHRD by `n` places: `d` shifted right with the bottom of `src` fed in.
#[verifier::opaque]
pub open spec fn shrd(word: u32, d: u64, src: u64, n: u32, w: u32) -> Outcome {
    if w == 64 {
        let r = (d >> n) | (src << ((64 - n) as u32));
        let cf = (d >> ((n - 1) as u32)) & 1 != 0;
        Outcome { value: r, flags: double_flags(word, r, 64, cf, ((d ^ r) >> 63) & 1 != 0) }
    } else if w == 32 {
        let (a, b) = (d as u32, src as u32);
        let r = (a >> n) | (b << ((32 - n) as u32));
        let cf = (a >> ((n - 1) as u32)) & 1 != 0;
        Outcome {
            value: r as u64,
            flags: double_flags(word, r as u64, 32, cf, ((a ^ r) >> 31) & 1 != 0),
        }
    } else {
        let (a, b) = (d as u16, src as u16);
        let wide = ((b as u32) << 16) | (a as u32);
        let r = (wide >> n) as u16;
        let cf = (a >> (if n < 16 { (n - 1) as u32 } else { 15 })) & 1 != 0;
        Outcome {
            value: r as u64,
            flags: double_flags(word, r as u64, 16, cf, ((a ^ r) >> 15) & 1 != 0),
        }
    }
}

impl State {
    /// A two-operand ALU operation between r/m and a register. CMP sets flags
    /// only: it never writes its result back.
    #[verifier::opaque]
    pub open spec fn alu_rm_reg(self, op: AluOp, m: ModRm, reg: u8, dir: Dir, w: u32) -> State {
        let r = self.reg_w(reg, w);
        let (s, v) = self.read_rm(m, w);
        let o = if dir == Dir::RmReg { s.alu(op, v, r, w) } else { s.alu(op, r, v, w) };
        let t = s.with_flags(o.flags);
        if op == AluOp::Cmp {
            t
        } else if dir == Dir::RmReg {
            t.write_rm(m, w, o.value)
        } else {
            t.set_reg_w(reg, w, o.value)
        }
    }

    /// A two-operand ALU operation between r/m and an immediate.
    #[verifier::opaque]
    pub open spec fn alu_rm_imm(self, op: AluOp, m: ModRm, imm: u64, w: u32) -> State {
        let (s, v) = self.read_rm(m, w);
        let o = s.alu(op, v, imm, w);
        let t = s.with_flags(o.flags);
        if op == AluOp::Cmp { t } else { t.write_rm(m, w, o.value) }
    }

    /// A two-operand ALU operation between the accumulator and an immediate.
    #[verifier::opaque]
    pub open spec fn alu_acc_imm(self, op: AluOp, imm: u64, w: u32) -> State {
        let o = self.alu(op, self.reg_w(0, w), imm, w);
        let t = self.with_flags(o.flags);
        if op == AluOp::Cmp { t } else { t.set_reg_w(0, w, o.value) }
    }

    /// One added to or taken from a value, with the carry flag kept.
    pub open spec fn stepped(self, v: u64, down: bool, w: u32) -> Outcome {
        let o = self.alu(if down { AluOp::Sub } else { AluOp::Add }, v, 1, w);
        Outcome { value: o.value, flags: carry_kept(self.flags, o.flags) }
    }

    /// INC or DEC of a register.
    #[verifier::opaque]
    pub open spec fn step_reg(self, dst: u8, down: bool, w: u32) -> State {
        let o = self.stepped(self.reg_w(dst, w), down, w);
        self.with_flags(o.flags).set_reg_w(dst, w, o.value)
    }

    /// INC or DEC of an r/m operand.
    #[verifier::opaque]
    pub open spec fn step_rm(self, m: ModRm, down: bool, w: u32) -> State {
        let (s, v) = self.read_rm(m, w);
        let o = s.stepped(v, down, w);
        s.with_flags(o.flags).write_rm(m, w, o.value)
    }

    /// TEST: the flags of AND, and nothing written.
    pub open spec fn tested(self, a: u64, b: u64, w: u32) -> State {
        self.with_flags(self.alu(AluOp::And, a, b, w).flags)
    }

    /// TEST r/m, value.
    #[verifier::opaque]
    pub open spec fn test_rm(self, m: ModRm, b: u64, w: u32) -> State {
        let (s, v) = self.read_rm(m, w);
        s.tested(v, b, w)
    }

    /// NOT: no flags.
    #[verifier::opaque]
    pub open spec fn not_rm(self, m: ModRm, w: u32) -> State {
        let (s, v) = self.read_rm(m, w);
        s.write_rm(m, w, !v)
    }

    /// NEG: zero minus the operand.
    #[verifier::opaque]
    pub open spec fn neg_rm(self, m: ModRm, w: u32) -> State {
        let (s, v) = self.read_rm(m, w);
        let o = s.alu(AluOp::Sub, 0, v, w);
        s.with_flags(o.flags).write_rm(m, w, o.value)
    }

    /// The count a shift instruction names.
    pub open spec fn shift_count(self, count: ShiftCount) -> u8 {
        match count {
            ShiftCount::One => 1,
            ShiftCount::Imm(i) => i,
            ShiftCount::Cl => self.reg64(1) as u8,
        }
    }

    /// SHLD or SHRD. A count of zero changes nothing, flags included.
    #[verifier::opaque]
    pub open spec fn shift_double(
        self,
        m: ModRm,
        reg: u8,
        count: ShiftCount,
        w32: bool,
        left: bool,
    ) -> State {
        let wide = self.osize() == 64;
        let n = (self.shift_count(count) & (if wide { 0x3Fu8 } else { 0x1Fu8 })) as u32;
        let w: u32 = if wide {
            64
        } else if w32 {
            32
        } else {
            16
        };
        if n == 0 {
            self
        } else {
            let (s, d) = self.read_rm(m, w);
            let src = s.reg_w(reg, w);
            let o = if left {
                shld(s.flags, d, src, n, w)
            } else {
                shrd(s.flags, d, src, n, w)
            };
            s.with_flags(o.flags).write_rm(m, w, o.value)
        }
    }

    /// BSF and BSR: ZF is set when the source is zero, and the destination is
    /// then left alone.
    #[verifier::opaque]
    pub open spec fn bit_scan(self, m: ModRm, dst: u8, reverse: bool) -> State {
        let w = self.osize();
        let (s, v) = self.read_rm(m, w);
        let t = s.with_flag(flags::ZF, v == 0);
        if v == 0 {
            t
        } else if reverse {
            t.set_reg_w(dst, w, highest_set(v, 64) as u64)
        } else {
            t.set_reg_w(dst, w, lowest_set(v, 0) as u64)
        }
    }

    /// The bit offset of a bit test: signed, when it comes from a register.
    pub open spec fn bit_offset(self, bit: BitOffset) -> int {
        match bit {
            BitOffset::Imm(i) => i as int,
            BitOffset::Reg(r) => crate::instructions::shift::extend(
                self.reg_w(r, self.osize()),
                self.osize(),
            ) as int,
        }
    }

    /// BT/BTS/BTR/BTC. CF takes the bit's old value. With a register
    /// destination the offset wraps within the operand; with a memory one it
    /// is a signed index into a bit string that may run far past the addressed
    /// word.
    #[verifier::opaque]
    pub open spec fn bit_op(self, m: ModRm, bit: BitOffset, op: BitOp) -> State {
        let w = self.osize();
        let offset = self.bit_offset(bit);
        let b = (offset % (w as int)) as u32;
        if m.mod_field == 3 {
            let v = self.reg_w(m.rm, w);
            let s = self.with_flag(flags::CF, (v >> b) & 1 != 0);
            if op == BitOp::Test {
                s
            } else {
                s.set_reg_w(m.rm, w, crate::instructions::shift::bit_applied(v, b, op))
            }
        } else {
            let disp = (offset / (w as int)) * (w as int / 8);
            let (s, sp) = self.reach(
                self.rm_linear_by(m, disp as u64),
                bytes_of(w),
                if op == BitOp::Test { Access::Read } else { Access::Write },
            );
            let v = s.mem.span_read(sp, 0, w);
            let t = s.with_flag(flags::CF, (v >> b) & 1 != 0);
            if op == BitOp::Test {
                t
            } else {
                t.put_span(sp, 0, w, crate::instructions::shift::bit_applied(v, b, op))
            }
        }
    }
}

/// The lowest bit set in a value, or 64.
pub fn scan_forward(v: u64) -> (r: u32)
    ensures
        r == lowest_set(v, 0),
{
    let mut i: u32 = 0;
    while i < 64
        invariant
            i <= 64,
            lowest_set(v, i) == lowest_set(v, 0),
        decreases 64 - i,
    {
        if (v >> i) & 1 != 0 {
            return i;
        }
        i = i + 1;
    }
    64
}

/// The highest bit set in a value, or zero.
pub fn scan_reverse(v: u64) -> (r: u32)
    ensures
        r == highest_set(v, 64),
{
    let mut i: u32 = 64;
    while i > 0
        invariant
            i <= 64,
            highest_set(v, i) == highest_set(v, 64),
        decreases i,
    {
        if (v >> (i - 1)) & 1 != 0 {
            return i - 1;
        }
        i = i - 1;
    }
    0
}

fn set_double(word: u32, r: u64, w: u32, cf: bool, of: bool) -> (f: u32)
    ensures
        f == double_flags(word, r, w, cf, of),
{
    set_logic(put_flag(put_flag(word, flags::CF, cf), flags::OF, of), r, w)
}

/// SHLD of two values.
fn shld_w(word: u32, d: u64, src: u64, n: u32, w: u32) -> (r: (u64, u32))
    requires
        1 <= n < 64,
        w != 64 ==> n < 32,
    ensures
        (Outcome { value: r.0, flags: r.1 }) == shld(word, d, src, n, w),
{
    proof {
        reveal(shld);
    }
    if w == 64 {
        let r: u64 = (d << n) | (src >> (64 - n));
        let cf = (d >> (64 - n)) & 1 != 0;
        (r, set_double(word, r, 64, cf, ((d ^ r) >> 63) & 1 != 0))
    } else if w == 32 {
        let a: u32 = d as u32;
        let b: u32 = src as u32;
        let r: u32 = (a << n) | (b >> (32 - n));
        let cf = (a >> (32 - n)) & 1 != 0;
        (r as u64, set_double(word, r as u64, 32, cf, ((a ^ r) >> 31) & 1 != 0))
    } else {
        let a: u16 = d as u16;
        let b: u16 = src as u16;
        // A 16-bit SHLD with count > 16 feeds in bits that a real CPU leaves
        // undefined; do the shift in 32 bits so the in-range cases are exact.
        let wide: u32 = ((a as u32) << 16) | (b as u32);
        let r: u16 = ((wide << n) >> 16) as u16;
        let cf = if n < 16 {
            (a >> (16 - n)) & 1 != 0
        } else {
            a & 1 != 0
        };
        (r as u64, set_double(word, r as u64, 16, cf, ((a ^ r) >> 15) & 1 != 0))
    }
}

/// SHRD of two values.
fn shrd_w(word: u32, d: u64, src: u64, n: u32, w: u32) -> (r: (u64, u32))
    requires
        1 <= n < 64,
        w != 64 ==> n < 32,
    ensures
        (Outcome { value: r.0, flags: r.1 }) == shrd(word, d, src, n, w),
{
    proof {
        reveal(shrd);
    }
    if w == 64 {
        let r: u64 = (d >> n) | (src << (64 - n));
        let cf = (d >> (n - 1)) & 1 != 0;
        (r, set_double(word, r, 64, cf, ((d ^ r) >> 63) & 1 != 0))
    } else if w == 32 {
        let a: u32 = d as u32;
        let b: u32 = src as u32;
        let r: u32 = (a >> n) | (b << (32 - n));
        let cf = (a >> (n - 1)) & 1 != 0;
        (r as u64, set_double(word, r as u64, 32, cf, ((a ^ r) >> 31) & 1 != 0))
    } else {
        let a: u16 = d as u16;
        let b: u16 = src as u16;
        let wide: u32 = ((b as u32) << 16) | (a as u32);
        let r: u16 = (wide >> n) as u16;
        let k: u32 = if n < 16 {
            n - 1
        } else {
            15
        };
        let cf = (a >> k) & 1 != 0;
        (r as u64, set_double(word, r as u64, 16, cf, ((a ^ r) >> 15) & 1 != 0))
    }
}

/// A signed bit offset as a whole number of operands, in bytes, and a bit
/// within one.
fn split_offset(offset: i64, w: u32) -> (r: (i64, u32))
    requires
        w == 16 || w == 32 || w == 64,
    ensures
        r.0 == (offset as int / (w as int)) * (w as int / 8),
        r.1 == offset as int % (w as int),
        r.1 < 64,
{
    // Biased by a multiple of every width, so that the division is of a
    // non-negative number.
    let biased: u64 = (offset as i128 + 0x8000_0000_0000_0000) as u64;
    let b: u32 = (biased % (w as u64)) as u32;
    let words: u64 = biased / (w as u64);
    let disp: i64 = if w == 16 {
        (words as i64 - 0x0800_0000_0000_0000) * 2
    } else if w == 32 {
        (words as i64 - 0x0400_0000_0000_0000) * 4
    } else {
        (words as i64 - 0x0200_0000_0000_0000) * 8
    };
    (disp, b)
}

impl Cpu {
    pub fn alu_rm_reg(&mut self, op: AluOp, m: &ModRm, reg: u8, dir: Dir, w: u32)
        ensures
            final(self)@ == old(self)@.alu_rm_reg(op, *m, reg, dir, w),
    {
        proof {
            reveal(State::alu_rm_reg);
        }
        let r: u64 = self.reg_w(reg, w);
        let v: u64 = self.read_rm_w(m, w);
        match dir {
            Dir::RmReg => {
                let result: u64 = self.alu_w(op, v, r, w);
                // CMP sets flags only: it must never write its result back.
                if op != AluOp::Cmp {
                    self.write_rm_w(m, w, result);
                }
            },
            Dir::RegRm => {
                let result: u64 = self.alu_w(op, r, v, w);
                if op != AluOp::Cmp {
                    self.set_reg_w(reg, w, result);
                }
            },
        }
    }

    pub fn alu_rm_imm(&mut self, op: AluOp, m: &ModRm, imm: u64, w: u32)
        ensures
            final(self)@ == old(self)@.alu_rm_imm(op, *m, imm, w),
    {
        proof {
            reveal(State::alu_rm_imm);
        }
        let v: u64 = self.read_rm_w(m, w);
        let result: u64 = self.alu_w(op, v, imm, w);
        if op != AluOp::Cmp {
            self.write_rm_w(m, w, result);
        }
    }

    pub fn alu_acc_imm(&mut self, op: AluOp, imm: u64, w: u32)
        ensures
            final(self)@ == old(self)@.alu_acc_imm(op, imm, w),
    {
        proof {
            reveal(State::alu_acc_imm);
        }
        let a: u64 = self.reg_w(0, w);
        let result: u64 = self.alu_w(op, a, imm, w);
        if op != AluOp::Cmp {
            self.set_reg_w(0, w, result);
        }
    }

    /// Add one to or take one from a value. INC/DEC preserve CF -- that is the
    /// whole reason they exist alongside ADD/SUB by 1.
    fn step_value(&mut self, v: u64, down: bool, w: u32) -> (r: u64)
        ensures
            r == old(self)@.stepped(v, down, w).value,
            final(self)@ == old(self)@.with_flags(old(self)@.stepped(v, down, w).flags),
    {
        let op = if down {
            AluOp::Sub
        } else {
            AluOp::Add
        };
        let word: u32 = self.flags;
        let (r, f): (u64, u32) = alu_flags(op, word, v, 1, w);
        self.flags = put_flag(f, flags::CF, word & flags::CF != 0);
        r
    }

    pub fn step_reg(&mut self, dst: u8, down: bool, w: u32)
        ensures
            final(self)@ == old(self)@.step_reg(dst, down, w),
    {
        proof {
            reveal(State::step_reg);
        }
        let v: u64 = self.reg_w(dst, w);
        let r: u64 = self.step_value(v, down, w);
        self.set_reg_w(dst, w, r);
    }

    pub fn step_rm(&mut self, m: &ModRm, down: bool, w: u32)
        ensures
            final(self)@ == old(self)@.step_rm(*m, down, w),
    {
        proof {
            reveal(State::step_rm);
        }
        let v: u64 = self.read_rm_w(m, w);
        let r: u64 = self.step_value(v, down, w);
        self.write_rm_w(m, w, r);
    }

    pub fn test_values(&mut self, a: u64, b: u64, w: u32)
        ensures
            final(self)@ == old(self)@.tested(a, b, w),
    {
        self.alu_w(AluOp::And, a, b, w);
    }

    pub fn test_rm(&mut self, m: &ModRm, b: u64, w: u32)
        ensures
            final(self)@ == old(self)@.test_rm(*m, b, w),
    {
        proof {
            reveal(State::test_rm);
        }
        let v: u64 = self.read_rm_w(m, w);
        self.test_values(v, b, w);
    }

    pub fn not_rm(&mut self, m: &ModRm, w: u32)
        ensures
            final(self)@ == old(self)@.not_rm(*m, w),
    {
        proof {
            reveal(State::not_rm);
        }
        let v: u64 = self.read_rm_w(m, w);
        self.write_rm_w(m, w, !v);
    }

    pub fn neg_rm(&mut self, m: &ModRm, w: u32)
        ensures
            final(self)@ == old(self)@.neg_rm(*m, w),
    {
        proof {
            reveal(State::neg_rm);
        }
        let v: u64 = self.read_rm_w(m, w);
        let r: u64 = self.alu_w(AluOp::Sub, 0, v, w);
        self.write_rm_w(m, w, r);
    }

    /// The count a shift instruction names.
    pub fn shift_count(&self, count: ShiftCount) -> (n: u8)
        ensures
            n == self@.shift_count(count),
    {
        match count {
            ShiftCount::One => 1,
            ShiftCount::Imm(i) => i,
            ShiftCount::Cl => self.reg64(1) as u8,
        }
    }

    pub fn shift_double(&mut self, m: &ModRm, reg: u8, count: ShiftCount, w32: bool, left: bool)
        ensures
            final(self)@ == old(self)@.shift_double(*m, reg, count, w32, left),
    {
        proof {
            reveal(State::shift_double);
            crate::bits::lemma_masks();
        }
        let wide = self.osize() == 64;
        let mask: u8 = if wide {
            0x3F
        } else {
            0x1F
        };
        let n: u32 = (self.shift_count(count) & mask) as u32;
        let w: u32 = if wide {
            64
        } else if w32 {
            32
        } else {
            16
        };
        if n == 0 {
            return;
        }
        let d: u64 = self.read_rm_w(m, w);
        let src: u64 = self.reg_w(reg, w);
        let (r, f): (u64, u32) = if left {
            shld_w(self.flags, d, src, n, w)
        } else {
            shrd_w(self.flags, d, src, n, w)
        };
        self.flags = f;
        self.write_rm_w(m, w, r);
    }

    pub fn bit_scan(&mut self, m: &ModRm, dst: u8, reverse: bool)
        ensures
            final(self)@ == old(self)@.bit_scan(*m, dst, reverse),
    {
        proof {
            reveal(State::bit_scan);
        }
        let w: u32 = self.osize();
        let v: u64 = self.read_rm_w(m, w);
        self.set_flag(flags::ZF, v == 0);
        // With a zero source the destination is left alone: it is
        // architecturally undefined, and leaving it is what every real CPU
        // does.
        if v != 0 {
            let r: u32 = if reverse {
                scan_reverse(v)
            } else {
                scan_forward(v)
            };
            self.set_reg_w(dst, w, r as u64);
        }
    }

    pub fn bit_op(&mut self, m: &ModRm, bit: BitOffset, op: BitOp)
        ensures
            final(self)@ == old(self)@.bit_op(*m, bit, op),
    {
        proof {
            reveal(State::bit_op);
        }
        let w: u32 = self.osize();
        let offset: i64 = match bit {
            BitOffset::Imm(i) => i as i64,
            BitOffset::Reg(r) => sign_extend(self.reg_w(r, w), w),
        };
        let (disp, b): (i64, u32) = split_offset(offset, w);
        if m.is_reg() {
            let v: u64 = self.reg_w(m.rm, w);
            self.set_flag(flags::CF, (v >> b) & 1 != 0);
            if op != BitOp::Test {
                self.set_reg_w(m.rm, w, apply_bit(v, b, op));
            }
            return;
        }
        // Memory destination: step whole operands along the bit string. The
        // displacement is signed, so a negative offset reaches backwards.
        let linear: u64 = self.modrm_linear_by(m, disp as u64);
        let sp = self.reach(linear, byte_count(w), op != BitOp::Test);
        let v: u64 = self.mem.span_read(sp, 0, w);
        self.set_flag(flags::CF, (v >> b) & 1 != 0);
        if op != BitOp::Test {
            self.put_span(sp, 0, w, apply_bit(v, b, op));
        }
    }
}

} // verus!
