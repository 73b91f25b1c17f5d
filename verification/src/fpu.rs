//! Minimal x87 FPU for early-boot support.
//!
//! Implements the FPU state (control/status/tag words and the eight data
//! registers, kept as the bit patterns of IEEE doubles) plus the instructions
//! a kernel needs during early boot: FNINIT, FSTCW/FLDCW, FSTSW,
//! FXSAVE/FXRSTOR, and the data-transfer operations.
//!
//! The registers hold bit patterns so that every move between registers and
//! memory is exact. The four arithmetic operations are not computed here: an
//! instruction that needs one leaves an [`FpuRequest`] behind, and whoever
//! drives the machine hands the result's bits back through
//! [`Fpu::complete`].

use crate::cpu::span::Span;
use crate::instructions::FpuOp;
use crate::memory::{MemView, Memory};
use vstd::prelude::*;

verus! {

/// The bytes of the FXSAVE area that the FPU uses: a header of 32, and eight
/// slots of 16.
pub const FXSAVE_BYTES: u32 = 160;

/// An arithmetic operation waiting for its result: `lhs op rhs`, both as the
/// bits of IEEE doubles. The result belongs in ST(0).
#[derive(Clone, Copy, Debug, PartialEq, Eq, Structural)]
pub struct FpuRequest {
    pub op: FpuOp,
    pub lhs: u64,
    pub rhs: u64,
}

/// The x87 FPU state.
pub struct Fpu {
    /// Control word (default 0x037F: round-nearest, all exceptions masked).
    pub control: u16,
    /// Status word.
    pub status: u16,
    /// Tag word (bit per register: 1 = empty, 0 = valid).
    pub tag: u16,
    /// The eight data registers, as the bits of IEEE doubles.
    pub st: [u64; 8],
    /// Index of the current ST0 within `st`.
    pub top: usize,
    /// The arithmetic operation that still waits for its result.
    pub request: Option<FpuRequest>,
}

/// What an [`Fpu`] holds, as mathematics.
#[verifier::ext_equal]
pub struct FpuView {
    pub control: u16,
    pub status: u16,
    pub tag: u16,
    pub st: Seq<u64>,
    pub top: usize,
    pub request: Option<FpuRequest>,
}

impl Fpu {
    /// The value this stands for.
    pub open spec fn view(&self) -> FpuView {
        FpuView {
            control: self.control,
            status: self.status,
            tag: self.tag,
            st: self.st@,
            top: self.top,
            request: self.request,
        }
    }
}

/// A double in the area FXSAVE writes: its 64-bit significand, its biased
/// 15-bit exponent, and its sign in the top bit of a word of its own.
pub struct Extended {
    pub mantissa: u64,
    pub exponent: u16,
    pub sign: u16,
}

impl Extended {
    /// The extended form of a double. Zero is all zeroes, infinities and NaNs
    /// keep the largest exponent, and everything else is rebiased.
    pub open spec fn of(bits: u64) -> Extended {
        let exp = (bits >> 52) & 0x7FF;
        let mant = bits & 0xF_FFFF_FFFF_FFFF;
        let sign = (((bits >> 63) & 1) as u16) << 15;
        if exp == 0 && mant == 0 {
            Extended { mantissa: 0, exponent: 0, sign }
        } else if exp == 0x7FF {
            Extended { mantissa: (mant << 11) | 0x8000_0000_0000_0000, exponent: 0x7FFF, sign }
        } else {
            Extended {
                mantissa: (mant << 11) | 0x8000_0000_0000_0000,
                exponent: (exp as u16).wrapping_add(15360),
                sign,
            }
        }
    }

    /// The double an extended value restores to: a zero for the smallest
    /// exponent, an infinity or a NaN for the largest, all with their sign.
    pub open spec fn bits(self) -> u64 {
        let sign = ((self.sign >> 15) as u64) << 63;
        let fraction = (self.mantissa & 0x7FFF_FFFF_FFFF_FFFF) >> 11;
        if self.exponent == 0 {
            sign
        } else if self.exponent == 0x7FFF {
            sign | 0x7FF0_0000_0000_0000 | fraction
        } else {
            sign | ((self.exponent as u64).wrapping_sub(15360) << 52) | fraction
        }
    }
}

/// Where in the area FXSAVE keeps register `i`.
pub open spec fn slot(i: int) -> usize {
    (32 + i * 16) as usize
}

/// Memory with register `i` written into its slot of an area.
pub open spec fn saved_reg(mem: MemView, sp: Span, i: int, bits: u64) -> MemView {
    let e = Extended::of(bits);
    mem.span_write(sp, slot(i), 64, e.mantissa)
        .span_write(sp, (slot(i) + 8) as usize, 16, e.exponent as u64)
        .span_write(sp, (slot(i) + 10) as usize, 16, e.sign as u64)
}

/// The value slot `i` of an area restores to.
pub open spec fn restored_reg(mem: MemView, sp: Span, i: int) -> u64 {
    Extended {
        mantissa: mem.span_read(sp, slot(i), 64),
        exponent: mem.span_read(sp, (slot(i) + 8) as usize, 16) as u16,
        sign: mem.span_read(sp, (slot(i) + 10) as usize, 16) as u16,
    }.bits()
}

/// Memory with the first `n` registers written into their slots.
pub open spec fn saved_regs(mem: MemView, sp: Span, st: Seq<u64>, n: int) -> MemView
    decreases n,
{
    if n <= 0 {
        mem
    } else {
        saved_reg(saved_regs(mem, sp, st, n - 1), sp, n - 1, st[n - 1])
    }
}

impl FpuView {
    /// The FPU at power-on and after FNINIT.
    pub open spec fn reset() -> FpuView {
        FpuView {
            control: 0x037F,
            status: 0,
            tag: 0xFFFF,
            st: Seq::new(8, |i: int| 0u64),
            top: 0,
            request: None,
        }
    }

    /// Which data register ST(i) is.
    pub open spec fn index(self, i: usize) -> int {
        (self.top.wrapping_add(i) % 8) as int
    }

    /// ST(i).
    pub open spec fn st_i(self, i: usize) -> u64 {
        self.st[self.index(i)]
    }

    /// The FPU with ST(i) replaced and marked valid.
    pub open spec fn set_st_i(self, i: usize, v: u64) -> FpuView {
        FpuView {
            st: self.st.update(self.index(i), v),
            tag: self.tag & !(1u16 << self.index(i)),
            ..self
        }
    }

    /// The FPU with `v` pushed: the top moves down one register.
    pub open spec fn push(self, v: u64) -> FpuView {
        let top = self.index(7);
        FpuView {
            top: top as usize,
            st: self.st.update(top, v),
            tag: self.tag & !(1u16 << top),
            ..self
        }
    }

    /// The FPU with ST(0) popped: its register is empty and the top moves up.
    pub open spec fn pop(self) -> FpuView {
        FpuView {
            tag: self.tag | (1u16 << self.index(0)),
            top: self.index(1) as usize,
            ..self
        }
    }

    /// Memory after FXSAVE to an area: the control, status and tag words, then
    /// the registers.
    #[verifier::opaque]
    pub open spec fn saved_to(self, mem: MemView, sp: Span) -> MemView {
        saved_regs(
            mem.span_write(sp, 0, 16, self.control as u64)
                .span_write(sp, 2, 16, self.status as u64)
                .span_write(sp, 4, 16, self.tag as u64),
            sp,
            self.st,
            8,
        )
    }

    /// The FPU after FXRSTOR from an area.
    #[verifier::opaque]
    pub open spec fn restored_from(self, mem: MemView, sp: Span) -> FpuView {
        FpuView {
            control: mem.span_read(sp, 0, 16) as u16,
            status: mem.span_read(sp, 2, 16) as u16,
            tag: mem.span_read(sp, 4, 16) as u16,
            st: Seq::new(8, |i: int| restored_reg(mem, sp, i)),
            ..self
        }
    }

    /// Memory after FXSAVE to a physical address.
    pub open spec fn fxsave(self, mem: MemView, addr: usize) -> MemView {
        self.saved_to(mem, Span::flat(addr))
    }

    /// The FPU after FXRSTOR from a physical address.
    pub open spec fn fxrstor(self, mem: MemView, addr: usize) -> FpuView {
        self.restored_from(mem, Span::flat(addr))
    }

    /// The FPU once the outstanding operation's result has come back.
    pub open spec fn complete(self, result: u64) -> FpuView {
        match self.request {
            Some(_) => FpuView { request: None, ..self }.set_st_i(0, result),
            None => self,
        }
    }
}

proof fn lemma_exponent(bits: u64)
    ensures
        ((bits >> 52u64) & 0x7FFu64) <= 0x7FF,
{
    crate::bits::lemma_masks();
}

impl Fpu {
    pub fn new() -> (f: Self)
        ensures
            f@ == FpuView::reset(),
    {
        Fpu { control: 0x037F, status: 0, tag: 0xFFFF, st: [0; 8], top: 0, request: None }
    }

    /// FNINIT: reset the FPU to its default state.
    pub fn finit(&mut self)
        ensures
            final(self)@ == FpuView::reset(),
    {
        self.control = 0x037F;
        self.status = 0;
        self.tag = 0xFFFF;
        self.st = [0; 8];
        self.top = 0;
        self.request = None;
    }

    /// ST(i) accessor relative to the current top.
    pub fn st_i(&self, i: usize) -> (v: u64)
        ensures
            v == self@.st_i(i),
    {
        self.st[self.top.wrapping_add(i) % 8]
    }

    /// Replace ST(i) and mark it valid.
    pub fn set_st_i(&mut self, i: usize, v: u64)
        ensures
            final(self)@ == old(self)@.set_st_i(i, v),
    {
        let idx: usize = self.top.wrapping_add(i) % 8;
        self.st[idx] = v;
        self.tag = self.tag & !(1u16 << idx);
    }

    /// Push a value onto the stack (ST0 becomes `v`, top decrements).
    pub fn push(&mut self, v: u64)
        ensures
            final(self)@ == old(self)@.push(v),
    {
        self.top = self.top.wrapping_add(7) % 8;
        self.st[self.top] = v;
        self.tag = self.tag & !(1u16 << self.top);
    }

    /// Pop the stack (top increments).
    pub fn pop(&mut self)
        ensures
            final(self)@ == old(self)@.pop(),
    {
        let idx: usize = self.top.wrapping_add(0) % 8;
        self.tag = self.tag | (1u16 << idx);
        self.top = self.top.wrapping_add(1) % 8;
    }

    /// FSTSW: return the status word.
    pub fn fstsw(&self) -> (v: u16)
        ensures
            v == self@.status,
    {
        self.status
    }

    /// Leave an arithmetic operation for the driver of the machine.
    pub fn ask(&mut self, op: FpuOp, lhs: u64, rhs: u64)
        ensures
            final(self)@ == (FpuView {
                request: Some(FpuRequest { op, lhs, rhs }),
                ..old(self)@
            }),
    {
        self.request = Some(FpuRequest { op, lhs, rhs });
    }

    /// Take the result of the outstanding operation into ST(0).
    pub fn complete(&mut self, result: u64)
        ensures
            final(self)@ == old(self)@.complete(result),
    {
        if self.request.is_some() {
            self.request = None;
            self.set_st_i(0, result);
        }
    }

    /// FXSAVE: write the 512-byte FXSAVE area (control/status/tag words,
    /// then the eight extended-precision registers).
    pub fn fxsave(&self, mem: &mut Memory, addr: usize)
        ensures
            final(mem)@ == self@.fxsave(old(mem)@, addr),
    {
        self.save_to(mem, Span::contiguous(addr));
    }

    /// FXSAVE to an area that may lie on two pages.
    pub fn save_to(&self, mem: &mut Memory, sp: Span)
        ensures
            final(mem)@ == self@.saved_to(old(mem)@, sp),
    {
        proof {
            reveal(FpuView::saved_to);
        }
        mem.span_write(sp, 0, 16, self.control as u64);
        mem.span_write(sp, 2, 16, self.status as u64);
        mem.span_write(sp, 4, 16, self.tag as u64);
        let ghost start = mem@;
        let mut i: usize = 0;
        while i < 8
            invariant
                i <= 8,
                mem@ == saved_regs(start, sp, self.st@, i as int),
            decreases 8 - i,
        {
            let bits: u64 = self.st[i];
            proof {
                lemma_exponent(bits);
            }
            let sign: u16 = (((bits >> 63) & 1) as u16) << 15;
            let exp: u64 = (bits >> 52) & 0x7FF;
            let mant: u64 = bits & 0xF_FFFF_FFFF_FFFF;
            let (exp16, mant64): (u16, u64) = if exp == 0 && mant == 0 {
                (0, 0)
            } else if exp == 0x7FF {
                (0x7FFF, (mant << 11) | 0x8000_0000_0000_0000)
            } else {
                ((exp as u16).wrapping_add(15360), (mant << 11) | 0x8000_0000_0000_0000)
            };
            let base: usize = 32 + i * 16;
            mem.span_write(sp, base, 64, mant64);
            mem.span_write(sp, base + 8, 16, exp16 as u64);
            mem.span_write(sp, base + 10, 16, sign as u64);
            i = i + 1;
        }
    }

    /// FXRSTOR: read the 512-byte FXSAVE area back into FPU state.
    pub fn fxrstor(&mut self, mem: &Memory, addr: usize)
        ensures
            final(self)@ == old(self)@.fxrstor(mem@, addr),
    {
        self.restore_from(mem, Span::contiguous(addr));
    }

    /// FXRSTOR from an area that may lie on two pages.
    pub fn restore_from(&mut self, mem: &Memory, sp: Span)
        ensures
            final(self)@ == old(self)@.restored_from(mem@, sp),
    {
        proof {
            reveal(FpuView::restored_from);
        }
        self.control = mem.span_read(sp, 0, 16) as u16;
        self.status = mem.span_read(sp, 2, 16) as u16;
        self.tag = mem.span_read(sp, 4, 16) as u16;
        let ghost start = *self;
        let mut i: usize = 0;
        while i < 8
            invariant
                i <= 8,
                self@ == (FpuView { st: self@.st, ..start@ }),
                forall|j: int| 0 <= j < i ==> self.st@[j] == restored_reg(mem@, sp, j),
            decreases 8 - i,
        {
            let base: usize = 32 + i * 16;
            let mant: u64 = mem.span_read(sp, base, 64);
            let exp: u16 = mem.span_read(sp, base + 8, 16) as u16;
            let sign: u64 = ((mem.span_read(sp, base + 10, 16) as u16 >> 15) as u64) << 63;
            // The significand is 64 bits with the integer bit at bit 63. Drop
            // that bit and shift down to the 52-bit fraction of a double.
            let fraction: u64 = (mant & 0x7FFF_FFFF_FFFF_FFFF) >> 11;
            let bits: u64 = if exp == 0 {
                sign
            } else if exp == 0x7FFF {
                sign | 0x7FF0_0000_0000_0000 | fraction
            } else {
                sign | ((exp as u64).wrapping_sub(15360) << 52) | fraction
            };
            self.st[i] = bits;
            i = i + 1;
        }
    }
}

impl Default for Fpu {
    fn default() -> (f: Self)
        ensures
            f@ == FpuView::reset(),
    {
        Self::new()
    }
}

} // verus!
