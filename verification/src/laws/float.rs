//! Laws of the x87 registers: the stack, integer conversions, and saving and
//! restoring.

use crate::cpu::operand::bytes_of;
use crate::cpu::span::Span;
use crate::fpu::{restored_reg, saved_reg, saved_regs, slot, Extended, FpuView, FXSAVE_BYTES};
use crate::instructions::arith::highest_set;
use crate::laws::memory::{lemma_apart, lemma_own, narrow, plain};
use crate::memory::MemView;
use vstd::prelude::*;

verus! {

proof fn lemma_below(m: u64, end: u32)
    by (bit_vector)
    requires
        0 < end <= 64,
        end == 64 || m >> end == 0,
    ensures
        (m >> ((end - 1) as u32)) & 1 != 0 ==> m >> ((end - 1) as u32) == 1,
        (m >> ((end - 1) as u32)) & 1 == 0 ==> m >> ((end - 1) as u32) == 0,
        end == 1 && m >> 0u32 == 0 ==> m == 0,
{
}

/// Above the highest bit of a number there is nothing.
proof fn lemma_leading_one(m: u64, end: u32)
    requires
        0 < end <= 64,
        end == 64 || m >> end == 0,
        m != 0,
    ensures
        m >> highest_set(m, end) == 1,
        highest_set(m, end) < end,
    decreases end,
{
    lemma_below(m, end);
    let i = (end - 1) as u32;
    if (m >> i) & 1 == 0 {
        lemma_leading_one(m, i);
    }
}

/// The fields of a double made from an integer.
proof fn lemma_fields(m: u64, h: u32, negative: bool)
    by (bit_vector)
    requires
        h < 64,
        m <= 0x8000_0000,
        m >> h == 1,
    ensures
        h <= 31,
        h == 31 ==> m == 0x8000_0000,
        ({
            let sign: u64 = if negative { 0x8000_0000_0000_0000 } else { 0 };
            let b = sign | (((h + 1023) as u64) << 52) | ((m << ((52 - h) as u32))
                & 0xF_FFFF_FFFF_FFFF);
            &&& (b >> 63 != 0) == negative
            &&& (b >> 52) & 0x7FF == h + 1023
            &&& (0x10_0000_0000_0000u64 | (b & 0xF_FFFF_FFFF_FFFF)) >> ((52 - h) as u32) == m
        }),
{
}

/// An integer loaded into the FPU and stored again is the same integer, over
/// the whole 32-bit range.
pub proof fn law_integers_survive_the_fpu(v: int)
    requires
        -0x8000_0000 <= v < 0x8000_0000,
    ensures
        crate::float::truncated(crate::float::of_int(v)) == v,
{
    reveal(crate::float::truncated);
    reveal(crate::float::of_int);
    if v == 0 {
        lemma_extended(0);
    } else {
        let m = (if v < 0 { -v } else { v }) as u64;
        let h = highest_set(m, 64);
        lemma_leading_one(m, 64);
        lemma_fields(m, h, v < 0);
    }
}

/// A push puts its value on top and every other register one place further
/// down; a pop takes the place back.
pub proof fn law_fpu_stack(f: FpuView, v: u64, i: usize)
    requires
        f.st.len() == 8,
        f.top < 8,
        i < 7,
    ensures
        f.push(v).st_i(0) == v,
        f.push(v).st_i((i + 1) as usize) == f.st_i(i),
        f.push(v).pop().top == f.top,
{
}

proof fn lemma_extended(bits: u64)
    by (bit_vector)
    ensures
        ({
            let exp = (bits >> 52) & 0x7FF;
            let mant = bits & 0xF_FFFF_FFFF_FFFF;
            let sign = (((bits >> 63) & 1) as u16) << 15;
            let wide = (mant << 11) | 0x8000_0000_0000_0000;
            &&& exp <= 0x7FF
            &&& bits == 0 ==> exp == 0
            &&& exp == 0 && mant == 0 ==> ((sign >> 15) as u64) << 63 == bits
            &&& exp == 0x7FF ==> (((sign >> 15) as u64) << 63) | 0x7FF0_0000_0000_0000 | ((wide
                & 0x7FFF_FFFF_FFFF_FFFF) >> 11) == bits
            &&& (((sign >> 15) as u64) << 63) | (exp << 52) | ((wide & 0x7FFF_FFFF_FFFF_FFFF) >> 11)
                == bits
        }),
{
}

/// The extended form of a double restores to it, zeros, infinities and NaNs
/// included.
proof fn lemma_restores(bits: u64)
    ensures
        Extended::of(bits).bits() == bits,
{
    lemma_extended(bits);
    let exp = (bits >> 52) & 0x7FF;
    assert((exp as u16).wrapping_add(15360) == exp + 15360);
    assert(((exp + 15360) as u64).wrapping_sub(15360) == exp);
}

/// Offsets of an area in one piece.
proof fn lemma_flat(m: MemView, addr: usize, off: usize, w: u32, v: u64)
    requires
        addr + FXSAVE_BYTES <= usize::MAX,
        off + bytes_of(w) <= FXSAVE_BYTES,
    ensures
        m.span_read(Span::flat(addr), off, w) == m.read_w((addr + off) as usize, w),
        m.span_write(Span::flat(addr), off, w, v) == m.write_w((addr + off) as usize, w, v),
{
    reveal(MemView::span_read);
    reveal(MemView::span_write);
}

/// One value of an area written: it is there, and what lies elsewhere in the
/// area is not touched.
proof fn lemma_field(m: MemView, addr: usize, off: usize, w: u32, v: u64, other: usize, ow: u32)
    requires
        plain(m, addr, FXSAVE_BYTES as int),
        off + bytes_of(w) <= FXSAVE_BYTES,
        other + bytes_of(ow) <= FXSAVE_BYTES,
        off + bytes_of(w) <= other || other + bytes_of(ow) <= off,
    ensures
        ({
            let x = m.span_write(Span::flat(addr), off, w, v);
            &&& plain(x, addr, FXSAVE_BYTES as int)
            &&& x.span_read(Span::flat(addr), off, w) == narrow(v, w)
            &&& x.span_read(Span::flat(addr), other, ow) == m.span_read(
                Span::flat(addr),
                other,
                ow,
            )
        }),
{
    let a = (addr + off) as usize;
    let x = m.write_w(a, w, v);
    lemma_flat(m, addr, off, w, v);
    lemma_flat(x, addr, off, w, v);
    lemma_flat(m, addr, other, ow, 0);
    lemma_flat(x, addr, other, ow, 0);
    lemma_own(m, a, w, v);
    lemma_apart(m, a, w, v, (addr + other) as usize, ow);
}

/// One register saved: its slot holds it, and what lies elsewhere in the area
/// is not touched.
proof fn lemma_saved_reg(m: MemView, addr: usize, i: int, bits: u64, other: usize, ow: u32)
    requires
        plain(m, addr, FXSAVE_BYTES as int),
        0 <= i < 8,
        other + bytes_of(ow) <= FXSAVE_BYTES,
        slot(i) + 16 <= other || other + bytes_of(ow) <= slot(i),
    ensures
        ({
            let sp = Span::flat(addr);
            let x = saved_reg(m, sp, i, bits);
            &&& plain(x, addr, FXSAVE_BYTES as int)
            &&& restored_reg(x, sp, i) == bits
            &&& x.span_read(sp, other, ow) == m.span_read(sp, other, ow)
        }),
{
    let sp = Span::flat(addr);
    let e = Extended::of(bits);
    let (p, q, r) = (slot(i), (slot(i) + 8) as usize, (slot(i) + 10) as usize);
    let a = m.span_write(sp, p, 64, e.mantissa);
    let b = a.span_write(sp, q, 16, e.exponent as u64);
    lemma_field(m, addr, p, 64, e.mantissa, other, ow);
    lemma_field(a, addr, q, 16, e.exponent as u64, other, ow);
    lemma_field(a, addr, q, 16, e.exponent as u64, p, 64);
    lemma_field(b, addr, r, 16, e.sign as u64, other, ow);
    lemma_field(b, addr, r, 16, e.sign as u64, p, 64);
    lemma_field(b, addr, r, 16, e.sign as u64, q, 16);
    lemma_restores(bits);
}

/// The registers saved so far are in their slots, and the header of the area
/// is not touched.
proof fn lemma_saved_regs(m: MemView, addr: usize, st: Seq<u64>, n: int)
    requires
        plain(m, addr, FXSAVE_BYTES as int),
        0 <= n <= 8,
    ensures
        ({
            let sp = Span::flat(addr);
            let x = saved_regs(m, sp, st, n);
            &&& plain(x, addr, FXSAVE_BYTES as int)
            &&& forall|i: int| 0 <= i < n ==> #[trigger] restored_reg(x, sp, i) == st[i]
            &&& x.span_read(sp, 0, 16) == m.span_read(sp, 0, 16)
            &&& x.span_read(sp, 2, 16) == m.span_read(sp, 2, 16)
            &&& x.span_read(sp, 4, 16) == m.span_read(sp, 4, 16)
        }),
    decreases n,
{
    if n > 0 {
        let sp = Span::flat(addr);
        let k = n - 1;
        lemma_saved_regs(m, addr, st, k);
        let y = saved_regs(m, sp, st, k);
        lemma_saved_reg(y, addr, k, st[k], 0, 16);
        lemma_saved_reg(y, addr, k, st[k], 2, 16);
        lemma_saved_reg(y, addr, k, st[k], 4, 16);
        assert forall|i: int| 0 <= i < n implies #[trigger] restored_reg(
            saved_regs(m, sp, st, n),
            sp,
            i,
        ) == st[i] by {
            if i < k {
                assert(restored_reg(y, sp, i) == st[i]);
                lemma_saved_reg(y, addr, k, st[k], slot(i), 64);
                lemma_saved_reg(y, addr, k, st[k], (slot(i) + 8) as usize, 16);
                lemma_saved_reg(y, addr, k, st[k], (slot(i) + 10) as usize, 16);
            }
        }
    }
}

/// FXRSTOR undoes FXSAVE: the control, status and tag words and all eight
/// registers come back, whatever they hold.
pub proof fn law_fxrstor_undoes_fxsave(f: FpuView, g: FpuView, mem: MemView, addr: usize)
    requires
        f.st.len() == 8,
        plain(mem, addr, FXSAVE_BYTES as int),
    ensures
        g.fxrstor(f.fxsave(mem, addr), addr) == (FpuView { top: g.top, request: g.request, ..f }),
        f.fxrstor(f.fxsave(mem, addr), addr) == f,
{
    reveal(FpuView::saved_to);
    reveal(FpuView::restored_from);
    let sp = Span::flat(addr);
    let a = mem.span_write(sp, 0, 16, f.control as u64);
    let b = a.span_write(sp, 2, 16, f.status as u64);
    let c = b.span_write(sp, 4, 16, f.tag as u64);
    lemma_field(mem, addr, 0, 16, f.control as u64, 2, 16);
    lemma_field(a, addr, 2, 16, f.status as u64, 0, 16);
    lemma_field(b, addr, 4, 16, f.tag as u64, 0, 16);
    lemma_field(b, addr, 4, 16, f.tag as u64, 2, 16);
    lemma_saved_regs(c, addr, f.st, 8);
    let x = saved_regs(c, sp, f.st, 8);
    assert(Seq::new(8, |i: int| restored_reg(x, sp, i)) =~= f.st);
}

} // verus!
