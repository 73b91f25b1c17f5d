//! Operands made of several parts: where their bytes are when they may run
//! over the end of a page. Every page is translated before the first byte is
//! touched.

use crate::cpu::address::Access;
use crate::cpu::operand::{byte_count, bytes_of};
use crate::cpu::Cpu;
use crate::memory::{MemView, Memory};
use crate::state::State;
use vstd::prelude::*;

verus! {

/// Where the bytes of an operand are: the first few from `phys` on, the rest
/// from `next` on, which is another page.
#[derive(Clone, Copy)]
pub struct Span {
    pub phys: usize,
    pub first: usize,
    pub next: usize,
}

impl Span {
    /// Bytes that follow one another in physical memory.
    pub open spec fn flat(addr: usize) -> Span {
        Span { phys: addr, first: 0x1000, next: 0 }
    }

    /// Bytes that follow one another in physical memory.
    pub fn contiguous(addr: usize) -> (sp: Span)
        ensures
            sp == Span::flat(addr),
    {
        Span { phys: addr, first: 0x1000, next: 0 }
    }
}

impl MemView {
    /// The value at an offset of a span, at a width.
    #[verifier::opaque]
    pub open spec fn span_read(self, sp: Span, off: usize, w: u32) -> u64 {
        if off + bytes_of(w) <= sp.first {
            self.read_w(sp.phys.wrapping_add(off), w)
        } else if off >= sp.first {
            self.read_w(sp.next.wrapping_add((off - sp.first) as usize), w)
        } else {
            self.gathered(
                sp.phys.wrapping_add(off),
                (sp.first - off) as usize,
                sp.next,
                bytes_of(w) as int,
            )
        }
    }

    /// Memory after a store at an offset of a span, at a width.
    #[verifier::opaque]
    pub open spec fn span_write(self, sp: Span, off: usize, w: u32, v: u64) -> MemView {
        if off + bytes_of(w) <= sp.first {
            self.write_w(sp.phys.wrapping_add(off), w, v)
        } else if off >= sp.first {
            self.write_w(sp.next.wrapping_add((off - sp.first) as usize), w, v)
        } else {
            self.scattered(
                sp.phys.wrapping_add(off),
                (sp.first - off) as usize,
                sp.next,
                v,
                bytes_of(w) as int,
            )
        }
    }
}

impl State {
    /// The `n` bytes at a linear address translated for an access, both pages
    /// where there are two.
    #[verifier::opaque]
    pub open spec fn reach(self, linear: u64, n: u32, access: Access) -> (State, Span) {
        let (s, phys) = self.access(linear, access);
        let first = (0x1000 - (phys & 0xFFF)) as usize;
        if !s.faulted() && first < n {
            let (t, next) = s.next_page(linear, phys, access);
            (t, Span { phys, first, next })
        } else {
            (s, Span::flat(phys))
        }
    }

    /// A store to a span reached before. A faulting instruction stores nothing.
    #[verifier::opaque]
    pub open spec fn put_span(self, sp: Span, off: usize, w: u32, v: u64) -> State {
        if self.faulted() {
            self
        } else {
            State { mem: self.mem.span_write(sp, off, w, v), ..self }
        }
    }

    /// The `n` bytes at a linear address, both pages where there are two,
    /// translated without faults or side effects.
    #[verifier::opaque]
    pub open spec fn peek_span(self, linear: u64, n: u32) -> Span {
        let phys = self.peek_phys(linear);
        let first = (0x1000 - (phys & 0xFFF)) as usize;
        if first < n {
            Span { phys, first, next: self.peek_phys(linear.wrapping_add(first as u64)) }
        } else {
            Span::flat(phys)
        }
    }

    /// The value at an offset from a linear address, read without faults or
    /// side effects. `n` bytes belong together there.
    pub open spec fn peek(self, linear: u64, n: u32, off: usize, w: u32) -> u64 {
        self.mem.span_read(self.peek_span(linear, n), off, w)
    }
}

impl Memory {
    /// The bytes of a value, the first few at one address and the rest at
    /// another, put together.
    pub(crate) fn gather(&self, phys: usize, first: usize, next: usize, bytes: u32) -> (v: u64)
        requires
            bytes <= 8,
        ensures
            v == self@.gathered(phys, first, next, bytes as int),
    {
        let mut v: u64 = 0;
        let mut i: usize = 0;
        while i < bytes as usize
            invariant
                i <= bytes <= 8,
                v == self@.gathered(phys, first, next, i as int),
            decreases bytes - i,
        {
            let at: usize = if i < first {
                phys.wrapping_add(i)
            } else {
                next.wrapping_add(i - first)
            };
            let shift: u64 = (i * 8) as u64;
            v = v | ((self.read_u8(at) as u64) << shift);
            i = i + 1;
        }
        v
    }

    /// The bytes of a value written, the first few at one address and the rest
    /// at another.
    pub(crate) fn scatter(&mut self, phys: usize, first: usize, next: usize, v: u64, bytes: u32)
        requires
            bytes <= 8,
        ensures
            final(self)@ == old(self)@.scattered(phys, first, next, v, bytes as int),
    {
        let ghost start = self@;
        let mut i: usize = 0;
        while i < bytes as usize
            invariant
                i <= bytes <= 8,
                self@ == start.scattered(phys, first, next, v, i as int),
            decreases bytes - i,
        {
            let at: usize = if i < first {
                phys.wrapping_add(i)
            } else {
                next.wrapping_add(i - first)
            };
            let shift: u64 = (i * 8) as u64;
            self.write_u8(at, (v >> shift) as u8);
            i = i + 1;
        }
    }

    /// Read at a width.
    pub(crate) fn read_w(&self, addr: usize, w: u32) -> (v: u64)
        ensures
            v == self@.read_w(addr, w),
    {
        match w {
            64 => self.read_u64(addr),
            32 => self.read_u32(addr) as u64,
            16 => self.read_u16(addr) as u64,
            _ => self.read_u8(addr) as u64,
        }
    }

    /// Write at a width.
    pub(crate) fn write_w(&mut self, addr: usize, w: u32, v: u64)
        ensures
            final(self)@ == old(self)@.write_w(addr, w, v),
    {
        match w {
            64 => self.write_u64(addr, v),
            32 => self.write_u32(addr, v as u32),
            16 => self.write_u16(addr, v as u16),
            _ => self.write_u8(addr, v as u8),
        }
    }

    /// Read at an offset of a span.
    pub fn span_read(&self, sp: Span, off: usize, w: u32) -> (v: u64)
        requires
            off <= 0x1000,
        ensures
            v == self@.span_read(sp, off, w),
    {
        proof {
            reveal(MemView::span_read);
        }
        let n: u32 = byte_count(w);
        if off + n as usize <= sp.first {
            self.read_w(sp.phys.wrapping_add(off), w)
        } else if off >= sp.first {
            self.read_w(sp.next.wrapping_add(off - sp.first), w)
        } else {
            self.gather(sp.phys.wrapping_add(off), sp.first - off, sp.next, n)
        }
    }

    /// Write at an offset of a span.
    pub fn span_write(&mut self, sp: Span, off: usize, w: u32, v: u64)
        requires
            off <= 0x1000,
        ensures
            final(self)@ == old(self)@.span_write(sp, off, w, v),
    {
        proof {
            reveal(MemView::span_write);
        }
        let n: u32 = byte_count(w);
        if off + n as usize <= sp.first {
            self.write_w(sp.phys.wrapping_add(off), w, v);
        } else if off >= sp.first {
            self.write_w(sp.next.wrapping_add(off - sp.first), w, v);
        } else {
            self.scatter(sp.phys.wrapping_add(off), sp.first - off, sp.next, v, n);
        }
    }
}

impl Cpu {
    /// Translate the `n` bytes at a linear address.
    pub fn reach(&mut self, linear: u64, n: u32, write: bool) -> (sp: Span)
        ensures
            (final(self)@, sp) == old(self)@.reach(
                linear,
                n,
                if write { Access::Write } else { Access::Read },
            ),
    {
        proof {
            reveal(State::reach);
            crate::bits::lemma_masks();
        }
        let phys: usize = self.apply_paging_access(linear, write);
        let first: usize = 0x1000 - (phys & 0xFFF);
        if self.pending_exception.is_none() && first < n as usize {
            let next: usize = self.apply_paging_access(linear.wrapping_add(first as u64), write);
            return Span { phys, first, next };
        }
        Span::contiguous(phys)
    }

    /// Write to a span reached before, unless the instruction has faulted.
    pub fn put_span(&mut self, sp: Span, off: usize, w: u32, v: u64)
        requires
            off <= 0x1000,
        ensures
            final(self)@ == old(self)@.put_span(sp, off, w, v),
    {
        proof {
            reveal(State::put_span);
        }
        if self.pending_exception.is_none() {
            self.mem.span_write(sp, off, w, v);
        }
    }

    /// Find the `n` bytes at a linear address without faults or side effects.
    pub fn peek_span(&self, linear: u64, n: u32) -> (sp: Span)
        ensures
            sp == self@.peek_span(linear, n),
    {
        proof {
            reveal(State::peek_span);
            crate::bits::lemma_masks();
        }
        let phys: usize = self.linear_to_phys_ro(linear);
        let first: usize = 0x1000 - (phys & 0xFFF);
        if first < n as usize {
            let next: usize = self.linear_to_phys_ro(linear.wrapping_add(first as u64));
            return Span { phys, first, next };
        }
        Span::contiguous(phys)
    }
}

} // verus!
