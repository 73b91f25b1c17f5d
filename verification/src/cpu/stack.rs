//! The stack.
//!
//! A push translates before it moves the stack pointer: a push whose stack
//! page is not present must be restartable, and a decrement that survived the
//! fault would push twice as far on the retry.

use crate::cpu::address::Access;
use crate::cpu::operand::byte_count;
use crate::cpu::{Cpu, SegReg};
use crate::memory::{MemView, Memory};
use crate::state::State;
use vstd::prelude::*;

verus! {

/// Where a value will be stored: the physical address, and that of the second
/// page where it straddles two.
#[derive(Clone, Copy)]
pub struct Slot {
    pub phys: usize,
    pub next: usize,
}

impl MemView {
    /// Memory with a value stored in a slot.
    #[verifier::opaque]
    pub open spec fn slot_written(self, slot: Slot, w: u32, v: u64) -> MemView {
        let n = crate::cpu::operand::bytes_of(w);
        if crate::cpu::operand::crosses(slot.phys, n) {
            self.scattered(
                slot.phys,
                (0x1000 - (slot.phys & 0xFFF)) as usize,
                slot.next,
                v,
                n as int,
            )
        } else {
            self.write_w(slot.phys, w, v)
        }
    }

    /// Memory with the first `n` values stored in their slots.
    pub open spec fn frame_written(
        self,
        w: u32,
        slots: Seq<Slot>,
        vals: Seq<u64>,
        n: int,
    ) -> MemView
        decreases n,
    {
        if n <= 0 {
            self
        } else {
            self.frame_written(w, slots, vals, n - 1).slot_written(slots[n - 1], w, vals[n - 1])
        }
    }
}

impl State {
    /// Is the stack pointer 64 bits wide for a slot of `w` bits?
    pub open spec fn wide_stack(self, w: u32) -> bool {
        w == 64 || self.long64()
    }

    /// The state after a push of `w` bits. Real mode uses SS:SP, protected
    /// mode SS:ESP, 64-bit code RSP. A push that faults moves nothing.
    #[verifier::opaque]
    pub open spec fn push(self, w: u32, v: u64) -> State {
        let bytes = crate::cpu::operand::bytes_of(w);
        if self.wide_stack(w) {
            let sp = self.reg64(4).wrapping_sub(bytes as u64);
            let s = self.store(self.linear_addr(SegReg::Ss, sp), w, v);
            if s.faulted() { s } else { s.with_reg64(4, sp) }
        } else if self.pe {
            let sp = self.reg32(4).wrapping_sub(bytes);
            let s = self.store(self.linear_addr(SegReg::Ss, sp as u64), w, v);
            if s.faulted() { s } else { s.with_reg32(4, sp) }
        } else if self.faulted() {
            self
        } else {
            let sp = self.reg16(4).wrapping_sub(bytes as u16);
            let s = self.with_reg16(4, sp);
            State { mem: s.mem.write_w(crate::memory::phys_of(s.ss, sp), w, v), ..s }
        }
    }

    /// The linear address of the `i`'th slot below the stack pointer.
    pub open spec fn slot_linear(self, w: u32, i: int) -> u64 {
        let down = (i + 1) * crate::cpu::operand::bytes_of(w);
        if self.wide_stack(w) {
            self.linear_addr(SegReg::Ss, self.reg64(4).wrapping_sub(down as u64))
        } else {
            self.linear_addr(SegReg::Ss, self.reg32(4).wrapping_sub(down as u32) as u64)
        }
    }

    /// Where a store of `w` bits to a linear address will land, translated in
    /// advance: both pages of it, where it straddles two.
    #[verifier::opaque]
    pub open spec fn claim(self, linear: u64, w: u32) -> (State, Slot) {
        let (a, phys) = self.access(linear, Access::Write);
        if !a.faulted() && crate::cpu::operand::crosses(phys, crate::cpu::operand::bytes_of(w)) {
            let (b, next) = a.next_page(linear, phys, Access::Write);
            (b, Slot { phys, next })
        } else {
            (a, Slot { phys, next: 0 })
        }
    }

    /// The first `n` slots below the stack pointer claimed, as far as none
    /// faults.
    pub open spec fn claimed(self, w: u32, n: int) -> (State, Seq<Slot>)
        decreases n,
    {
        if n <= 0 {
            (self, Seq::empty())
        } else {
            let (s, slots) = self.claimed(w, n - 1);
            if s.faulted() {
                (s, slots)
            } else {
                let (t, slot) = s.claim(s.slot_linear(w, n - 1), w);
                (t, slots.push(slot))
            }
        }
    }

    /// The first `n` values pushed one after another, in real mode.
    pub open spec fn pushed(self, w: u32, vals: Seq<u64>, n: int) -> State
        decreases n,
    {
        if n <= 0 {
            self
        } else {
            self.pushed(w, vals, n - 1).push(w, vals[n - 1])
        }
    }

    /// The state after several values of `w` bits have been pushed, all of
    /// them or, if a slot faults, none: every slot is translated before the
    /// first is written.
    #[verifier::opaque]
    pub open spec fn push_all(self, w: u32, vals: Seq<u64>) -> State {
        if !self.wide_stack(w) && !self.pe {
            self.pushed(w, vals, vals.len() as int)
        } else {
            let (s, slots) = self.claimed(w, vals.len() as int);
            if s.faulted() {
                s
            } else {
                let t = State { mem: s.mem.frame_written(w, slots, vals, vals.len() as int), ..s };
                let down = vals.len() * crate::cpu::operand::bytes_of(w);
                if self.wide_stack(w) {
                    t.with_reg64(4, t.reg64(4).wrapping_sub(down as u64))
                } else {
                    t.with_reg32(4, t.reg32(4).wrapping_sub(down as u32))
                }
            }
        }
    }

    /// The state after a pop of `w` bits, and the value popped. A pop that
    /// faults moves nothing and yields zero.
    #[verifier::opaque]
    pub open spec fn pop(self, w: u32) -> (State, u64) {
        let bytes = crate::cpu::operand::bytes_of(w);
        if self.wide_stack(w) {
            let sp = self.reg64(4);
            let (s, v) = self.load(self.linear_addr(SegReg::Ss, sp), w);
            if s.faulted() { (s, 0) } else { (s.with_reg64(4, sp.wrapping_add(bytes as u64)), v) }
        } else if self.pe {
            let sp = self.reg32(4);
            let (s, v) = self.load(self.linear_addr(SegReg::Ss, sp as u64), w);
            if s.faulted() { (s, 0) } else { (s.with_reg32(4, sp.wrapping_add(bytes)), v) }
        } else {
            let sp = self.reg16(4);
            (
                self.with_reg16(4, sp.wrapping_add(bytes as u16)),
                self.mem.read_w(crate::memory::phys_of(self.ss, sp), w),
            )
        }
    }
}

/// Once a claim has faulted no more are made.
proof fn lemma_claims_stop(s: State, w: u32, i: int, n: int)
    requires
        0 <= i <= n,
        s.claimed(w, i).0.faulted(),
    ensures
        s.claimed(w, n) == s.claimed(w, i),
    decreases n - i,
{
    if i < n {
        lemma_claims_stop(s, w, i, n - 1);
    }
}

impl Cpu {
    /// Push a value of `w` bits.
    pub fn push_w(&mut self, w: u32, v: u64)
        ensures
            final(self)@ == old(self)@.push(w, v),
    {
        proof {
            reveal(State::push);
        }
        let bytes: u32 = byte_count(w);
        if w == 64 || self.long64() {
            let sp: u64 = self.rsp().wrapping_sub(bytes as u64);
            let linear: u64 = self.linear_addr(SegReg::Ss, sp);
            self.store(linear, w, v);
            if self.pending_exception.is_some() {
                return;
            }
            self.set_rsp(sp);
        } else if self.pe {
            let sp: u32 = self.esp().wrapping_sub(bytes);
            let linear: u64 = self.linear_addr(SegReg::Ss, sp as u64);
            self.store(linear, w, v);
            if self.pending_exception.is_some() {
                return;
            }
            self.set_esp(sp);
        } else if self.pending_exception.is_none() {
            let sp: u16 = self.sp().wrapping_sub(bytes as u16);
            self.set_sp(sp);
            let addr: usize = Memory::phys(self.ss, sp);
            self.mem_write_w(addr, w, v);
        }
    }

    /// Translate the slot a store of `w` bits to a linear address needs.
    fn claim(&mut self, linear: u64, w: u32) -> (slot: Slot)
        ensures
            (final(self)@, slot) == old(self)@.claim(linear, w),
    {
        proof {
            reveal(State::claim);
            crate::bits::lemma_masks();
        }
        let phys: usize = self.apply_paging_access(linear, true);
        if self.pending_exception.is_none() && Self::straddles(phys, byte_count(w)) {
            let first: usize = 0x1000 - (phys & 0xFFF);
            let next: usize = self.apply_paging_access(linear.wrapping_add(first as u64), true);
            return Slot { phys, next };
        }
        Slot { phys, next: 0 }
    }

    /// Write a slot claimed before.
    fn fill(&mut self, slot: Slot, w: u32, v: u64)
        ensures
            final(self)@ == (State {
                mem: old(self)@.mem.slot_written(slot, w, v),
                ..old(self)@
            }),
    {
        proof {
            reveal(MemView::slot_written);
            crate::bits::lemma_masks();
        }
        let n: u32 = byte_count(w);
        if Self::straddles(slot.phys, n) {
            let first: usize = 0x1000 - (slot.phys & 0xFFF);
            self.mem.scatter(slot.phys, first, slot.next, v, n);
        } else {
            self.mem_write_w(slot.phys, w, v);
        }
    }

    /// The linear address of the `i`'th slot below the stack pointer.
    fn slot_linear(&self, w: u32, i: usize) -> (linear: u64)
        requires
            i < 8,
        ensures
            linear == self@.slot_linear(w, i as int),
    {
        let down: u32 = (i as u32 + 1) * byte_count(w);
        if w == 64 || self.long64() {
            let sp: u64 = self.rsp().wrapping_sub(down as u64);
            self.linear_addr(SegReg::Ss, sp)
        } else {
            let sp: u32 = self.esp().wrapping_sub(down);
            self.linear_addr(SegReg::Ss, sp as u64)
        }
    }

    /// Push several values, or none of them: every slot is translated before
    /// the first is written, so a frame whose last word faults leaves no
    /// trace.
    pub(crate) fn push_all(&mut self, w: u32, vals: &Vec<u64>)
        requires
            vals@.len() <= 8,
        ensures
            final(self)@ == old(self)@.push_all(w, vals@),
    {
        proof {
            reveal(State::push_all);
        }
        let n: usize = vals.len();
        let wide = w == 64 || self.long64();
        let ghost start = self@;
        if !wide && !self.pe {
            let mut i: usize = 0;
            while i < n
                invariant
                    n == vals@.len(),
                    i <= n,
                    self@ == start.pushed(w, vals@, i as int),
                decreases n - i,
            {
                self.push_w(w, vals[i]);
                i = i + 1;
            }
            return;
        }
        let mut slots: Vec<Slot> = Vec::new();
        let mut i: usize = 0;
        while i < n && self.pending_exception.is_none()
            invariant
                n == vals@.len(),
                n <= 8,
                i <= n,
                (self@, slots@) == start.claimed(w, i as int),
                self@.faulted() || slots@.len() == i,
            decreases n - i,
        {
            let linear: u64 = self.slot_linear(w, i);
            let slot: Slot = self.claim(linear, w);
            slots.push(slot);
            i = i + 1;
        }
        proof {
            if self@.faulted() {
                lemma_claims_stop(start, w, i as int, n as int);
            }
        }
        if self.pending_exception.is_some() {
            return;
        }
        let ghost claimed = self@;
        let mut k: usize = 0;
        while k < n
            invariant
                n == vals@.len(),
                n <= 8,
                slots@.len() == n,
                k <= n,
                self@ == (State {
                    mem: claimed.mem.frame_written(w, slots@, vals@, k as int),
                    ..claimed
                }),
            decreases n - k,
        {
            self.fill(slots[k], w, vals[k]);
            k = k + 1;
        }
        let bytes: u32 = byte_count(w);
        assert(n * bytes <= 64) by (nonlinear_arith)
            requires
                n <= 8,
                bytes <= 8,
        ;
        let down: u32 = (n as u32) * bytes;
        if wide {
            let sp: u64 = self.rsp().wrapping_sub(down as u64);
            self.set_rsp(sp);
        } else {
            let sp: u32 = self.esp().wrapping_sub(down);
            self.set_esp(sp);
        }
    }

    /// Pop a value of `w` bits.
    pub fn pop_w(&mut self, w: u32) -> (v: u64)
        ensures
            (final(self)@, v) == old(self)@.pop(w),
    {
        proof {
            reveal(State::pop);
        }
        let bytes: u32 = byte_count(w);
        if w == 64 || self.long64() {
            let sp: u64 = self.rsp();
            let linear: u64 = self.linear_addr(SegReg::Ss, sp);
            let v: u64 = self.load(linear, w);
            if self.pending_exception.is_some() {
                return 0;
            }
            self.set_rsp(sp.wrapping_add(bytes as u64));
            v
        } else if self.pe {
            let sp: u32 = self.esp();
            let linear: u64 = self.linear_addr(SegReg::Ss, sp as u64);
            let v: u64 = self.load(linear, w);
            if self.pending_exception.is_some() {
                return 0;
            }
            self.set_esp(sp.wrapping_add(bytes));
            v
        } else {
            let sp: u16 = self.sp();
            let addr: usize = Memory::phys(self.ss, sp);
            let v: u64 = self.mem_read_w(addr, w);
            self.set_sp(sp.wrapping_add(bytes as u16));
            v
        }
    }

    pub fn push16(&mut self, val: u16)
        ensures
            final(self)@ == old(self)@.push(16, val as u64),
    {
        self.push_w(16, val as u64);
    }

    pub fn pop16(&mut self) -> (v: u16)
        ensures
            final(self)@ == old(self)@.pop(16).0,
            v == old(self)@.pop(16).1 as u16,
    {
        self.pop_w(16) as u16
    }

    pub fn push32(&mut self, val: u32)
        ensures
            final(self)@ == old(self)@.push(32, val as u64),
    {
        self.push_w(32, val as u64);
    }

    pub fn pop32(&mut self) -> (v: u32)
        ensures
            final(self)@ == old(self)@.pop(32).0,
            v == old(self)@.pop(32).1 as u32,
    {
        self.pop_w(32) as u32
    }

    pub fn push64(&mut self, val: u64)
        ensures
            final(self)@ == old(self)@.push(64, val),
    {
        self.push_w(64, val);
    }
}

} // verus!
