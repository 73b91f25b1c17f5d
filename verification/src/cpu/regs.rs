//! Register access: the 8-, 16-, 32- and 64-bit views of the sixteen general
//! registers, the segment registers, and the flags.

use crate::cpu::{Cpu, Mode, Reg16, Reg32, Reg8, SegReg};
use crate::state::State;
use vstd::prelude::*;

verus! {

// ---- The views ----

/// A register with its low 16 bits replaced; the rest is preserved.
pub open spec fn put16(old_value: u64, v: u16) -> u64 {
    (old_value & 0xFFFF_FFFF_FFFF_0000) | (v as u64)
}

/// A register with its low byte replaced; the rest is preserved.
pub open spec fn put8_low(old_value: u64, v: u8) -> u64 {
    (old_value & 0xFFFF_FFFF_FFFF_FF00) | (v as u64)
}

/// A register with its second byte replaced; the rest is preserved.
pub open spec fn put8_high(old_value: u64, v: u8) -> u64 {
    (old_value & 0xFFFF_FFFF_FFFF_00FF) | ((v as u64) << 8)
}

impl State {
    /// Has the current instruction raised an exception?
    pub open spec fn faulted(self) -> bool {
        self.pending_exception is Some
    }

    /// A 64-bit register. Indices are four bits wide.
    pub open spec fn reg64(self, i: u8) -> u64 {
        self.regs[(i & 15) as int]
    }

    /// The low half of a register.
    pub open spec fn reg32(self, i: u8) -> u32 {
        self.reg64(i) as u32
    }

    /// The low 16 bits of a register.
    pub open spec fn reg16(self, i: u8) -> u16 {
        self.reg64(i) as u16
    }

    /// A byte register. Without a REX prefix indices 4-7 are AH, CH, DH and
    /// BH, the second bytes of the first four registers; with one they are the
    /// low bytes of SPL, BPL, SIL and DIL.
    pub open spec fn reg8(self, i: u8) -> u8 {
        if !self.pfx.rex_present && 4 <= i < 8 {
            (self.reg64((i - 4) as u8) >> 8) as u8
        } else {
            self.reg64(i) as u8
        }
    }

    /// A register at a width of 8, 16, 32 or 64 bits.
    pub open spec fn reg_w(self, i: u8, w: u32) -> u64 {
        if w == 64 {
            self.reg64(i)
        } else if w == 32 {
            self.reg32(i) as u64
        } else if w == 16 {
            self.reg16(i) as u64
        } else {
            self.reg8(i) as u64
        }
    }

    /// The state with a 64-bit register replaced.
    pub open spec fn with_reg64(self, i: u8, v: u64) -> State {
        State { regs: self.regs.update((i & 15) as int, v), ..self }
    }

    /// A 32-bit write zero-extends into the whole register.
    pub open spec fn with_reg32(self, i: u8, v: u32) -> State {
        self.with_reg64(i, v as u64)
    }

    /// A 16-bit write preserves what is above it.
    pub open spec fn with_reg16(self, i: u8, v: u16) -> State {
        self.with_reg64(i, put16(self.reg64(i), v))
    }

    /// A byte write preserves everything else.
    pub open spec fn with_reg8(self, i: u8, v: u8) -> State {
        if !self.pfx.rex_present && 4 <= i < 8 {
            self.with_reg64((i - 4) as u8, put8_high(self.reg64((i - 4) as u8), v))
        } else {
            self.with_reg64(i, put8_low(self.reg64(i), v))
        }
    }

    /// The state with a register replaced at a width.
    #[verifier::opaque]
    pub open spec fn with_reg_w(self, i: u8, w: u32, v: u64) -> State {
        if w == 64 {
            self.with_reg64(i, v)
        } else if w == 32 {
            self.with_reg32(i, v as u32)
        } else if w == 16 {
            self.with_reg16(i, v as u16)
        } else {
            self.with_reg8(i, v as u8)
        }
    }

    /// An instruction result: committed only while nothing has faulted, since
    /// a faulting instruction will be restarted and must not have happened.
    #[verifier::opaque]
    pub open spec fn set_reg_w(self, i: u8, w: u32, v: u64) -> State {
        if self.faulted() { self } else { self.with_reg_w(i, w, v) }
    }

    #[verifier::opaque]
    pub open spec fn set_reg64(self, i: u8, v: u64) -> State {
        if self.faulted() { self } else { self.with_reg64(i, v) }
    }

    #[verifier::opaque]
    pub open spec fn set_reg32(self, i: u8, v: u32) -> State {
        if self.faulted() { self } else { self.with_reg32(i, v) }
    }

    #[verifier::opaque]
    pub open spec fn set_reg16(self, i: u8, v: u16) -> State {
        if self.faulted() { self } else { self.with_reg16(i, v) }
    }

    #[verifier::opaque]
    pub open spec fn set_reg8(self, i: u8, v: u8) -> State {
        if self.faulted() { self } else { self.with_reg8(i, v) }
    }

    /// The low half of the instruction pointer.
    pub open spec fn eip(self) -> u32 {
        self.rip as u32
    }

    /// Is a flag set?
    pub open spec fn flag(self, f: u32) -> bool {
        self.flags & f != 0
    }

    /// The state with a flag set or cleared.
    pub open spec fn with_flag(self, f: u32, on: bool) -> State {
        State { flags: flag_put(self.flags, f, on), ..self }
    }

    /// A segment register.
    pub open spec fn seg(self, s: SegReg) -> u16 {
        match s {
            SegReg::Es => self.es,
            SegReg::Cs => self.cs,
            SegReg::Ss => self.ss,
            SegReg::Ds => self.ds,
            SegReg::Fs => self.fs,
            SegReg::Gs => self.gs,
        }
    }

    /// The state with a segment register replaced.
    pub open spec fn with_seg(self, s: SegReg, v: u16) -> State {
        match s {
            SegReg::Es => State { es: v, ..self },
            SegReg::Cs => State { cs: v, ..self },
            SegReg::Ss => State { ss: v, ..self },
            SegReg::Ds => State { ds: v, ..self },
            SegReg::Fs => State { fs: v, ..self },
            SegReg::Gs => State { gs: v, ..self },
        }
    }

    /// Long mode is active.
    pub open spec fn long_mode(self) -> bool {
        self.efer & crate::cpu::efer::LMA != 0
    }

    /// The CPU runs 64-bit code: long mode, and a code segment with L set.
    pub open spec fn long64(self) -> bool {
        self.long_mode() && self.seg_desc[1].l
    }

    /// What kind of code the CPU is running.
    pub open spec fn mode(self) -> Mode {
        if !self.pe {
            Mode::Real
        } else if self.long64() {
            Mode::Long
        } else if self.long_mode() {
            Mode::Compat
        } else {
            Mode::Protected
        }
    }

    /// Current privilege level: the RPL of the code segment selector.
    pub open spec fn cpl(self) -> u8 {
        if self.pe { (self.cs & 3) as u8 } else { 0 }
    }

    /// The operand size: REX.W makes it 64 bits, else 32 or 16.
    pub open spec fn osize(self) -> u32 {
        if self.pfx.rex_w {
            64
        } else if self.pfx.opsize {
            32
        } else {
            16
        }
    }

    /// The address size: 64, 32 or 16 bits.
    pub open spec fn asize(self) -> u32 {
        if self.pfx.addr64 {
            64
        } else if self.pfx.addrsize {
            32
        } else {
            16
        }
    }

    /// The width of a stack slot. In 64-bit code it cannot be overridden.
    pub open spec fn stack_width(self) -> u32 {
        if self.long64() {
            64
        } else if self.pfx.opsize {
            32
        } else {
            16
        }
    }

    /// The instruction pointer diagnostics report.
    pub open spec fn pc(self) -> u64 {
        if self.pe { self.rip } else { self.ip as u64 }
    }

    /// The instruction pointer at the start of the current instruction.
    pub open spec fn pc_start(self) -> u64 {
        if self.pe { self.rip_start } else { self.ip_start as u64 }
    }
}

/// A flags word with the bits of `f` set or cleared.
pub open spec fn flag_put(word: u32, f: u32, on: bool) -> u32 {
    if on { word | f } else { word & !f }
}

impl Cpu {
    // ---- By index ----

    /// A 64-bit register.
    pub fn reg64(&self, i: u8) -> (v: u64)
        ensures
            v == self@.reg64(i),
    {
        proof {
            crate::bits::lemma_masks();
        }
        self.regs[(i & 15) as usize]
    }

    /// Write a 64-bit register unconditionally.
    pub fn set_reg64_raw(&mut self, i: u8, v: u64)
        ensures
            final(self)@ == old(self)@.with_reg64(i, v),
    {
        proof {
            crate::bits::lemma_masks();
        }
        self.regs[(i & 15) as usize] = v;
    }

    /// Write a 64-bit register as an instruction result.
    pub fn set_reg64(&mut self, i: u8, v: u64)
        ensures
            final(self)@ == old(self)@.set_reg64(i, v),
    {
        proof {
            reveal(State::set_reg64);
        }
        if self.pending_exception.is_some() {
            return;
        }
        self.set_reg64_raw(i, v);
    }

    /// The low half of a register.
    pub fn reg32_idx(&self, i: u8) -> (v: u32)
        ensures
            v == self@.reg32(i),
    {
        self.reg64(i) as u32
    }

    /// Write a 32-bit register unconditionally, clearing the high half.
    pub fn set_reg32_idx_raw(&mut self, i: u8, v: u32)
        ensures
            final(self)@ == old(self)@.with_reg32(i, v),
    {
        self.set_reg64_raw(i, v as u64);
    }

    /// Write a 32-bit register as an instruction result.
    pub fn set_reg32_idx(&mut self, i: u8, v: u32)
        ensures
            final(self)@ == old(self)@.set_reg32(i, v),
    {
        proof {
            reveal(State::set_reg32);
        }
        if self.pending_exception.is_some() {
            return;
        }
        self.set_reg32_idx_raw(i, v);
    }

    /// The low 16 bits of a register.
    pub fn reg16_idx(&self, i: u8) -> (v: u16)
        ensures
            v == self@.reg16(i),
    {
        self.reg64(i) as u16
    }

    /// Write a 16-bit register unconditionally, preserving what is above it.
    pub fn set_reg16_idx_raw(&mut self, i: u8, v: u16)
        ensures
            final(self)@ == old(self)@.with_reg16(i, v),
    {
        let cur: u64 = self.reg64(i);
        self.set_reg64_raw(i, (cur & 0xFFFF_FFFF_FFFF_0000) | (v as u64));
    }

    /// Write a 16-bit register as an instruction result.
    pub fn set_reg16_idx(&mut self, i: u8, v: u16)
        ensures
            final(self)@ == old(self)@.set_reg16(i, v),
    {
        proof {
            reveal(State::set_reg16);
        }
        if self.pending_exception.is_some() {
            return;
        }
        self.set_reg16_idx_raw(i, v);
    }

    /// A byte register: AH-BH or SPL-DIL for indices 4-7, by REX.
    pub fn reg8_idx(&self, i: u8) -> (v: u8)
        ensures
            v == self@.reg8(i),
    {
        if !self.pfx.rex_present && i >= 4 && i < 8 {
            (self.reg64(i - 4) >> 8) as u8
        } else {
            self.reg64(i) as u8
        }
    }

    /// Write a byte register unconditionally.
    pub fn set_reg8_idx_raw(&mut self, i: u8, v: u8)
        ensures
            final(self)@ == old(self)@.with_reg8(i, v),
    {
        if !self.pfx.rex_present && i >= 4 && i < 8 {
            let cur: u64 = self.reg64(i - 4);
            self.set_reg64_raw(i - 4, (cur & 0xFFFF_FFFF_FFFF_00FF) | ((v as u64) << 8));
        } else {
            let cur: u64 = self.reg64(i);
            self.set_reg64_raw(i, (cur & 0xFFFF_FFFF_FFFF_FF00) | (v as u64));
        }
    }

    /// Write a byte register as an instruction result.
    pub fn set_reg8_idx(&mut self, i: u8, v: u8)
        ensures
            final(self)@ == old(self)@.set_reg8(i, v),
    {
        proof {
            reveal(State::set_reg8);
        }
        if self.pending_exception.is_some() {
            return;
        }
        self.set_reg8_idx_raw(i, v);
    }

    /// A register at a width of 8, 16, 32 or 64 bits.
    pub fn reg_w(&self, i: u8, w: u32) -> (v: u64)
        ensures
            v == self@.reg_w(i, w),
    {
        match w {
            64 => self.reg64(i),
            32 => self.reg32_idx(i) as u64,
            16 => self.reg16_idx(i) as u64,
            _ => self.reg8_idx(i) as u64,
        }
    }

    /// Write a register at a width unconditionally. For state that must be
    /// recorded *because* of a fault: the string instructions' index and count
    /// registers, which have to point at the element that faulted.
    pub fn set_reg_w_raw(&mut self, i: u8, w: u32, v: u64)
        ensures
            final(self)@ == old(self)@.with_reg_w(i, w, v),
    {
        proof {
            reveal(State::with_reg_w);
        }
        match w {
            64 => self.set_reg64_raw(i, v),
            32 => self.set_reg32_idx_raw(i, v as u32),
            16 => self.set_reg16_idx_raw(i, v as u16),
            _ => self.set_reg8_idx_raw(i, v as u8),
        }
    }

    /// Write a register at a width as an instruction result.
    ///
    /// Suppressed once the instruction has raised a fault. A fault means the
    /// instruction did not happen: it will be restarted after the handler
    /// returns, and committing a half-computed result first makes the retry
    /// operate on corrupted state.
    pub fn set_reg_w(&mut self, i: u8, w: u32, v: u64)
        ensures
            final(self)@ == old(self)@.set_reg_w(i, w, v),
    {
        proof {
            reveal(State::set_reg_w);
        }
        if self.pending_exception.is_some() {
            return;
        }
        self.set_reg_w_raw(i, w, v);
    }

    // ---- By name ----

    pub fn reg16(&self, r: Reg16) -> (v: u16)
        ensures
            v == self@.reg16(r.index() as u8),
    {
        self.reg16_idx(r.number())
    }

    pub fn set_reg16(&mut self, r: Reg16, v: u16)
        ensures
            final(self)@ == old(self)@.set_reg16(r.index() as u8, v),
    {
        self.set_reg16_idx(r.number(), v);
    }

    /// `set_reg16` without the fault suppression.
    pub fn set_reg16_raw(&mut self, r: Reg16, v: u16)
        ensures
            final(self)@ == old(self)@.with_reg16(r.index() as u8, v),
    {
        self.set_reg16_idx_raw(r.number(), v);
    }

    pub fn reg32(&self, r: Reg32) -> (v: u32)
        ensures
            v == self@.reg32(r.index() as u8),
    {
        self.reg32_idx(r.number())
    }

    pub fn set_reg32(&mut self, r: Reg32, v: u32)
        ensures
            final(self)@ == old(self)@.set_reg32(r.index() as u8, v),
    {
        self.set_reg32_idx(r.number(), v);
    }

    /// `set_reg32` without the fault suppression.
    pub fn set_reg32_raw(&mut self, r: Reg32, v: u32)
        ensures
            final(self)@ == old(self)@.with_reg32(r.index() as u8, v),
    {
        self.set_reg32_idx_raw(r.number(), v);
    }

    /// AL, CL, DL, BL, AH, CH, DH or BH, whatever prefix is in force.
    pub fn reg8(&self, r: Reg8) -> (v: u8)
        ensures
            v == self@.legacy8(r.index() as u8),
    {
        let i: u8 = r.number();
        if i < 4 {
            self.reg64(i) as u8
        } else {
            (self.reg64(i - 4) >> 8) as u8
        }
    }

    /// Write AL, CL, DL, BL, AH, CH, DH or BH as an instruction result.
    pub fn set_reg8(&mut self, r: Reg8, v: u8)
        ensures
            final(self)@ == old(self)@.set_legacy8(r.index() as u8, v),
    {
        if self.pending_exception.is_some() {
            return;
        }
        let i: u8 = r.number();
        if i < 4 {
            let cur: u64 = self.reg64(i);
            self.set_reg64_raw(i, (cur & 0xFFFF_FFFF_FFFF_FF00) | (v as u64));
        } else {
            let cur: u64 = self.reg64(i - 4);
            self.set_reg64_raw(i - 4, (cur & 0xFFFF_FFFF_FFFF_00FF) | ((v as u64) << 8));
        }
    }

    /// The 16-bit view of `rax`.
    pub fn ax(&self) -> (v: u16)
        ensures
            v == self@.reg16(0),
    {
        self.reg16_idx(0)
    }

    /// Write the 16-bit view of `rax`, preserving what is above it.
    pub fn set_ax(&mut self, v: u16)
        ensures
            final(self)@ == old(self)@.with_reg16(0, v),
    {
        self.set_reg16_idx_raw(0, v);
    }

    /// The 32-bit view of `rax`.
    pub fn eax(&self) -> (v: u32)
        ensures
            v == self@.reg32(0),
    {
        self.reg32_idx(0)
    }

    /// Write the 32-bit view of `rax`, clearing its high half.
    pub fn set_eax(&mut self, v: u32)
        ensures
            final(self)@ == old(self)@.with_reg32(0, v),
    {
        self.set_reg32_idx_raw(0, v);
    }

    /// The 16-bit view of `rcx`.
    pub fn cx(&self) -> (v: u16)
        ensures
            v == self@.reg16(1),
    {
        self.reg16_idx(1)
    }

    /// Write the 16-bit view of `rcx`, preserving what is above it.
    pub fn set_cx(&mut self, v: u16)
        ensures
            final(self)@ == old(self)@.with_reg16(1, v),
    {
        self.set_reg16_idx_raw(1, v);
    }

    /// The 32-bit view of `rcx`.
    pub fn ecx(&self) -> (v: u32)
        ensures
            v == self@.reg32(1),
    {
        self.reg32_idx(1)
    }

    /// Write the 32-bit view of `rcx`, clearing its high half.
    pub fn set_ecx(&mut self, v: u32)
        ensures
            final(self)@ == old(self)@.with_reg32(1, v),
    {
        self.set_reg32_idx_raw(1, v);
    }

    /// The 16-bit view of `rdx`.
    pub fn dx(&self) -> (v: u16)
        ensures
            v == self@.reg16(2),
    {
        self.reg16_idx(2)
    }

    /// Write the 16-bit view of `rdx`, preserving what is above it.
    pub fn set_dx(&mut self, v: u16)
        ensures
            final(self)@ == old(self)@.with_reg16(2, v),
    {
        self.set_reg16_idx_raw(2, v);
    }

    /// The 32-bit view of `rdx`.
    pub fn edx(&self) -> (v: u32)
        ensures
            v == self@.reg32(2),
    {
        self.reg32_idx(2)
    }

    /// Write the 32-bit view of `rdx`, clearing its high half.
    pub fn set_edx(&mut self, v: u32)
        ensures
            final(self)@ == old(self)@.with_reg32(2, v),
    {
        self.set_reg32_idx_raw(2, v);
    }

    /// The 16-bit view of `rbx`.
    pub fn bx(&self) -> (v: u16)
        ensures
            v == self@.reg16(3),
    {
        self.reg16_idx(3)
    }

    /// Write the 16-bit view of `rbx`, preserving what is above it.
    pub fn set_bx(&mut self, v: u16)
        ensures
            final(self)@ == old(self)@.with_reg16(3, v),
    {
        self.set_reg16_idx_raw(3, v);
    }

    /// The 32-bit view of `rbx`.
    pub fn ebx(&self) -> (v: u32)
        ensures
            v == self@.reg32(3),
    {
        self.reg32_idx(3)
    }

    /// Write the 32-bit view of `rbx`, clearing its high half.
    pub fn set_ebx(&mut self, v: u32)
        ensures
            final(self)@ == old(self)@.with_reg32(3, v),
    {
        self.set_reg32_idx_raw(3, v);
    }

    /// The 16-bit view of `rsp`.
    pub fn sp(&self) -> (v: u16)
        ensures
            v == self@.reg16(4),
    {
        self.reg16_idx(4)
    }

    /// Write the 16-bit view of `rsp`, preserving what is above it.
    pub fn set_sp(&mut self, v: u16)
        ensures
            final(self)@ == old(self)@.with_reg16(4, v),
    {
        self.set_reg16_idx_raw(4, v);
    }

    /// The 32-bit view of `rsp`.
    pub fn esp(&self) -> (v: u32)
        ensures
            v == self@.reg32(4),
    {
        self.reg32_idx(4)
    }

    /// Write the 32-bit view of `rsp`, clearing its high half.
    pub fn set_esp(&mut self, v: u32)
        ensures
            final(self)@ == old(self)@.with_reg32(4, v),
    {
        self.set_reg32_idx_raw(4, v);
    }

    /// The 16-bit view of `rbp`.
    pub fn bp(&self) -> (v: u16)
        ensures
            v == self@.reg16(5),
    {
        self.reg16_idx(5)
    }

    /// Write the 16-bit view of `rbp`, preserving what is above it.
    pub fn set_bp(&mut self, v: u16)
        ensures
            final(self)@ == old(self)@.with_reg16(5, v),
    {
        self.set_reg16_idx_raw(5, v);
    }

    /// The 32-bit view of `rbp`.
    pub fn ebp(&self) -> (v: u32)
        ensures
            v == self@.reg32(5),
    {
        self.reg32_idx(5)
    }

    /// Write the 32-bit view of `rbp`, clearing its high half.
    pub fn set_ebp(&mut self, v: u32)
        ensures
            final(self)@ == old(self)@.with_reg32(5, v),
    {
        self.set_reg32_idx_raw(5, v);
    }

    /// The 16-bit view of `rsi`.
    pub fn si(&self) -> (v: u16)
        ensures
            v == self@.reg16(6),
    {
        self.reg16_idx(6)
    }

    /// Write the 16-bit view of `rsi`, preserving what is above it.
    pub fn set_si(&mut self, v: u16)
        ensures
            final(self)@ == old(self)@.with_reg16(6, v),
    {
        self.set_reg16_idx_raw(6, v);
    }

    /// The 32-bit view of `rsi`.
    pub fn esi(&self) -> (v: u32)
        ensures
            v == self@.reg32(6),
    {
        self.reg32_idx(6)
    }

    /// Write the 32-bit view of `rsi`, clearing its high half.
    pub fn set_esi(&mut self, v: u32)
        ensures
            final(self)@ == old(self)@.with_reg32(6, v),
    {
        self.set_reg32_idx_raw(6, v);
    }

    /// The 16-bit view of `rdi`.
    pub fn di(&self) -> (v: u16)
        ensures
            v == self@.reg16(7),
    {
        self.reg16_idx(7)
    }

    /// Write the 16-bit view of `rdi`, preserving what is above it.
    pub fn set_di(&mut self, v: u16)
        ensures
            final(self)@ == old(self)@.with_reg16(7, v),
    {
        self.set_reg16_idx_raw(7, v);
    }

    /// The 32-bit view of `rdi`.
    pub fn edi(&self) -> (v: u32)
        ensures
            v == self@.reg32(7),
    {
        self.reg32_idx(7)
    }

    /// Write the 32-bit view of `rdi`, clearing its high half.
    pub fn set_edi(&mut self, v: u32)
        ensures
            final(self)@ == old(self)@.with_reg32(7, v),
    {
        self.set_reg32_idx_raw(7, v);
    }

    /// The stack pointer.
    pub fn rsp(&self) -> (v: u64)
        ensures
            v == self@.reg64(4),
    {
        self.reg64(4)
    }

    /// Write the stack pointer.
    pub fn set_rsp(&mut self, v: u64)
        ensures
            final(self)@ == old(self)@.with_reg64(4, v),
    {
        self.set_reg64_raw(4, v);
    }

    /// The 32-bit view of the instruction pointer.
    pub fn eip(&self) -> (v: u32)
        ensures
            v == self@.eip(),
    {
        self.rip as u32
    }

    /// Set the instruction pointer to a 32-bit value.
    pub fn set_eip(&mut self, v: u32)
        ensures
            final(self)@ == (State { rip: v as u64, ..old(self)@ }),
    {
        self.rip = v as u64;
    }

    /// The instruction pointer diagnostics report.
    pub fn pc(&self) -> (v: u64)
        ensures
            v == self@.pc(),
    {
        if self.pe {
            self.rip
        } else {
            self.ip as u64
        }
    }

    /// The instruction pointer at the start of the current instruction.
    pub fn pc_start(&self) -> (v: u64)
        ensures
            v == self@.pc_start(),
    {
        if self.pe {
            self.rip_start
        } else {
            self.ip_start as u64
        }
    }

    // ---- Segment registers ----

    pub fn seg(&self, s: SegReg) -> (v: u16)
        ensures
            v == self@.seg(s),
    {
        match s {
            SegReg::Es => self.es,
            SegReg::Cs => self.cs,
            SegReg::Ss => self.ss,
            SegReg::Ds => self.ds,
            SegReg::Fs => self.fs,
            SegReg::Gs => self.gs,
        }
    }

    pub fn set_seg(&mut self, s: SegReg, v: u16)
        ensures
            final(self)@ == old(self)@.with_seg(s, v),
    {
        match s {
            SegReg::Es => {
                self.es = v;
            },
            SegReg::Cs => {
                self.cs = v;
            },
            SegReg::Ss => {
                self.ss = v;
            },
            SegReg::Ds => {
                self.ds = v;
            },
            SegReg::Fs => {
                self.fs = v;
            },
            SegReg::Gs => {
                self.gs = v;
            },
        }
    }

    // ---- Flags ----

    pub fn set_flag(&mut self, f: u32, on: bool)
        ensures
            final(self)@ == old(self)@.with_flag(f, on),
    {
        if on {
            self.flags = self.flags | f;
        } else {
            self.flags = self.flags & !f;
        }
    }

    pub fn get_flag(&self, f: u32) -> (b: bool)
        ensures
            b == self@.flag(f),
    {
        (self.flags & f) != 0
    }

    /// Read the time-stamp counter (used by RDTSC).
    pub fn rdtsc(&self) -> (t: u64)
        ensures
            t == self@.tsc,
    {
        self.tsc
    }

    // ---- Modes and sizes ----

    /// True while long mode is active.
    pub fn long_mode(&self) -> (b: bool)
        ensures
            b == self@.long_mode(),
    {
        self.efer & crate::cpu::efer::LMA != 0
    }

    /// True while the CPU runs 64-bit code.
    pub fn long64(&self) -> (b: bool)
        ensures
            b == self@.long64(),
    {
        self.efer & crate::cpu::efer::LMA != 0 && self.seg_desc[1].l
    }

    /// What kind of code the CPU is running.
    pub fn mode(&self) -> (m: Mode)
        ensures
            m == self@.mode(),
    {
        if !self.pe {
            Mode::Real
        } else if self.long64() {
            Mode::Long
        } else if self.long_mode() {
            Mode::Compat
        } else {
            Mode::Protected
        }
    }

    /// Current privilege level: the RPL of the code segment selector.
    pub fn cpl(&self) -> (l: u8)
        ensures
            l == self@.cpl(),
    {
        if self.pe {
            (self.cs & 3) as u8
        } else {
            0
        }
    }

    /// The operand size of the current instruction, in bits.
    pub fn osize(&self) -> (w: u32)
        ensures
            w == self@.osize(),
    {
        if self.pfx.rex_w {
            64
        } else if self.pfx.opsize {
            32
        } else {
            16
        }
    }

    /// The address size of the current instruction, in bits.
    pub fn asize(&self) -> (w: u32)
        ensures
            w == self@.asize(),
    {
        if self.pfx.addr64 {
            64
        } else if self.pfx.addrsize {
            32
        } else {
            16
        }
    }

    /// The width of a stack slot in the current mode, in bits.
    pub fn stack_width(&self) -> (w: u32)
        ensures
            w == self@.stack_width(),
    {
        if self.long64() {
            64
        } else if self.pfx.opsize {
            32
        } else {
            16
        }
    }
}

impl State {
    /// AL, CL, DL, BL, AH, CH, DH or BH, whatever prefix is in force.
    pub open spec fn legacy8(self, i: u8) -> u8 {
        if 4 <= i { (self.reg64((i - 4) as u8) >> 8) as u8 } else { self.reg64(i) as u8 }
    }

    /// The state with AL, CL, DL, BL, AH, CH, DH or BH replaced, whatever
    /// prefix is in force.
    pub open spec fn with_legacy8(self, i: u8, v: u8) -> State {
        if 4 <= i {
            self.with_reg64((i - 4) as u8, put8_high(self.reg64((i - 4) as u8), v))
        } else {
            self.with_reg64(i, put8_low(self.reg64(i), v))
        }
    }

    /// AL, CL, DL, BL, AH, CH, DH or BH as an instruction result.
    pub open spec fn set_legacy8(self, i: u8, v: u8) -> State {
        if self.faulted() { self } else { self.with_legacy8(i, v) }
    }
}

} // verus!
