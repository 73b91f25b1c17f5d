//! System instructions: descriptor tables, control and debug registers, the
//! fast system-call pair, CPUID, MSRs, and port I/O.

use crate::cpu::address::Access;
use crate::cpu::{flags, Cpu, SegReg, CR4_OSXSAVE};
use crate::modrm::ModRm;
use crate::state::State;
use vstd::prelude::*;

verus! {

/// EAX, EBX, ECX and EDX as CPUID leaves them.
pub struct CpuidLeaf {
    pub eax: u32,
    pub ebx: u32,
    pub ecx: u32,
    pub edx: u32,
}

/// What CPUID reports for a leaf. Unknown leaves report zero.
pub open spec fn cpuid_leaf(leaf: u32) -> CpuidLeaf {
    if leaf == 0 {
        CpuidLeaf { eax: 1, ebx: 0x756E_6547, ecx: 0x6C65_746E, edx: 0x4965_6E69 }
    } else if leaf == 1 {
        CpuidLeaf { eax: 0x0000_0600, ebx: 0x0001_0800, ecx: 0x0000_0021, edx: 0x0788_A179 }
    } else if leaf == 0x8000_0000 {
        CpuidLeaf { eax: 0x8000_0008, ebx: 0, ecx: 0, edx: 0 }
    } else if leaf == 0x8000_0001 {
        CpuidLeaf { eax: 0, ebx: 0, ecx: 0x0000_0021, edx: 0x2490_A97B }
    } else if leaf == 0x8000_0008 {
        CpuidLeaf { eax: 0x0000_3034, ebx: 0, ecx: 0, edx: 0 }
    } else {
        CpuidLeaf { eax: 0, ebx: 0, ecx: 0, edx: 0 }
    }
}

impl State {
    /// The limit and base of a pseudo-descriptor: eight bytes of base in long
    /// mode, four otherwise.
    #[verifier::opaque]
    pub open spec fn table_operand(self, m: ModRm) -> (State, u16, u64) {
        let w: u32 = if self.long_mode() { 64 } else { 32 };
        let (s, sp) = self.reach(self.rm_linear(m), (2 + w / 8) as u32, Access::Read);
        (s, s.mem.span_read(sp, 0, 16) as u16, s.mem.span_read(sp, 2, w))
    }

    /// LGDT.
    pub open spec fn lgdt(self, m: ModRm) -> State {
        let (s, limit, base) = self.table_operand(m);
        State { gdt_base: base, gdt_limit: limit, ..s }
    }

    /// LIDT.
    pub open spec fn lidt(self, m: ModRm) -> State {
        let (s, limit, base) = self.table_operand(m);
        State { idt_base: base, idt_limit: limit, ..s }
    }

    /// SGDT and SIDT: the register stored the way it is loaded.
    #[verifier::opaque]
    pub open spec fn store_table(self, m: ModRm, limit: u16, base: u64) -> State {
        let w: u32 = if self.long_mode() { 64 } else { 32 };
        let (s, sp) = self.reach(self.rm_linear(m), (2 + w / 8) as u32, Access::Write);
        s.put_span(sp, 0, 16, limit as u64).put_span(sp, 2, w, base)
    }

    /// SMSW: CR0, whole in a 32- or 64-bit register and 16 bits of it
    /// elsewhere.
    pub open spec fn smsw(self, m: ModRm) -> State {
        let w = self.osize();
        if m.mod_field == 3 {
            self.write_rm(
                m,
                w,
                if w == 16 { (self.cr0 as u64) & 0xFFFF } else { self.cr0 as u64 },
            )
        } else {
            self.write_rm(m, 16, (self.cr0 as u16) as u64)
        }
    }

    /// LMSW: the low four bits of CR0, of which PE can be set but never
    /// cleared.
    #[verifier::opaque]
    pub open spec fn lmsw(self, m: ModRm) -> State {
        if self.cpl() != 0 {
            self.raise(0x0D, Some(0))
        } else {
            let (s, r) = self.read_rm(m, 16);
            let v = (r as u16) as u32;
            if s.faulted() {
                s
            } else {
                s.write_cr0((s.cr0 & !0xE) | (v & 0xE) | (s.cr0 & 1) | (v & 1))
            }
        }
    }

    /// XGETBV.
    #[verifier::opaque]
    pub open spec fn xgetbv(self) -> State {
        if self.cr4 & CR4_OSXSAVE == 0 {
            self.raise(0x06, None)
        } else if self.reg32(1) != 0 {
            self.raise(0x0D, Some(0))
        } else {
            self.with_pair(self.xcr0)
        }
    }

    /// XSETBV: x87 state cannot be disabled, and there is none past SSE.
    #[verifier::opaque]
    pub open spec fn xsetbv(self) -> State {
        if self.cr4 & CR4_OSXSAVE == 0 {
            self.raise(0x06, None)
        } else if self.cpl() != 0 || self.reg32(1) != 0 {
            self.raise(0x0D, Some(0))
        } else if self.pair() & 1 == 0 || self.pair() & !0x3 != 0 {
            self.raise(0x0D, Some(0))
        } else {
            State { xcr0: self.pair(), ..self }
        }
    }

    /// EDX:EAX.
    pub open spec fn pair(self) -> u64 {
        (self.reg32(0) as u64) | ((self.reg32(2) as u64) << 32)
    }

    /// A 64-bit result in EDX:EAX.
    #[verifier::opaque]
    pub open spec fn with_pair(self, v: u64) -> State {
        self.set_reg32(0, v as u32).set_reg32(2, (v >> 32) as u32)
    }

    /// CLAC and STAC: privileged, and an invalid opcode outside ring 0.
    pub open spec fn set_ac(self, on: bool) -> State {
        if self.cpl() != 0 { self.raise(0x06, None) } else { self.with_flag(flags::AC, on) }
    }

    /// The width of a control- or debug-register move.
    pub open spec fn system_width(self) -> u32 {
        if self.long_mode() { 64 } else { 32 }
    }

    /// A control register. Anything past CR4 is the task-priority register.
    pub open spec fn control(self, cr: u8) -> u64 {
        if cr == 0 {
            self.cr0 as u64
        } else if cr == 2 {
            self.cr2
        } else if cr == 3 {
            self.cr3
        } else if cr == 4 {
            self.cr4 as u64
        } else {
            self.cr8
        }
    }

    /// MOV cr, reg. Writing CR3 or CR4 flushes the TLB.
    #[verifier::opaque]
    pub open spec fn mov_to_cr(self, cr: u8, reg: u8) -> State {
        let v = self.reg_w(reg, self.system_width());
        if cr == 0 {
            self.write_cr0(v as u32)
        } else if cr == 2 {
            State { cr2: v, ..self }
        } else if cr == 3 {
            State { cr3: v, ..self }.flushed()
        } else if cr == 4 {
            State { cr4: v as u32, ..self }.flushed()
        } else {
            State { cr8: v & 0xF, ..self }
        }
    }

    /// MOV reg, dr.
    pub open spec fn mov_dr(self, dr: u8, reg: u8) -> State {
        self.set_reg_w(reg, self.system_width(), self.dr[(dr & 7) as int])
    }

    /// MOV dr, reg.
    pub open spec fn mov_to_dr(self, dr: u8, reg: u8) -> State {
        State {
            dr: self.dr.update((dr & 7) as int, self.reg_w(reg, self.system_width())),
            ..self
        }
    }

    /// SYSCALL: the return address goes to RCX and the flags to R11, the entry
    /// point comes from LSTAR and the segments from STAR. The stack is not
    /// switched.
    #[verifier::opaque]
    pub open spec fn syscall(self) -> State {
        if self.efer & crate::cpu::efer::SCE == 0 {
            self.raise(0x06, None)
        } else {
            let sel = (((self.star >> 32) & 0xFFFF) as u16) & 0xFFFC;
            let a = self.with_reg64(1, self.rip).with_reg64(11, self.flags as u64);
            let b = a.with_flags((a.flags & !(self.sfmask as u32)) | flags::ALWAYS_SET);
            let c = b.load_seg(SegReg::Cs, sel).load_seg(SegReg::Ss, sel.wrapping_add(8));
            State { rip: c.lstar, ..c }.counted_switch().unfetched()
        }
    }

    /// SYSRET: REX.W selects the 64-bit form.
    #[verifier::opaque]
    pub open spec fn sysret(self) -> State {
        let sel = ((self.star >> 48) & 0xFFFF) as u16;
        let cs = if self.pfx.rex_w { sel.wrapping_add(16) | 3 } else { sel | 3 };
        let ss = sel.wrapping_add(8) | 3;
        State {
            rip: self.reg64(1),
            flags: crate::instructions::control::flags_written(
                self.flags,
                self.reg64(11) as u32,
            ),
            ..self
        }.load_seg(SegReg::Cs, cs).load_seg(SegReg::Ss, ss).unfetched()
    }

    /// SWAPGS: the GS base exchanged with the parked one; an invalid opcode
    /// outside 64-bit code.
    pub open spec fn swapgs(self) -> State {
        if self.long64() {
            State { gs_base: self.kernel_gs_base, kernel_gs_base: self.gs_base, ..self }
        } else {
            self.raise(0x06, None)
        }
    }

    /// CPUID.
    #[verifier::opaque]
    pub open spec fn cpuid(self) -> State {
        let l = cpuid_leaf(self.reg32(0));
        self.set_reg32(0, l.eax).set_reg32(3, l.ebx).set_reg32(1, l.ecx).set_reg32(2, l.edx)
    }

    /// IN AL, port.
    #[verifier::opaque]
    pub open spec fn in8(self, port: u16) -> State {
        self.port_read(port).set_reg_w(0, 8, self.port_value(port) as u64)
    }

    /// IN AX, port.
    #[verifier::opaque]
    pub open spec fn in16(self, port: u16) -> State {
        let (s, v) = self.port_in16(port);
        s.set_reg_w(0, 16, v as u64)
    }

    /// LLDT.
    #[verifier::opaque]
    pub open spec fn lldt(self, m: ModRm) -> State {
        let (s, v) = self.read_rm(m, 16);
        s.load_ldt(v as u16)
    }

    /// LTR.
    #[verifier::opaque]
    pub open spec fn ltr(self, m: ModRm) -> State {
        let (s, v) = self.read_rm(m, 16);
        s.load_tr(v as u16)
    }
}

impl Cpu {
    /// Read a pseudo-descriptor.
    ///
    /// The pseudo-descriptor is a 16-bit limit followed by the table base --
    /// four bytes of it in a legacy mode, eight in long mode, where a
    /// descriptor table can live anywhere in the 64-bit space.
    fn table_operand(&mut self, m: &ModRm) -> (r: (u16, u64))
        ensures
            (final(self)@, r.0, r.1) == old(self)@.table_operand(*m),
    {
        proof {
            reveal(State::table_operand);
        }
        let w: u32 = if self.long_mode() { 64 } else { 32 };
        let linear: u64 = self.modrm_linear(m);
        let sp = self.reach(linear, 2 + w / 8, false);
        (self.mem.span_read(sp, 0, 16) as u16, self.mem.span_read(sp, 2, w))
    }

    pub fn lgdt(&mut self, m: &ModRm)
        ensures
            final(self)@ == old(self)@.lgdt(*m),
    {
        let (limit, base): (u16, u64) = self.table_operand(m);
        self.gdt_base = base;
        self.gdt_limit = limit;
    }

    pub fn lidt(&mut self, m: &ModRm)
        ensures
            final(self)@ == old(self)@.lidt(*m),
    {
        let (limit, base): (u16, u64) = self.table_operand(m);
        self.idt_base = base;
        self.idt_limit = limit;
    }

    /// SGDT / SIDT store the register the way LGDT / LIDT read it: a 16-bit
    /// limit and then the base, 8 bytes wide in long mode and 4 otherwise.
    pub fn store_table(&mut self, m: &ModRm, limit: u16, base: u64)
        ensures
            final(self)@ == old(self)@.store_table(*m, limit, base),
    {
        proof {
            reveal(State::store_table);
        }
        let w: u32 = if self.long_mode() { 64 } else { 32 };
        let linear: u64 = self.modrm_linear(m);
        let sp = self.reach(linear, 2 + w / 8, true);
        self.put_span(sp, 0, 16, limit as u64);
        self.put_span(sp, 2, w, base);
    }

    pub fn smsw(&mut self, m: &ModRm)
        ensures
            final(self)@ == old(self)@.smsw(*m),
    {
        if m.is_reg() {
            let w: u32 = self.osize();
            let v: u64 = if w == 16 {
                self.cr0 as u64 & 0xFFFF
            } else {
                self.cr0 as u64
            };
            self.write_rm_w(m, w, v);
        } else {
            let v: u16 = self.cr0 as u16;
            self.write_rm_w(m, 16, v as u64);
        }
    }

    /// LMSW writes CR0's low four bits (PE, MP, EM, TS) and can set PE but
    /// never clear it -- the 286 had no way back to real mode.
    pub fn lmsw(&mut self, m: &ModRm)
        ensures
            final(self)@ == old(self)@.lmsw(*m),
    {
        proof {
            reveal(State::lmsw);
        }
        if self.cpl() != 0 {
            self.raise_gp(0);
            return;
        }
        let r: u64 = self.read_rm_w(m, 16);
        let v: u32 = (r as u16) as u32;
        if self.pending_exception.is_some() {
            return;
        }
        let new: u32 = (self.cr0 & !0xE) | (v & 0xE) | (self.cr0 & 1) | (v & 1);
        self.write_cr0(new);
    }

    /// EDX:EAX.
    fn pair(&self) -> (v: u64)
        ensures
            v == self@.pair(),
    {
        (self.eax() as u64) | ((self.edx() as u64) << 32)
    }

    /// Put a 64-bit result in EDX:EAX.
    pub fn set_pair(&mut self, v: u64)
        ensures
            final(self)@ == old(self)@.with_pair(v),
    {
        proof {
            reveal(State::with_pair);
        }
        self.set_reg32_idx(0, v as u32);
        self.set_reg32_idx(2, (v >> 32) as u32);
    }

    /// XGETBV / XSETBV: XCR0 says which register state XSAVE manages. Only
    /// XCR0 exists (ECX must be 0), bit 0 (x87) can never be cleared, and this
    /// CPU has no state past SSE, so only bits 0-1 may be set.
    pub fn xgetbv(&mut self)
        ensures
            final(self)@ == old(self)@.xgetbv(),
    {
        proof {
            reveal(State::xgetbv);
        }
        if self.cr4 & CR4_OSXSAVE == 0 {
            self.raise_ud();
            return;
        }
        if self.ecx() != 0 {
            self.raise_gp(0);
            return;
        }
        let v: u64 = self.xcr0;
        self.set_pair(v);
    }

    pub fn xsetbv(&mut self)
        ensures
            final(self)@ == old(self)@.xsetbv(),
    {
        proof {
            reveal(State::xsetbv);
        }
        if self.cr4 & CR4_OSXSAVE == 0 {
            self.raise_ud();
            return;
        }
        if self.cpl() != 0 || self.ecx() != 0 {
            self.raise_gp(0);
            return;
        }
        let v: u64 = self.pair();
        if v & 1 == 0 || v & !0x3 != 0 {
            self.raise_gp(0);
            return;
        }
        self.xcr0 = v;
    }

    /// RFLAGS.AC is the SMAP override in supervisor mode. Privileged, and #UD
    /// rather than #GP outside ring 0.
    pub fn set_ac(&mut self, on: bool)
        ensures
            final(self)@ == old(self)@.set_ac(on),
    {
        if self.cpl() != 0 {
            self.raise_ud();
            return;
        }
        self.set_flag(flags::AC, on);
    }

    /// A control-register move is always the full width of the mode: 64 bits
    /// in long mode, 32 otherwise, with no way to ask for anything else.
    fn system_width(&self) -> (w: u32)
        ensures
            w == self@.system_width(),
    {
        if self.long_mode() {
            64
        } else {
            32
        }
    }

    pub fn mov_cr(&mut self, cr: u8, reg: u8)
        ensures
            final(self)@ == old(self)@.set_reg_w(
                reg,
                old(self)@.system_width(),
                old(self)@.control(cr),
            ),
    {
        let v: u64 = match cr {
            0 => self.cr0 as u64,
            2 => self.cr2,
            3 => self.cr3,
            4 => self.cr4 as u64,
            // CR8 is the task-priority register, which exists only in long
            // mode and only alongside a local APIC. There is no APIC here, so
            // it reads back what it was written.
            _ => self.cr8,
        };
        let w: u32 = self.system_width();
        self.set_reg_w(reg, w, v);
    }

    pub fn mov_to_cr(&mut self, cr: u8, reg: u8)
        ensures
            final(self)@ == old(self)@.mov_to_cr(cr, reg),
    {
        proof {
            reveal(State::mov_to_cr);
        }
        let w: u32 = self.system_width();
        let v: u64 = self.reg_w(reg, w);
        match cr {
            0 => self.write_cr0(v as u32),
            2 => {
                self.cr2 = v;
            },
            3 => {
                self.cr3 = v;
                self.flush_tlb();
            },
            4 => {
                // Linux's `__flush_tlb_global()` is *literally* a CR4 write
                // with PGE toggled off and back on: the flush is the whole
                // point of the sequence. Toggling PAE changes the shape of the
                // page tables, so it is not optional there either.
                self.cr4 = v as u32;
                self.flush_tlb();
            },
            _ => {
                self.cr8 = v & 0xF;
            },
        }
    }

    /// Debug registers. Nothing here implements hardware breakpoints, so they
    /// are plain storage.
    pub fn mov_dr(&mut self, dr: u8, reg: u8)
        ensures
            final(self)@ == old(self)@.mov_dr(dr, reg),
    {
        proof {
            crate::bits::lemma_masks();
        }
        let w: u32 = self.system_width();
        let v: u64 = self.dr[(dr & 7) as usize];
        self.set_reg_w(reg, w, v);
    }

    pub fn mov_to_dr(&mut self, dr: u8, reg: u8)
        ensures
            final(self)@ == old(self)@.mov_to_dr(dr, reg),
    {
        proof {
            crate::bits::lemma_masks();
        }
        let w: u32 = self.system_width();
        let v: u64 = self.reg_w(reg, w);
        self.dr[(dr & 7) as usize] = v;
    }

    /// The fast system-call pair. What makes it fast is that it consults no
    /// table and touches no memory: the entry point and the segments come out
    /// of MSRs, and the return address goes in a register instead of onto a
    /// stack the kernel would have to trust.
    pub fn syscall(&mut self)
        ensures
            final(self)@ == old(self)@.syscall(),
    {
        proof {
            reveal(State::syscall);
        }
        if self.efer & crate::cpu::efer::SCE == 0 {
            // SYSCALL is disabled: #UD, not a silent fall-through.
            self.raise(0x06, None);
            return;
        }
        let sel: u16 = (((self.star >> 32) & 0xFFFF) as u16) & 0xFFFC;
        let rip: u64 = self.rip;
        let word: u32 = self.flags;
        self.set_reg64_raw(1, rip);
        self.set_reg64_raw(11, word as u64);
        self.flags = (self.flags & !(self.sfmask as u32)) | flags::ALWAYS_SET;
        self.load_seg(SegReg::Cs, sel);
        self.load_seg(SegReg::Ss, sel.wrapping_add(8));
        self.rip = self.lstar;
        self.diag.ring_switches = self.diag.ring_switches.wrapping_add(1);
        self.invalidate_phys_ip();
    }

    pub fn sysret(&mut self)
        ensures
            final(self)@ == old(self)@.sysret(),
    {
        proof {
            reveal(State::sysret);
        }
        let sel: u16 = ((self.star >> 48) & 0xFFFF) as u16;
        // 64-bit: CS is base+16, SS is base+8, both with RPL 3.
        let cs: u16 = if self.pfx.rex_w {
            sel.wrapping_add(16) | 3
        } else {
            sel | 3
        };
        let ss: u16 = sel.wrapping_add(8) | 3;
        self.rip = self.reg64(1);
        let f: u32 = self.reg64(11) as u32;
        self.flags = crate::instructions::control::write_flags(self.flags, f);
        self.load_seg(SegReg::Cs, cs);
        self.load_seg(SegReg::Ss, ss);
        self.invalidate_phys_ip();
    }

    /// Exchange the GS base with the one parked in KERNEL_GS_BASE. It exists
    /// because a kernel entered by SYSCALL has no trustworthy register and no
    /// stack of its own.
    pub fn swapgs(&mut self)
        ensures
            final(self)@ == old(self)@.swapgs(),
    {
        if !self.long64() {
            self.raise(0x06, None);
            return;
        }
        let parked: u64 = self.kernel_gs_base;
        self.kernel_gs_base = self.gs_base;
        self.gs_base = parked;
    }

    pub fn cpuid(&mut self)
        ensures
            final(self)@ == old(self)@.cpuid(),
    {
        proof {
            reveal(State::cpuid);
        }
        let (a, b, c, d): (u32, u32, u32, u32) = match self.eax() {
            // Highest basic leaf = 1, vendor string "GenuineIntel".
            0 => (1, 0x756E_6547, 0x6C65_746E, 0x4965_6E69),
            // Family 6, model 0, stepping 0. EBX: CLFLUSH line size 8 (x8 = 64
            // bytes), one logical processor; the line size is not decoration:
            // Linux takes it as the cache alignment. SEP is left off, so
            // 32-bit system calls arrive as int 0x80 rather than SYSENTER, and
            // so are APIC, MTRR and PAT.
            1 => (0x0000_0600, 0x0001_0800, 0x0000_0021, 0x0788_A179),
            // Highest extended leaf. A CPU that does not answer this one is a
            // CPU without long mode as far as any bootloader is concerned.
            0x8000_0000 => (0x8000_0008, 0, 0, 0),
            // Extended features, among them NX, SYSCALL, 1 GiB pages and LM
            // (bit 29) -- the bit that says this CPU has long mode at all.
            0x8000_0001 => (0, 0, 0x0000_0021, 0x2490_A97B),
            // Physical and linear address sizes: 52 and 48, which is what the
            // page-table walk actually implements.
            0x8000_0008 => (0x0000_3034, 0, 0, 0),
            // Unknown leaf: report 0.
            _ => (0, 0, 0, 0),
        };
        self.set_reg32_idx(0, a);
        self.set_reg32_idx(3, b);
        self.set_reg32_idx(1, c);
        self.set_reg32_idx(2, d);
    }

    /// ECX names the MSR; the value is EDX:EAX, high half first.
    pub fn rdmsr(&mut self)
        ensures
            final(self)@ == old(self)@.with_pair(old(self)@.read_msr(old(self)@.reg32(1))),
    {
        let v: u64 = self.read_msr(self.ecx());
        self.set_pair(v);
    }

    pub fn wrmsr(&mut self)
        ensures
            final(self)@ == old(self)@.write_msr(old(self)@.reg32(1), old(self)@.pair()),
    {
        let i: u32 = self.ecx();
        let v: u64 = self.pair();
        self.write_msr(i, v);
    }

    pub fn in8(&mut self, port: u16)
        ensures
            final(self)@ == old(self)@.in8(port),
    {
        proof {
            reveal(State::in8);
        }
        let v: u8 = self.port_in(port);
        self.set_reg_w(0, 8, v as u64);
    }

    pub fn in16(&mut self, port: u16)
        ensures
            final(self)@ == old(self)@.in16(port),
    {
        proof {
            reveal(State::in16);
        }
        let v: u16 = self.port_in16(port);
        self.set_reg_w(0, 16, v as u64);
    }

    pub fn out8(&mut self, port: u16)
        ensures
            final(self)@ == old(self)@.port_out(port, old(self)@.reg64(0) as u8),
    {
        let v: u8 = self.reg64(0) as u8;
        self.port_out(port, v);
    }

    pub fn out16(&mut self, port: u16)
        ensures
            final(self)@ == old(self)@.port_out16(port, old(self)@.reg16(0)),
    {
        let v: u16 = self.reg16_idx(0);
        self.port_out16(port, v);
    }

    pub fn lldt(&mut self, m: &ModRm)
        ensures
            final(self)@ == old(self)@.lldt(*m),
    {
        proof {
            reveal(State::lldt);
        }
        let v: u64 = self.read_rm_w(m, 16);
        self.load_ldt(v as u16);
    }

    pub fn ltr(&mut self, m: &ModRm)
        ensures
            final(self)@ == old(self)@.ltr(*m),
    {
        proof {
            reveal(State::ltr);
        }
        let v: u64 = self.read_rm_w(m, 16);
        self.load_tr(v as u16);
    }
}

} // verus!
