//! From logical addresses to physical ones: segmentation, paging and its TLB,
//! page-level protection, and the descriptor tables.

use crate::cpu::{
    efer, msr, Cpu, DiagView, FetchCache, SegReg, TlbEntry, CR0_PE, CR0_PG, CR0_WP, CR4_PAE,
    TLB_SIZE, WATCH_LOG_MAX,
};
use crate::memory::{lemma_phys, MemView, Memory, UNBACKED};
use crate::paging::{pte, walk, PagingMode, Walk};
use crate::protected::{seg_index, Descriptor};
use crate::state::State;
use vstd::prelude::*;

verus! {

/// The kind of access a translation is for.
#[derive(Clone, Copy, PartialEq, Eq, Structural, Debug)]
pub enum Access {
    Read,
    Write,
    Fetch,
}

/// The address of a real-mode pair with an offset of up to 32 bits: 20 bits of
/// sixteen times the segment plus the offset.
pub open spec fn real_linear(segment: u16, offset: u32) -> u64 {
    ((segment * 16 + offset) % 0x10_0000) as u64
}

/// A 48-bit address, sign-extended to 64 bits.
pub open spec fn canonical(linear: u64) -> bool {
    linear >> 47 == 0 || linear >> 47 == 0x1_FFFF
}

/// The page-fault error code: present, write, user, fetch.
pub open spec fn fault_code(present: bool, access: Access, user: bool) -> u32 {
    (if present { 1u32 } else { 0u32 }) | (if access == Access::Write { 2u32 } else { 0u32 }) | (if user {
        4u32
    } else {
        0u32
    }) | (if access == Access::Fetch { 16u32 } else { 0u32 })
}

/// Memory with the accessed bit (and, for a store, the dirty bit) of one
/// entry set.
pub open spec fn marked(mem: MemView, at: usize, wide: bool, bits: u64) -> MemView {
    if wide {
        mem.write64(at, mem.read64(at) | bits)
    } else {
        mem.write32(at, mem.read32(at) | (bits as u32))
    }
}

/// Memory with one optional upper entry marked accessed.
pub open spec fn marked_upper(mem: MemView, at: Option<usize>, wide: bool) -> MemView {
    match at {
        Some(a) => marked(mem, a, wide, pte::A),
        None => mem,
    }
}

/// Memory with the accessed and dirty bits of a whole walk set: accessed at
/// every level, dirty only where the page is mapped.
#[verifier::opaque]
pub open spec fn walk_marked(mem: MemView, w: Walk, write: bool) -> MemView {
    let up = marked_upper(
        marked_upper(marked_upper(mem, w.upper4, w.wide), w.upper3, w.wide),
        w.upper2,
        w.wide,
    );
    marked(up, w.leaf, w.wide, if write { pte::A | pte::D } else { pte::A })
}

/// Is `a` within four bytes of the watched address `w`?
pub open spec fn near(a: u64, w: u64) -> bool {
    a >= w.wrapping_sub(4) && a <= w.wrapping_add(4)
}

impl State {
    // ---- Segmentation ----

    /// The linear address of an offset in a segment. 64-bit code has no
    /// segment bases but FS's and GS's, which come from MSRs; real mode has 20
    /// address bits, and wraps at 1 MiB.
    pub open spec fn linear_addr(self, s: SegReg, offset: u64) -> u64 {
        if self.long64() {
            if s == SegReg::Fs {
                self.fs_base.wrapping_add(offset)
            } else if s == SegReg::Gs {
                self.gs_base.wrapping_add(offset)
            } else {
                offset
            }
        } else if self.pe {
            self.seg_desc[s.index()].base.wrapping_add(offset as u32) as u64
        } else {
            real_linear(self.seg(s), offset as u32)
        }
    }

    /// The linear address of the instruction stream.
    pub open spec fn ip_linear(self) -> u64 {
        if self.long64() {
            self.rip
        } else if self.pe {
            self.seg_desc[1].base.wrapping_add(self.eip()) as u64
        } else {
            crate::memory::phys_of(self.cs, self.ip) as u64
        }
    }

    // ---- Paging ----

    pub open spec fn paging(self) -> bool {
        self.cr0 & CR0_PG != 0
    }

    /// Which page-table structure is in force.
    pub open spec fn paging_mode(self) -> PagingMode {
        if self.long_mode() {
            PagingMode::Long
        } else if self.cr4 & CR4_PAE != 0 {
            PagingMode::Pae
        } else {
            PagingMode::Legacy
        }
    }

    /// Is an access permitted against a mapping's permission bits?
    ///
    /// User code reaches user pages only, and writes writable ones only. A
    /// supervisor *write* to a read-only page is allowed only while CR0.WP is
    /// clear. A fetch from a no-execute page is refused while EFER.NXE is set.
    pub open spec fn access_allowed(
        self,
        writable: bool,
        page_user: bool,
        no_exec: bool,
        access: Access,
    ) -> bool {
        let write = access == Access::Write;
        if access == Access::Fetch && no_exec && self.efer & efer::NXE != 0 {
            false
        } else if self.cpl() == 3 {
            page_user && (writable || !write)
        } else {
            !(write && !writable && self.cr0 & CR0_WP != 0)
        }
    }

    /// The state with an exception raised, unless one is pending already: the
    /// first fault of an instruction is the one that counts.
    pub open spec fn raise(self, vector: u8, code: Option<u32>) -> State {
        if self.faulted() {
            self
        } else {
            State { pending_exception: Some((vector, code)), ..self }
        }
    }

    /// The state with a page fault raised: CR2 takes the linear address.
    pub open spec fn raise_page_fault(self, linear: u64, present: bool, access: Access) -> State {
        if self.faulted() {
            self
        } else {
            State { cr2: linear, ..self }.raise(
                0x0E,
                Some(fault_code(present, access, self.cpl() == 3)),
            )
        }
    }

    /// The TLB slot of a linear address.
    pub open spec fn tlb_slot(linear: u64) -> int {
        ((linear >> 12) & 0xFF) as int
    }

    /// Does the TLB answer for a linear address?
    pub open spec fn tlb_hit(self, linear: u64) -> bool {
        let e = self.tlb[Self::tlb_slot(linear)];
        e.valid && e.vpage == linear >> 12 && !self.diag.no_tlb
    }

    /// The state with one TLB entry replaced.
    pub open spec fn with_tlb(self, i: int, e: TlbEntry) -> State {
        State { tlb: self.tlb.update(i, e), ..self }
    }

    /// A translation the TLB answers. The permission check is made again, and
    /// the first write through an entry marks the page dirty.
    pub open spec fn tlb_access(self, linear: u64, access: Access) -> (State, usize) {
        let i = Self::tlb_slot(linear);
        let e = self.tlb[i];
        if !self.access_allowed(e.writable, e.user, e.no_exec, access) {
            (self.raise_page_fault(linear, true, access), UNBACKED)
        } else {
            let phys = ((e.ppage << 12) | (linear & 0xFFF)) as usize;
            if access == Access::Write && !e.dirtied {
                let mem = match crate::paging::walked(
                    self.mem,
                    self.paging_mode(),
                    self.cr3,
                    linear,
                ) {
                    Some(w) => walk_marked(self.mem, w, true),
                    None => self.mem,
                };
                (State { mem, ..self }.with_tlb(i, TlbEntry { dirtied: true, ..e }), phys)
            } else {
                (self, phys)
            }
        }
    }

    /// A translation that walks the tables, filling the TLB.
    pub open spec fn walk_access(self, linear: u64, access: Access) -> (State, usize) {
        match crate::paging::walked(self.mem, self.paging_mode(), self.cr3, linear) {
            Some(w) => if !self.access_allowed(w.writable, w.user, w.no_exec, access) {
                (self.raise_page_fault(linear, true, access), UNBACKED)
            } else {
                let write = access == Access::Write;
                let e = TlbEntry {
                    valid: true,
                    vpage: linear >> 12,
                    ppage: (w.phys as u64) >> 12,
                    writable: w.writable,
                    user: w.user,
                    no_exec: w.no_exec,
                    dirtied: write,
                };
                (
                    State { mem: walk_marked(self.mem, w, write), ..self }.with_tlb(
                        Self::tlb_slot(linear),
                        e,
                    ),
                    w.phys,
                )
            },
            None => (self.raise_page_fault(linear, false, access), UNBACKED),
        }
    }

    /// The linear address as the current mode sees it: 32 bits outside long
    /// mode.
    pub open spec fn trimmed(self, linear: u64) -> u64 {
        if self.long_mode() { linear } else { linear & 0xFFFF_FFFF }
    }

    /// A linear address translated for an access. With paging off it is the
    /// physical address. In long mode a non-canonical address is a general
    /// protection fault before the page tables are consulted at all.
    #[verifier::opaque]
    pub open spec fn paged(self, linear: u64, access: Access) -> (State, usize) {
        if !self.paging() {
            (self, (linear as u32) as usize)
        } else if self.long_mode() && !canonical(linear) {
            (self.raise(0x0D, Some(0)), UNBACKED)
        } else if self.tlb_hit(self.trimmed(linear)) {
            self.tlb_access(self.trimmed(linear), access)
        } else {
            self.walk_access(self.trimmed(linear), access)
        }
    }

    /// The state with a watched write logged, the oldest one dropped once the
    /// log is full.
    pub open spec fn watch_logged(self, phys: u64) -> State {
        let log = self.diag.watch_log;
        let kept = if log.len() >= WATCH_LOG_MAX {
            log.subrange(1, log.len() as int)
        } else {
            log
        };
        State {
            diag: DiagView {
                watch_log: kept.push((self.instructions_executed, self.pc_start(), phys)),
                ..self.diag
            },
            ..self
        }
    }

    /// The state after a write to `linear`, at `phys`, as the watches see it.
    #[verifier::opaque]
    pub open spec fn watched(self, linear: u64, phys: usize) -> State {
        let s = match self.diag.watch_linear {
            Some(w) if near(linear, w) => self.watch_logged(phys as u64),
            _ => self,
        };
        match s.diag.watch_phys {
            Some(w) if near(phys as u64, w) => s.watch_logged(phys as u64),
            _ => s,
        }
    }

    /// A linear address translated for an access, with writes shown to the
    /// watches.
    #[verifier::opaque]
    pub open spec fn access(self, linear: u64, access: Access) -> (State, usize) {
        let (s, phys) = self.paged(linear, access);
        if access == Access::Write { (s.watched(linear, phys), phys) } else { (s, phys) }
    }

    /// A logical address translated for an access.
    pub open spec fn translate(self, s: SegReg, offset: u64, access: Access) -> (State, usize) {
        self.access(self.linear_addr(s, offset), access)
    }

    /// A linear address translated without faults or side effects.
    #[verifier::opaque]
    pub open spec fn peek_phys(self, linear: u64) -> usize {
        if !self.paging() {
            (linear as u32) as usize
        } else {
            match crate::paging::walked(self.mem, self.paging_mode(), self.cr3, linear) {
                Some(w) => w.phys,
                None => UNBACKED,
            }
        }
    }

    /// The state with the instruction-fetch cache dropped.
    pub open spec fn unfetched(self) -> State {
        State { fetch: FetchCache { valid: false, ..self.fetch }, ..self }
    }

    /// The state with nothing in the TLB.
    #[verifier::opaque]
    pub open spec fn flushed(self) -> State {
        State {
            tlb: Seq::new(
                self.tlb.len(),
                |i: int| TlbEntry { valid: false, ..self.tlb[i] },
            ),
            ..self
        }.unfetched()
    }

    /// The state with a linear address's page dropped from the TLB.
    #[verifier::opaque]
    pub open spec fn invlpg(self, linear: u64) -> State {
        let l = self.trimmed(linear);
        let i = Self::tlb_slot(l);
        let e = self.tlb[i];
        if e.valid && e.vpage == l >> 12 {
            self.with_tlb(i, TlbEntry { valid: false, ..e })
        } else {
            self
        }
    }

    // ---- Descriptor tables ----

    /// The descriptor at index `selector >> 3` of the table at linear `base`.
    pub open spec fn table_entry(self, base: u64, selector: u16) -> Descriptor {
        let at = base.wrapping_add((((selector >> 3) & 0x1FFF) as u64).wrapping_mul(8));
        crate::protected::parsed(self.peek(at, 8, 0, 64))
    }

    /// The descriptor a selector names: in the LDT when its table-indicator
    /// bit is set, in the GDT otherwise.
    #[verifier::opaque]
    pub open spec fn descriptor_for(self, selector: u16) -> Descriptor {
        self.table_entry(
            if selector & 4 != 0 { self.ldt_base } else { self.gdt_base },
            selector,
        )
    }

    /// The state with a segment register loaded: in protected mode the
    /// descriptor is resolved and cached.
    #[verifier::opaque]
    pub open spec fn load_seg(self, s: SegReg, selector: u16) -> State {
        let cached = if self.pe {
            State {
                seg_desc: self.seg_desc.update(s.index(), self.descriptor_for(selector)),
                ..self
            }
        } else {
            self
        };
        let loaded = cached.with_seg(s, selector);
        if s == SegReg::Cs { loaded.unfetched() } else { loaded }
    }

    /// The state with the task register loaded.
    #[verifier::opaque]
    pub open spec fn load_tr(self, selector: u16) -> State {
        let d = self.descriptor_for(selector);
        State { tr_selector: selector, tr_base: d.base as u64, tr_limit: d.limit, ..self }
    }

    /// The state with the local descriptor table register loaded. A null
    /// selector clears it, and its descriptor always lives in the GDT.
    #[verifier::opaque]
    pub open spec fn load_ldt(self, selector: u16) -> State {
        if selector & 0xFFF8 == 0 {
            State { ldt_selector: selector, ldt_base: 0, ldt_limit: 0, ..self }
        } else {
            let d = self.table_entry(self.gdt_base, selector);
            State { ldt_selector: selector, ldt_base: d.base as u64, ldt_limit: d.limit, ..self }
        }
    }

    /// The value at an offset into the TSS, which is named by linear address.
    pub open spec fn tss_field(self, offset: u64, w: u32) -> u64 {
        self.peek(self.tr_base.wrapping_add(offset), 8, 0, w)
    }

    /// The ring-0 stack recorded in a 32-bit TSS: (SS0, ESP0).
    #[verifier::opaque]
    pub open spec fn tss_stack0(self) -> (u16, u32) {
        (self.tss_field(8, 16) as u16, self.tss_field(4, 32) as u32)
    }

    /// The ring-0 stack recorded in a 64-bit TSS.
    #[verifier::opaque]
    pub open spec fn tss_rsp0(self) -> u64 {
        self.tss_field(4, 64)
    }

    /// Entry `i` of a 64-bit TSS's interrupt stack table, counted from one.
    #[verifier::opaque]
    pub open spec fn tss_ist(self, i: u8) -> u64 {
        self.tss_field(0x24u64.wrapping_add((i as u64).wrapping_sub(1).wrapping_mul(8)), 64)
    }

    // ---- Mode switches ----

    /// Long mode is active exactly while it is asked for, PAE is on and paging
    /// is on.
    pub open spec fn update_long_mode(self) -> State {
        State {
            efer: if self.efer & efer::LME != 0 && self.cr0 & CR0_PG != 0 && self.cr4 & CR4_PAE
                != 0 {
                self.efer | efer::LMA
            } else {
                self.efer & !efer::LMA
            },
            ..self
        }
    }

    /// The state after a CR0 write: PE follows it, toggling PG flushes the
    /// TLB, and long mode is entered or left.
    #[verifier::opaque]
    pub open spec fn write_cr0(self, v: u32) -> State {
        let s = State { cr0: v, pe: v & CR0_PE != 0, ..self };
        let t = if self.cr0 & CR0_PG != v & CR0_PG { s.flushed() } else { s };
        t.update_long_mode()
    }

    /// A model-specific register; one the CPU does not keep reads as zero.
    pub open spec fn read_msr(self, index: u32) -> u64 {
        if index == msr::EFER {
            self.efer
        } else if index == msr::STAR {
            self.star
        } else if index == msr::LSTAR {
            self.lstar
        } else if index == msr::CSTAR {
            self.cstar
        } else if index == msr::SFMASK {
            self.sfmask
        } else if index == msr::FS_BASE {
            self.fs_base
        } else if index == msr::GS_BASE {
            self.gs_base
        } else if index == msr::KERNEL_GS_BASE {
            self.kernel_gs_base
        } else if index == msr::SYSENTER_CS {
            self.sysenter_cs
        } else if index == msr::SYSENTER_ESP {
            self.sysenter_esp
        } else if index == msr::SYSENTER_EIP {
            self.sysenter_eip
        } else {
            0
        }
    }

    /// The state after an MSR write. Software cannot write EFER.LMA, and a
    /// write to a register the CPU does not keep is swallowed.
    #[verifier::opaque]
    pub open spec fn write_msr(self, index: u32, v: u64) -> State {
        if index == msr::EFER {
            State { efer: (v & !efer::LMA) | (self.efer & efer::LMA), ..self }
        } else if index == msr::STAR {
            State { star: v, ..self }
        } else if index == msr::LSTAR {
            State { lstar: v, ..self }
        } else if index == msr::CSTAR {
            State { cstar: v, ..self }
        } else if index == msr::SFMASK {
            State { sfmask: v, ..self }
        } else if index == msr::FS_BASE {
            State { fs_base: v, ..self }
        } else if index == msr::GS_BASE {
            State { gs_base: v, ..self }
        } else if index == msr::KERNEL_GS_BASE {
            State { kernel_gs_base: v, ..self }
        } else if index == msr::SYSENTER_CS {
            State { sysenter_cs: v, ..self }
        } else if index == msr::SYSENTER_ESP {
            State { sysenter_esp: v, ..self }
        } else if index == msr::SYSENTER_EIP {
            State { sysenter_eip: v, ..self }
        } else {
            self
        }
    }
}

proof fn lemma_tlb_slot(linear: u64)
    ensures
        (linear >> 12) & 0xFF < 256,
{
    crate::bits::lemma_masks();
}

fn wrapped(segment: u16, offset: u32) -> (a: u64)
    ensures
        a == real_linear(segment, offset),
{
    proof {
        lemma_phys(segment, 0);
    }
    let sum: u32 = ((segment as u32) << 4).wrapping_add(offset);
    (sum % 0x10_0000) as u64
}

impl Cpu {
    // ---- Segmentation ----

    /// The linear address of an offset in a segment.
    pub fn linear_addr(&self, s: SegReg, offset: u64) -> (a: u64)
        ensures
            a == self@.linear_addr(s, offset),
    {
        if self.long64() {
            match s {
                SegReg::Fs => self.fs_base.wrapping_add(offset),
                SegReg::Gs => self.gs_base.wrapping_add(offset),
                _ => offset,
            }
        } else if self.pe {
            self.seg_desc[seg_index(s)].base.wrapping_add(offset as u32) as u64
        } else {
            wrapped(self.seg(s), offset as u32)
        }
    }

    /// The linear address of the instruction stream.
    pub fn ip_linear(&self) -> (a: u64)
        ensures
            a == self@.ip_linear(),
    {
        if self.long64() {
            self.rip
        } else if self.pe {
            self.seg_desc[1].base.wrapping_add(self.rip as u32) as u64
        } else {
            Memory::phys(self.cs, self.ip) as u64
        }
    }

    // ---- Faults ----

    /// Raise an exception, unless one is pending already.
    pub fn raise(&mut self, vector: u8, code: Option<u32>)
        ensures
            final(self)@ == old(self)@.raise(vector, code),
    {
        if self.pending_exception.is_none() {
            self.pending_exception = Some((vector, code));
        }
    }

    /// Raise a general protection fault.
    pub fn raise_gp(&mut self, code: u32)
        ensures
            final(self)@ == old(self)@.raise(0x0D, Some(code)),
    {
        self.raise(0x0D, Some(code));
    }

    /// Raise an invalid-opcode fault.
    pub fn raise_ud(&mut self)
        ensures
            final(self)@ == old(self)@.raise(0x06, None),
    {
        self.raise(0x06, None);
    }

    /// Record a page fault: CR2 takes the faulting linear address and the
    /// error code says whether the page was present, whether the access was a
    /// write, whether it came from user mode and whether it was a fetch.
    fn raise_page_fault(&mut self, linear: u64, present: bool, access: Access)
        ensures
            final(self)@ == old(self)@.raise_page_fault(linear, present, access),
    {
        // Keep the first fault: CR2 and the error code describe the access
        // that actually failed, and a second translation later in the same
        // instruction would otherwise rewrite them.
        if self.pending_exception.is_some() {
            return;
        }
        self.cr2 = linear;
        let p: u32 = if present {
            1
        } else {
            0
        };
        let w: u32 = if access == Access::Write {
            2
        } else {
            0
        };
        let u: u32 = if self.cpl() == 3 {
            4
        } else {
            0
        };
        let f: u32 = if access == Access::Fetch {
            16
        } else {
            0
        };
        self.pending_exception = Some((0x0E, Some(p | w | u | f)));
    }

    // ---- Paging ----

    /// Which page-table structure is in force.
    pub fn paging_mode(&self) -> (m: PagingMode)
        ensures
            m == self@.paging_mode(),
    {
        if self.long_mode() {
            PagingMode::Long
        } else if self.cr4 & CR4_PAE != 0 {
            PagingMode::Pae
        } else {
            PagingMode::Legacy
        }
    }

    /// Is an access permitted against a mapping's permission bits?
    fn access_allowed(&self, writable: bool, page_user: bool, no_exec: bool, access: Access) -> (b:
        bool)
        ensures
            b == self@.access_allowed(writable, page_user, no_exec, access),
    {
        let write = access == Access::Write;
        if access == Access::Fetch && no_exec && self.efer & efer::NXE != 0 {
            return false;
        }
        if self.cpl() == 3 {
            return page_user && (writable || !write);
        }
        !(write && !writable && self.cr0 & CR0_WP != 0)
    }

    /// Set bits of one page-table entry.
    fn mark_entry(&mut self, at: usize, wide: bool, bits: u64)
        ensures
            final(self)@ == (State { mem: marked(old(self)@.mem, at, wide, bits), ..old(self)@ }),
    {
        if wide {
            let e: u64 = self.mem.read_u64(at);
            self.mem.write_u64(at, e | bits);
        } else {
            let e: u32 = self.mem.read_u32(at);
            self.mem.write_u32(at, e | (bits as u32));
        }
    }

    /// Set the accessed bit of an entry above the last one.
    fn mark_upper(&mut self, at: Option<usize>, wide: bool)
        ensures
            final(self)@ == (State {
                mem: marked_upper(old(self)@.mem, at, wide),
                ..old(self)@
            }),
    {
        if let Some(a) = at {
            self.mark_entry(a, wide, pte::A);
        }
    }

    /// Set the accessed (and for a store, dirty) bits of a mapping.
    fn set_accessed_bits(&mut self, w: &Walk, write: bool)
        ensures
            final(self)@ == (State {
                mem: walk_marked(old(self)@.mem, *w, write),
                ..old(self)@
            }),
    {
        proof {
            reveal(walk_marked);
        }
        self.mark_upper(w.upper4, w.wide);
        self.mark_upper(w.upper3, w.wide);
        self.mark_upper(w.upper2, w.wide);
        self.mark_entry(
            w.leaf,
            w.wide,
            if write {
                pte::A | pte::D
            } else {
                pte::A
            },
        );
    }

    /// Set the accessed/dirty bits for a linear address whose translation was
    /// served from the TLB (so the walk's entry addresses are not to hand).
    fn mark_accessed(&mut self, linear: u64)
        ensures
            final(self)@ == (State {
                mem: match crate::paging::walked(
                    old(self)@.mem,
                    old(self)@.paging_mode(),
                    old(self)@.cr3,
                    linear,
                ) {
                    Some(w) => walk_marked(old(self)@.mem, w, true),
                    None => old(self)@.mem,
                },
                ..old(self)@
            }),
    {
        let mode = self.paging_mode();
        if let Some(w) = walk(&self.mem, mode, self.cr3, linear) {
            self.set_accessed_bits(&w, true);
        }
    }

    /// A translation the TLB answers.
    fn tlb_access(&mut self, idx: usize, linear: u64, access: Access) -> (phys: usize)
        requires
            idx == State::tlb_slot(linear),
            idx < TLB_SIZE,
        ensures
            (final(self)@, phys) == old(self)@.tlb_access(linear, access),
    {
        let entry = self.tlb[idx];
        if !self.access_allowed(entry.writable, entry.user, entry.no_exec, access) {
            // Present, but the access is not permitted: a protection fault.
            self.raise_page_fault(linear, true, access);
            return UNBACKED;
        }
        if access == Access::Write && !entry.dirtied {
            self.mark_accessed(linear);
            let mut e = entry;
            e.dirtied = true;
            self.tlb[idx] = e;
        }
        ((entry.ppage << 12) | (linear & 0xFFF)) as usize
    }

    /// A translation that walks the page tables, filling the TLB.
    fn walk_access(&mut self, idx: usize, linear: u64, access: Access) -> (phys: usize)
        requires
            idx == State::tlb_slot(linear),
            idx < TLB_SIZE,
        ensures
            (final(self)@, phys) == old(self)@.walk_access(linear, access),
    {
        let mode = self.paging_mode();
        match walk(&self.mem, mode, self.cr3, linear) {
            Some(w) => {
                if !self.access_allowed(w.writable, w.user, w.no_exec, access) {
                    self.raise_page_fault(linear, true, access);
                    return UNBACKED;
                }
                let write = access == Access::Write;
                // For large pages the walk already folded the offset in, so
                // caching the page number works for every page size.
                self.tlb[idx] = TlbEntry {
                    valid: true,
                    vpage: linear >> 12,
                    ppage: (w.phys as u64) >> 12,
                    writable: w.writable,
                    user: w.user,
                    no_exec: w.no_exec,
                    dirtied: write,
                };
                self.set_accessed_bits(&w, write);
                w.phys
            },
            None => {
                self.raise_page_fault(linear, false, access);
                UNBACKED
            },
        }
    }

    /// Apply paging to a linear address, checking the access against the
    /// mapping's permissions.
    fn apply_paging_inner(&mut self, linear: u64, access: Access) -> (phys: usize)
        ensures
            (final(self)@, phys) == old(self)@.paged(linear, access),
    {
        proof {
            reveal(State::paged);
        }
        if self.cr0 & CR0_PG == 0 {
            return Memory::phys32(linear as u32);
        }
        let long = self.long_mode();
        if long && !(linear >> 47 == 0 || linear >> 47 == 0x1_FFFF) {
            self.raise_gp(0);
            return UNBACKED;
        }
        let linear: u64 = if long {
            linear
        } else {
            linear & 0xFFFF_FFFF
        };
        proof {
            lemma_tlb_slot(linear);
        }
        let idx: usize = ((linear >> 12) & 0xFF) as usize;
        let entry = self.tlb[idx];
        if entry.valid && entry.vpage == linear >> 12 && !self.diag.no_tlb {
            self.tlb_access(idx, linear, access)
        } else {
            self.walk_access(idx, linear, access)
        }
    }

    /// Log a watched write.
    fn log_watch(&mut self, phys: u64)
        ensures
            final(self)@ == old(self)@.watch_logged(phys),
    {
        let eip: u64 = self.pc_start();
        let n: u64 = self.instructions_executed;
        // Keep the most recent writes: the one that left the bad value is the
        // last, not the first.
        if self.diag.watch_log.len() >= WATCH_LOG_MAX {
            self.diag.watch_log.remove(0);
            assert(self.diag.watch_log@ =~= old(self).diag.watch_log@.subrange(
                1,
                old(self).diag.watch_log@.len() as int,
            ));
        }
        self.diag.watch_log.push((n, eip, phys));
    }

    /// Show a write to the watches. Any store within a few bytes either side
    /// of a watched address counts.
    fn watch_write(&mut self, linear: u64, phys: usize)
        ensures
            final(self)@ == old(self)@.watched(linear, phys),
    {
        proof {
            reveal(State::watched);
        }
        if let Some(w) = self.diag.watch_linear {
            if linear >= w.wrapping_sub(4) && linear <= w.wrapping_add(4) {
                self.log_watch(phys as u64);
            }
        }
        if let Some(w) = self.diag.watch_phys {
            let p: u64 = phys as u64;
            if p >= w.wrapping_sub(4) && p <= w.wrapping_add(4) {
                self.log_watch(p);
            }
        }
    }

    /// Translate a linear address for an access of a given kind.
    pub fn translate_linear(&mut self, linear: u64, access: Access) -> (phys: usize)
        ensures
            (final(self)@, phys) == old(self)@.access(linear, access),
    {
        proof {
            reveal(State::access);
        }
        let phys: usize = self.apply_paging_inner(linear, access);
        if access == Access::Write {
            self.watch_write(linear, phys);
        }
        phys
    }

    /// Apply paging to a linear address if CR0.PG is set. If the page is not
    /// present, raise a #PF (vector 0x0E) with the faulting linear address in
    /// CR2 and an error code, and return `UNBACKED`.
    pub fn apply_paging(&mut self, linear: u64) -> (phys: usize)
        ensures
            (final(self)@, phys) == old(self)@.access(linear, Access::Read),
    {
        self.translate_linear(linear, Access::Read)
    }

    /// Translate a linear address, checking it against the access being made.
    ///
    /// `write` distinguishes a store from a load, which matters twice: a
    /// supervisor store to a read-only page faults when CR0.WP is set, and the
    /// page-fault error code has to say which kind of access faulted. The
    /// current privilege level comes from CS's RPL.
    pub fn apply_paging_access(&mut self, linear: u64, write: bool) -> (phys: usize)
        ensures
            (final(self)@, phys) == old(self)@.access(
                linear,
                if write { Access::Write } else { Access::Read },
            ),
    {
        self.translate_linear(
            linear,
            if write {
                Access::Write
            } else {
                Access::Read
            },
        )
    }

    /// Translate a linear address for an instruction fetch.
    pub fn apply_paging_fetch(&mut self, linear: u64) -> (phys: usize)
        ensures
            (final(self)@, phys) == old(self)@.access(linear, Access::Fetch),
    {
        self.translate_linear(linear, Access::Fetch)
    }

    /// Translate a logical address through a segment to a physical address.
    /// Records a #PF (page fault) in `pending_exception` if paging is enabled
    /// and the page is not present.
    pub fn translate(&mut self, s: SegReg, offset: u64) -> (phys: usize)
        ensures
            (final(self)@, phys) == old(self)@.translate(s, offset, Access::Read),
    {
        let linear: u64 = self.linear_addr(s, offset);
        self.translate_linear(linear, Access::Read)
    }

    /// `translate` for a store. Separate from the read form so paging can tell
    /// a load from a store, which is what CR0.WP and the page-fault error code
    /// both turn on.
    pub fn translate_write(&mut self, s: SegReg, offset: u64) -> (phys: usize)
        ensures
            (final(self)@, phys) == old(self)@.translate(s, offset, Access::Write),
    {
        let linear: u64 = self.linear_addr(s, offset);
        self.translate_linear(linear, Access::Write)
    }

    /// Translate a linear address without faults or side effects: for the
    /// descriptor tables and the TSS, which are named by linear address.
    pub fn linear_to_phys_ro(&self, linear: u64) -> (phys: usize)
        ensures
            phys == self@.peek_phys(linear),
    {
        proof {
            reveal(State::peek_phys);
        }
        if self.cr0 & CR0_PG == 0 {
            return Memory::phys32(linear as u32);
        }
        match walk(&self.mem, self.paging_mode(), self.cr3, linear) {
            Some(w) => w.phys,
            None => UNBACKED,
        }
    }

    /// Physical address of the current instruction stream.
    pub fn phys_ip(&mut self) -> (phys: usize)
        ensures
            (final(self)@, phys) == old(self)@.access(old(self)@.ip_linear(), Access::Fetch),
    {
        let linear: u64 = self.ip_linear();
        self.translate_linear(linear, Access::Fetch)
    }

    /// Invalidate the cached instruction-fetch physical address. Must be
    /// called whenever RIP, CS, or the page mapping changes (jumps, calls,
    /// returns, interrupts, exceptions, paging enable/disable, MOV CR3).
    pub fn invalidate_phys_ip(&mut self)
        ensures
            final(self)@ == old(self)@.unfetched(),
    {
        self.fetch.valid = false;
    }

    /// Flush the entire TLB (called on MOV CR3, or when paging is toggled).
    pub fn flush_tlb(&mut self)
        ensures
            final(self)@ == old(self)@.flushed(),
    {
        proof {
            reveal(State::flushed);
        }
        let mut i: usize = 0;
        while i < TLB_SIZE
            invariant
                i <= TLB_SIZE,
                self@ == (State { tlb: self@.tlb, ..old(self)@ }),
                forall|j: int|
                    0 <= j < TLB_SIZE ==> #[trigger] self@.tlb[j] == (if j < i {
                        TlbEntry { valid: false, ..old(self)@.tlb[j] }
                    } else {
                        old(self)@.tlb[j]
                    }),
            decreases TLB_SIZE - i,
        {
            let mut e = self.tlb[i];
            e.valid = false;
            self.tlb[i] = e;
            i = i + 1;
        }
        self.invalidate_phys_ip();
        assert(self@.tlb =~= old(self)@.flushed().tlb);
    }

    /// Invalidate a single TLB entry for the given linear address (INVLPG).
    pub fn invlpg(&mut self, linear: u64)
        ensures
            final(self)@ == old(self)@.invlpg(linear),
    {
        proof {
            reveal(State::invlpg);
        }
        let linear: u64 = if self.long_mode() {
            linear
        } else {
            linear & 0xFFFF_FFFF
        };
        proof {
            lemma_tlb_slot(linear);
        }
        let idx: usize = ((linear >> 12) & 0xFF) as usize;
        let mut e = self.tlb[idx];
        if e.valid && e.vpage == linear >> 12 {
            e.valid = false;
            self.tlb[idx] = e;
        }
    }

    // ---- Descriptor tables ----

    /// The descriptor at index `selector >> 3` of the table at linear `base`.
    fn table_entry(&self, base: u64, selector: u16) -> (d: Descriptor)
        ensures
            d == self@.table_entry(base, selector),
    {
        let at: u64 = base.wrapping_add((((selector >> 3) & 0x1FFF) as u64).wrapping_mul(8));
        Descriptor::parse(self.mem.span_read(self.peek_span(at, 8), 0, 64))
    }

    /// Resolve a selector to its descriptor, taking the table-indicator bit
    /// (bit 2) into account: set means the LDT, clear means the GDT.
    pub fn descriptor_for(&self, selector: u16) -> (d: Descriptor)
        ensures
            d == self@.descriptor_for(selector),
    {
        proof {
            reveal(State::descriptor_for);
        }
        let base: u64 = if selector & 4 != 0 {
            self.ldt_base
        } else {
            self.gdt_base
        };
        self.table_entry(base, selector)
    }

    /// Load a segment register with a selector. In protected mode this
    /// resolves the descriptor from the GDT and caches it; in real mode it
    /// just stores the value.
    pub fn load_seg(&mut self, s: SegReg, selector: u16)
        ensures
            final(self)@ == old(self)@.load_seg(s, selector),
    {
        proof {
            reveal(State::load_seg);
        }
        if self.pe {
            let d = self.descriptor_for(selector);
            self.seg_desc[seg_index(s)] = d;
        }
        self.set_seg(s, selector);
        // Loading CS changes the instruction-stream base.
        if s == SegReg::Cs {
            self.invalidate_phys_ip();
        }
    }

    /// Load the task register from a selector, caching the TSS base/limit.
    pub fn load_tr(&mut self, selector: u16)
        ensures
            final(self)@ == old(self)@.load_tr(selector),
    {
        proof {
            reveal(State::load_tr);
        }
        let d = self.descriptor_for(selector);
        self.tr_selector = selector;
        self.tr_base = d.base as u64;
        self.tr_limit = d.limit;
    }

    /// Load the local descriptor table register. A null selector clears it.
    pub fn load_ldt(&mut self, selector: u16)
        ensures
            final(self)@ == old(self)@.load_ldt(selector),
    {
        proof {
            reveal(State::load_ldt);
        }
        if selector & 0xFFF8 == 0 {
            self.ldt_selector = selector;
            self.ldt_base = 0;
            self.ldt_limit = 0;
            return;
        }
        // The LDT descriptor always lives in the GDT.
        let d = self.table_entry(self.gdt_base, selector);
        self.ldt_selector = selector;
        self.ldt_base = d.base as u64;
        self.ldt_limit = d.limit;
    }

    /// The value at an offset into the TSS.
    fn tss_field(&self, offset: u64, w: u32) -> (v: u64)
        ensures
            v == self@.tss_field(offset, w),
    {
        self.mem.span_read(self.peek_span(self.tr_base.wrapping_add(offset), 8), 0, w)
    }

    /// The ring-0 stack recorded in the TSS: (SS0, ESP0).
    pub fn tss_stack0(&self) -> (r: (u16, u32))
        ensures
            r == self@.tss_stack0(),
    {
        proof {
            reveal(State::tss_stack0);
        }
        let esp0: u32 = self.tss_field(4, 32) as u32;
        let ss0: u16 = self.tss_field(8, 16) as u16;
        (ss0, esp0)
    }

    /// The ring-0 stack recorded in a 64-bit TSS.
    pub fn tss_rsp0(&self) -> (r: u64)
        ensures
            r == self@.tss_rsp0(),
    {
        proof {
            reveal(State::tss_rsp0);
        }
        self.tss_field(4, 64)
    }

    /// An entry of a 64-bit TSS's interrupt stack table, counted from one.
    pub fn tss_ist(&self, i: u8) -> (r: u64)
        ensures
            r == self@.tss_ist(i),
    {
        proof {
            reveal(State::tss_ist);
        }
        let off: u64 = 0x24u64.wrapping_add((i as u64).wrapping_sub(1).wrapping_mul(8));
        self.tss_field(off, 64)
    }

    /// Offset an IDT entry points at, for diagnostics.
    pub fn idt_target(&self, vector: u8) -> (a: u32)
        ensures
            a == self@.idt_target(vector),
    {
        let entry: u64 = self.idt_base.wrapping_add((vector as u64).wrapping_mul(8));
        let sp = self.peek_span(entry, 8);
        let lo: u32 = (self.mem.span_read(sp, 0, 16) as u16) as u32;
        let hi: u32 = (self.mem.span_read(sp, 6, 16) as u16) as u32;
        lo | (hi << 16)
    }

    // ---- Mode switches ----

    /// Set or clear EFER.LMA as long mode is entered or left.
    pub fn update_long_mode(&mut self)
        ensures
            final(self)@ == old(self)@.update_long_mode(),
    {
        if self.efer & efer::LME != 0 && self.cr0 & CR0_PG != 0 && self.cr4 & CR4_PAE != 0 {
            self.efer = self.efer | efer::LMA;
        } else {
            self.efer = self.efer & !efer::LMA;
        }
    }

    /// Write CR0: refresh PE, flush the TLB when PG toggles, and enter or
    /// leave long mode.
    pub fn write_cr0(&mut self, v: u32)
        ensures
            final(self)@ == old(self)@.write_cr0(v),
    {
        proof {
            reveal(State::write_cr0);
        }
        let toggled = self.cr0 & CR0_PG != v & CR0_PG;
        self.cr0 = v;
        self.pe = v & CR0_PE != 0;
        if toggled {
            self.flush_tlb();
        }
        self.update_long_mode();
    }

    /// Read a model-specific register.
    pub fn read_msr(&self, index: u32) -> (v: u64)
        ensures
            v == self@.read_msr(index),
    {
        match index {
            msr::EFER => self.efer,
            msr::STAR => self.star,
            msr::LSTAR => self.lstar,
            msr::CSTAR => self.cstar,
            msr::SFMASK => self.sfmask,
            msr::FS_BASE => self.fs_base,
            msr::GS_BASE => self.gs_base,
            msr::KERNEL_GS_BASE => self.kernel_gs_base,
            msr::SYSENTER_CS => self.sysenter_cs,
            msr::SYSENTER_ESP => self.sysenter_esp,
            msr::SYSENTER_EIP => self.sysenter_eip,
            _ => 0,
        }
    }

    /// Write a model-specific register. LMA is the CPU's to set: a write to
    /// EFER cannot change it.
    pub fn write_msr(&mut self, index: u32, v: u64)
        ensures
            final(self)@ == old(self)@.write_msr(index, v),
    {
        proof {
            reveal(State::write_msr);
        }
        match index {
            msr::EFER => {
                self.efer = (v & !efer::LMA) | (self.efer & efer::LMA);
            },
            msr::STAR => {
                self.star = v;
            },
            msr::LSTAR => {
                self.lstar = v;
            },
            msr::CSTAR => {
                self.cstar = v;
            },
            msr::SFMASK => {
                self.sfmask = v;
            },
            msr::FS_BASE => {
                self.fs_base = v;
            },
            msr::GS_BASE => {
                self.gs_base = v;
            },
            msr::KERNEL_GS_BASE => {
                self.kernel_gs_base = v;
            },
            msr::SYSENTER_CS => {
                self.sysenter_cs = v;
            },
            msr::SYSENTER_ESP => {
                self.sysenter_esp = v;
            },
            msr::SYSENTER_EIP => {
                self.sysenter_eip = v;
            },
            _ => {},
        }
    }
}

impl State {
    /// Offset an IDT entry points at.
    pub open spec fn idt_target(self, vector: u8) -> u32 {
        let at = self.idt_base.wrapping_add((vector as u64).wrapping_mul(8));
        ((self.peek(at, 8, 0, 16) as u16) as u32) | (((self.peek(at, 8, 6, 16) as u16) as u32) << 16)
    }
}

} // verus!
