//! The x86 CPU core: registers, flags, and the fetch-decode-execute loop.
//!
//! Supports 16-bit real mode, 32-bit protected mode and 64-bit long mode. The
//! general registers are stored once, 64 bits wide; the 8-, 16- and 32-bit
//! registers are views of them.

use crate::bios::Bios;
use crate::cmos::Cmos;
use crate::dma::Dma;
use crate::fpu::Fpu;
use crate::ide::Ide;
use crate::kbd::Kbd;
use crate::memory::Memory;
use crate::pic::Pic;
use crate::pit::Pit;
use crate::protected::Descriptor;
use crate::state::State;
use crate::vga::Vga;
use std::collections::BTreeMap;
use vstd::prelude::*;

pub mod address;
pub mod efer;
pub mod events;
pub mod fetch;
pub mod flags;
pub mod msr;
pub mod operand;
pub mod ports;
pub mod regs;
pub mod report;
pub mod run;
pub mod span;
pub mod stack;

verus! {

/// Number of TLB entries (must be a power of two).
pub const TLB_SIZE: usize = 256;
/// Size of the debug RIP ring buffer (see `Diag::eip_ring`).
pub const EIP_RING: usize = 4096;
/// Cap on the number of exceptions recorded in `Cpu::exc_log`.
pub const EXC_LOG_MAX: usize = 512;
/// Cap on the number of watched writes kept.
pub const WATCH_LOG_MAX: usize = 64;

/// CR0: protection enable.
pub const CR0_PE: u32 = 0x0000_0001;
/// CR0: supervisor writes honour read-only pages.
pub const CR0_WP: u32 = 0x0001_0000;
/// CR0: paging.
pub const CR0_PG: u32 = 0x8000_0000;
/// CR4: physical address extension.
pub const CR4_PAE: u32 = 0x0000_0020;
/// CR4: FXSAVE/FXRSTOR support.
pub const CR4_OSFXSR: u32 = 0x0000_0200;
/// CR4: XSAVE support.
pub const CR4_OSXSAVE: u32 = 0x0004_0000;

/// A single TLB entry: caches a 4 KiB page mapping (linear page to physical
/// page). The entry is invalidated on MOV CR3, INVLPG, or when paging is
/// toggled.
#[derive(Clone, Copy)]
pub struct TlbEntry {
    pub valid: bool,
    /// The virtual page number.
    pub vpage: u64,
    /// The physical page number.
    pub ppage: u64,
    /// Whether the mapping permits writes. Cached alongside the translation
    /// because a permission check that only ran on a TLB *miss* would let the
    /// second write to a read-only page through.
    pub writable: bool,
    /// Whether the mapping is reachable from user mode.
    pub user: bool,
    /// Whether the mapping forbids instruction fetches.
    pub no_exec: bool,
    /// True once the dirty bit has been set in the page tables for this
    /// entry, so the common case does not re-write it on every access.
    pub dirtied: bool,
}

impl TlbEntry {
    /// An entry that caches nothing.
    pub open spec fn empty() -> TlbEntry {
        TlbEntry {
            valid: false,
            vpage: 0,
            ppage: 0,
            writable: false,
            user: false,
            no_exec: false,
            dirtied: false,
        }
    }
}

impl Default for TlbEntry {
    fn default() -> (e: Self)
        ensures
            e == TlbEntry::empty(),
    {
        TlbEntry {
            valid: false,
            vpage: 0,
            ppage: 0,
            writable: false,
            user: false,
            no_exec: false,
            dirtied: false,
        }
    }
}

/// What kind of code the CPU is running.
#[derive(Clone, Copy, PartialEq, Eq, Structural, Debug)]
pub enum Mode {
    /// 16-bit real mode.
    Real,
    /// 32-bit protected mode.
    Protected,
    /// 32-bit code under a long-mode machine.
    Compat,
    /// 64-bit code.
    Long,
}

/// 16-bit general-purpose registers.
#[derive(Clone, Copy, PartialEq, Eq, Structural, Debug)]
pub enum Reg16 {
    Ax,
    Cx,
    Dx,
    Bx,
    Sp,
    Bp,
    Si,
    Di,
}

impl Reg16 {
    /// The number this register is encoded as.
    pub open spec fn index(self) -> int {
        match self {
            Reg16::Ax => 0,
            Reg16::Cx => 1,
            Reg16::Dx => 2,
            Reg16::Bx => 3,
            Reg16::Sp => 4,
            Reg16::Bp => 5,
            Reg16::Si => 6,
            Reg16::Di => 7,
        }
    }

    /// The number this register is encoded as.
    pub fn number(self) -> (i: u8)
        ensures
            i == self.index(),
            i < 8,
    {
        match self {
            Reg16::Ax => 0,
            Reg16::Cx => 1,
            Reg16::Dx => 2,
            Reg16::Bx => 3,
            Reg16::Sp => 4,
            Reg16::Bp => 5,
            Reg16::Si => 6,
            Reg16::Di => 7,
        }
    }
}

/// 32-bit general-purpose registers.
#[derive(Clone, Copy, PartialEq, Eq, Structural, Debug)]
pub enum Reg32 {
    Eax,
    Ecx,
    Edx,
    Ebx,
    Esp,
    Ebp,
    Esi,
    Edi,
}

impl Reg32 {
    /// The number this register is encoded as.
    pub open spec fn index(self) -> int {
        match self {
            Reg32::Eax => 0,
            Reg32::Ecx => 1,
            Reg32::Edx => 2,
            Reg32::Ebx => 3,
            Reg32::Esp => 4,
            Reg32::Ebp => 5,
            Reg32::Esi => 6,
            Reg32::Edi => 7,
        }
    }

    /// The number this register is encoded as.
    pub fn number(self) -> (i: u8)
        ensures
            i == self.index(),
            i < 8,
    {
        match self {
            Reg32::Eax => 0,
            Reg32::Ecx => 1,
            Reg32::Edx => 2,
            Reg32::Ebx => 3,
            Reg32::Esp => 4,
            Reg32::Ebp => 5,
            Reg32::Esi => 6,
            Reg32::Edi => 7,
        }
    }
}

/// 8-bit registers (AL, CL, DL, BL, AH, CH, DH, BH).
#[derive(Clone, Copy, PartialEq, Eq, Structural, Debug)]
pub enum Reg8 {
    Al,
    Cl,
    Dl,
    Bl,
    Ah,
    Ch,
    Dh,
    Bh,
}

impl Reg8 {
    /// The number this register is encoded as.
    pub open spec fn index(self) -> int {
        match self {
            Reg8::Al => 0,
            Reg8::Cl => 1,
            Reg8::Dl => 2,
            Reg8::Bl => 3,
            Reg8::Ah => 4,
            Reg8::Ch => 5,
            Reg8::Dh => 6,
            Reg8::Bh => 7,
        }
    }

    /// The number this register is encoded as.
    pub fn number(self) -> (i: u8)
        ensures
            i == self.index(),
            i < 8,
    {
        match self {
            Reg8::Al => 0,
            Reg8::Cl => 1,
            Reg8::Dl => 2,
            Reg8::Bl => 3,
            Reg8::Ah => 4,
            Reg8::Ch => 5,
            Reg8::Dh => 6,
            Reg8::Bh => 7,
        }
    }
}

/// Segment registers.
#[derive(Clone, Copy, PartialEq, Eq, Structural, Debug)]
pub enum SegReg {
    Es,
    Cs,
    Ss,
    Ds,
    Fs,
    Gs,
}

impl SegReg {
    /// The number this register is encoded as.
    pub open spec fn index(self) -> int {
        match self {
            SegReg::Es => 0,
            SegReg::Cs => 1,
            SegReg::Ss => 2,
            SegReg::Ds => 3,
            SegReg::Fs => 4,
            SegReg::Gs => 5,
        }
    }
}

/// The prefixes and sizes that apply to the current instruction.
#[derive(Clone, Copy, Debug)]
pub struct Prefixes {
    /// True when operands are 32 bits wide (the mode default or 0x66).
    pub opsize: bool,
    /// True when addressing is 32 bits wide or more (the mode default or 0x67).
    pub addrsize: bool,
    /// True when addressing is 64 bits wide.
    pub addr64: bool,
    /// True when a REX prefix was seen: byte registers 4-7 are SPL..DIL.
    pub rex_present: bool,
    /// REX.W: 64-bit operand size.
    pub rex_w: bool,
    /// REX.R: extends the ModR/M reg field.
    pub rex_r: bool,
    /// REX.X: extends the SIB index field.
    pub rex_x: bool,
    /// REX.B: extends the ModR/M rm field, the SIB base or an opcode register.
    pub rex_b: bool,
    /// Segment override for the current instruction, if any.
    pub seg_override: Option<SegReg>,
}

impl Prefixes {
    /// No prefix, 16-bit everything.
    pub open spec fn none() -> Prefixes {
        Prefixes {
            opsize: false,
            addrsize: false,
            addr64: false,
            rex_present: false,
            rex_w: false,
            rex_r: false,
            rex_x: false,
            rex_b: false,
            seg_override: None,
        }
    }
}

/// Where the instruction stream is, translated.
#[derive(Clone, Copy, Debug)]
pub struct FetchCache {
    /// Cached physical address of the instruction stream. Valid between
    /// successive fetches within a single instruction.
    pub phys: usize,
    /// Linear address corresponding to `phys`.
    pub linear: u64,
    /// True when `phys` holds a valid mapping for the current RIP.
    pub valid: bool,
}

/// Debug instrumentation. None of it changes what the machine does, except
/// that a trap ends the run and `no_tlb` bypasses the TLB.
pub struct Diag {
    /// Gates the ring buffer and the exception log so a normal run pays nothing
    /// for them.
    pub debug_enabled: bool,
    /// Ring buffer of the most recent instruction pointers.
    pub eip_ring: Vec<u64>,
    /// Write cursor into `eip_ring`.
    pub eip_ring_pos: usize,
    /// Log of dispatched exceptions: (instruction count, vector, error code,
    /// faulting RIP, CR2). Capped at `EXC_LOG_MAX` entries.
    pub exc_log: Vec<(u64, u8, Option<u32>, u64, u64)>,
    /// Count of every exception dispatched, by vector (not capped).
    pub exc_counts: [u64; 32],
    /// Count of hardware interrupts actually delivered to the CPU.
    pub irq_count: u64,
    /// Per-vector delivery counts, for diagnostics.
    pub irq_vectors: [u64; 256],
    /// Count of instructions executed at CPL 3, for diagnostics.
    pub user_instructions: u64,
    /// Count of privilege-level switches into the kernel via a gate.
    pub ring_switches: u64,
    /// When set, the run halts the moment execution reaches this address.
    pub trap_eip: Option<u64>,
    /// Set once a trap has been reached, to end the run outright rather than
    /// parking as HLT does.
    pub trapped: bool,
    /// Stop before the n'th user-mode instruction.
    pub trap_user: Option<u64>,
    /// Bypass the TLB and walk the page tables on every access.
    pub no_tlb: bool,
    /// Linear address to watch for writes.
    pub watch_linear: Option<u64>,
    /// Physical address to watch for writes through any linear alias.
    pub watch_phys: Option<u64>,
    /// Log of watched writes: (instruction count, RIP, physical address).
    pub watch_log: Vec<(u64, u64, u64)>,
    /// Log of system calls made from user mode: (instruction count, EAX, EBX,
    /// ECX, EDX). Recorded when `debug_enabled` is set.
    pub syscall_log: Vec<(u64, u64, u64, u64, u64)>,
}

/// What a [`Diag`] holds, as mathematics.
pub struct DiagView {
    /// Gates the ring buffer and the exception log so a normal run pays nothing
    /// for them.
    pub debug_enabled: bool,
    /// Ring buffer of the most recent instruction pointers.
    pub eip_ring: Seq<u64>,
    /// Write cursor into `eip_ring`.
    pub eip_ring_pos: usize,
    /// Log of dispatched exceptions: (instruction count, vector, error code,
    /// faulting RIP, CR2). Capped at `EXC_LOG_MAX` entries.
    pub exc_log: Seq<(u64, u8, Option<u32>, u64, u64)>,
    /// Count of every exception dispatched, by vector (not capped).
    pub exc_counts: Seq<u64>,
    /// Count of hardware interrupts actually delivered to the CPU.
    pub irq_count: u64,
    /// Per-vector delivery counts, for diagnostics.
    pub irq_vectors: Seq<u64>,
    /// Count of instructions executed at CPL 3, for diagnostics.
    pub user_instructions: u64,
    /// Count of privilege-level switches into the kernel via a gate.
    pub ring_switches: u64,
    /// When set, the run halts the moment execution reaches this address.
    pub trap_eip: Option<u64>,
    /// Set once a trap has been reached, to end the run outright rather than
    /// parking as HLT does.
    pub trapped: bool,
    /// Stop before the n'th user-mode instruction.
    pub trap_user: Option<u64>,
    /// Bypass the TLB and walk the page tables on every access.
    pub no_tlb: bool,
    /// Linear address to watch for writes.
    pub watch_linear: Option<u64>,
    /// Physical address to watch for writes through any linear alias.
    pub watch_phys: Option<u64>,
    /// Log of watched writes: (instruction count, RIP, physical address).
    pub watch_log: Seq<(u64, u64, u64)>,
    /// Log of system calls made from user mode: (instruction count, EAX, EBX,
    /// ECX, EDX). Recorded when `debug_enabled` is set.
    pub syscall_log: Seq<(u64, u64, u64, u64, u64)>,
}

impl Diag {
    /// The value this stands for.
    pub open spec fn view(&self) -> DiagView {
        DiagView {
            debug_enabled: self.debug_enabled,
            eip_ring: self.eip_ring@,
            eip_ring_pos: self.eip_ring_pos,
            exc_log: self.exc_log@,
            exc_counts: self.exc_counts@,
            irq_count: self.irq_count,
            irq_vectors: self.irq_vectors@,
            user_instructions: self.user_instructions,
            ring_switches: self.ring_switches,
            trap_eip: self.trap_eip,
            trapped: self.trapped,
            trap_user: self.trap_user,
            no_tlb: self.no_tlb,
            watch_linear: self.watch_linear,
            watch_phys: self.watch_phys,
            watch_log: self.watch_log@,
            syscall_log: self.syscall_log@,
        }
    }

    /// Instrumentation with nothing armed and nothing recorded.
    pub fn new() -> (d: Self)
        ensures
            d@ == DiagView::reset(),
    {
        let d = Diag {
            debug_enabled: false,
            eip_ring: Vec::new(),
            eip_ring_pos: 0,
            exc_log: Vec::new(),
            exc_counts: [0; 32],
            irq_count: 0,
            irq_vectors: [0; 256],
            user_instructions: 0,
            ring_switches: 0,
            trap_eip: None,
            trapped: false,
            trap_user: None,
            no_tlb: false,
            watch_linear: None,
            watch_phys: None,
            watch_log: Vec::new(),
            syscall_log: Vec::new(),
        };
        assert(d@.exc_counts =~= DiagView::reset().exc_counts);
        assert(d@.irq_vectors =~= DiagView::reset().irq_vectors);
        d
    }
}

impl DiagView {
    /// Nothing armed and nothing recorded.
    pub open spec fn reset() -> DiagView {
        DiagView {
            debug_enabled: false,
            eip_ring: Seq::empty(),
            eip_ring_pos: 0,
            exc_log: Seq::empty(),
            exc_counts: crate::state::zeros(32),
            irq_count: 0,
            irq_vectors: crate::state::zeros(256),
            user_instructions: 0,
            ring_switches: 0,
            trap_eip: None,
            trapped: false,
            trap_user: None,
            no_tlb: false,
            watch_linear: None,
            watch_phys: None,
            watch_log: Seq::empty(),
            syscall_log: Seq::empty(),
        }
    }
}

/// The machine: a 64-bit x86 CPU with its memory and devices.
pub struct Cpu {
    /// RAX, RCX, RDX, RBX, RSP, RBP, RSI, RDI, R8-R15. AX, EAX and the byte
    /// registers are *views* of these, never a second copy.
    pub regs: [u64; 16],
    /// Segment registers.
    pub es: u16,
    pub cs: u16,
    pub ss: u16,
    pub ds: u16,
    pub fs: u16,
    pub gs: u16,
    /// Instruction pointer in real mode (offset within CS).
    pub ip: u16,
    /// Instruction pointer in protected and long mode.
    pub rip: u64,
    /// FLAGS register; bit 1 is always 1.
    pub flags: u32,
    /// Memory.
    pub mem: Memory,
    /// BIOS (emulated INT 0x10/0x13/0x15/0x16 services).
    pub bios: Bios,
    /// Number of instructions executed (for tests/diagnostics).
    pub instructions_executed: u64,
    /// Time-stamp counter (RDTSC source), incremented each step.
    pub tsc: u64,
    /// Set true to stop the run loop (HLT, or a test sentinel).
    pub halted: bool,
    /// Set true when the CPU triple-faults (an exception fired with no IDT
    /// installed). A real CPU resets here; this one halts with this flag set.
    pub triple_fault: bool,
    /// The prefixes and sizes of the current instruction.
    pub pfx: Prefixes,
    /// True when protected mode is enabled (CR0.PE).
    pub pe: bool,
    /// GDT base and limit.
    pub gdt_base: u64,
    pub gdt_limit: u16,
    /// IDT base and limit.
    pub idt_base: u64,
    pub idt_limit: u16,
    /// Task register: the selector loaded by LTR and the base/limit of the TSS
    /// it names, which records the stacks interrupts switch to.
    pub tr_selector: u16,
    pub tr_base: u64,
    pub tr_limit: u32,
    /// Local descriptor table, loaded by LLDT. A selector with its TI bit set
    /// is resolved here rather than in the GDT.
    pub ldt_selector: u16,
    pub ldt_base: u64,
    pub ldt_limit: u32,
    /// Cached descriptors for ES, CS, SS, DS, FS, GS.
    pub seg_desc: [Descriptor; 6],
    /// Control registers. CR0 bit 31 = PG (paging enabled), bit 0 = PE
    /// (protected mode enabled). CR3 is the root of the page tables.
    pub cr0: u32,
    pub cr2: u64,
    pub cr3: u64,
    pub cr4: u32,
    pub cr8: u64,
    /// Extended control register 0: which state components XSAVE may manage.
    pub xcr0: u64,
    /// Debug registers DR0-DR7. Hardware breakpoints are not implemented;
    /// these exist so startup writes and read-backs agree.
    pub dr: [u64; 8],
    /// Extended feature enables (long mode, NX, SYSCALL).
    pub efer: u64,
    /// SYSCALL set-up.
    pub star: u64,
    pub lstar: u64,
    pub cstar: u64,
    pub sfmask: u64,
    /// 64-bit segment bases, from MSRs.
    pub fs_base: u64,
    pub gs_base: u64,
    pub kernel_gs_base: u64,
    /// SYSENTER set-up.
    pub sysenter_cs: u64,
    pub sysenter_esp: u64,
    pub sysenter_eip: u64,
    /// Translation Lookaside Buffer: caches linear to physical page mappings.
    pub tlb: [TlbEntry; 256],
    /// 8254 Programmable Interval Timer.
    pub pit: Pit,
    /// 8259 Programmable Interrupt Controller (master + slave).
    pub pic: Pic,
    /// A pending exception raised during decode/execute, dispatched at the top
    /// of the next `step`. `(vector, error_code)`: the error code is `None` for
    /// exceptions that do not push one.
    pub pending_exception: Option<(u8, Option<u32>)>,
    /// VGA display (text + graphics framebuffer).
    pub vga: Vga,
    /// 8042 keyboard controller.
    pub kbd: Kbd,
    /// 8237 DMA controller.
    pub dma: Dma,
    /// MC146818 CMOS RTC (ports 0x70/0x71).
    pub cmos: Cmos,
    /// IDE/ATA disk controller.
    pub ide: Ide,
    /// x87 FPU.
    pub fpu: Fpu,
    /// The instruction stream, translated. Valid between successive fetches
    /// within a single instruction.
    pub fetch: FetchCache,
    /// RIP (or IP, in real mode) at the start of the instruction being executed.
    /// A *fault* reports this address, so that the handler can fix things up and
    /// restart the instruction.
    pub rip_start: u64,
    pub ip_start: u16,
    /// Debug instrumentation.
    pub diag: Diag,
    /// PIT input cycles accumulated towards the next RTC second.
    pub pit_subsecond: u64,
    /// Opcodes the decoder did not recognise, with a hit count and the RIP of the
    /// first sighting. Keyed by opcode (`0x0Fxx` for two-byte opcodes).
    pub unknown_ops: BTreeMap<u16, (u64, u64)>,
}

impl Cpu {
    /// The value this stands for.
    pub open spec fn view(&self) -> State {
        State {
            regs: self.regs@,
            es: self.es,
            cs: self.cs,
            ss: self.ss,
            ds: self.ds,
            fs: self.fs,
            gs: self.gs,
            ip: self.ip,
            rip: self.rip,
            flags: self.flags,
            mem: self.mem@,
            bios: self.bios@,
            instructions_executed: self.instructions_executed,
            tsc: self.tsc,
            halted: self.halted,
            triple_fault: self.triple_fault,
            pfx: self.pfx,
            pe: self.pe,
            gdt_base: self.gdt_base,
            gdt_limit: self.gdt_limit,
            idt_base: self.idt_base,
            idt_limit: self.idt_limit,
            tr_selector: self.tr_selector,
            tr_base: self.tr_base,
            tr_limit: self.tr_limit,
            ldt_selector: self.ldt_selector,
            ldt_base: self.ldt_base,
            ldt_limit: self.ldt_limit,
            seg_desc: self.seg_desc@,
            cr0: self.cr0,
            cr2: self.cr2,
            cr3: self.cr3,
            cr4: self.cr4,
            cr8: self.cr8,
            xcr0: self.xcr0,
            dr: self.dr@,
            efer: self.efer,
            star: self.star,
            lstar: self.lstar,
            cstar: self.cstar,
            sfmask: self.sfmask,
            fs_base: self.fs_base,
            gs_base: self.gs_base,
            kernel_gs_base: self.kernel_gs_base,
            sysenter_cs: self.sysenter_cs,
            sysenter_esp: self.sysenter_esp,
            sysenter_eip: self.sysenter_eip,
            tlb: self.tlb@,
            pit: self.pit,
            pic: self.pic,
            pending_exception: self.pending_exception,
            vga: self.vga@,
            kbd: self.kbd@,
            dma: self.dma@,
            cmos: self.cmos@,
            ide: self.ide@,
            fpu: self.fpu@,
            fetch: self.fetch,
            rip_start: self.rip_start,
            ip_start: self.ip_start,
            diag: self.diag@,
            pit_subsecond: self.pit_subsecond,
            unknown_ops: self.unknown_ops@,
        }
    }
}

impl Cpu {
    /// A machine with the default amount of RAM.
    pub fn new() -> (cpu: Self)
        ensures
            cpu@ == State::reset(Memory::DEFAULT_SIZE as int),
    {
        Self::with_ram(Memory::DEFAULT_SIZE)
    }

    /// A machine with `ram` bytes of RAM, rounded up to whole pages.
    pub fn with_ram(ram: usize) -> (cpu: Self)
        requires
            ram <= usize::MAX - 0xFFF,
        ensures
            cpu@ == State::reset(ram as int),
    {
        let null = Descriptor::default();
        let blank = TlbEntry::default();
        let cpu = Cpu {
            regs: [0; 16],
            es: 0,
            cs: 0,
            ss: 0,
            ds: 0,
            fs: 0,
            gs: 0,
            ip: 0,
            rip: 0,
            flags: 0x0002,
            mem: Memory::with_size(ram),
            bios: Bios::new(),
            instructions_executed: 0,
            tsc: 0,
            halted: false,
            triple_fault: false,
            pfx: Prefixes {
                opsize: false,
                addrsize: false,
                addr64: false,
                rex_present: false,
                rex_w: false,
                rex_r: false,
                rex_x: false,
                rex_b: false,
                seg_override: None,
            },
            pe: false,
            gdt_base: 0,
            gdt_limit: 0,
            idt_base: 0,
            idt_limit: 0,
            tr_selector: 0,
            tr_base: 0,
            tr_limit: 0,
            ldt_selector: 0,
            ldt_base: 0,
            ldt_limit: 0,
            seg_desc: [null, null, null, null, null, null],
            cr0: 0,
            cr2: 0,
            cr3: 0,
            cr4: 0,
            cr8: 0,
            xcr0: 1,
            dr: [0; 8],
            efer: 0,
            star: 0,
            lstar: 0,
            cstar: 0,
            sfmask: 0,
            fs_base: 0,
            gs_base: 0,
            kernel_gs_base: 0,
            sysenter_cs: 0,
            sysenter_esp: 0,
            sysenter_eip: 0,
            tlb: [blank; 256],
            pit: Pit::new(),
            pic: Pic::new(),
            pending_exception: None,
            vga: Vga::new(),
            kbd: Kbd::new(),
            dma: Dma::new(),
            cmos: Cmos::new(),
            ide: Ide::new(),
            fpu: Fpu::new(),
            fetch: FetchCache { phys: 0, linear: 0, valid: false },
            rip_start: 0,
            ip_start: 0,
            diag: Diag::new(),
            pit_subsecond: 0,
            unknown_ops: BTreeMap::new(),
        };
        assert(cpu@.seg_desc =~= State::reset(ram as int).seg_desc);
        assert(cpu@.regs =~= State::reset(ram as int).regs);
        assert(cpu@.dr =~= State::reset(ram as int).dr);
        assert(cpu@.tlb =~= State::reset(ram as int).tlb);
        cpu
    }
}

impl Default for Cpu {
    fn default() -> (cpu: Self)
        ensures
            cpu@ == State::reset(Memory::DEFAULT_SIZE as int),
    {
        Self::new()
    }
}

} // verus!
