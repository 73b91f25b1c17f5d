//! The abstract machine.
//!
//! [`State`] is what a [`crate::cpu::Cpu`] stands for: the same registers and
//! devices with memory, queues and tables as mathematical sequences. The
//! instruction-set semantics is written as functions from state to state, and
//! every executable function of the machine promises to follow it.

use crate::bios::BiosView;
use crate::cmos::CmosView;
use crate::cpu::{DiagView, FetchCache, Prefixes, TlbEntry, TLB_SIZE};
use crate::dma::DmaView;
use crate::fpu::FpuView;
use crate::ide::IdeView;
use crate::kbd::KbdView;
use crate::memory::MemView;
use crate::pic::Pic;
use crate::pit::Pit;
use crate::protected::Descriptor;
use crate::vga::VgaView;
use vstd::prelude::*;

verus! {

/// A table of `n` zeroed registers.
pub open spec fn zeros(n: nat) -> Seq<u64> {
    Seq::new(n, |i: int| 0u64)
}

/// The state of the machine, as mathematics. Its methods, spread over this
/// crate, are the instruction-set semantics.
pub struct State {
    /// RAX, RCX, RDX, RBX, RSP, RBP, RSI, RDI, R8-R15. AX, EAX and the byte
    /// registers are *views* of these, never a second copy.
    pub regs: Seq<u64>,
    /// Segment registers.
    pub es: u16,
    pub cs: u16,
    pub ss: u16,
    pub ds: u16,
    pub fs: u16,
    pub gs: u16,
    /// Instruction pointer in real mode (offset within CS).
    pub ip: u16,
    /// Instruction pointer in protected and long mode.
    pub rip: u64,
    /// FLAGS register; bit 1 is always 1.
    pub flags: u32,
    /// Memory.
    pub mem: MemView,
    /// BIOS (emulated INT 0x10/0x13/0x15/0x16 services).
    pub bios: BiosView,
    /// Number of instructions executed (for tests/diagnostics).
    pub instructions_executed: u64,
    /// Time-stamp counter (RDTSC source), incremented each step.
    pub tsc: u64,
    /// Set true to stop the run loop (HLT, or a test sentinel).
    pub halted: bool,
    /// Set true when the CPU triple-faults (an exception fired with no IDT
    /// installed). A real CPU resets here; this one halts with this flag set.
    pub triple_fault: bool,
    /// The prefixes and sizes of the current instruction.
    pub pfx: Prefixes,
    /// True when protected mode is enabled (CR0.PE).
    pub pe: bool,
    /// GDT base and limit.
    pub gdt_base: u64,
    pub gdt_limit: u16,
    /// IDT base and limit.
    pub idt_base: u64,
    pub idt_limit: u16,
    /// Task register: the selector loaded by LTR and the base/limit of the TSS
    /// it names, which records the stacks interrupts switch to.
    pub tr_selector: u16,
    pub tr_base: u64,
    pub tr_limit: u32,
    /// Local descriptor table, loaded by LLDT. A selector with its TI bit set
    /// is resolved here rather than in the GDT.
    pub ldt_selector: u16,
    pub ldt_base: u64,
    pub ldt_limit: u32,
    /// Cached descriptors for ES, CS, SS, DS, FS, GS.
    pub seg_desc: Seq<Descriptor>,
    /// Control registers. CR0 bit 31 = PG (paging enabled), bit 0 = PE
    /// (protected mode enabled). CR3 is the root of the page tables.
    pub cr0: u32,
    pub cr2: u64,
    pub cr3: u64,
    pub cr4: u32,
    pub cr8: u64,
    /// Extended control register 0: which state components XSAVE may manage.
    pub xcr0: u64,
    /// Debug registers DR0-DR7. Hardware breakpoints are not implemented;
    /// these exist so startup writes and read-backs agree.
    pub dr: Seq<u64>,
    /// Extended feature enables (long mode, NX, SYSCALL).
    pub efer: u64,
    /// SYSCALL set-up.
    pub star: u64,
    pub lstar: u64,
    pub cstar: u64,
    pub sfmask: u64,
    /// 64-bit segment bases, from MSRs.
    pub fs_base: u64,
    pub gs_base: u64,
    pub kernel_gs_base: u64,
    /// SYSENTER set-up.
    pub sysenter_cs: u64,
    pub sysenter_esp: u64,
    pub sysenter_eip: u64,
    /// Translation Lookaside Buffer: caches linear to physical page mappings.
    pub tlb: Seq<TlbEntry>,
    /// 8254 Programmable Interval Timer.
    pub pit: Pit,
    /// 8259 Programmable Interrupt Controller (master + slave).
    pub pic: Pic,
    /// A pending exception raised during decode/execute, dispatched at the top
    /// of the next `step`. `(vector, error_code)`: the error code is `None` for
    /// exceptions that do not push one.
    pub pending_exception: Option<(u8, Option<u32>)>,
    /// VGA display (text + graphics framebuffer).
    pub vga: VgaView,
    /// 8042 keyboard controller.
    pub kbd: KbdView,
    /// 8237 DMA controller.
    pub dma: DmaView,
    /// MC146818 CMOS RTC (ports 0x70/0x71).
    pub cmos: CmosView,
    /// IDE/ATA disk controller.
    pub ide: IdeView,
    /// x87 FPU.
    pub fpu: FpuView,
    /// The instruction stream, translated. Valid between successive fetches
    /// within a single instruction.
    pub fetch: FetchCache,
    /// RIP (or IP, in real mode) at the start of the instruction being executed.
    /// A *fault* reports this address, so that the handler can fix things up and
    /// restart the instruction.
    pub rip_start: u64,
    pub ip_start: u16,
    /// Debug instrumentation.
    pub diag: DiagView,
    /// PIT input cycles accumulated towards the next RTC second.
    pub pit_subsecond: u64,
    /// Opcodes the decoder did not recognise, with a hit count and the RIP of the
    /// first sighting. Keyed by opcode (`0x0Fxx` for two-byte opcodes).
    pub unknown_ops: Map<u16, (u64, u64)>,
}

impl State {
    /// The machine at power-on, with `ram` bytes of RAM asked for.
    pub open spec fn reset(ram: int) -> State {
        State {
            regs: zeros(16),
            es: 0,
            cs: 0,
            ss: 0,
            ds: 0,
            fs: 0,
            gs: 0,
            ip: 0,
            rip: 0,
            flags: 0x0002,
            mem: MemView::blank(crate::memory::rounded_size(ram) as nat),
            bios: BiosView::reset(),
            instructions_executed: 0,
            tsc: 0,
            halted: false,
            triple_fault: false,
            pfx: Prefixes::none(),
            pe: false,
            gdt_base: 0,
            gdt_limit: 0,
            idt_base: 0,
            idt_limit: 0,
            tr_selector: 0,
            tr_base: 0,
            tr_limit: 0,
            ldt_selector: 0,
            ldt_base: 0,
            ldt_limit: 0,
            seg_desc: Seq::new(6, |i: int| Descriptor::null()),
            cr0: 0,
            cr2: 0,
            cr3: 0,
            cr4: 0,
            cr8: 0,
            xcr0: 1,
            dr: zeros(8),
            efer: 0,
            star: 0,
            lstar: 0,
            cstar: 0,
            sfmask: 0,
            fs_base: 0,
            gs_base: 0,
            kernel_gs_base: 0,
            sysenter_cs: 0,
            sysenter_esp: 0,
            sysenter_eip: 0,
            tlb: Seq::new(TLB_SIZE as nat, |i: int| TlbEntry::empty()),
            pit: Pit::reset(),
            pic: Pic::reset(),
            pending_exception: None,
            vga: VgaView::reset(),
            kbd: KbdView::reset(),
            dma: DmaView::reset(),
            cmos: CmosView::reset(),
            ide: IdeView::reset(),
            fpu: FpuView::reset(),
            fetch: FetchCache { phys: 0, linear: 0, valid: false },
            rip_start: 0,
            ip_start: 0,
            diag: DiagView::reset(),
            pit_subsecond: 0,
            unknown_ops: Map::empty(),
        }
    }
}

} // verus!
