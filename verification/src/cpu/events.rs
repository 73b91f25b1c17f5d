//! What happens between instructions: hardware interrupts and exceptions.

use crate::cmos::CmosView;
use crate::cpu::{flags, Cpu, DiagView, EXC_LOG_MAX};
use crate::ide::IdeView;
use crate::instructions::interrupt::{protected_int, protected_int_err, real_int};
use crate::kbd::KbdView;
use crate::pit::Pit;
use crate::state::State;
use vstd::prelude::*;

verus! {

/// Instructions between two looks at the devices.
pub const IRQ_CHECK_INTERVAL: u64 = 64;

/// PIT input cycles in one emulated second.
pub const PIT_HZ: u64 = 1_193_182;

impl State {
    /// The machine with the timer and the wall clock advanced. One emulated
    /// second is one second's worth of PIT input cycles, so the RTC keeps step
    /// with the timer.
    #[verifier::opaque]
    pub open spec fn clocked(self) -> State {
        let total = self.pit_subsecond.wrapping_add(IRQ_CHECK_INTERVAL);
        State {
            pit: self.pit.after_tick(IRQ_CHECK_INTERVAL),
            pit_subsecond: total % PIT_HZ,
            cmos: CmosView {
                elapsed_secs: self.cmos.elapsed_secs.wrapping_add(total / PIT_HZ),
                ..self.cmos
            },
            ..self
        }
    }

    /// The machine with the timer's edge handed to the interrupt controller.
    #[verifier::opaque]
    pub open spec fn timer_latched(self) -> State {
        if self.pit.irq0 {
            State { pit: Pit { irq0: false, ..self.pit }, pic: self.pic.after_raise(0), ..self }
        } else {
            self
        }
    }

    /// The machine with the keyboard's edge handed to the interrupt controller.
    #[verifier::opaque]
    pub open spec fn key_latched(self) -> State {
        if self.kbd.irq1 {
            State { kbd: KbdView { irq1: false, ..self.kbd }, pic: self.pic.after_raise(1), ..self }
        } else {
            self
        }
    }

    /// The machine with the disk's edge handed to the interrupt controller.
    #[verifier::opaque]
    pub open spec fn disk_latched(self) -> State {
        if self.ide.busy {
            State {
                ide: IdeView { busy: false, ..self.ide },
                pic: self.pic.after_raise(14),
                ..self
            }
        } else {
            self
        }
    }

    /// The machine with the devices' edges handed to the interrupt controller:
    /// the timer on IRQ0, the keyboard on IRQ1, the disk on IRQ14.
    pub open spec fn irqs_latched(self) -> State {
        self.timer_latched().key_latched().disk_latched()
    }

    /// The machine vectored to a hardware interrupt's handler.
    #[verifier::opaque]
    pub open spec fn vectored(self, irq: u8) -> State {
        let vector = self.pic.vector_of(irq);
        let s = State {
            pic: self.pic.after_accept(irq),
            diag: DiagView {
                irq_count: self.diag.irq_count.wrapping_add(1),
                irq_vectors: self.diag.irq_vectors.update(
                    vector as int,
                    self.diag.irq_vectors[vector as int].wrapping_add(1),
                ),
                ..self.diag
            },
            ..self
        };
        (if s.pe { s.protected_int(vector, None) } else { s.real_int(vector) }).unfetched()
    }

    /// The machine after the devices have been looked at, and whether an
    /// interrupt was delivered. The devices are looked at every so many
    /// instructions; a maskable interrupt is delivered only while IF is set,
    /// and only if the controller lets one through.
    #[verifier::opaque]
    pub open spec fn hardware(self) -> (State, bool) {
        if self.instructions_executed % IRQ_CHECK_INTERVAL != 0 {
            (self, false)
        } else {
            let s = self.clocked().irqs_latched();
            match s.pic.next() {
                Some(irq) if s.flag(flags::IF) => (s.vectored(irq), true),
                _ => (s, false),
            }
        }
    }

    /// The machine with an exception counted, and logged while debugging.
    #[verifier::opaque]
    pub open spec fn exception_logged(self, vector: u8, code: Option<u32>) -> State {
        let counts = self.diag.exc_counts;
        State {
            diag: DiagView {
                exc_counts: if vector < 32 {
                    counts.update(vector as int, counts[vector as int].wrapping_add(1))
                } else {
                    counts
                },
                exc_log: if self.diag.debug_enabled && self.diag.exc_log.len() < EXC_LOG_MAX {
                    self.diag.exc_log.push(
                        (self.instructions_executed, vector, code, self.pc(), self.cr2),
                    )
                } else {
                    self.diag.exc_log
                },
                ..self.diag
            },
            ..self
        }
    }

    /// The last byte of a vector's gate.
    pub open spec fn gate_end(self, vector: u8) -> int {
        if self.long_mode() { vector * 16 + 15 } else { vector * 8 + 7 }
    }

    /// The machine with the instruction pointer an exception reports: that of
    /// the faulting instruction for a fault, of the next one for a trap (#BP,
    /// #OF).
    pub open spec fn reported(self, vector: u8) -> State {
        if vector == 3 || vector == 4 {
            self
        } else {
            State { rip: self.rip_start, ip: self.ip_start, ..self }
        }
    }

    /// The machine with an exception dispatched. An exception the IDT does
    /// not cover, or whose own delivery faults, is a triple fault, which halts
    /// the machine.
    #[verifier::opaque]
    pub open spec fn exception(self, vector: u8, code: Option<u32>) -> State {
        let s = self.reported(vector).exception_logged(vector, code);
        if s.pe && s.gate_end(vector) > s.idt_limit {
            State { triple_fault: true, halted: true, ..s }
        } else if s.pe {
            let t = s.protected_int(vector, code).unfetched();
            if t.faulted() { State { triple_fault: true, halted: true, ..t } } else { t }
        } else {
            s.real_int(vector).unfetched()
        }
    }
}

impl Cpu {
    /// Tick the PIT and the wall clock.
    fn tick_clocks(&mut self)
        ensures
            final(self)@ == old(self)@.clocked(),
    {
        proof {
            reveal(State::clocked);
        }
        self.pit.tick(IRQ_CHECK_INTERVAL);
        let total: u64 = self.pit_subsecond.wrapping_add(IRQ_CHECK_INTERVAL);
        self.pit_subsecond = total % PIT_HZ;
        self.cmos.advance(total / PIT_HZ);
    }

    /// Hand the timer's edge to the PIC.
    fn latch_timer(&mut self)
        ensures
            final(self)@ == old(self)@.timer_latched(),
    {
        proof {
            reveal(State::timer_latched);
        }
        if self.pit.irq0 {
            self.pit.irq0 = false;
            self.pic.raise_irq(0);
        }
    }

    /// Hand the keyboard's (8042) edge to the PIC.
    fn latch_key(&mut self)
        ensures
            final(self)@ == old(self)@.key_latched(),
    {
        proof {
            reveal(State::key_latched);
        }
        if self.kbd.irq1 {
            self.kbd.irq1 = false;
            self.pic.raise_irq(1);
        }
    }

    /// Hand the disk's edge, a completed transfer, to the PIC.
    fn latch_disk(&mut self)
        ensures
            final(self)@ == old(self)@.disk_latched(),
    {
        proof {
            reveal(State::disk_latched);
        }
        if self.ide.busy {
            self.ide.busy = false;
            self.pic.raise_irq(14);
        }
    }

    /// Deliver a pending hardware interrupt, if any. Returns true if an
    /// interrupt was dispatched.
    ///
    /// The devices are looked at in batches, every `IRQ_CHECK_INTERVAL`
    /// instructions, to reduce per-instruction overhead.
    pub fn deliver_hardware_interrupt(&mut self) -> (delivered: bool)
        ensures
            (final(self)@, delivered) == old(self)@.hardware(),
    {
        proof {
            reveal(State::hardware);
        }
        if self.instructions_executed % IRQ_CHECK_INTERVAL != 0 {
            return false;
        }
        self.tick_clocks();
        self.latch_timer();
        self.latch_key();
        self.latch_disk();
        // A maskable interrupt is only *delivered* when IF is set. Without
        // this check the CPU would vector into a handler in the middle of a
        // kernel critical section, or before the IDT is even installed.
        if !self.get_flag(flags::IF) {
            return false;
        }
        let ghost before = self@;
        match self.pic.acknowledge() {
            Some(vector) => {
                proof {
                    reveal(State::vectored);
                }
                self.diag.irq_count = self.diag.irq_count.wrapping_add(1);
                let i: usize = vector as usize;
                self.diag.irq_vectors[i] = self.diag.irq_vectors[i].wrapping_add(1);
                if self.pe {
                    protected_int(self, vector);
                } else {
                    real_int(self, vector);
                }
                self.invalidate_phys_ip();
                true
            },
            None => {
                assert(self@ == before);
                false
            },
        }
    }

    /// Count and log an exception.
    fn log_exception(&mut self, vector: u8, error_code: Option<u32>)
        ensures
            final(self)@ == old(self)@.exception_logged(vector, error_code),
    {
        proof {
            reveal(State::exception_logged);
        }
        if vector < 32 {
            let i: usize = vector as usize;
            self.diag.exc_counts[i] = self.diag.exc_counts[i].wrapping_add(1);
        }
        if self.diag.debug_enabled && self.diag.exc_log.len() < EXC_LOG_MAX {
            let pc: u64 = self.pc();
            let n: u64 = self.instructions_executed;
            let cr2: u64 = self.cr2;
            self.diag.exc_log.push((n, vector, error_code, pc, cr2));
        }
    }

    /// Dispatch an exception through the IDT (protected mode) or IVT
    /// (real mode), pushing an error code if the exception has one.
    ///
    /// If the IDT is not set up for this vector (e.g. an exception fires
    /// before the kernel installs its IDT), the CPU triple-faults: it halts
    /// with `triple_fault = true` instead of dispatching to a garbage entry
    /// and looping forever (as a real CPU would reset).
    pub fn dispatch_exception(&mut self, vector: u8, error_code: Option<u32>)
        ensures
            final(self)@ == old(self)@.exception(vector, error_code),
    {
        proof {
            reveal(State::exception);
        }
        // Faults report the faulting instruction; traps report the next one.
        // #BP (INT3) and #OF (INTO) are traps: they are raised *after* the
        // instruction completed and must not re-run it.
        if vector != 3 && vector != 4 {
            self.rip = self.rip_start;
            self.ip = self.ip_start;
        }
        self.log_exception(vector, error_code);
        if self.pe {
            let end: u32 = if self.long_mode() {
                (vector as u32) * 16 + 15
            } else {
                (vector as u32) * 8 + 7
            };
            if end > self.idt_limit as u32 {
                self.triple_fault = true;
                self.halted = true;
                return;
            }
            protected_int_err(self, vector, error_code);
            self.invalidate_phys_ip();
            if self.pending_exception.is_some() {
                self.triple_fault = true;
                self.halted = true;
            }
        } else {
            // Real mode has no error code in the frame at all.
            real_int(self, vector);
            self.invalidate_phys_ip();
        }
    }
}

} // verus!
