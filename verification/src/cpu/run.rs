//! The main loop: one instruction, and many.

use crate::cpu::{flags, Cpu, DiagView, EIP_RING};
use crate::instructions::decode::decode;
use crate::instructions::exec::execute;
use crate::instructions::Inst;
use crate::memory::MemView;
use crate::state::State;
use vstd::prelude::*;

verus! {

impl State {
    /// The state once pending events are taken: an exception the previous
    /// instruction raised goes before any hardware interrupt.
    #[verifier::opaque]
    pub open spec fn events_taken(self) -> State {
        match self.pending_exception {
            Some((vector, code)) => State { pending_exception: None, ..self }.exception(
                vector,
                code,
            ),
            None => self.hardware().0,
        }
    }

    /// The state at the start of an instruction: where it starts is noted, for
    /// faults and for the store watch.
    #[verifier::opaque]
    pub open spec fn instruction_started(self) -> State {
        let s = State { rip_start: self.rip, ip_start: self.ip, ..self.unfetched() };
        if s.mem.watch is Some {
            State { mem: MemView { cur_eip: s.pc(), ..s.mem }, ..s }
        } else {
            s
        }
    }

    /// The state with a user-mode instruction counted. The machine can be told
    /// to stop at a certain one.
    #[verifier::opaque]
    pub open spec fn user_counted(self) -> State {
        if self.cpl() != 3 {
            self
        } else {
            let n = self.diag.user_instructions.wrapping_add(1);
            let hit = self.diag.trap_user == Some(n);
            State {
                halted: self.halted || hit,
                diag: DiagView {
                    user_instructions: n,
                    trapped: self.diag.trapped || hit,
                    ..self.diag
                },
                ..self
            }
        }
    }

    /// The state with an instruction counted.
    pub open spec fn counted(self) -> State {
        State {
            instructions_executed: self.instructions_executed.wrapping_add(1),
            tsc: self.tsc.wrapping_add(1),
            ..self
        }
    }

    /// The state with the instruction pointer remembered, while debugging.
    #[verifier::opaque]
    pub open spec fn ring_noted(self) -> State {
        let pos = self.diag.eip_ring_pos;
        if self.diag.debug_enabled && pos < self.diag.eip_ring.len() {
            State {
                diag: DiagView {
                    eip_ring: self.diag.eip_ring.update(pos as int, self.pc()),
                    eip_ring_pos: ((pos + 1) % EIP_RING as int) as usize,
                    ..self.diag
                },
                ..self
            }
        } else {
            self
        }
    }

    /// The state with the address trap sprung, if execution has reached it.
    #[verifier::opaque]
    pub open spec fn trap_sprung(self) -> State {
        if self.diag.trap_eip == Some(self.pc()) {
            State { halted: true, diag: DiagView { trapped: true, ..self.diag }, ..self }
        } else {
            self
        }
    }

    /// One step: pending events, then one instruction. An instruction whose
    /// bytes could not be fetched is not executed.
    #[verifier::opaque]
    pub open spec fn step(self) -> (State, Inst) {
        let start = self.events_taken().instruction_started().user_counted();
        let (s, inst) = start.decode();
        let t = if s.faulted() { s } else { s.execute(inst) };
        (t.counted().ring_noted().trap_sprung(), inst)
    }

    /// Can a halted machine never wake? A trap or a triple fault ends the run,
    /// and with interrupts disabled nothing can wake it.
    pub open spec fn stuck(self) -> bool {
        self.triple_fault || self.diag.trapped || !self.flag(flags::IF)
    }

    /// One tick of a halted machine that waits for an interrupt.
    #[verifier::opaque]
    pub open spec fn idle(self) -> State {
        let (s, delivered) = self.counted().hardware();
        if delivered { State { halted: false, ..s } } else { s }
    }

    /// Up to `max` steps, and how many were taken. A run ends early when the
    /// machine halts for good, or when the FPU waits for a result.
    pub open spec fn run(self, max: u64) -> (State, u64)
        decreases max,
    {
        if max == 0 || self.fpu.request is Some || (self.halted && self.stuck()) {
            (self, 0)
        } else {
            let s = if self.halted { self.idle() } else { self.step().0 };
            let (t, n) = s.run((max - 1) as u64);
            (t, (n + 1) as u64)
        }
    }
}

impl Cpu {
    /// Dispatch any exception raised by the previous instruction BEFORE
    /// considering a hardware interrupt. Taking the interrupt first would
    /// leave the fault pending and then deliver it one instruction into the
    /// interrupt handler, blaming the wrong address entirely.
    fn take_events(&mut self)
        ensures
            final(self)@ == old(self)@.events_taken(),
    {
        proof {
            reveal(State::events_taken);
        }
        match self.pending_exception {
            Some((vector, code)) => {
                self.pending_exception = None;
                self.dispatch_exception(vector, code);
            },
            None => {
                self.deliver_hardware_interrupt();
            },
        }
    }

    /// Note where an instruction starts.
    fn start_instruction(&mut self)
        ensures
            final(self)@ == old(self)@.instruction_started(),
    {
        proof {
            reveal(State::instruction_started);
        }
        // The decoder's fetch calls will re-establish the fetch cache.
        self.invalidate_phys_ip();
        self.rip_start = self.rip;
        self.ip_start = self.ip;
        if self.mem.watch_store.is_some() {
            self.mem.cur_eip = self.pc();
        }
    }

    /// Count an instruction at CPL 3, and stop just before the n'th one if
    /// asked to, so that the state at the handover to user mode can be
    /// inspected.
    fn count_user(&mut self)
        ensures
            final(self)@ == old(self)@.user_counted(),
    {
        proof {
            reveal(State::user_counted);
        }
        if self.cpl() != 3 {
            return;
        }
        let n: u64 = self.diag.user_instructions.wrapping_add(1);
        self.diag.user_instructions = n;
        if let Some(t) = self.diag.trap_user {
            if t == n {
                self.halted = true;
                self.diag.trapped = true;
            }
        }
    }

    fn count(&mut self)
        ensures
            final(self)@ == old(self)@.counted(),
    {
        self.instructions_executed = self.instructions_executed.wrapping_add(1);
        self.tsc = self.tsc.wrapping_add(1);
    }

    fn note_ring(&mut self)
        ensures
            final(self)@ == old(self)@.ring_noted(),
    {
        proof {
            reveal(State::ring_noted);
        }
        let pos: usize = self.diag.eip_ring_pos;
        if self.diag.debug_enabled && pos < self.diag.eip_ring.len() {
            let pc: u64 = self.pc();
            self.diag.eip_ring.set(pos, pc);
            self.diag.eip_ring_pos = (pos + 1) % EIP_RING;
        }
    }

    fn spring_trap(&mut self)
        ensures
            final(self)@ == old(self)@.trap_sprung(),
    {
        proof {
            reveal(State::trap_sprung);
        }
        if let Some(t) = self.diag.trap_eip {
            if t == self.pc() {
                self.halted = true;
                self.diag.trapped = true;
            }
        }
    }

    /// Decode and execute a single instruction. Returns the decoded
    /// instruction for diagnostics/tests.
    pub fn step(&mut self) -> (inst: Inst)
        ensures
            (final(self)@, inst) == old(self)@.step(),
    {
        proof {
            reveal(State::step);
        }
        self.take_events();
        self.start_instruction();
        self.count_user();
        let inst = decode(self);
        // A fault raised while *fetching* the instruction means there is no
        // instruction to run: executing the bytes the decoder saw would both
        // corrupt state and overwrite the real fault with a bogus one, which
        // is precisely what would stop demand paging from working.
        if self.pending_exception.is_none() {
            execute(self, &inst);
        }
        self.count();
        self.note_ring();
        self.spring_trap();
        inst
    }

    /// One tick of a halted machine.
    fn idle(&mut self)
        ensures
            final(self)@ == old(self)@.idle(),
    {
        proof {
            reveal(State::idle);
        }
        self.count();
        if self.deliver_hardware_interrupt() {
            self.halted = false;
        }
    }

    /// Run until halted or `max` instructions have executed, and return how
    /// many did. The run also ends while the FPU waits for an arithmetic
    /// result, which [`crate::fpu::Fpu::complete`] supplies.
    pub fn run(&mut self, max: u64) -> (n: u64)
        ensures
            (final(self)@, n) == old(self)@.run(max),
    {
        let ghost all = self@.run(max);
        let mut n: u64 = 0;
        let mut going = true;
        while n < max && going
            invariant
                n <= max,
                going ==> all == (
                    self@.run((max - n) as u64).0,
                    (n + self@.run((max - n) as u64).1) as u64,
                ),
                !going ==> all == (self@, n),
            decreases
                max - n,
                if going {
                    1int
                } else {
                    0int
                },
        {
            proof {
                crate::laws::run::law_runs_are_bounded(self@, (max - n) as u64);
            }
            // HLT parks the CPU until an interrupt arrives. With IF clear
            // nothing can ever wake it (short of an NMI or reset, neither of
            // which this emulator raises), so that is a real, permanent halt
            // and the run ends. With IF set the idle loop is simply waiting
            // for the timer, so keep ticking the devices: this is how the
            // kernel's idle task gets its next tick.
            let waits = self.fpu.request.is_some();
            let dead = self.halted && (self.triple_fault || self.diag.trapped || !self.get_flag(
                flags::IF,
            ));
            if waits || dead {
                going = false;
            } else {
                if self.halted {
                    self.idle();
                } else {
                    self.step();
                }
                n = n + 1;
                proof {
                    crate::laws::run::law_runs_are_bounded(self@, (max - n) as u64);
                }
            }
        }
        n
    }
}

} // verus!
