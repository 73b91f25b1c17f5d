//! Laws of running: steps and exceptions.

use crate::cpu::flags;
use crate::state::State;
use vstd::prelude::*;

verus! {

// ---- The main loop ----

/// A run takes no more steps than it may.
pub proof fn law_runs_are_bounded(s: State, max: u64)
    ensures
        s.run(max).1 <= max,
    decreases max,
{
    if max == 0 || s.fpu.request is Some || (s.halted && s.stuck()) {
    } else {
        let t = if s.halted { s.idle() } else { s.step().0 };
        law_runs_are_bounded(t, (max - 1) as u64);
    }
}

/// A run can be cut in two: `a` steps and then `b` take the machine where
/// `a + b` steps take it.
pub proof fn law_runs_compose(s: State, a: u64, b: u64)
    requires
        a + b <= u64::MAX,
    ensures
        s.run(a).0.run(b).0 == s.run((a + b) as u64).0,
        s.run(a).1 + s.run(a).0.run(b).1 == s.run((a + b) as u64).1,
    decreases a,
{
    law_runs_are_bounded(s, a);
    law_runs_are_bounded(s, (a + b) as u64);
    if a == 0 || s.fpu.request is Some || (s.halted && s.stuck()) {
    } else {
        let t = if s.halted { s.idle() } else { s.step().0 };
        law_runs_compose(t, (a - 1) as u64, b);
        law_runs_are_bounded(t, (a - 1) as u64);
        law_runs_are_bounded(t, (a + b - 1) as u64);
    }
}

/// A machine that halted for good stays where it is.
pub proof fn law_a_dead_machine_stays_dead(s: State, max: u64)
    requires
        s.halted,
        s.triple_fault || s.diag.trapped || !s.flag(flags::IF),
    ensures
        s.run(max) == (s, 0u64),
{
}

// ---- Exceptions ----

/// The first fault of an instruction is the one that counts.
pub proof fn law_the_first_fault_counts(s: State, vector: u8, code: Option<u32>)
    requires
        s.faulted(),
    ensures
        s.raise(vector, code) == s,
{
}

/// An exception the IDT does not cover halts the machine in place of being
/// dispatched: the registers stay as they are, but for the instruction
/// pointer, which is back on a faulting instruction.
pub proof fn law_no_gate_is_a_triple_fault(s: State, vector: u8, code: Option<u32>)
    requires
        s.pe,
        s.gate_end(vector) > s.idt_limit,
    ensures
        ({
            let t = s.exception(vector, code);
            &&& t.triple_fault && t.halted
            &&& t.regs == s.regs
            &&& t.flags == s.flags
            &&& t.cs == s.cs
            &&& t.mem == s.mem
        }),
{
    reveal(State::exception);
    reveal(State::exception_logged);
}

} // verus!
