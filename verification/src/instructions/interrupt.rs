//! Interrupt and exception entry: through the IVT in real mode, through 8-byte
//! gates in protected mode, through 16-byte gates in long mode.

use crate::cpu::{flags, Cpu, DiagView, SegReg};
use crate::state::State;
use vstd::prelude::*;

verus! {

/// A gate of the interrupt descriptor table.
pub struct Gate {
    /// The handler's offset.
    pub target: u64,
    /// The handler's code segment.
    pub selector: u16,
    /// Interrupt-stack-table index; zero outside long mode.
    pub ist: u8,
    /// Gate type: 6 and 14 are interrupt gates, 7 and 15 trap gates.
    pub kind: u8,
}

/// A frame with an optional error code on top.
pub open spec fn with_code(frame: Seq<u64>, code: Option<u32>) -> Seq<u64> {
    match code {
        Some(c) => frame.push(c as u64),
        None => frame,
    }
}

impl State {
    /// The state with one more switch into a more privileged ring counted.
    pub open spec fn counted_switch(self) -> State {
        State {
            diag: DiagView {
                ring_switches: self.diag.ring_switches.wrapping_add(1),
                ..self.diag
            },
            ..self
        }
    }

    /// Real-mode interrupt entry: FLAGS, CS and IP are pushed, IF and TF are
    /// cleared, and the handler's address comes from the vector table at zero.
    #[verifier::opaque]
    pub open spec fn real_int(self, vector: u8) -> State {
        let s = self.push_all(
            16,
            seq![(self.flags as u16) as u64, self.cs as u64, self.ip as u64],
        ).with_flag(flags::IF, false).with_flag(flags::TF, false);
        let entry = (vector as usize * 4) as usize;
        State { cs: s.mem.read16((entry + 2) as usize), ip: s.mem.read16(entry), ..s }
    }

    /// The 8-byte gate of a vector. The IDT is named by linear address.
    #[verifier::opaque]
    pub open spec fn gate32(self, vector: u8) -> Gate {
        let at = self.idt_base.wrapping_add((vector as u64).wrapping_mul(8));
        Gate {
            target: self.idt_target(vector) as u64,
            selector: self.peek(at, 8, 2, 16) as u16,
            ist: 0,
            kind: (self.peek(at, 8, 5, 8) as u8) & 0x0F,
        }
    }

    /// The 16-byte gate of a vector.
    #[verifier::opaque]
    pub open spec fn gate64(self, vector: u8) -> Gate {
        let at = self.idt_base.wrapping_add((vector as u64).wrapping_mul(16));
        Gate {
            target: ((self.peek(at, 16, 0, 16) as u16) as u64) | (((self.peek(at, 16, 6, 16) as u16) as u64)
                << 16) | (((self.peek(at, 16, 8, 32) as u32) as u64) << 32),
            selector: self.peek(at, 16, 2, 16) as u16,
            ist: (self.peek(at, 16, 4, 8) as u8) & 7,
            kind: (self.peek(at, 16, 5, 8) as u8) & 0x0F,
        }
    }

    /// Does a gate lead to a more privileged ring?
    pub open spec fn switches(self, gate: Gate) -> bool {
        (self.descriptor_for(gate.selector).attr >> 5) & 3 < self.cpl()
    }

    /// The flags a gate leaves: an interrupt gate clears IF, a trap gate does
    /// not, and TF and RF are cleared either way.
    pub open spec fn gated(self, masks: bool) -> State {
        let s = if masks { self.with_flag(flags::IF, false) } else { self };
        s.with_flag(flags::TF, false).with_flag(flags::RF, false)
    }

    /// The handler's segment and stack, once a gate has been passed. A gate to a
    /// more privileged ring switches to the stack in the TSS.
    pub open spec fn gate_entered32(self, gate: Gate) -> State {
        let on_stack = if self.switches(gate) {
            let (ss0, esp0) = self.counted_switch().tss_stack0();
            self.counted_switch().load_seg(SegReg::Ss, ss0).with_reg32(4, esp0)
        } else {
            self
        };
        on_stack.load_seg(SegReg::Cs, gate.selector)
    }

    /// What a gate pushes: the outer SS:ESP if the stack was switched, then
    /// EFLAGS, CS, EIP, and the error code last, so it ends up on top.
    pub open spec fn gate_frame32(self, gate: Gate, code: Option<u32>) -> Seq<u64> {
        let outer = if self.switches(gate) {
            seq![self.ss as u64, self.reg32(4) as u64]
        } else {
            Seq::empty()
        };
        with_code(outer + seq![self.flags as u64, self.cs as u64, self.eip() as u64], code)
    }

    /// Protected-mode interrupt entry. The frame is written at the new
    /// privilege level.
    #[verifier::opaque]
    pub open spec fn gate_int32(self, vector: u8, code: Option<u32>) -> State {
        let gate = self.gate32(vector);
        let framed = self.gate_entered32(gate).push_all(32, self.gate_frame32(gate, code));
        State {
            rip: gate.target,
            ..framed.gated(gate.kind == 0x6 || gate.kind == 0xE)
        }.unfetched()
    }

    /// The stack a long-mode gate lands on. An interrupt-stack-table entry is
    /// taken unconditionally, otherwise the stack is switched only with the
    /// privilege level; either way SS becomes null.
    pub open spec fn on_gate_stack(self, gate: Gate) -> State {
        let switching = self.switches(gate);
        let counted = if switching { self.counted_switch() } else { self };
        if gate.ist != 0 {
            counted.load_seg(SegReg::Ss, 0).with_reg64(4, self.tss_ist(gate.ist))
        } else if switching {
            counted.load_seg(SegReg::Ss, 0).with_reg64(4, self.tss_rsp0())
        } else {
            self
        }
    }

    /// The handler's segment and stack, once a long-mode gate has been passed:
    /// the frame starts on a 16-byte boundary.
    pub open spec fn gate_entered64(self, gate: Gate) -> State {
        let entered = self.on_gate_stack(gate).load_seg(SegReg::Cs, gate.selector);
        entered.with_reg64(4, entered.reg64(4) & !0xFu64)
    }

    /// What a long-mode gate pushes: five words, SS:RSP always among them, and
    /// the error code last.
    pub open spec fn gate_frame64(self, code: Option<u32>) -> Seq<u64> {
        with_code(
            seq![self.ss as u64, self.reg64(4), self.flags as u64, self.cs as u64, self.rip],
            code,
        )
    }

    /// Long-mode interrupt entry.
    #[verifier::opaque]
    pub open spec fn gate_int64(self, vector: u8, code: Option<u32>) -> State {
        let gate = self.gate64(vector);
        let framed = self.gate_entered64(gate).push_all(64, self.gate_frame64(code));
        State { rip: gate.target, ..framed.gated(gate.kind == 0xE) }.unfetched()
    }

    /// Interrupt entry through the IDT.
    pub open spec fn protected_int(self, vector: u8, code: Option<u32>) -> State {
        if self.long_mode() {
            self.gate_int64(vector, code)
        } else {
            self.gate_int32(vector, code)
        }
    }
}

/// Dispatch a protected-mode interrupt through the IDT.
pub fn protected_int(cpu: &mut Cpu, vector: u8)
    ensures
        final(cpu)@ == old(cpu)@.protected_int(vector, None),
{
    protected_int_err(cpu, vector, None);
}

/// Add an optional error code to a frame.
fn add_code(frame: &mut Vec<u64>, code: Option<u32>)
    ensures
        final(frame)@ == with_code(old(frame)@, code),
{
    if let Some(c) = code {
        frame.push(c as u64);
    }
}

/// Clear the flags a gate clears.
fn gate_flags(cpu: &mut Cpu, masks: bool)
    ensures
        final(cpu)@ == old(cpu)@.gated(masks),
{
    if masks {
        cpu.set_flag(flags::IF, false);
    }
    cpu.set_flag(flags::TF, false);
    cpu.set_flag(flags::RF, false);
}

/// Count a switch into a more privileged ring.
fn count_switch(cpu: &mut Cpu)
    ensures
        final(cpu)@ == old(cpu)@.counted_switch(),
{
    cpu.diag.ring_switches = cpu.diag.ring_switches.wrapping_add(1);
}

/// Dispatch a protected-mode interrupt or exception through the IDT.
///
/// The frame order is not a detail: the CPU pushes EFLAGS, CS and EIP, and
/// then, for the exceptions that have one, the **error code last**, so it
/// ends up on top of the stack.
pub fn protected_int_err(cpu: &mut Cpu, vector: u8, error_code: Option<u32>)
    ensures
        final(cpu)@ == old(cpu)@.protected_int(vector, error_code),
{
    if cpu.long_mode() {
        long_int(cpu, vector, error_code);
    } else {
        gate_int(cpu, vector, error_code);
    }
}

/// Dispatch through an 8-byte gate.
fn gate_int(cpu: &mut Cpu, vector: u8, error_code: Option<u32>)
    ensures
        final(cpu)@ == old(cpu)@.gate_int32(vector, error_code),
{
    proof {
        reveal(State::gate_int32);
        reveal(State::gate32);
    }
    // IDT entry: offset = (bytes 0-1) | (bytes 6-7 << 16), the segment
    // selector is bytes 2-3, and byte 5 holds the type/attributes.
    let entry: u64 = cpu.idt_base.wrapping_add((vector as u64).wrapping_mul(8));
    let sp = cpu.peek_span(entry, 8);
    let off_lo: u32 = (cpu.mem.span_read(sp, 0, 16) as u16) as u32;
    let off_hi: u32 = (cpu.mem.span_read(sp, 6, 16) as u16) as u32;
    let target: u32 = off_lo | (off_hi << 16);
    let selector: u16 = cpu.mem.span_read(sp, 2, 16) as u16;
    let kind: u8 = (cpu.mem.span_read(sp, 5, 8) as u8) & 0x0F;
    let switching = cpu.descriptor_for(selector).dpl() < cpu.cpl();
    // The frame holds the registers as they were on entry.
    let old_cs: u16 = cpu.cs;
    let old_eip: u32 = cpu.eip();
    let old_flags: u32 = cpu.flags;
    let old_ss: u16 = cpu.ss;
    let old_esp: u32 = cpu.esp();
    if switching {
        count_switch(cpu);
        let (ss0, esp0): (u16, u32) = cpu.tss_stack0();
        cpu.load_seg(SegReg::Ss, ss0);
        cpu.set_esp(esp0);
    }
    // Enter the privilege level of the handler first: the pushes
    // belong to the transition and happen at the new CPL.
    cpu.load_seg(SegReg::Cs, selector);
    let mut frame: Vec<u64> = Vec::new();
    if switching {
        frame.push(old_ss as u64);
        frame.push(old_esp as u64);
    }
    frame.push(old_flags as u64);
    frame.push(old_cs as u64);
    frame.push(old_eip as u64);
    proof {
        let outer = if switching {
            seq![old_ss as u64, old_esp as u64]
        } else {
            Seq::empty()
        };
        assert(frame@ =~= outer + seq![old_flags as u64, old_cs as u64, old_eip as u64]);
    }
    add_code(&mut frame, error_code);
    cpu.push_all(32, &frame);
    gate_flags(cpu, kind == 0x6 || kind == 0xE);
    cpu.set_eip(target);
    cpu.invalidate_phys_ip();
}

/// Dispatch an interrupt or exception through a **long-mode** IDT.
///
/// Three things differ from the 32-bit form: a gate is **sixteen** bytes with
/// an interrupt-stack-table index; the frame is five 8-byte words and
/// **SS:RSP are always pushed**; and a stack switch loads a **null** SS.
fn long_int(cpu: &mut Cpu, vector: u8, error_code: Option<u32>)
    ensures
        final(cpu)@ == old(cpu)@.gate_int64(vector, error_code),
{
    proof {
        reveal(State::gate_int64);
        reveal(State::gate64);
    }
    let entry: u64 = cpu.idt_base.wrapping_add((vector as u64).wrapping_mul(16));
    let sp = cpu.peek_span(entry, 16);
    let off_lo: u64 = (cpu.mem.span_read(sp, 0, 16) as u16) as u64;
    let selector: u16 = cpu.mem.span_read(sp, 2, 16) as u16;
    // Bits 0-2 of byte 4 are the IST index; the rest of the byte is reserved.
    let ist: u8 = (cpu.mem.span_read(sp, 4, 8) as u8) & 7;
    let kind: u8 = (cpu.mem.span_read(sp, 5, 8) as u8) & 0x0F;
    let off_mid: u64 = (cpu.mem.span_read(sp, 6, 16) as u16) as u64;
    let off_hi: u64 = (cpu.mem.span_read(sp, 8, 32) as u32) as u64;
    let target: u64 = off_lo | (off_mid << 16) | (off_hi << 32);
    let switching = cpu.descriptor_for(selector).dpl() < cpu.cpl();
    // The frame holds the registers as they were on entry.
    let old_cs: u16 = cpu.cs;
    let old_rip: u64 = cpu.rip;
    let old_flags: u64 = cpu.flags as u64;
    let old_ss: u16 = cpu.ss;
    let old_rsp: u64 = cpu.rsp();
    // Which stack to land on. An IST entry is taken *unconditionally*: a
    // double fault must reach a stack that is known good even when the one in
    // RSP is what broke.
    if ist != 0 {
        let sp: u64 = cpu.tss_ist(ist);
        if switching {
            count_switch(cpu);
        }
        cpu.load_seg(SegReg::Ss, 0);
        cpu.set_rsp(sp);
    } else if switching {
        let sp: u64 = cpu.tss_rsp0();
        count_switch(cpu);
        cpu.load_seg(SegReg::Ss, 0);
        cpu.set_rsp(sp);
    }
    cpu.load_seg(SegReg::Cs, selector);
    // The frame is aligned to 16 bytes before anything is pushed.
    let sp: u64 = cpu.rsp() & !0xF;
    cpu.set_rsp(sp);
    let mut frame: Vec<u64> = vec![
        old_ss as u64,
        old_rsp,
        old_flags,
        old_cs as u64,
        old_rip,
    ];
    add_code(&mut frame, error_code);
    cpu.push_all(64, &frame);
    gate_flags(cpu, kind == 0xE);
    cpu.rip = target;
    cpu.invalidate_phys_ip();
}

/// Dispatch a real-mode interrupt through the IVT.
pub fn real_int(cpu: &mut Cpu, vector: u8)
    ensures
        final(cpu)@ == old(cpu)@.real_int(vector),
{
    proof {
        reveal(State::real_int);
    }
    let ip: u16 = cpu.ip;
    let cs: u16 = cpu.cs;
    let word: u16 = cpu.flags as u16;
    let frame: Vec<u64> = vec![word as u64, cs as u64, ip as u64];
    cpu.push_all(16, &frame);
    cpu.set_flag(flags::IF, false);
    cpu.set_flag(flags::TF, false);
    let entry: usize = (vector as usize) * 4;
    let off: u16 = cpu.mem.read_u16(entry);
    let seg: u16 = cpu.mem.read_u16(entry + 2);
    cpu.cs = seg;
    cpu.ip = off;
}

} // verus!
