//! Laws of segment loads, far transfers and the remaining stack instructions.

use crate::cpu::SegReg;
use crate::instructions::Inst;
use crate::laws::effects::lemma_committed;
use crate::laws::fields::lemma_narrow;
use crate::laws::jumps::slot;
use crate::state::State;
use vstd::prelude::*;

verus! {

/// The selectors in the order of their numbers: ES, CS, SS, DS, FS, GS.
pub open spec fn selectors(s: State) -> Seq<u16> {
    seq![s.es, s.cs, s.ss, s.ds, s.fs, s.gs]
}

/// The number of a segment register.
pub open spec fn number(g: SegReg) -> int {
    match g {
        SegReg::Es => 0,
        SegReg::Cs => 1,
        SegReg::Ss => 2,
        SegReg::Ds => 3,
        SegReg::Fs => 4,
        SegReg::Gs => 5,
    }
}

/// Loading a segment register sets its selector and, in protected mode, its
/// descriptor to the one the selector names. The other segments stay as they
/// were.
pub proof fn law_segment_loads(s: State, g: SegReg, selector: u16, k: int)
    requires
        s.seg_desc.len() == 6,
        0 <= k < 6,
    ensures
        ({
            let t = s.load_seg(g, selector);
            &&& selectors(t)[k] == if k == number(g) { selector } else { selectors(s)[k] }
            &&& t.seg_desc[k] == if s.pe && k == number(g) {
                s.descriptor_for(selector)
            } else {
                s.seg_desc[k]
            }
            &&& t.regs == s.regs && t.flags == s.flags && t.mem == s.mem && t.rip == s.rip && t.ip
                == s.ip
        }),
{
    reveal(State::load_seg);
}

/// Far transfers are instructions of control flow.
proof fn lemma_far_flow(s: State, inst: Inst)
    requires
        inst is JmpFar || inst is JmpFar32 || inst is CallFar || inst is CallFar32 || inst is Retf
            || inst is Leave || inst is Pushf || inst is Popf || inst is Pusha || inst is PushSeg
            || inst is PopSeg || inst is PushReg16 || inst is PushReg32 || inst is PopReg16
            || inst is PopReg32 || inst is PushImm32 || inst is Into || inst is Int3,
        !s.execute(inst).faulted(),
    ensures
        s.execute(inst) == s.flow_inst(inst),
{
    lemma_committed(s, inst);
    reveal(State::move_inst);
    reveal(State::arith_inst);
}

/// A far jump goes to its offset in its segment; a far call first pushes CS and
/// the instruction pointer, in that order; a far return pops the instruction
/// pointer and then CS.
pub proof fn law_far_transfers(s: State, inst: Inst)
    requires
        s.seg_desc.len() == 6,
        !s.execute(inst).faulted(),
    ensures
        match inst {
            Inst::JmpFar { off, seg } => ({
                let t = s.execute(inst);
                &&& t.cs == seg && t.ip == off && t.regs == s.regs && t.mem == s.mem
                &&& s.pe ==> t.seg_desc[1] == s.descriptor_for(seg)
            }),
            Inst::JmpFar32 { off, seg } => ({
                let t = s.execute(inst);
                &&& t.cs == seg && t.rip == off && t.regs == s.regs && t.mem == s.mem
                &&& s.pe ==> t.seg_desc[1] == s.descriptor_for(seg)
            }),
            Inst::CallFar { off, seg } => ({
                let p = s.push_all(16, seq![s.cs as u64, s.ip as u64]);
                let t = s.execute(inst);
                t.cs == seg && t.ip == off && t.regs == p.regs && t.mem == p.mem
            }),
            Inst::CallFar32 { off, seg } => ({
                let p = s.push_all(32, seq![s.cs as u64, (s.rip % 0x1_0000_0000) as u64]);
                let t = s.execute(inst);
                t.cs == seg && t.rip == off && t.regs == p.regs && t.mem == p.mem
            }),
            Inst::Retf => ({
                let (a, x) = s.pop(16);
                let (b, y) = (State { ip: (x % 0x1_0000) as u16, ..a }).pop(16);
                let t = s.execute(inst);
                &&& t.cs == y % 0x1_0000
                &&& t.ip == b.ip
                &&& t.regs == b.regs && t.mem == b.mem
            }),
            _ => true,
        },
{
    lemma_narrow(s.rip);
    match inst {
        Inst::JmpFar { off, seg } => {
            lemma_far_flow(s, inst);
            reveal(State::flow_inst);
            reveal(State::jmp_far16);
            reveal(State::load_seg);
        },
        Inst::JmpFar32 { off, seg } => {
            lemma_far_flow(s, inst);
            reveal(State::flow_inst);
            reveal(State::jmp_far32);
            reveal(State::load_seg);
        },
        Inst::CallFar { off, seg } => {
            lemma_far_flow(s, inst);
            reveal(State::flow_inst);
            reveal(State::call_far16);
            reveal(State::jmp_far16);
            reveal(State::load_seg);
        },
        Inst::CallFar32 { off, seg } => {
            lemma_far_flow(s, inst);
            reveal(State::flow_inst);
            reveal(State::call_far32);
            reveal(State::jmp_far32);
            reveal(State::load_seg);
        },
        Inst::Retf => {
            lemma_far_flow(s, inst);
            reveal(State::flow_inst);
            reveal(State::retf16);
            reveal(State::load_seg);
            let (a, x) = s.pop(16);
            lemma_narrow(x);
            lemma_narrow((State { ip: x as u16, ..a }).pop(16).1);
        },
        _ => {},
    }
}

/// PUSH and POP move a register at the width of a slot; PUSHF pushes the flags,
/// VM and RF cleared in a wide image; POPF takes the writable flags from the
/// image, keeps the others and sets bit 1; PUSHA pushes the eight registers in
/// the order of their numbers.
pub proof fn law_stack_instructions(s: State, inst: Inst)
    requires
        !s.execute(inst).faulted(),
    ensures
        match inst {
            Inst::PushReg16 { src } => s.execute(inst) == s.push(16, s.reg_w(src, 16)),
            Inst::PushReg32 { src } => s.execute(inst) == s.push(slot(s), s.reg_w(src, slot(s))),
            Inst::PopReg16 { dst } => s.execute(inst) == s.pop(16).0.with_reg_w(
                dst,
                16,
                s.pop(16).1,
            ),
            Inst::PopReg32 { dst } => s.execute(inst) == s.pop(slot(s)).0.with_reg_w(
                dst,
                slot(s),
                s.pop(slot(s)).1,
            ),
            Inst::Pushf => s.execute(inst) == s.push(
                slot(s),
                if slot(s) == 16 { s.flags as u64 } else { (s.flags & !0x3_0000) as u64 },
            ),
            Inst::Popf => ({
                let (a, f) = s.pop(slot(s));
                let t = s.execute(inst);
                &&& t == (State { flags: t.flags, ..a })
                &&& slot(s) != 16 ==> t.flags == ((f % 0x1_0000_0000) as u32 & 0x3F_7FD5) | 2 | (
                a.flags & !0x3F_7FD5 & !2)
            }),
            Inst::Pusha { w32 } => s.execute(inst) == ({
                let w: u32 = if w32 { 32 } else { 16 };
                let r = |i: u8| s.reg_w(i, w);
                s.push_all(w, seq![r(0), r(1), r(2), r(3), r(4), r(5), r(6), r(7)])
            }),
            _ => true,
        },
{
    match inst {
        Inst::PushReg16 { src } => {
            lemma_far_flow(s, inst);
            reveal(State::flow_inst);
        },
        Inst::PushReg32 { src } => {
            lemma_far_flow(s, inst);
            reveal(State::flow_inst);
        },
        Inst::PopReg16 { dst } => {
            lemma_far_flow(s, inst);
            reveal(State::flow_inst);
            reveal(State::pop_reg);
            reveal(State::set_reg_w);
        },
        Inst::PopReg32 { dst } => {
            lemma_far_flow(s, inst);
            reveal(State::flow_inst);
            reveal(State::pop_reg);
            reveal(State::set_reg_w);
        },
        Inst::Pushf => {
            lemma_far_flow(s, inst);
            reveal(State::flow_inst);
            crate::laws::fields::lemma_image_masks();
        },
        Inst::Popf => {
            lemma_far_flow(s, inst);
            reveal(State::flow_inst);
            reveal(State::popf);
            lemma_narrow(s.pop(slot(s)).1);
        },
        Inst::Pusha { w32 } => {
            lemma_far_flow(s, inst);
            reveal(State::flow_inst);
            reveal(State::pusha);
            let w: u32 = if w32 { 32 } else { 16 };
            let r = |i: u8| s.reg_w(i, w);
            assert(Seq::new(8, |i: int| s.reg_w(i as u8, w)) =~= seq![
                r(0),
                r(1),
                r(2),
                r(3),
                r(4),
                r(5),
                r(6),
                r(7),
            ]);
        },
        _ => {},
    }
}

} // verus!
