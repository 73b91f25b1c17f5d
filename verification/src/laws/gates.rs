//! Laws of gates and descriptors, from the bytes of the tables: where an
//! interrupt goes, which stack it lands on, and what it finds there.

use crate::cpu::operand::bytes_of;
use crate::cpu::SegReg;
use crate::laws::bytes::{
    byte_at, law_tables_are_read_through_the_page_tables, mapped, number_at,
};
use crate::laws::fields::{lemma_descriptor, lemma_fields64, lemma_fields8, lemma_joined};
use crate::laws::interrupt::{
    law_frames_read_back, lemma_gate32, lemma_gate64, lemma_stacked, sound32, sound64,
};
use crate::state::State;
use vstd::prelude::*;

verus! {

/// A 64-bit address some way from another.
pub open spec fn beyond(base: u64, n: int) -> u64 {
    ((base + n) % 0x1_0000_0000_0000_0000) as u64
}

/// Where the descriptor of a selector is: entry `selector / 8` of the LDT where
/// bit 2 is set, of the GDT otherwise.
pub open spec fn descriptor_at(s: State, selector: int) -> u64 {
    beyond(
        if selector / 4 % 2 == 1 { s.ldt_base } else { s.gdt_base },
        8 * (selector / 8),
    )
}

/// Every one of the `n` bytes at a linear address has a translation.
pub open spec fn all_mapped(s: State, linear: u64, n: int) -> bool {
    mapped(s, linear) && mapped(s, beyond(linear, n - 1))
}

/// The bytes of a number, one by one.
proof fn lemma_digits(
    b0: int,
    b1: int,
    b2: int,
    b3: int,
    b4: int,
    b5: int,
    b6: int,
    b7: int,
    v: int,
)
    requires
        0 <= b0 < 0x100 && 0 <= b1 < 0x100 && 0 <= b2 < 0x100 && 0 <= b3 < 0x100,
        0 <= b4 < 0x100 && 0 <= b5 < 0x100 && 0 <= b6 < 0x100 && 0 <= b7 < 0x100,
        v == b0 + 0x100 * b1 + 0x1_0000 * b2 + 0x100_0000 * b3 + 0x1_0000_0000 * b4
            + 0x100_0000_0000 * b5 + 0x1_0000_0000_0000 * b6 + 0x100_0000_0000_0000 * b7,
    ensures
        v % 0x1_0000 == b0 + 0x100 * b1,
        v / 0x1_0000 % 0x100_0000 == b2 + 0x100 * b3 + 0x1_0000 * b4,
        v / 0x100_0000_0000 % 0x100 == b5,
        v / 0x1_0000_0000_0000 % 16 == b6 % 16,
        v / 0x20_0000_0000_0000 % 2 == b6 / 0x20 % 2,
        v / 0x40_0000_0000_0000 % 2 == b6 / 0x40 % 2,
        v / 0x80_0000_0000_0000 % 2 == b6 / 0x80,
        v / 0x100_0000_0000_0000 == b7,
{
    let low = b0 + 0x100 * b1;
    let mid = b2 + 0x100 * b3 + 0x1_0000 * b4;
    let top = b6 + 0x100 * b7;
    assert(0 <= low < 0x1_0000 && 0 <= mid < 0x100_0000 && 0 <= top < 0x1_0000);
    assert(v == low + 0x1_0000 * mid + 0x100_0000_0000 * b5 + 0x1_0000_0000_0000 * top);
    lemma_groups(low, mid, b5, top, v);
    assert(top / 0x20 == b6 / 0x20 + 8 * b7);
    assert(top / 0x40 == b6 / 0x40 + 4 * b7);
    assert(top / 0x80 == b6 / 0x80 + 2 * b7);
    assert(top / 0x100 == b7);
    assert(top % 16 == b6 % 16);
}

/// A number in four groups.
proof fn lemma_groups(low: int, mid: int, b: int, top: int, v: int)
    requires
        0 <= low < 0x1_0000,
        0 <= mid < 0x100_0000,
        0 <= b < 0x100,
        0 <= top < 0x1_0000,
        v == low + 0x1_0000 * mid + 0x100_0000_0000 * b + 0x1_0000_0000_0000 * top,
    ensures
        v % 0x1_0000 == low,
        v / 0x1_0000 % 0x100_0000 == mid,
        v / 0x100_0000_0000 % 0x100 == b,
        v / 0x1_0000_0000_0000 == top,
        v / 0x20_0000_0000_0000 == top / 0x20,
        v / 0x40_0000_0000_0000 == top / 0x40,
        v / 0x80_0000_0000_0000 == top / 0x80,
        v / 0x100_0000_0000_0000 == top / 0x100,
{
    let r5 = b + 0x100 * top;
    let r2 = mid + 0x100_0000 * r5;
    assert(v / 0x1_0000 == r2 && v % 0x1_0000 == low) by {
        lemma_parts(low, r2, 0x1_0000, v);
    }
    assert(r2 % 0x100_0000 == mid) by {
        lemma_parts(mid, r5, 0x100_0000, r2);
    }
    assert(v / 0x100_0000_0000 == r5) by {
        lemma_parts(low + 0x1_0000 * mid, r5, 0x100_0000_0000, v);
    }
    assert(r5 % 0x100 == b) by {
        lemma_parts(b, top, 0x100, r5);
    }
    let low6 = low + 0x1_0000 * mid + 0x100_0000_0000 * b;
    assert(v / 0x1_0000_0000_0000 == top) by {
        lemma_parts(low6, top, 0x1_0000_0000_0000, v);
    }
    lemma_halves(top, v, low6);
    lemma_parts(
        low6 + 0x1_0000_0000_0000 * (top % 0x100),
        top / 0x100,
        0x100_0000_0000_0000,
        v,
    );
}

proof fn lemma_halves(r: int, v: int, low: int)
    requires
        r >= 0,
        0 <= low < 0x1_0000_0000_0000,
        v == low + 0x1_0000_0000_0000 * r,
    ensures
        v / 0x20_0000_0000_0000 == r / 0x20,
        v / 0x40_0000_0000_0000 == r / 0x40,
        v / 0x80_0000_0000_0000 == r / 0x80,
{
    lemma_parts(low + 0x1_0000_0000_0000 * (r % 0x20), r / 0x20, 0x20_0000_0000_0000, v);
    lemma_parts(low + 0x1_0000_0000_0000 * (r % 0x40), r / 0x40, 0x40_0000_0000_0000, v);
    lemma_parts(low + 0x1_0000_0000_0000 * (r % 0x80), r / 0x80, 0x80_0000_0000_0000, v);
}

/// A number in two parts.
proof fn lemma_parts(low: int, high: int, m: int, v: int)
    requires
        0 <= low < m,
        v == low + m * high,
    ensures
        v / m == high,
        v % m == low,
{
    assert(m * high == high * m) by (nonlinear_arith);
    vstd::arithmetic::div_mod::lemma_fundamental_div_mod_converse(v, m, high, low);
}

/// A descriptor is made of the eight bytes its selector names: the base of
/// bytes 2, 3, 4 and 7, the limit of bytes 0 and 1 and half of byte 6, in pages
/// where bit 7 of byte 6 says so, the access byte 5, and the size bits.
#[verifier::spinoff_prover]
pub proof fn law_descriptors_are_made_of_bytes(s: State, selector: u16)
    requires
        all_mapped(s, descriptor_at(s, selector as int), 8),
    ensures
        ({
            let at = descriptor_at(s, selector as int);
            let b = |i: int| byte_at(s, beyond(at, i)) as int;
            let d = s.descriptor_for(selector);
            let units = b(0) + 0x100 * b(1) + 0x1_0000 * (b(6) % 16);
            &&& d.base == b(2) + 0x100 * b(3) + 0x1_0000 * b(4) + 0x100_0000 * b(7)
            &&& d.limit == if b(6) >= 0x80 { units * 0x1000 + 0xFFF } else { units }
            &&& d.attr == b(5)
            &&& d.g <==> b(6) >= 0x80
            &&& d.d_b <==> b(6) / 0x40 % 2 == 1
            &&& d.l <==> b(6) / 0x20 % 2 == 1
        }),
{
    reveal(State::descriptor_for);
    reveal(crate::protected::parsed);
    lemma_selector(selector);
    let at = descriptor_at(s, selector as int);
    assert(at.wrapping_add(0) == at);
    assert(beyond(at, 7) == at.wrapping_add(7));
    law_tables_are_read_through_the_page_tables(s, at, 8, 0, 64);
    let raw = s.peek(at, 8, 0, 64);
    lemma_descriptor(raw, (raw as int % 0x1_0000 + raw as int / 0x1_0000_0000_0000 % 16
        * 0x1_0000) as u32, 0, 0, 0);
    let c = |i: u64| byte_at(s, at.wrapping_add(i)) as int;
    assert(raw == number_at(s, at, 8));
    lemma_digits(c(0), c(1), c(2), c(3), c(4), c(5), c(6), c(7), raw as int);
    lemma_steps(at);
}

/// Small steps from an address.
proof fn lemma_steps(at: u64)
    ensures
        beyond(at, 0) == at.wrapping_add(0),
        beyond(at, 1) == at.wrapping_add(1),
        beyond(at, 2) == at.wrapping_add(2),
        beyond(at, 3) == at.wrapping_add(3),
        beyond(at, 4) == at.wrapping_add(4),
        beyond(at, 5) == at.wrapping_add(5),
        beyond(at, 6) == at.wrapping_add(6),
        beyond(at, 7) == at.wrapping_add(7),
        beyond(at, 8) == at.wrapping_add(8),
        beyond(at, 15) == at.wrapping_add(15),
{
}

/// The fields of a selector.
proof fn lemma_selector(selector: u16)
    ensures
        ((selector >> 3) & 0x1FFF) as int == selector as int / 8,
        (selector & 4 != 0) == (selector as int / 4 % 2 == 1),
        (selector & 3) as int == selector as int % 4,
{
    crate::laws::fields::lemma_fields16(selector);
}

/// A long-mode gate is made of sixteen bytes: the handler's address of bytes 0,
/// 1, 6 and 7 and 8 to 11, its selector of bytes 2 and 3, the stack-table index
/// of byte 4 and the type of byte 5.
#[verifier::spinoff_prover]
pub proof fn law_long_gates_are_made_of_bytes(s: State, vector: u8)
    requires
        all_mapped(s, beyond(s.idt_base, 16 * vector), 16),
    ensures
        ({
            let at = beyond(s.idt_base, 16 * vector);
            let gate = s.gate64(vector);
            &&& gate.target == number_at(s, at, 2) + 0x1_0000 * number_at(s, beyond(at, 6), 2)
                + 0x1_0000_0000 * number_at(s, beyond(at, 8), 4)
            &&& gate.selector == number_at(s, beyond(at, 2), 2)
            &&& gate.ist == byte_at(s, beyond(at, 4)) % 8
            &&& gate.kind == byte_at(s, beyond(at, 5)) % 16
        }),
{
    reveal(State::gate64);
    let at = beyond(s.idt_base, 16 * vector);
    lemma_steps(at);
    assert(at == s.idt_base.wrapping_add((vector as u64).wrapping_mul(16)));
    law_tables_are_read_through_the_page_tables(s, at, 16, 0, 16);
    law_tables_are_read_through_the_page_tables(s, at, 16, 2, 16);
    law_tables_are_read_through_the_page_tables(s, at, 16, 4, 8);
    law_tables_are_read_through_the_page_tables(s, at, 16, 5, 8);
    law_tables_are_read_through_the_page_tables(s, at, 16, 6, 16);
    law_tables_are_read_through_the_page_tables(s, at, 16, 8, 32);
    let lo = number_at(s, at, 2) as u64;
    let mid = number_at(s, beyond(at, 6), 2) as u64;
    let hi = number_at(s, beyond(at, 8), 4) as u64;
    lemma_fields64(lo, 0);
    lemma_fields8(byte_at(s, beyond(at, 4)));
    lemma_fields8(byte_at(s, beyond(at, 5)));
    lemma_descriptor(0, 0, lo, mid, hi);
    assert(beyond(at, 4).wrapping_add(0) == beyond(at, 4));
    assert(beyond(at, 5).wrapping_add(0) == beyond(at, 5));
}

/// A protected-mode gate is made of eight bytes: the handler's address of bytes
/// 0, 1, 6 and 7, its selector of bytes 2 and 3, and the type of byte 5.
#[verifier::spinoff_prover]
pub proof fn law_gates_are_made_of_bytes(s: State, vector: u8)
    requires
        all_mapped(s, beyond(s.idt_base, 8 * vector), 8),
    ensures
        ({
            let at = beyond(s.idt_base, 8 * vector);
            let gate = s.gate32(vector);
            &&& gate.target == number_at(s, at, 2) + 0x1_0000 * number_at(s, beyond(at, 6), 2)
            &&& gate.selector == number_at(s, beyond(at, 2), 2)
            &&& gate.kind == byte_at(s, beyond(at, 5)) % 16
        }),
{
    reveal(State::gate32);
    let at = beyond(s.idt_base, 8 * vector);
    lemma_steps(at);
    assert(at == s.idt_base.wrapping_add((vector as u64).wrapping_mul(8)));
    law_tables_are_read_through_the_page_tables(s, at, 8, 0, 16);
    law_tables_are_read_through_the_page_tables(s, at, 8, 2, 16);
    law_tables_are_read_through_the_page_tables(s, at, 8, 5, 8);
    law_tables_are_read_through_the_page_tables(s, at, 8, 6, 16);
    let lo = number_at(s, at, 2) as u32;
    let hi = number_at(s, beyond(at, 6), 2) as u32;
    lemma_joined(0, 0, 0, 0, lo, hi, 0, 0);
    lemma_fields8(byte_at(s, beyond(at, 5)));
    assert(beyond(at, 5).wrapping_add(0) == beyond(at, 5));
}

/// The privilege level of the code a selector names: bits 5 and 6 of byte 5 of
/// its descriptor.
pub open spec fn ring_of(s: State, selector: int) -> int {
    byte_at(s, beyond(descriptor_at(s, selector), 5)) as int / 32 % 4
}

/// The stack a long-mode interrupt is given: the entry of the TSS's stack table
/// that its gate names, counted from one, the table being at byte 0x24;
/// otherwise, from a less privileged ring, the ring-0 stack at byte 4 of the
/// TSS; otherwise the stack in use.
pub open spec fn long_stack(s: State, ist: int, ring: int) -> int {
    if ist != 0 {
        number_at(s, beyond(s.tr_base, 0x24 + 8 * (ist - 1)), 8)
    } else if ring < s.cs as int % 4 {
        number_at(s, beyond(s.tr_base, 4), 8)
    } else {
        s.regs[4] as int
    }
}

/// Where a value some bytes below a stack's top is.
pub open spec fn below(top: int, n: int) -> u64 {
    ((top - n) % 0x1_0000_0000_0000_0000) as u64
}

/// The tables a long-mode interrupt goes by have translations: its gate, the
/// descriptor of the handler's segment, and the entries of the TSS.
pub open spec fn long_tables_mapped(s: State, vector: u8) -> bool {
    let at = beyond(s.idt_base, 16 * vector);
    let selector = number_at(s, beyond(at, 2), 2);
    let ist = byte_at(s, beyond(at, 4)) as int % 8;
    &&& all_mapped(s, at, 16)
    &&& all_mapped(s, descriptor_at(s, selector), 8)
    &&& all_mapped(s, beyond(s.tr_base, 4), 8)
    &&& ist != 0 ==> all_mapped(s, beyond(s.tr_base, 0x24 + 8 * (ist - 1)), 8)
}

/// A long-mode interrupt lands on the stack its gate and the TSS choose,
/// rounded down to 16 bytes, whatever the stack pointer was. There it finds, from
/// the top down, the interrupted SS, RSP, flags, CS and RIP, and the error code
/// if there is one. It runs at the address and in the segment of its gate's
/// bytes, and a new stack has a null SS.
#[verifier::spinoff_prover]
#[verifier::rlimit(40)]
pub proof fn law_long_mode_interrupts_land_on_the_chosen_stack(
    s: State,
    vector: u8,
    code: Option<u32>,
)
    requires
        sound64(s, vector, code),
        s.seg_desc.len() == 6,
        s.regs.len() == 16,
        long_tables_mapped(s, vector),
    ensures
        ({
            let t = s.gate_int64(vector, code);
            let at = beyond(s.idt_base, 16 * vector);
            let selector = number_at(s, beyond(at, 2), 2);
            let ist = byte_at(s, beyond(at, 4)) as int % 8;
            let ring = ring_of(s, selector);
            let top = long_stack(s, ist, ring) / 16 * 16;
            &&& t.regs[4] == below(top, if code is Some { 48 } else { 40 })
            &&& t.load(below(top, 8), 64).1 == s.ss
            &&& t.load(below(top, 16), 64).1 == s.regs[4]
            &&& t.load(below(top, 24), 64).1 == s.flags
            &&& t.load(below(top, 32), 64).1 == s.cs
            &&& t.load(below(top, 40), 64).1 == s.rip
            &&& code is Some ==> t.load(below(top, 48), 64).1 == code->0
            &&& t.cs == selector
            &&& t.rip == number_at(s, at, 2) + 0x1_0000 * number_at(s, beyond(at, 6), 2)
                + 0x1_0000_0000 * number_at(s, beyond(at, 8), 4)
            &&& t.ss == if ist != 0 || ring < s.cs as int % 4 { 0 } else { s.ss }
            &&& !t.faulted()
        }),
{
    lemma_chosen_stack(s, vector);
    let gate = s.gate64(vector);
    let e = s.gate_entered64(gate);
    let vals = s.gate_frame64(code);
    let t = s.gate_int64(vector, code);
    let top = e.reg64(4) as int;
    lemma_gate64(s, vector, code);
    lemma_stacked(e, 64, vals);
    lemma_fields8(4);
    assert(t.ss == e.ss);
    let n = vals.len() as int;
    assert(n == if code is Some { 6int } else { 5int });
    assert(t.reg64(4) == e.reg64(4).wrapping_sub((n * bytes_of(64)) as u64));
    lemma_slot_places(e, vals, top, n);
    law_frames_read_back(e, 64, vals, 0, t);
    law_frames_read_back(e, 64, vals, 1, t);
    law_frames_read_back(e, 64, vals, 2, t);
    law_frames_read_back(e, 64, vals, 3, t);
    law_frames_read_back(e, 64, vals, 4, t);
    if code is Some {
        law_frames_read_back(e, 64, vals, 5, t);
    }
}

/// The stacks of a 64-bit TSS.
#[verifier::spinoff_prover]
proof fn lemma_long_tss(s: State, ist: u8)
    requires
        ist < 8,
        all_mapped(s, beyond(s.tr_base, 4), 8),
        ist != 0 ==> all_mapped(s, beyond(s.tr_base, 0x24 + 8 * (ist - 1)), 8),
    ensures
        s.tss_rsp0() == number_at(s, beyond(s.tr_base, 4), 8),
        ist != 0 ==> s.tss_ist(ist) == number_at(s, beyond(s.tr_base, 0x24 + 8 * (ist - 1)), 8),
{
    reveal(State::tss_rsp0);
    reveal(State::tss_ist);
    let r0 = beyond(s.tr_base, 4);
    lemma_steps(s.tr_base);
    lemma_steps(r0);
    law_tables_are_read_through_the_page_tables(s, r0, 8, 0, 64);
    assert(r0.wrapping_add(0) == r0);
    assert(s.tss_rsp0() == number_at(s, r0, 8));
    if ist != 0 {
        let off = 0x24u64.wrapping_add((ist as u64).wrapping_sub(1).wrapping_mul(8));
        assert(off == 0x24 + 8 * (ist - 1));
        let r1 = beyond(s.tr_base, 0x24 + 8 * (ist - 1));
        assert(r1 == s.tr_base.wrapping_add(off));
        lemma_steps(r1);
        assert(r1.wrapping_add(0) == r1);
        law_tables_are_read_through_the_page_tables(s, r1, 8, 0, 64);
        assert(s.tss_ist(ist) == number_at(s, r1, 8));
    }
}

/// The stack and the handler of a long-mode interrupt, from the tables.
#[verifier::spinoff_prover]
proof fn lemma_chosen_stack(s: State, vector: u8)
    requires
        s.pe,
        s.regs.len() == 16,
        long_tables_mapped(s, vector),
    ensures
        ({
            let at = beyond(s.idt_base, 16 * vector);
            let selector = number_at(s, beyond(at, 2), 2);
            let ist = byte_at(s, beyond(at, 4)) as int % 8;
            let ring = ring_of(s, selector);
            let gate = s.gate64(vector);
            let e = s.gate_entered64(gate);
            &&& e.reg64(4) == long_stack(s, ist, ring) / 16 * 16
            &&& e.ss == if ist != 0 || ring < s.cs as int % 4 { 0 } else { s.ss }
            &&& gate.selector == selector
            &&& gate.target == number_at(s, at, 2) + 0x1_0000 * number_at(s, beyond(at, 6), 2)
                + 0x1_0000_0000 * number_at(s, beyond(at, 8), 4)
        }),
{
    law_long_gates_are_made_of_bytes(s, vector);
    let gate = s.gate64(vector);
    let selector = gate.selector;
    law_descriptors_are_made_of_bytes(s, selector);
    lemma_fields8(s.descriptor_for(selector).attr);
    lemma_selector(s.cs);
    let ring = ring_of(s, selector as int);
    lemma_steps(descriptor_at(s, selector as int));
    assert(s.switches(gate) <==> ring < s.cs as int % 4);
    lemma_long_tss(s, gate.ist);
    lemma_fields8(4);
    let stack = long_stack(s, gate.ist as int, ring);
    lemma_long_entry(s, vector);
    lemma_fields64(stack as u64, 0);
}

/// Where the slots of a 64-bit frame are.
proof fn lemma_slot_places(e: State, vals: Seq<u64>, top: int, n: int)
    requires
        e.long64(),
        e.reg64(4) == top,
        n <= 6,
    ensures
        e.slot_linear(64, 0) == below(top, 8),
        e.slot_linear(64, 1) == below(top, 16),
        e.slot_linear(64, 2) == below(top, 24),
        e.slot_linear(64, 3) == below(top, 32),
        e.slot_linear(64, 4) == below(top, 40),
        e.slot_linear(64, 5) == below(top, 48),
{
}

/// What the passage of a long-mode gate leaves in the stack registers.
proof fn lemma_long_entry(s: State, vector: u8)
    requires
        s.regs.len() == 16,
    ensures
        ({
            let gate = s.gate64(vector);
            let e = s.gate_entered64(gate);
            let chosen = if gate.ist != 0 {
                s.tss_ist(gate.ist)
            } else if s.switches(gate) {
                s.tss_rsp0()
            } else {
                s.reg64(4)
            };
            &&& e.reg64(4) == chosen & !0xFu64
            &&& e.ss == if gate.ist != 0 || s.switches(gate) { 0 } else { s.ss }
            &&& e.regs.len() == 16
        }),
{
    reveal(State::load_seg);
    lemma_fields8(4);
}

/// The ring-0 stack of a 32-bit TSS: the pointer at byte 4, the segment at byte
/// 8.
#[verifier::spinoff_prover]
proof fn lemma_tss(s: State)
    requires
        all_mapped(s, beyond(s.tr_base, 4), 8),
        all_mapped(s, beyond(s.tr_base, 8), 8),
    ensures
        s.tss_stack0().0 == number_at(s, beyond(s.tr_base, 8), 2),
        s.tss_stack0().1 == number_at(s, beyond(s.tr_base, 4), 4),
{
    reveal(State::tss_stack0);
    let (p, g) = (beyond(s.tr_base, 4), beyond(s.tr_base, 8));
    lemma_steps(s.tr_base);
    lemma_steps(p);
    lemma_steps(g);
    assert(p.wrapping_add(0) == p && g.wrapping_add(0) == g);
    law_tables_are_read_through_the_page_tables(s, p, 8, 0, 32);
    law_tables_are_read_through_the_page_tables(s, g, 8, 0, 16);
    assert(p == s.tr_base.wrapping_add(4) && g == s.tr_base.wrapping_add(8));
    assert(s.tss_field(4, 32) == number_at(s, p, 4));
    assert(s.tss_field(8, 16) == number_at(s, g, 2));
    assert(number_at(s, g, 2) < 0x1_0000);
    assert(number_at(s, p, 4) < 0x1_0000_0000);
}

/// Counting a switch moves no stack.
proof fn lemma_counted_tss(s: State)
    ensures
        s.counted_switch().tss_stack0() == s.tss_stack0(),
{
    reveal(State::tss_stack0);
    reveal(State::peek_span);
    reveal(State::peek_phys);
}

/// A protected-mode interrupt from a less privileged ring takes the ring-0
/// stack of the TSS, whatever the stack pointer was; any other stays on its
/// stack. From the top of that stack down it leaves the interrupted SS and ESP,
/// where the stack is a new one, then the flags, CS and EIP, and the error code
/// if there is one. It runs at the address and in the segment of its gate's
/// bytes.
#[verifier::spinoff_prover]
#[verifier::rlimit(40)]
pub proof fn law_protected_interrupts_land_on_the_chosen_stack(
    s: State,
    vector: u8,
    code: Option<u32>,
)
    requires
        sound32(s, vector, code),
        s.regs.len() == 16,
        tables_mapped(s, vector),
    ensures
        ({
            let t = s.gate_int32(vector, code);
            let at = beyond(s.idt_base, 8 * vector);
            let selector = number_at(s, beyond(at, 2), 2);
            let inward = ring_of(s, selector) < s.cs as int % 4;
            let top = if inward {
                number_at(s, beyond(s.tr_base, 4), 4)
            } else {
                s.regs[4] as int % 0x1_0000_0000
            };
            let outer: int = if inward { 8 } else { 0 };
            let slot = |n: int|
                t.load(t.linear_addr(SegReg::Ss, ((top - n) % 0x1_0000_0000) as u64), 32).1;
            &&& t.reg32(4) == (top - outer - 12 - (if code is Some { 4int } else { 0 }))
                % 0x1_0000_0000
            &&& inward ==> slot(4) == s.ss && slot(8) == s.regs[4] as int % 0x1_0000_0000
            &&& slot(outer + 4) == s.flags
            &&& slot(outer + 8) == s.cs
            &&& slot(outer + 12) == s.rip as int % 0x1_0000_0000
            &&& code is Some ==> slot(outer + 16) == code->0
            &&& t.cs == selector
            &&& t.ss == if inward { number_at(s, beyond(s.tr_base, 8), 2) } else { s.ss as int }
            &&& t.rip == number_at(s, at, 2) + 0x1_0000 * number_at(s, beyond(at, 6), 2)
            &&& !t.faulted()
        }),
{
    law_gates_are_made_of_bytes(s, vector);
    let gate = s.gate32(vector);
    let selector = gate.selector;
    law_descriptors_are_made_of_bytes(s, selector);
    lemma_fields8(s.descriptor_for(selector).attr);
    lemma_selector(s.cs);
    lemma_steps(descriptor_at(s, selector as int));
    let inward = ring_of(s, selector as int) < s.cs as int % 4;
    assert(s.switches(gate) <==> inward);
    lemma_tss(s);
    lemma_counted_tss(s);
    lemma_entry(s, gate);
    lemma_fields8(4);
    crate::laws::fields::lemma_narrow(s.regs[4]);
    crate::laws::fields::lemma_narrow(s.rip);
    let e = s.gate_entered32(gate);
    let vals = s.gate_frame32(gate, code);
    let t = s.gate_int32(vector, code);
    lemma_gate32(s, vector, code);
    lemma_stacked(e, 32, vals);
    let n = vals.len() as int;
    assert(n == (if inward { 5int } else { 3int }) + (if code is Some { 1int } else { 0 }));
    lemma_slot_places32(e, t, n);
    law_frames_read_back(e, 32, vals, 0, t);
    law_frames_read_back(e, 32, vals, 1, t);
    law_frames_read_back(e, 32, vals, 2, t);
    if n > 3 {
        law_frames_read_back(e, 32, vals, 3, t);
    }
    if n > 4 {
        law_frames_read_back(e, 32, vals, 4, t);
    }
    if n > 5 {
        law_frames_read_back(e, 32, vals, 5, t);
    }
}

/// The tables a protected-mode interrupt goes by have translations.
pub open spec fn tables_mapped(s: State, vector: u8) -> bool {
    let at = beyond(s.idt_base, 8 * vector);
    &&& all_mapped(s, at, 8)
    &&& all_mapped(s, descriptor_at(s, number_at(s, beyond(at, 2), 2)), 8)
    &&& all_mapped(s, beyond(s.tr_base, 4), 8)
    &&& all_mapped(s, beyond(s.tr_base, 8), 8)
}

/// The stack registers once a protected-mode gate has been passed.
proof fn lemma_entry(s: State, gate: crate::instructions::interrupt::Gate)
    requires
        s.regs.len() == 16,
    ensures
        ({
            let e = s.gate_entered32(gate);
            &&& e.reg32(4) == if s.switches(gate) {
                s.counted_switch().tss_stack0().1
            } else {
                s.reg32(4)
            }
            &&& e.ss == if s.switches(gate) { s.counted_switch().tss_stack0().0 } else { s.ss }
            &&& e.regs.len() == 16
        }),
{
    reveal(State::load_seg);
    lemma_fields8(4);
    crate::laws::fields::lemma_narrow(s.counted_switch().tss_stack0().1 as u64);
}

/// Where the slots of a 32-bit frame are.
proof fn lemma_slot_places32(e: State, t: State, n: int)
    requires
        e.pe,
        !e.long64(),
        n <= 6,
        t.pe == e.pe,
        t.long64() == e.long64(),
        t.ss == e.ss,
        t.seg_desc == e.seg_desc,
        t.reg32(4) == e.reg32(4).wrapping_sub((n * 4) as u32),
        n >= 3,
    ensures
        ({
            let top = e.reg32(4) as int;
            let slot = |k: int| t.linear_addr(SegReg::Ss, ((top - k) % 0x1_0000_0000) as u64);
            &&& e.slot_linear(32, 0) == slot(4)
            &&& e.slot_linear(32, 1) == slot(8)
            &&& e.slot_linear(32, 2) == slot(12)
            &&& e.slot_linear(32, 3) == slot(16)
            &&& e.slot_linear(32, 4) == slot(20)
            &&& e.slot_linear(32, 5) == slot(24)
            &&& t.reg32(4) == (top - 4 * n) % 0x1_0000_0000
        }),
{
    lemma_place32(e, t, 0);
    lemma_place32(e, t, 1);
    lemma_place32(e, t, 2);
    lemma_place32(e, t, 3);
    lemma_place32(e, t, 4);
    lemma_place32(e, t, 5);
    lemma_lower(e.reg32(4), (n * 4) as u32);
}

proof fn lemma_place32(e: State, t: State, i: int)
    requires
        e.pe,
        !e.long64(),
        0 <= i < 6,
        t.pe == e.pe,
        t.long64() == e.long64(),
        t.ss == e.ss,
        t.seg_desc == e.seg_desc,
    ensures
        e.slot_linear(32, i) == t.linear_addr(
            SegReg::Ss,
            ((e.reg32(4) - 4 * (i + 1)) % 0x1_0000_0000) as u64,
        ),
{
    lemma_lower(e.reg32(4), ((i + 1) * 4) as u32);
}

/// A double word some way down.
proof fn lemma_lower(x: u32, n: u32)
    ensures
        x.wrapping_sub(n) == (x - n) % 0x1_0000_0000,
{
}

} // verus!
