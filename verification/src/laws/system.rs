//! Laws of the system registers: segments, model-specific registers, the fast
//! system-call pair, and the interrupt flag.

use crate::cpu::address::Access;
use crate::cpu::{flags, msr, SegReg};
use crate::instructions::control::flags_written;
use crate::laws::bytes::stored;
use crate::modrm::ModRm;
use crate::state::State;
use vstd::prelude::*;

verus! {

// ---- Segments ----

/// In real mode a logical address is sixteen times the segment plus the
/// offset, wrapping at 1 MiB, for every segment register and every kind of
/// access.
pub proof fn law_real_mode_addresses_wrap(s: State, g: SegReg, offset: u16, access: Access)
    requires
        !s.pe,
        !s.long64(),
        !s.paging(),
    ensures
        s.linear_addr(g, offset as u64) == (s.seg(g) * 16 + offset) % 0x10_0000,
        s.translate(g, offset as u64, access).1 == crate::memory::phys_of(s.seg(g), offset),
        s.ip_linear() == crate::memory::phys_of(s.cs, s.ip),
{
    reveal(State::access);
    reveal(State::paged);
    lemma_narrow(offset as u64, s.linear_addr(g, offset as u64), 0);
}

/// Widths that lose nothing, and the indices of the registers used here.
proof fn lemma_narrow(offset: u64, linear: u64, word: u32)
    ensures
        offset < 0x1_0000 ==> offset as u32 == offset,
        linear < 0x10_0000 ==> linear as u32 == linear,
        (word as u64) as u32 == word,
        1u8 & 15 == 1,
        4u8 & 15 == 4,
        11u8 & 15 == 11,
{
    crate::laws::fields::lemma_fields8(1);
    crate::laws::fields::lemma_fields8(4);
    crate::laws::fields::lemma_fields8(11);
}

/// 64-bit code has no segment bases but those of FS and GS.
pub proof fn law_64_bit_code_is_flat(s: State, g: SegReg, offset: u64)
    requires
        s.long64(),
    ensures
        g != SegReg::Fs && g != SegReg::Gs ==> s.linear_addr(g, offset) == offset,
        s.linear_addr(SegReg::Fs, offset) == s.fs_base.wrapping_add(offset),
        s.linear_addr(SegReg::Gs, offset) == s.gs_base.wrapping_add(offset),
        s.ip_linear() == s.rip,
{
}

/// Loading a segment register in real mode sets that register and nothing
/// else.
pub proof fn law_real_mode_segments_are_plain(s: State, g: SegReg, v: u16)
    requires
        !s.pe,
        g != SegReg::Cs,
    ensures
        s.load_seg(g, v) == s.with_seg(g, v),
{
    reveal(State::load_seg);
}

// ---- Model-specific registers ----

/// Is a model-specific register one that keeps what is written to it, whole?
pub open spec fn keeps(index: u32) -> bool {
    ||| index == msr::STAR
    ||| index == msr::LSTAR
    ||| index == msr::CSTAR
    ||| index == msr::SFMASK
    ||| index == msr::FS_BASE
    ||| index == msr::GS_BASE
    ||| index == msr::KERNEL_GS_BASE
    ||| index == msr::SYSENTER_CS
    ||| index == msr::SYSENTER_ESP
    ||| index == msr::SYSENTER_EIP
}

/// A model-specific register reads back what was written to it, and a write to
/// one leaves the others alone.
pub proof fn law_msrs_read_back(s: State, index: u32, v: u64, other: u32)
    ensures
        keeps(index) ==> s.write_msr(index, v).read_msr(index) == v,
        other != index ==> s.write_msr(index, v).read_msr(other) == s.read_msr(other),
{
    reveal(State::write_msr);
}

/// A register the CPU does not keep reads as zero and swallows writes, so that
/// probing for a feature does not fault.
pub proof fn law_unknown_msrs_are_quiet(s: State, index: u32, v: u64)
    requires
        !keeps(index),
        index != msr::EFER,
    ensures
        s.read_msr(index) == 0,
        s.write_msr(index, v) == s,
{
    reveal(State::write_msr);
}

// ---- The interrupt flag ----

/// While IF is clear no hardware interrupt is delivered: the devices may be
/// looked at, and the processor stays where it is.
pub proof fn law_masked_interrupts_wait(s: State)
    requires
        !s.flag(flags::IF),
    ensures
        ({
            let (t, delivered) = s.hardware();
            &&& !delivered
            &&& t == (State {
                pit: t.pit,
                pit_subsecond: t.pit_subsecond,
                cmos: t.cmos,
                pic: t.pic,
                kbd: t.kbd,
                ide: t.ide,
                ..s
            })
        }),
{
    reveal(State::hardware);
    reveal(State::clocked);
    reveal(State::timer_latched);
    reveal(State::key_latched);
    reveal(State::disk_latched);
}

// ---- System calls ----

/// SWAPGS is its own inverse.
pub proof fn law_swapgs_twice(s: State)
    requires
        s.long64(),
    ensures
        s.swapgs().swapgs() == s,
{
}

/// SYSCALL does not switch stacks, and leaves where it came from in RCX and
/// R11.
pub proof fn law_syscall_keeps_the_stack(s: State)
    requires
        s.efer & crate::cpu::efer::SCE != 0,
        s.regs.len() == 16,
    ensures
        s.syscall().reg64(4) == s.reg64(4),
        s.syscall().rip == s.lstar,
        s.syscall().reg64(1) == s.rip,
        s.syscall().reg64(11) == s.flags,
{
    reveal(State::syscall);
    reveal(State::load_seg);
    lemma_narrow(0, 0, 0);
}

/// SYSRET takes the machine back to where SYSCALL left it, if the kernel kept
/// RCX and R11: the instruction pointer and every writable flag are the
/// caller's.
pub proof fn law_sysret_undoes_syscall(s: State, kernel: State)
    requires
        s.efer & crate::cpu::efer::SCE != 0,
        s.regs.len() == 16,
        kernel.regs.len() == 16,
        kernel.reg64(1) == s.syscall().reg64(1),
        kernel.reg64(11) == s.syscall().reg64(11),
    ensures
        kernel.sysret().rip == s.rip,
        kernel.sysret().flags == flags_written(kernel.flags, s.flags),
        kernel.sysret().regs == kernel.regs,
{
    law_syscall_keeps_the_stack(s);
    reveal(State::sysret);
    reveal(State::load_seg);
    lemma_narrow(0, 0, s.flags);
}

/// SYSCALL takes its segments from bits 32 to 47 of STAR: CS is that selector at
/// ring 0, SS the next one. The flags named in SFMASK are cleared.
pub proof fn law_syscall_takes_its_segments_from_star(s: State)
    requires
        s.efer & 1 != 0,
        s.regs.len() == 16,
    ensures
        ({
            let t = s.syscall();
            let word = (s.star as int / 0x1_0000_0000 % 0x1_0000) as u16;
            &&& t.cs == word & 0xFFFC
            &&& t.ss == ((word & 0xFFFC) + 8) % 0x1_0000
            &&& t.flags == (s.flags & !((s.sfmask % 0x1_0000_0000) as u32)) | 2
            &&& t.rip == s.lstar
        }),
{
    reveal(State::syscall);
    reveal(State::load_seg);
    crate::laws::fields::lemma_upper_words(s.star);
    crate::laws::fields::lemma_narrow(s.sfmask);
}

/// SYSRET takes its segments from bits 48 to 63 of STAR: CS is that selector, or
/// two further on for 64-bit code, SS the next one, both at ring 3.
pub proof fn law_sysret_takes_its_segments_from_star(s: State)
    ensures
        ({
            let t = s.sysret();
            let word = s.star as int / 0x1_0000_0000_0000;
            let code = ((word + (if s.pfx.rex_w { 16int } else { 0 })) % 0x1_0000) as u16;
            &&& t.cs == code | 3
            &&& t.ss == (((word + 8) % 0x1_0000) as u16) | 3
        }),
{
    reveal(State::sysret);
    reveal(State::load_seg);
    crate::laws::fields::lemma_upper_words(s.star);
}

/// LGDT and LIDT read a limit of two bytes and then a base, of eight bytes in
/// long mode and of four otherwise, from where their operand is.
pub proof fn law_table_registers_are_made_of_bytes(s: State, m: ModRm, phys: usize)
    requires
        ({
            let (a, p) = s.access(s.rm_linear(m), Access::Read);
            p == phys && !a.faulted()
        }),
        phys & 0xFFF <= 0xFF0,
        phys < 0xFFFF_FFF0,
    ensures
        ({
            let a = s.access(s.rm_linear(m), Access::Read).0;
            let n: int = if s.long_mode() { 8 } else { 4 };
            let limit = stored(a.mem, phys, 2);
            let base = stored(a.mem, (phys + 2) as usize, n);
            &&& s.lgdt(m) == (State { gdt_limit: limit as u16, gdt_base: base as u64, ..a })
            &&& s.lidt(m) == (State { idt_limit: limit as u16, idt_base: base as u64, ..a })
        }),
{
    reveal(State::table_operand);
    reveal(State::reach);
    reveal(crate::memory::MemView::span_read);
    let a = s.access(s.rm_linear(m), Access::Read).0;
    crate::laws::bytes::lemma_stored(a.mem, phys, 16);
    crate::laws::bytes::lemma_stored(a.mem, (phys + 2) as usize, 32);
    crate::laws::bytes::lemma_stored(a.mem, (phys + 2) as usize, 64);
    let n: u32 = if s.long_mode() { 10 } else { 6 };
    assert(s.reach(s.rm_linear(m), n, Access::Read) == (a, crate::cpu::span::Span::flat(phys)));
    assert(phys.wrapping_add(0) == phys && phys.wrapping_add(2) == phys + 2);
    let (u, limit, base) = s.table_operand(m);
    assert(u == a);
    assert(limit == stored(a.mem, phys, 2));
    assert(base == stored(a.mem, (phys + 2) as usize, if s.long_mode() { 8 } else { 4 }));
}

// ---- Control and debug registers ----

/// A control register reads back what was moved to it: CR2 and CR3 whole, of CR4
/// the low half, of the task priority, CR8, the low four bits.
pub proof fn law_control_registers_read_back(s: State, cr: u8, reg: u8)
    requires
        cr == 2 || cr == 3 || cr == 4 || cr == 8,
    ensures
        ({
            let t = s.mov_to_cr(cr, reg);
            let v = s.reg_w(reg, if s.long_mode() { 64 } else { 32 });
            &&& t.control(cr) == if cr == 4 {
                v % 0x1_0000_0000
            } else if cr == 8 {
                v % 16
            } else {
                v
            }
            &&& cr != 2 ==> t.cr2 == s.cr2
            &&& cr != 3 ==> t.cr3 == s.cr3
            &&& cr != 4 ==> t.cr4 == s.cr4
            &&& cr != 8 ==> t.cr8 == s.cr8
            &&& t.cr0 == s.cr0 && t.regs == s.regs
        }),
{
    reveal(State::mov_to_cr);
    reveal(State::flushed);
    let v = s.reg_w(reg, if s.long_mode() { 64 } else { 32 });
    crate::laws::fields::lemma_narrow(v);
    crate::laws::fields::lemma_nibble(v);
}

/// A debug register reads back what was moved to it, and the others stay.
pub proof fn law_debug_registers_read_back(s: State, dr: u8, reg: u8, k: int)
    requires
        s.dr.len() == 8,
        0 <= k < 8,
        dr < 8,
    ensures
        s.mov_to_dr(dr, reg).dr[k] == if k == dr {
            s.reg_w(reg, if s.long_mode() { 64 } else { 32 })
        } else {
            s.dr[k]
        },
{
    crate::laws::fields::lemma_fields8(dr);
}

/// EDX:EAX is a number of 64 bits with EDX on top.
pub proof fn law_pairs_are_wide_numbers(s: State, v: u64)
    requires
        s.regs.len() == 16,
        !s.faulted(),
    ensures
        s.pair() == s.regs[0] as int % 0x1_0000_0000 + 0x1_0000_0000 * (s.regs[2] as int
            % 0x1_0000_0000),
        s.with_pair(v).regs[0] == v % 0x1_0000_0000,
        s.with_pair(v).regs[2] == v / 0x1_0000_0000,
{
    reveal(State::with_pair);
    reveal(State::set_reg32);
    crate::laws::fields::lemma_fields8(0);
    crate::laws::fields::lemma_fields8(2);
    crate::laws::fields::lemma_narrow(s.regs[0]);
    crate::laws::fields::lemma_narrow(s.regs[2]);
    crate::laws::fields::lemma_narrow(v);
    crate::laws::fields::lemma_nibble(v);
    crate::laws::fields::lemma_joined(
        0,
        0,
        0,
        0,
        s.regs[0] as u32,
        s.regs[2] as u32,
        0,
        0,
    );
}

} // verus!
