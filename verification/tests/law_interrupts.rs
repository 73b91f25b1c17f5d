//! The laws of interrupts, segments, system registers, shifts and string
//! restarts on concrete values.

use x86emu::boot::load_flat64;
use x86emu::cpu::{flags, msr, Cpu, SegReg};
use x86emu::instructions::{execute, Inst, ShiftOp};
use x86emu::memory::Memory;
use x86emu::protected::Descriptor;

fn long_cpu(code: &[u8]) -> Cpu {
    let mut cpu = Cpu::with_ram(0x400_0000);
    load_flat64(&mut cpu, code, 0x20_0000).unwrap();
    cpu
}

/// A protected-mode machine: a GDT at 0x5000 with ring-0 code at 0x08, data at
/// 0x10 and ring-3 code and data at 0x1B and 0x23, an IDT at 0x6000, and a TSS
/// at 0x7000 with the ring-0 stack 0x10:0x90000.
fn ring_cpu(user: bool, gate_type: u64) -> Cpu {
    let mut cpu = Cpu::with_ram(0x100_0000);
    cpu.mem.write_u64(0x5008, 0x00CF_9A00_0000_FFFF);
    cpu.mem.write_u64(0x5010, 0x00CF_9200_0000_FFFF);
    cpu.mem.write_u64(0x5018, 0x00CF_FA00_0000_FFFF);
    cpu.mem.write_u64(0x5020, 0x00CF_F200_0000_FFFF);
    cpu.gdt_base = 0x5000;
    cpu.gdt_limit = 0x27;
    // Vector 0x40 leads to 0x08:0x00012345.
    cpu.mem.write_u64(0x6000 + 0x40 * 8, 0x0001_0000_0008_2345 | ((0xE0 | gate_type) << 40));
    cpu.mem.write_u64(0x6000 + 0x06 * 8, 0x0001_0000_0008_2345 | ((0xE0 | gate_type) << 40));
    cpu.mem.write_u64(0x6000 + 0x0D * 8, 0x0001_0000_0008_2345 | ((0xE0 | gate_type) << 40));
    cpu.idt_base = 0x6000;
    cpu.idt_limit = 0x7FF;
    cpu.mem.write_u32(0x7004, 0x9_0000);
    cpu.mem.write_u16(0x7008, 0x10);
    cpu.tr_base = 0x7000;
    cpu.tr_limit = 0x67;
    cpu.write_cr0(1);
    let (cs, ss) = if user { (0x1B, 0x23) } else { (0x08, 0x10) };
    cpu.load_seg(SegReg::Cs, cs);
    cpu.load_seg(SegReg::Ss, ss);
    cpu.set_eip(0x4_0000);
    cpu.set_esp(0x8_0000);
    cpu.flags = 0x0000_0A03 | flags::IF;
    cpu
}

// ---- Interrupts ----

#[test]
fn gate_types_are_honoured() {
    let mut cpu = ring_cpu(false, 0xE);
    execute(&mut cpu, &Inst::Int { vector: 0x40 });
    assert!(!cpu.get_flag(flags::IF));
    let mut cpu = ring_cpu(false, 0xF);
    execute(&mut cpu, &Inst::Int { vector: 0x40 });
    assert!(cpu.get_flag(flags::IF));
}

#[test]
fn iretd_undoes_an_interrupt_within_a_ring() {
    let mut cpu = ring_cpu(false, 0xE);
    let word = cpu.flags;
    execute(&mut cpu, &Inst::Int { vector: 0x40 });
    assert_eq!((cpu.cs, cpu.eip(), cpu.esp()), (0x08, 0x1_2345, 0x7_FFF4));
    execute(&mut cpu, &Inst::Iret32);
    assert_eq!((cpu.cs, cpu.eip(), cpu.esp(), cpu.ss), (0x08, 0x4_0000, 0x8_0000, 0x10));
    assert_eq!(cpu.flags, word);
}

#[test]
fn an_outer_ring_switches_stacks_and_comes_back() {
    let mut cpu = ring_cpu(true, 0xE);
    let word = cpu.flags;
    execute(&mut cpu, &Inst::Int { vector: 0x40 });
    assert_eq!((cpu.cs, cpu.ss, cpu.esp()), (0x08, 0x10, 0x9_0000 - 20));
    assert_eq!(cpu.mem.read_u32(0x8_FFFC), 0x23);
    assert_eq!(cpu.mem.read_u32(0x8_FFF8), 0x8_0000);
    assert_eq!(cpu.mem.read_u32(0x8_FFF4), word);
    assert_eq!(cpu.mem.read_u32(0x8_FFF0), 0x1B);
    assert_eq!(cpu.mem.read_u32(0x8_FFEC), 0x4_0000);
    execute(&mut cpu, &Inst::Iret32);
    assert_eq!((cpu.cs, cpu.eip(), cpu.esp(), cpu.ss), (0x1B, 0x4_0000, 0x8_0000, 0x23));
    assert_eq!(cpu.flags, word);
}

#[test]
fn a_protected_mode_fault_reports_the_faulting_instruction() {
    let mut cpu = ring_cpu(false, 0xE);
    cpu.rip_start = 0x3_FFF0;
    cpu.dispatch_exception(0x0D, Some(0x77));
    assert_eq!(cpu.esp(), 0x8_0000 - 16);
    assert_eq!(cpu.mem.read_u32(0x7_FFF0), 0x77);
    assert_eq!(cpu.mem.read_u32(0x7_FFF4), 0x3_FFF0);
    // A trap reports the next instruction, without an error code.
    let mut cpu = ring_cpu(false, 0xE);
    cpu.mem.write_u64(0x6000 + 3 * 8, 0x0001_EE00_0008_2345);
    cpu.rip_start = 0x3_FFF0;
    cpu.dispatch_exception(3, None);
    assert_eq!(cpu.mem.read_u32(cpu.esp() as usize), 0x4_0000);
}

#[test]
fn iret_undoes_a_real_mode_interrupt() {
    let mut cpu = Cpu::with_ram(0x10_0000);
    cpu.cs = 0x100;
    cpu.ip = 0x23;
    cpu.ss = 0x800;
    // The frame wraps at the bottom of the stack segment.
    cpu.set_sp(3);
    cpu.flags = 0x0203;
    cpu.mem.write_u16(0x60 * 4, 0x1111);
    cpu.mem.write_u16(0x60 * 4 + 2, 0x2222);
    execute(&mut cpu, &Inst::Int { vector: 0x60 });
    assert_eq!((cpu.cs, cpu.ip, cpu.sp()), (0x2222, 0x1111, 0xFFFD));
    assert!(!cpu.get_flag(flags::IF));
    execute(&mut cpu, &Inst::Iret);
    assert_eq!((cpu.cs, cpu.ip, cpu.sp(), cpu.flags), (0x100, 0x23, 3, 0x0203));
}

#[test]
fn ret_undoes_call() {
    // call +0x10 ; the target returns
    let mut cpu = long_cpu(&[0xE8, 0x10, 0x00, 0x00, 0x00]);
    cpu.mem.write_u8(0x20_0015, 0xC3);
    let rsp = cpu.rsp();
    cpu.step();
    assert_eq!((cpu.rip, cpu.rsp()), (0x20_0015, rsp - 8));
    cpu.step();
    assert_eq!((cpu.rip, cpu.rsp()), (0x20_0005, rsp));
}

#[test]
fn masked_interrupts_wait() {
    let mut cpu = Cpu::with_ram(0x10_0000);
    cpu.pic.raise_irq(1);
    cpu.pic.write_data(0x21, 0);
    cpu.set_flag(flags::IF, false);
    assert!(!cpu.deliver_hardware_interrupt());
    assert_eq!((cpu.cs, cpu.ip), (0, 0));
    cpu.set_flag(flags::IF, true);
    assert!(cpu.deliver_hardware_interrupt());
}

// ---- Segments and system registers ----

#[test]
fn real_mode_addresses_wrap_at_one_mebibyte() {
    let mut cpu = Cpu::with_ram(0x20_0000);
    cpu.ds = 0xFFFF;
    cpu.mem.write_u8(0x0_0010, 0x5A);
    cpu.mem.write_u8(0x10_0010, 0xA5);
    assert_eq!(cpu.linear_addr(SegReg::Ds, 0x20), 0x10);
    assert_eq!(cpu.translate(SegReg::Ds, 0x20), Memory::phys(0xFFFF, 0x20));
    // mov al, [0x20]
    cpu.ip = 0x1000;
    cpu.mem.load(0x1000, &[0xA0, 0x20, 0x00]);
    cpu.step();
    assert_eq!(cpu.reg8_idx(0), 0x5A);
    // And so does the instruction stream.
    cpu.cs = 0xFFFF;
    cpu.ip = 0x0810;
    cpu.mem.load(0x0800, &[0xB0, 0x77]);
    cpu.step();
    assert_eq!(cpu.reg8_idx(0), 0x77);
}

#[test]
fn sixty_four_bit_code_is_flat() {
    let mut cpu = long_cpu(&[0xF4]);
    cpu.seg_desc[3] = Descriptor { base: 0x1000, limit: 0, attr: 0x92, g: false, d_b: false, l: false };
    cpu.fs_base = 0x5000;
    assert_eq!(cpu.linear_addr(SegReg::Ds, 0x1234_5678_9ABC), 0x1234_5678_9ABC);
    assert_eq!(cpu.linear_addr(SegReg::Fs, 0x10), 0x5010);
}

#[test]
fn msrs_read_back_and_unknown_ones_are_quiet() {
    let mut cpu = Cpu::with_ram(0x10_0000);
    cpu.write_msr(msr::LSTAR, 0x1234_5678_9ABC_DEF0);
    cpu.write_msr(msr::SYSENTER_EIP, 7);
    assert_eq!(cpu.read_msr(msr::LSTAR), 0x1234_5678_9ABC_DEF0);
    assert_eq!(cpu.read_msr(msr::SYSENTER_EIP), 7);
    cpu.write_msr(0x1B, 0xFEE0_0900);
    assert_eq!(cpu.read_msr(0x1B), 0);
}

#[test]
fn sysret_undoes_syscall() {
    let mut cpu = long_cpu(&[0x0F, 0x05]);
    cpu.lstar = 0x30_0000;
    cpu.star = (0x08u64 << 32) | (0x08u64 << 48);
    cpu.sfmask = 0x200;
    cpu.flags = 0x0000_0AD7;
    // sysretq
    cpu.mem.load(0x30_0000, &[0x48, 0x0F, 0x07]);
    cpu.step();
    assert_eq!(cpu.rip, 0x30_0000);
    assert!(!cpu.get_flag(flags::IF));
    cpu.step();
    assert_eq!(cpu.rip, 0x20_0002);
    assert_eq!(cpu.flags, 0x0000_0AD7);
}

// ---- Counters ----

#[test]
fn every_step_counts() {
    let mut cpu = Cpu::with_ram(0x10_0000);
    cpu.ip = 0x1000;
    cpu.mem.load(0x1000, &[0x40, 0x0F, 0x31, 0x90, 0xF4]);
    cpu.tsc = 100;
    assert_eq!(cpu.run(3), 3);
    assert_eq!((cpu.tsc, cpu.instructions_executed), (103, 3));
    // RDTSC read the counter as it was when the second step began.
    assert_eq!((cpu.eax(), cpu.edx()), (101, 0));
}

#[test]
fn reserved_flags_stay_in_order() {
    // popf with every bit set, then with none
    let mut cpu = Cpu::with_ram(0x10_0000);
    cpu.ip = 0x1000;
    cpu.mem.load(0x1000, &[0x6A, 0xFF, 0x9D, 0x6A, 0x00, 0x9D]);
    cpu.set_sp(0x8000);
    cpu.run(2);
    assert_eq!(cpu.flags & 0x802A, 2);
    cpu.run(2);
    assert_eq!(cpu.flags & 0x802A, 2);
}

// ---- Shifts ----

#[test]
fn shifts_are_arithmetic() {
    let mut cpu = Cpu::with_ram(0x10_0000);
    assert_eq!(cpu.shift_width(ShiftOp::Shl, 0x1234, 5, 16), (0x1234 * 32) % 0x1_0000);
    assert_eq!(cpu.shift_width(ShiftOp::Shr, 0x1234, 5, 16), 0x1234 / 32);
    // -77 / 8, rounded down, is -10.
    assert_eq!(cpu.shift_width(ShiftOp::Sar, 0xB3, 3, 8), 0xF6);
    // Past the width only the sign is left.
    assert_eq!(cpu.shift_width(ShiftOp::Sar, 0xB3, 20, 8), 0xFF);
    assert_eq!(cpu.shift_width(ShiftOp::Shl, u64::MAX, 60, 64), 0xF000_0000_0000_0000);
}

#[test]
fn rcr_undoes_rcl() {
    for (w, v) in [(8u32, 0xA5u64), (16, 0x8001), (32, 0xDEAD_BEEF), (64, 0x8000_0000_0000_0001)] {
        for count in [1u32, 3, 7, 9, 31] {
            for carry in [false, true] {
                let mut cpu = Cpu::with_ram(0x10_0000);
                cpu.set_flag(flags::CF, carry);
                let r = cpu.shift_width(ShiftOp::Rcl, v, count, w);
                assert_eq!(cpu.shift_width(ShiftOp::Rcr, r, count, w), v);
                assert_eq!(cpu.get_flag(flags::CF), carry);
            }
        }
    }
}

// ---- Strings ----

#[test]
fn string_scans_stop_at_the_element_that_faults() {
    // Page 0x301 is not there; the scans run into it after two double words.
    for code in [[0xF3u8, 0xAD], [0xF3, 0xA7], [0xF2, 0xAF]] {
        let mut cpu = Cpu::with_ram(0x100_0000);
        for i in 0..1024u32 {
            cpu.mem.write_u32(0x3000 + (i as usize) * 4, (i << 12) | 7);
        }
        cpu.mem.write_u32(0x3000 + 0x301 * 4, 0);
        cpu.mem.write_u32(0x2000, 0x3007);
        cpu.cr3 = 0x2000;
        cpu.pe = true;
        cpu.cs = 0x08;
        for s in 0..6 {
            cpu.seg_desc[s] = Descriptor { base: 0, limit: 0xFFFF_FFFF, attr: 0x9A, g: true, d_b: true, l: false };
        }
        cpu.write_cr0(0x8000_0001);
        cpu.set_eip(0x10_0000);
        cpu.mem.load(0x10_0000, &code);
        cpu.set_esi(0x30_0FF8);
        cpu.set_edi(0x30_0FF8);
        cpu.set_ecx(9);
        cpu.set_eax(1);
        cpu.step();
        assert_eq!(cpu.pending_exception, Some((0x0E, Some(0))));
        assert_eq!(cpu.ecx(), 7);
        if code[1] != 0xAF {
            assert_eq!(cpu.esi(), 0x30_1000);
        }
        if code[1] != 0xAD {
            assert_eq!(cpu.edi(), 0x30_1000);
        }
    }
}
