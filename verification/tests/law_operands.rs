//! Operands on concrete values: the segment, width and pages of each.

use x86emu::boot::{load_flat64, parse_bzimage, BootError};
use x86emu::cpu::{flags, Cpu, SegReg};
use x86emu::fpu::Fpu;
use x86emu::instructions::{decode, execute, Inst};
use x86emu::memory::Memory;
use x86emu::paging::pte;
use x86emu::protected::Descriptor;

fn long_cpu(code: &[u8]) -> Cpu {
    let mut cpu = Cpu::with_ram(0x400_0000);
    load_flat64(&mut cpu, code, 0x20_0000).unwrap();
    cpu
}

/// Linear 0x40_0000 and 0x40_1000 map to the unrelated pages 0x70_0000 and
/// 0x90_0000; the rest of that table is not present.
fn split_cpu(code: &[u8]) -> Cpu {
    let mut cpu = long_cpu(code);
    for i in 0..512 {
        cpu.mem.write_u64(0xA000 + i * 8, 0);
    }
    cpu.mem.write_u64(0xA000, 0x70_0000 | pte::P | pte::RW);
    cpu.mem.write_u64(0xA008, 0x90_0000 | pte::P | pte::RW);
    cpu.mem.write_u64(0x4000 + 2 * 8, 0xA000 | pte::P | pte::RW);
    cpu.flush_tlb();
    cpu
}

/// Write bytes to the two pages behind linear 0x40_0000 + `at`.
fn spread(cpu: &mut Cpu, at: usize, bytes: &[u8]) {
    for (i, b) in bytes.iter().enumerate() {
        let a = at + i;
        let phys = if a < 0x1000 { 0x70_0000 + a } else { 0x90_0000 + a - 0x1000 };
        cpu.mem.write_u8(phys, *b);
    }
}

/// Read bytes from the two pages behind linear 0x40_0000 + `at`.
fn gathered(cpu: &Cpu, at: usize, n: usize) -> Vec<u8> {
    (at..at + n)
        .map(|a| {
            let phys = if a < 0x1000 { 0x70_0000 + a } else { 0x90_0000 + a - 0x1000 };
            cpu.mem.read_u8(phys)
        })
        .collect()
}

/// A flat 32-bit protected-mode machine without paging.
fn flat32(code: &[u8]) -> Cpu {
    let mut cpu = Cpu::with_ram(0x100_0000);
    cpu.pe = true;
    cpu.cs = 0x08;
    for s in 0..6 {
        cpu.seg_desc[s] =
            Descriptor { base: 0, limit: 0xFFFF_FFFF, attr: 0x9A, g: true, d_b: true, l: false };
    }
    cpu.set_eip(0x10_0000);
    cpu.set_esp(0x20_0000);
    cpu.mem.load(0x10_0000, code);
    cpu
}

// ---- Segments and widths ----

#[test]
fn moffs_stores_honour_a_segment_override() {
    // mov gs:[0x1234], al ; mov gs:[0x1236], ax
    let mut cpu = flat32(&[
        0x65, 0xA2, 0x34, 0x12, 0x00, 0x00, 0x65, 0x66, 0xA3, 0x36, 0x12, 0x00, 0x00,
    ]);
    cpu.seg_desc[SegReg::Gs as usize].base = 0x40_0000;
    cpu.set_eax(0xCAFE);
    cpu.step();
    cpu.step();
    assert_eq!(cpu.mem.read_u8(0x40_1234), 0xFE);
    assert_eq!(cpu.mem.read_u16(0x40_1236), 0xCAFE);
    assert_eq!(cpu.mem.read_u32(0x1234), 0);
}

#[test]
fn moffs_addresses_are_as_wide_as_the_address_size() {
    // mov al, [0x0000000000400010] ; mov [0x0000000000400011], al
    let mut cpu = long_cpu(&[
        0xA0, 0x10, 0, 0x40, 0, 0, 0, 0, 0, 0xA2, 0x11, 0, 0x40, 0, 0, 0, 0, 0, 0xF4,
    ]);
    cpu.mem.write_u8(0x40_0010, 0x5A);
    cpu.run(8);
    assert!(cpu.halted);
    assert_eq!(cpu.mem.read_u8(0x40_0011), 0x5A);
    let mut cpu = long_cpu(&[0xA0, 1, 2, 3, 4, 5, 6, 7, 8]);
    assert!(matches!(decode(&mut cpu), Inst::MovAccMem8Addr64 { addr: 0x0807_0605_0403_0201 }));
    let mut cpu = long_cpu(&[0x67, 0xA2, 1, 2, 3, 4]);
    assert!(matches!(decode(&mut cpu), Inst::MovMem8AccAddr32 { addr: 0x0403_0201 }));
}

#[test]
fn the_loop_count_follows_the_address_size() {
    // 67 E0: LOOP in 32-bit code with 16-bit addressing counts CX.
    let mut cpu = flat32(&[0x67, 0xE0, 0x10]);
    cpu.set_ecx(0x0001_0001);
    cpu.step();
    assert_eq!(cpu.ecx(), 0x0001_0000);
    assert_eq!(cpu.eip(), 0x10_0003);
    // JCXZ with 32-bit addressing looks at all of ECX.
    let mut cpu = flat32(&[0xE3, 0x10]);
    cpu.set_ecx(0x0001_0000);
    cpu.step();
    assert_eq!(cpu.eip(), 0x10_0002);
    let mut cpu = flat32(&[0x67, 0xE3, 0x10]);
    cpu.set_ecx(0x0001_0000);
    cpu.step();
    assert_eq!(cpu.eip(), 0x10_0013);
}

#[test]
fn a_loop_in_64_bit_code_moves_the_whole_of_rip() {
    // 67 E0: ECX counts, but the branch is one of RIP.
    let mut cpu = long_cpu(&[0x67, 0xE0, 0x10]);
    cpu.regs[1] = 0xFFFF_FFFF_0000_0002;
    let inst = decode(&mut cpu);
    cpu.rip = 0x1234_0020_0003;
    execute(&mut cpu, &inst);
    assert_eq!(cpu.regs[1], 1);
    assert_eq!(cpu.rip, 0x1234_0020_0013);
}

#[test]
fn the_opcode_fixes_the_width_of_an_fpu_integer() {
    // 16-bit code: fild dword [0x1000] ; fistp dword [0x2000]
    let mut cpu = Cpu::new();
    cpu.cs = 0;
    cpu.ip = 0x100;
    cpu.mem.load(0x100, &[0xDB, 0x06, 0x00, 0x10, 0xDB, 0x1E, 0x00, 0x20]);
    cpu.mem.write_u32(0x1000, 0x0001_0000);
    cpu.step();
    cpu.step();
    assert_eq!(cpu.mem.read_u32(0x2000), 0x0001_0000);
    // 32-bit code: fild word [0x1000] ; fistp word [0x2000]
    let mut cpu = flat32(&[
        0xDF, 0x05, 0x00, 0x10, 0x00, 0x00, 0xDF, 0x1D, 0x00, 0x20, 0x00, 0x00,
    ]);
    cpu.mem.write_u32(0x1000, 0x7777_FFFE);
    cpu.mem.write_u32(0x2000, 0x5555_5555);
    cpu.step();
    assert_eq!(f64::from_bits(cpu.fpu.st_i(0)), -2.0);
    cpu.step();
    assert_eq!(cpu.mem.read_u32(0x2000), 0x5555_FFFE);
}

#[test]
fn retf_in_compatibility_mode_pops_32_bit_words() {
    let mut cpu = long_cpu(&[0xF4]);
    let g = x86emu::boot::GDT64_ADDR as usize;
    cpu.mem.write_u64(g + 0x18, 0x00CF_9A00_0000_FFFF);
    cpu.gdt_limit = 0x1F;
    cpu.load_seg(SegReg::Cs, 0x18);
    cpu.set_esp(0x30_0000);
    cpu.mem.write_u32(0x30_0000, 0x12_3456);
    cpu.mem.write_u32(0x30_0004, 0x18);
    execute(&mut cpu, &Inst::Retf32);
    assert_eq!((cpu.rip, cpu.cs, cpu.esp()), (0x12_3456, 0x18, 0x30_0008));
    // 64-bit code pops 64-bit ones.
    let mut cpu = long_cpu(&[0xF4]);
    cpu.set_rsp(0x30_0000);
    cpu.mem.write_u64(0x30_0000, 0x1234_5678_9ABC);
    cpu.mem.write_u64(0x30_0008, 0x08);
    execute(&mut cpu, &Inst::Retf32);
    assert_eq!((cpu.rip, cpu.cs, cpu.rsp()), (0x1234_5678_9ABC, 0x08, 0x30_0010));
}

// ---- Operands on two pages ----

#[test]
fn string_comparisons_cross_pages() {
    // cmpsq, scasq
    let mut cpu = split_cpu(&[0x48, 0xA7, 0x48, 0xAF]);
    spread(&mut cpu, 0xFFC, &[1, 2, 3, 4, 5, 6, 7, 8]);
    cpu.mem.write_u64(0x30_0000, 0x0807_0605_0403_0201);
    cpu.regs[6] = 0x30_0000;
    cpu.regs[7] = 0x40_0FFC;
    cpu.step();
    assert!(cpu.get_flag(flags::ZF));
    cpu.regs[0] = 0x0807_0605_0403_0201;
    cpu.regs[7] = 0x40_0FFC;
    cpu.step();
    assert!(cpu.get_flag(flags::ZF));
    // Off the end of what is mapped it is the second page that faults.
    let mut cpu = split_cpu(&[0x48, 0xAF]);
    cpu.regs[7] = 0x40_1FFC;
    cpu.step();
    assert_eq!(cpu.cr2, 0x40_2000);
}

#[test]
fn moffs_operands_cross_pages() {
    // movabs [0x400FFD], eax ; movabs eax, [0x400FFE]
    let mut cpu = split_cpu(&[
        0xA3, 0xFD, 0x0F, 0x40, 0, 0, 0, 0, 0, 0xA1, 0xFE, 0x0F, 0x40, 0, 0, 0, 0, 0,
    ]);
    cpu.regs[0] = 0x4433_2211;
    cpu.step();
    assert_eq!(gathered(&cpu, 0xFFD, 5), vec![0x11, 0x22, 0x33, 0x44, 0]);
    assert_eq!(cpu.mem.read_u8(0x70_1000), 0);
    cpu.step();
    assert_eq!(cpu.regs[0], 0x0044_3322);
}

#[test]
fn far_pointers_cross_pages() {
    // lss eax, [0x400FFD]
    let mut cpu = split_cpu(&[0x0F, 0xB2, 0x04, 0x25, 0xFD, 0x0F, 0x40, 0x00]);
    spread(&mut cpu, 0xFFD, &[0x11, 0x22, 0x33, 0x44, 0x10, 0x00]);
    cpu.step();
    assert_eq!(cpu.regs[0], 0x4433_2211);
    assert_eq!(cpu.ss, 0x10);
}

#[test]
fn cmpxchg8b_crosses_pages() {
    // cmpxchg8b [0x400FFA]
    let mut cpu = split_cpu(&[0x0F, 0xC7, 0x0C, 0x25, 0xFA, 0x0F, 0x40, 0x00]);
    spread(&mut cpu, 0xFFA, &[1, 2, 3, 4, 5, 6, 7, 8]);
    cpu.set_eax(0x0403_0201);
    cpu.set_edx(0x0807_0605);
    cpu.set_ebx(0x1413_1211);
    cpu.set_ecx(0x1817_1615);
    cpu.step();
    assert!(cpu.get_flag(flags::ZF));
    assert_eq!(
        gathered(&cpu, 0xFFA, 8),
        vec![0x11, 0x12, 0x13, 0x14, 0x15, 0x16, 0x17, 0x18]
    );
}

#[test]
fn table_operands_cross_pages_or_store_nothing() {
    // sidt [0x400FF9] ; lidt [0x400FF9]
    let mut cpu = split_cpu(&[
        0x0F, 0x01, 0x0C, 0x25, 0xF9, 0x0F, 0x40, 0x00, 0x0F, 0x01, 0x1C, 0x25, 0xF9, 0x0F, 0x40,
        0x00,
    ]);
    cpu.idt_base = 0x1122_3344_5566_7788;
    cpu.idt_limit = 0xABC;
    cpu.step();
    assert_eq!(
        gathered(&cpu, 0xFF9, 10),
        vec![0xBC, 0x0A, 0x88, 0x77, 0x66, 0x55, 0x44, 0x33, 0x22, 0x11]
    );
    cpu.idt_base = 0;
    cpu.idt_limit = 0;
    cpu.step();
    assert_eq!((cpu.idt_base, cpu.idt_limit), (0x1122_3344_5566_7788, 0xABC));
    // With the second page missing not even the limit is written.
    let mut cpu = split_cpu(&[0x0F, 0x01, 0x0C, 0x25, 0xF9, 0x1F, 0x40, 0x00]);
    cpu.idt_limit = 0xABC;
    let inst = decode(&mut cpu);
    execute(&mut cpu, &inst);
    assert_eq!(cpu.cr2, 0x40_2000);
    assert_eq!(cpu.mem.read_u16(0x90_0FF9), 0);
}

#[test]
fn fpu_operands_cross_pages() {
    // fld qword [0x300000] ; fst qword [0x400FFB] ; fld qword [0x400FFB]
    let mut cpu = split_cpu(&[
        0xDD, 0x04, 0x25, 0x00, 0x00, 0x30, 0x00, 0xDD, 0x14, 0x25, 0xFB, 0x0F, 0x40, 0x00, 0xDD,
        0x04, 0x25, 0xFB, 0x0F, 0x40, 0x00,
    ]);
    let bits = 1234.5678f64.to_bits();
    cpu.mem.write_u64(0x30_0000, bits);
    cpu.step();
    cpu.step();
    assert_eq!(gathered(&cpu, 0xFFB, 8), bits.to_le_bytes().to_vec());
    cpu.step();
    assert_eq!(cpu.fpu.st_i(0), bits);
    assert_eq!(cpu.fpu.st_i(1), bits);
}

#[test]
fn the_fxsave_area_crosses_pages_or_is_not_written() {
    // fxsave [0x400FC0] ; fxrstor [0x400FC0]
    let mut cpu = split_cpu(&[
        0x0F, 0xAE, 0x04, 0x25, 0xC0, 0x0F, 0x40, 0x00, 0x0F, 0xAE, 0x0C, 0x25, 0xC0, 0x0F, 0x40,
        0x00,
    ]);
    for i in 0..8u64 {
        cpu.fpu.push((i as f64 + 0.5).to_bits());
    }
    let st = cpu.fpu.st;
    cpu.step();
    // The third slot starts the second page.
    assert_eq!(cpu.mem.read_u16(0x90_0008), gathered(&cpu, 0x1008, 2)[0] as u16
        | (gathered(&cpu, 0x1008, 2)[1] as u16) << 8);
    assert_ne!(cpu.mem.read_u64(0x90_0000), 0);
    assert_eq!(cpu.mem.read_u64(0x70_1000), 0);
    cpu.fpu.st = [0; 8];
    cpu.step();
    assert_eq!(cpu.fpu.st, st);
    let mut cpu = split_cpu(&[0x0F, 0xAE, 0x04, 0x25, 0xC0, 0x1F, 0x40, 0x00]);
    let inst = decode(&mut cpu);
    execute(&mut cpu, &inst);
    assert_eq!(cpu.cr2, 0x40_2000);
    assert_eq!(cpu.mem.read_u16(0x90_0FC0), 0);
}

#[test]
fn bit_strings_are_translated_where_they_lie() {
    // bts [0x400000], rax with a bit in the second page
    let mut cpu = split_cpu(&[0x48, 0x0F, 0xAB, 0x04, 0x25, 0x00, 0x00, 0x40, 0x00]);
    cpu.regs[0] = 0x1000 * 8 + 64 + 5;
    cpu.step();
    assert_eq!(cpu.mem.read_u64(0x90_0008), 1 << 5);
    assert_eq!(cpu.mem.read_u64(0x70_1008), 0);
    // A bit beyond what is mapped is a page fault there.
    let mut cpu = split_cpu(&[0x48, 0x0F, 0xAB, 0x04, 0x25, 0x00, 0x00, 0x40, 0x00]);
    cpu.regs[0] = 0x2000 * 8;
    let inst = decode(&mut cpu);
    execute(&mut cpu, &inst);
    assert_eq!(cpu.pending_exception, Some((0x0E, Some(2))));
    assert_eq!(cpu.cr2, 0x40_2000);
    // Backwards, too.
    let mut cpu = split_cpu(&[0x48, 0x0F, 0xAB, 0x04, 0x25, 0x00, 0x10, 0x40, 0x00]);
    cpu.regs[0] = (-1i64) as u64;
    cpu.step();
    assert_eq!(cpu.mem.read_u64(0x70_0FF8), 1 << 63);
}

#[test]
fn descriptors_and_gates_cross_pages() {
    let mut cpu = split_cpu(&[0xF4]);
    spread(&mut cpu, 0xFFC, &0x00AF_9A00_0000_FFFFu64.to_le_bytes());
    cpu.gdt_base = 0x40_0FFC;
    let d = cpu.descriptor_for(0);
    assert!(d.l);
    assert_eq!(d.attr, 0x9A);
    let gate: [u8; 16] = [
        0x78, 0x56, 0x08, 0x00, 0x00, 0x8E, 0x34, 0x12, 0xF0, 0xDE, 0xBC, 0x9A, 0, 0, 0, 0,
    ];
    spread(&mut cpu, 0xFF9, &gate);
    let mut cpu2 = split_cpu(&[0xF4]);
    spread(&mut cpu2, 0xFF9, &gate);
    cpu2.idt_base = 0x40_0FF9u64.wrapping_sub(0x40 * 16);
    cpu2.idt_limit = 0x7FF;
    execute(&mut cpu2, &Inst::Int { vector: 0x40 });
    assert_eq!(cpu2.rip, 0x9ABC_DEF0_1234_5678);
}

#[test]
fn a_frame_across_two_pages_is_read_back() {
    // An unaligned 32-bit stack: PUSHAD and POPAD with a slot on two pages.
    let mut cpu = Cpu::with_ram(0x100_0000);
    for i in 0..1024u32 {
        cpu.mem.write_u32(0x3000 + (i as usize) * 4, (i << 12) | 7);
    }
    cpu.mem.write_u32(0x2000, 0x3007);
    // Page 0x200 of the stack is somewhere else.
    cpu.mem.write_u32(0x3000 + 0x200 * 4, 0x0030_0007);
    cpu.cr3 = 0x2000;
    cpu.pe = true;
    cpu.cs = 0x08;
    for s in 0..6 {
        cpu.seg_desc[s] =
            Descriptor { base: 0, limit: 0xFFFF_FFFF, attr: 0x9A, g: true, d_b: true, l: false };
    }
    cpu.write_cr0(0x8001_0001);
    cpu.set_eip(0x10_0000);
    cpu.mem.load(0x10_0000, &[0x60, 0x61]);
    cpu.set_esp(0x20_000E);
    for i in 0..8usize {
        if i != 4 {
            cpu.regs[i] = 0x1111_1111 * (i as u64 + 1);
        }
    }
    let before = cpu.regs;
    cpu.step();
    // The fourth slot is at 0x1FFFFE: two bytes of it on each page.
    assert_eq!(cpu.mem.read_u16(0x1F_FFFE), 0x4444);
    assert_eq!(cpu.mem.read_u16(0x30_0000), 0x4444);
    for i in 0..8usize {
        if i != 4 {
            cpu.regs[i] = 0;
        }
    }
    cpu.step();
    assert_eq!(cpu.regs, before);
}

// ---- The FPU's state ----

#[test]
fn every_value_survives_fxsave_and_fxrstor() {
    let mut mem = Memory::with_size(0x10_0000);
    let mut f = Fpu::new();
    let values = [
        -0.0f64,
        f64::INFINITY,
        f64::NEG_INFINITY,
        f64::from_bits(0x7FF8_0000_0000_1234),
        f64::from_bits(0xFFF8_0000_0000_0001),
        5e-324,
        -1.5,
        f64::MAX,
    ];
    for v in values {
        f.push(v.to_bits());
    }
    f.status = 0x3800;
    f.control = 0x027F;
    f.fxsave(&mut mem, 0x4003);
    let mut g = Fpu::new();
    g.fxrstor(&mem, 0x4003);
    assert_eq!(g.st, f.st);
    assert_eq!((g.control, g.status, g.tag), (0x027F, 0x3800, f.tag));
}

// ---- Errors ----

#[test]
fn boot_errors_give_their_numbers() {
    assert_eq!(
        BootError::BadBootFlag { found: 0x0B5E }.message(),
        "bad boot flag 0x0B5E (not a bzImage?)"
    );
    assert_eq!(
        BootError::Truncated { need: 1600, offset: 512, have: 608 }.message(),
        "image too small for kernel (need 1600 bytes at offset 512, have 608)"
    );
    let mut image = vec![0u8; 0x260];
    image[0x1FE] = 0x34;
    image[0x1FF] = 0x12;
    match parse_bzimage(&image) {
        Err(e) => assert_eq!(e.message(), "bad boot flag 0x1234 (not a bzImage?)"),
        Ok(_) => panic!("parsed"),
    }
}
