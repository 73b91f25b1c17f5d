//! The laws of translation, faults and running on concrete values.

use x86emu::boot::{load_boot_sector, load_flat16, load_flat64, BootError, BOOT_PARAMS_ADDR};
use x86emu::cpu::address::Access;
use x86emu::cpu::{efer, flags, msr, Cpu, Mode, SegReg, CR0_PG, CR4_PAE};
use x86emu::memory::Memory;
use x86emu::paging::{pte, walk, PagingMode};
use x86emu::protected::Descriptor;

const CODE: u64 = 0x20_0000;

fn long_cpu(code: &[u8]) -> Cpu {
    let mut cpu = Cpu::with_ram(0x400_0000);
    load_flat64(&mut cpu, code, CODE).unwrap();
    cpu
}

fn flat(l: bool) -> Descriptor {
    Descriptor { base: 0, limit: 0xFFFF_FFFF, attr: 0x9A, g: true, d_b: !l, l }
}

/// A protected-mode machine with legacy paging: a page table at 0x3000 maps
/// the first 4 MiB to itself, but for the pages the caller changes.
fn paged_cpu(code: &[u8]) -> Cpu {
    let mut cpu = Cpu::with_ram(0x100_0000);
    for i in 0..1024u32 {
        cpu.mem.write_u32(0x3000 + (i as usize) * 4, (i << 12) | 7);
    }
    cpu.mem.write_u32(0x2000, 0x3007);
    cpu.cr3 = 0x2000;
    cpu.pe = true;
    cpu.cs = 0x08;
    for s in 0..6 {
        cpu.seg_desc[s] = flat(false);
    }
    cpu.write_cr0(0x8001_0001);
    cpu.set_eip(0x10_0000);
    cpu.set_esp(0x20_0000);
    cpu.mem.load(0x10_0000, code);
    cpu
}

/// Take a page out of the map.
fn unmap(cpu: &mut Cpu, page: usize) {
    cpu.mem.write_u32(0x3000 + page * 4, 0);
    cpu.flush_tlb();
}

// ---- Translation ----

#[test]
fn permissions_are_those_of_every_level() {
    let mut m = Memory::with_size(0x10_0000);
    m.write_u64(0x2000, 0x3000 | pte::P | pte::RW | pte::US);
    m.write_u64(0x3000, 0x4000 | pte::P | pte::RW);
    m.write_u64(0x4000, 0x5000 | pte::P | pte::RW | pte::US | pte::NX);
    m.write_u64(0x5000, 0x9000 | pte::P | pte::US);
    let w = walk(&m, PagingMode::Long, 0x2000, 0x123).unwrap();
    assert_eq!(w.phys, 0x9123);
    assert!(!w.writable);
    assert!(!w.user);
    assert!(w.no_exec);
}

#[test]
fn user_code_reaches_user_pages_only() {
    let mut cpu = paged_cpu(&[0xF4]);
    cpu.cs = 0x0B;
    cpu.mem.write_u32(0x3000 + 5 * 4, 0x5000 | 3);
    cpu.flush_tlb();
    cpu.translate_linear(0x5000, Access::Read);
    assert_eq!(cpu.pending_exception, Some((0x0E, Some(5))));
    assert_eq!(cpu.cr2, 0x5000);
}

#[test]
fn no_execute_stops_fetches_only() {
    let mut cpu = long_cpu(&[0xF4]);
    let pd = cpu.mem.read_u64(0x4000 + 8 * 8);
    cpu.mem.write_u64(0x4000 + 8 * 8, pd | pte::NX);
    cpu.flush_tlb();
    assert_eq!(cpu.translate_linear(0x100_0000, Access::Read), 0x100_0000);
    assert!(cpu.pending_exception.is_none());
    cpu.translate_linear(0x100_0000, Access::Fetch);
    assert_eq!(cpu.pending_exception, Some((0x0E, Some(0x11))));
}

#[test]
fn a_flush_and_an_invlpg_make_the_tlb_forget() {
    let mut cpu = paged_cpu(&[0xF4]);
    assert_eq!(cpu.apply_paging(0x7123), 0x7123);
    assert_eq!(cpu.apply_paging(0x8123), 0x8123);
    cpu.mem.write_u32(0x3000 + 7 * 4, 0x9000 | 7);
    cpu.mem.write_u32(0x3000 + 8 * 4, 0x9000 | 7);
    // The translations are remembered ...
    assert_eq!(cpu.apply_paging(0x7456), 0x7456);
    cpu.invlpg(0x7000);
    assert_eq!(cpu.apply_paging(0x7456), 0x9456);
    // ... page by page, until a flush.
    assert_eq!(cpu.apply_paging(0x8456), 0x8456);
    cpu.flush_tlb();
    assert_eq!(cpu.apply_paging(0x8456), 0x9456);
}

#[test]
fn a_coherent_tlb_changes_nothing_but_speed() {
    let mut seen = Vec::new();
    for off in [false, true] {
        let mut cpu = paged_cpu(&[0xF4]);
        // Page 5 is read-only, page 6 missing, page 7 somewhere else.
        cpu.mem.write_u32(0x3000 + 5 * 4, 0x5000 | 5);
        cpu.mem.write_u32(0x3000 + 7 * 4, 0xA000 | 7);
        unmap(&mut cpu, 6);
        cpu.diag.no_tlb = off;
        let mut answers = Vec::new();
        for linear in [0x5123u64, 0x5FFF, 0x6123, 0x7123, 0x7456, 0x10_5123, 0x5123, 0x7123] {
            for access in [Access::Read, Access::Write, Access::Fetch] {
                let phys = cpu.translate_linear(linear, access);
                answers.push((phys, cpu.pending_exception.take(), cpu.cr2));
            }
        }
        seen.push(answers);
    }
    assert_eq!(seen[0], seen[1]);
    assert_eq!(seen[0][0], (0x5123, None, 0));
    assert_eq!(seen[0][1].1, Some((0x0E, Some(3))));
    assert_eq!(seen[0][6].1, Some((0x0E, Some(0))));
    assert_eq!(seen[0][9].0, 0xA123);
}

#[test]
fn accessed_and_dirty_bits_change_no_translation() {
    let mut cpu = paged_cpu(&[0xF4]);
    cpu.flush_tlb();
    let before: Vec<_> =
        (0..1024u64).map(|p| walk(&cpu.mem, PagingMode::Legacy, 0x2000, p << 12)).collect();
    assert_eq!(cpu.translate_linear(0x7123, Access::Write), 0x7123);
    assert_eq!(cpu.mem.read_u32(0x3000 + 7 * 4), 0x7067);
    assert_eq!(cpu.mem.read_u32(0x2000), 0x3027);
    let after: Vec<_> =
        (0..1024u64).map(|p| walk(&cpu.mem, PagingMode::Legacy, 0x2000, p << 12)).collect();
    assert!(before == after);
    let (a, b) = (
        walk(&cpu.mem, PagingMode::Legacy, 0x2000, 0x7000).unwrap(),
        walk(&cpu.mem, PagingMode::Legacy, 0x2000, 0x7FFF).unwrap(),
    );
    assert_eq!((a.phys >> 12, a.leaf, a.writable), (b.phys >> 12, b.leaf, b.writable));
}

#[test]
fn translation_keeps_the_offset() {
    let mut m = Memory::with_size(0x10_0000);
    m.write_u32(0x2000 + 3 * 4, 0x0040_0000 | 0x87);
    let w = walk(&m, PagingMode::Legacy, 0x2000, 0x00C1_2345).unwrap();
    assert_eq!(w.phys, 0x0041_2345);
    m.write_u64(0x6000, 0x7000 | 1);
    m.write_u64(0x7000, 0x20_0000 | 0x83);
    let w = walk(&m, PagingMode::Pae, 0x6000, 0x1_FABC).unwrap();
    assert_eq!(w.phys, 0x21_FABC);
}

#[test]
fn a_non_canonical_address_is_a_protection_fault() {
    let mut cpu = long_cpu(&[0xF4]);
    let before = cpu.mem.data.clone();
    cpu.translate_linear(0x0000_8000_0000_0000, Access::Read);
    assert_eq!(cpu.pending_exception, Some((0x0D, Some(0))));
    assert!(cpu.mem.data == before);
}

#[test]
fn long_mode_follows_paging() {
    let mut cpu = Cpu::with_ram(0x10_0000);
    cpu.cr4 |= CR4_PAE;
    cpu.write_msr(msr::EFER, efer::LME | efer::LMA);
    assert!(!cpu.long_mode(), "software cannot set LMA");
    cpu.write_cr0(1 | CR0_PG);
    assert!(cpu.long_mode());
    assert_eq!(cpu.read_msr(msr::EFER), efer::LME | efer::LMA);
    cpu.write_cr0(1);
    assert!(!cpu.long_mode());
}

#[test]
fn low_memory_is_mapped_to_itself() {
    let mut m = Memory::with_size(0x10_0000);
    let root = x86emu::boot::build_identity_map(&mut m);
    for linear in [0u64, 0x1234, 0x20_0000, 0x3FFF_FFFF, 0x4000_0000, 0xC012_3456, 0xFFFF_FFFF] {
        let w = walk(&m, PagingMode::Long, root, linear).unwrap();
        assert_eq!(w.phys as u64, linear);
        assert!(w.writable);
    }
    assert!(walk(&m, PagingMode::Long, root, 0x1_0000_0000).is_none());
}

#[test]
fn a_quad_word_across_two_pages_is_split() {
    let mut cpu = long_cpu(&[0xF4]);
    // Linear 0x40_0000 and 0x40_1000 map to two unrelated pages.
    for i in 0..512 {
        cpu.mem.write_u64(0xA000 + i * 8, 0);
    }
    cpu.mem.write_u64(0xA000, 0x70_0000 | pte::P | pte::RW);
    cpu.mem.write_u64(0xA008, 0x90_0000 | pte::P | pte::RW);
    cpu.mem.write_u64(0x4000 + 2 * 8, 0xA000 | pte::P | pte::RW);
    cpu.flush_tlb();
    cpu.store(0x40_0FFD, 64, 0x8877_6655_4433_2211);
    assert!(cpu.pending_exception.is_none());
    assert_eq!(cpu.mem.read_u8(0x70_0FFF), 0x33);
    assert_eq!(cpu.mem.read_u8(0x90_0000), 0x44);
    assert_eq!(cpu.mem.read_u8(0x70_1000), 0);
    assert_eq!(cpu.load(0x40_0FFD, 64), 0x8877_6655_4433_2211);
}

// ---- Faults ----

#[test]
fn a_faulting_load_leaves_the_registers() {
    // add edx, [0x300000]
    let mut cpu = paged_cpu(&[0x03, 0x15, 0x00, 0x00, 0x30, 0x00]);
    unmap(&mut cpu, 0x300);
    cpu.set_edx(0x1111);
    let word = cpu.flags;
    cpu.step();
    assert_eq!(cpu.pending_exception, Some((0x0E, Some(0))));
    assert_eq!(cpu.edx(), 0x1111);
    assert_eq!(cpu.flags, word);
    assert_eq!(cpu.rip_start, 0x10_0000);
}

#[test]
fn a_faulting_pusha_leaves_no_trace() {
    // The fifth slot of the frame is on a page that is not there.
    let mut cpu = paged_cpu(&[0x60]);
    unmap(&mut cpu, 0x1FF);
    cpu.set_esp(0x20_0010);
    for i in 0..4usize {
        cpu.mem.write_u32(0x20_0000 + i * 4, 0xAAAA_0000 + i as u32);
    }
    cpu.step();
    assert_eq!(cpu.pending_exception, Some((0x0E, Some(2))));
    assert_eq!(cpu.esp(), 0x20_0010);
    for i in 0..4usize {
        assert_eq!(cpu.mem.read_u32(0x20_0000 + i * 4), 0xAAAA_0000 + i as u32);
    }
}

#[test]
fn a_faulting_far_call_leaves_no_trace() {
    // call 0x08:0x00001234
    let mut cpu = paged_cpu(&[0x9A, 0x34, 0x12, 0x00, 0x00, 0x08, 0x00]);
    unmap(&mut cpu, 0x1FF);
    cpu.set_esp(0x20_0004);
    cpu.mem.write_u32(0x20_0000, 0x5A5A_5A5A);
    cpu.step();
    assert_eq!(cpu.pending_exception, Some((0x0E, Some(2))));
    assert_eq!(cpu.esp(), 0x20_0004);
    assert_eq!(cpu.cs, 0x08);
    assert_eq!(cpu.mem.read_u32(0x20_0000), 0x5A5A_5A5A);
}

#[test]
fn a_faulting_pop_into_memory_leaves_the_stack_pointer() {
    // pop dword [0x300000]
    let mut cpu = paged_cpu(&[0x8F, 0x05, 0x00, 0x00, 0x30, 0x00]);
    unmap(&mut cpu, 0x300);
    cpu.step();
    assert_eq!(cpu.pending_exception, Some((0x0E, Some(2))));
    assert_eq!(cpu.esp(), 0x20_0000);
}

#[test]
fn a_rep_stops_at_the_element_that_faults() {
    // rep movsd, two elements before a page that is not there
    let mut cpu = paged_cpu(&[0xF3, 0xA5]);
    unmap(&mut cpu, 0x301);
    cpu.set_esi(0x25_0000);
    cpu.set_edi(0x30_0FF8);
    cpu.set_ecx(5);
    for i in 0..5usize {
        cpu.mem.write_u32(0x25_0000 + i * 4, 0x1000 + i as u32);
    }
    cpu.step();
    assert_eq!(cpu.pending_exception, Some((0x0E, Some(2))));
    assert_eq!((cpu.esi(), cpu.edi(), cpu.ecx()), (0x25_0008, 0x30_1000, 3));
    assert_eq!(cpu.mem.read_u32(0x30_0FFC), 0x1001);
    // And rep stosd does the same.
    let mut cpu = paged_cpu(&[0xF3, 0xAB]);
    unmap(&mut cpu, 0x301);
    cpu.set_edi(0x30_0FF8);
    cpu.set_ecx(5);
    cpu.step();
    assert_eq!((cpu.edi(), cpu.ecx()), (0x30_1000, 3));
}

#[test]
fn decoding_changes_no_register() {
    let mut cpu = Cpu::with_ram(0x10_0000);
    cpu.ip = 0x100;
    cpu.set_bx(0x1234);
    // lock add [bx+0x11223344], with overrides
    cpu.mem.load(0x100, &[0xF0, 0x66, 0x67, 0x81, 0x83, 0x44, 0x33, 0x22, 0x11, 1, 2, 3, 4]);
    let regs = cpu.regs;
    let word = cpu.flags;
    x86emu::instructions::decode(&mut cpu);
    assert_eq!(cpu.regs, regs);
    assert_eq!(cpu.flags, word);
    assert_eq!(cpu.ip, 0x10D);
}

#[test]
fn a_faulting_step_can_be_restarted() {
    // mov eax, [0x300000] with the page missing, then present
    let mut cpu = paged_cpu(&[0x8B, 0x05, 0x00, 0x00, 0x30, 0x00, 0xF4]);
    unmap(&mut cpu, 0x300);
    cpu.step();
    assert_eq!(cpu.cr2, 0x30_0000);
    cpu.pending_exception = None;
    cpu.mem.write_u32(0x3000 + 0x300 * 4, 0x30_0000 | 7);
    cpu.mem.write_u32(0x30_0000, 0xFACE_0001);
    cpu.rip = cpu.rip_start;
    cpu.step();
    assert_eq!(cpu.eax(), 0xFACE_0001);
}

#[test]
fn the_first_fault_counts() {
    let mut cpu = Cpu::with_ram(0x10_0000);
    cpu.raise(0x0D, Some(0x10));
    cpu.raise(0x06, None);
    assert_eq!(cpu.pending_exception, Some((0x0D, Some(0x10))));
}

#[test]
fn an_exception_whose_delivery_faults_is_a_triple_fault() {
    // The IDT has an entry for the exception, but there is no stack.
    let mut cpu = paged_cpu(&[0x0F, 0x0B]);
    cpu.idt_base = 0x6000;
    cpu.idt_limit = 0x7FF;
    cpu.mem.write_u64(0x6000 + 6 * 8, 0x0010_8E00_0008_0000);
    cpu.gdt_base = 0x5000;
    cpu.gdt_limit = 23;
    cpu.mem.write_u64(0x5008, 0x00CF_9A00_0000_FFFF);
    unmap(&mut cpu, 0x1FF);
    cpu.run(10);
    assert!(cpu.triple_fault);
    assert!(cpu.halted);
}

#[test]
fn a_real_mode_fault_reports_the_faulting_instruction() {
    // mov bx, 0 ; div bx, with a handler at 0000:2000 that halts
    let mut cpu = Cpu::with_ram(0x10_0000);
    cpu.ip = 0x1000;
    cpu.set_sp(0x8000);
    cpu.mem.load(0x1000, &[0xBB, 0x00, 0x00, 0xF7, 0xF3]);
    cpu.mem.write_u16(0, 0x2000);
    cpu.mem.write_u16(2, 0);
    cpu.mem.write_u8(0x2000, 0xF4);
    cpu.run(10);
    assert!(cpu.halted);
    assert_eq!(cpu.sp(), 0x7FFA);
    assert_eq!(cpu.mem.read_u16(0x7FFA), 0x1003);
}

// ---- Running ----

#[test]
fn runs_are_bounded_and_compose() {
    let code = [0x40u8, 0x40, 0x40, 0x40, 0x40, 0xF4];
    let machine = || {
        let mut cpu = Cpu::with_ram(0x10_0000);
        cpu.ip = 0x1000;
        cpu.mem.load(0x1000, &code);
        cpu
    };
    let mut a = machine();
    assert_eq!(a.run(4), 4);
    let mut b = machine();
    assert_eq!(b.run(1), 1);
    assert_eq!(b.run(3), 3);
    assert_eq!(a.ax(), b.ax());
    assert_eq!(a.ip, b.ip);
    assert_eq!(a.run(100), 2);
    assert!(a.halted);
    // Halted with interrupts off: nothing moves it again.
    assert_eq!(a.run(100), 0);
}

#[test]
fn swapgs_is_its_own_inverse() {
    // swapgs, twice
    let mut cpu = long_cpu(&[0x0F, 0x01, 0xF8, 0x0F, 0x01, 0xF8, 0xF4]);
    cpu.gs_base = 0x1111;
    cpu.kernel_gs_base = 0x2222;
    cpu.step();
    assert_eq!((cpu.gs_base, cpu.kernel_gs_base), (0x2222, 0x1111));
    cpu.step();
    assert_eq!((cpu.gs_base, cpu.kernel_gs_base), (0x1111, 0x2222));
}

#[test]
fn syscall_keeps_the_stack() {
    let mut cpu = long_cpu(&[0x0F, 0x05]);
    cpu.lstar = 0xFFFF_8000_0000_1000;
    cpu.star = 0x0008_0000_0000;
    let rsp = cpu.rsp();
    let word = cpu.flags as u64;
    cpu.step();
    assert_eq!(cpu.rip, 0xFFFF_8000_0000_1000);
    assert_eq!(cpu.rsp(), rsp);
    assert_eq!(cpu.reg64(1), CODE + 2);
    assert_eq!(cpu.reg64(11), word);
}

#[test]
fn real_mode_segments_are_plain() {
    let mut cpu = Cpu::with_ram(0x10_0000);
    cpu.load_seg(SegReg::Es, 0xB800);
    assert_eq!(cpu.es, 0xB800);
    assert_eq!(cpu.linear_addr(SegReg::Es, 4), 0xB8004);
    assert_eq!(cpu.seg_desc[0].base, 0);
}

// ---- Booting ----

#[test]
fn a_program_starts_in_long_mode() {
    let cpu = long_cpu(&[0xF4]);
    assert_eq!(cpu.mode(), Mode::Long);
    assert_eq!(cpu.rip, CODE);
    assert!(!cpu.get_flag(flags::IF));
    assert!(!cpu.halted);
}

#[test]
fn a_bad_image_changes_nothing() {
    let mut cpu = Cpu::with_ram(0x100_0000);
    let before = cpu.mem.data.clone();
    assert!(x86emu::boot::load_kernel(&mut cpu, &[0u8; 0x400], "x").is_err());
    assert!(cpu.mem.data == before);
    assert!(!cpu.pe);
}

#[test]
fn a_kernel_starts_in_protected_mode() {
    let mut image = vec![0u8; 0x1000];
    image[0x1F1] = 1;
    image[0x1F4..0x1F8].copy_from_slice(&4u32.to_le_bytes());
    image[0x1FE] = 0x55;
    image[0x1FF] = 0xAA;
    image[0x202..0x206].copy_from_slice(b"HdrS");
    image[0x214..0x218].copy_from_slice(&0x10_0000u32.to_le_bytes());
    let mut cpu = Cpu::with_ram(0x100_0000);
    let info = x86emu::boot::load_kernel(&mut cpu, &image, "quiet").unwrap();
    assert_eq!(cpu.rip, info.code32_start as u64);
    assert_eq!(cpu.esi(), BOOT_PARAMS_ADDR);
    assert!(cpu.pe);
    assert!(!cpu.get_flag(flags::IF));
}

#[test]
fn the_text_screen_follows_the_start_address() {
    let mut cpu = Cpu::with_ram(0x10_0000);
    cpu.mem.write_u8(0xB8000 + 2 * 80, b'h');
    cpu.mem.write_u8(0xB8000 + 2 * 81, b'i');
    assert_eq!(&cpu.screen_row(1)[..3], b"hi ");
    assert_eq!(cpu.screen_row(0), vec![b' '; 80]);
    // Scroll one line down.
    cpu.vga.write_crtc_index(0x0D);
    cpu.vga.write_crtc_data(80);
    assert_eq!(&cpu.screen_row(0)[..3], b"hi ");
}

#[test]
fn recent_instruction_pointers_come_oldest_first() {
    let mut cpu = Cpu::with_ram(0x10_0000);
    cpu.diag.eip_ring = vec![10, 20, 30, 40];
    cpu.diag.eip_ring_pos = 2;
    assert_eq!(cpu.recent_pcs(3), vec![40, 10, 20]);
    assert_eq!(cpu.recent_pcs(9), vec![30, 40, 10, 20]);
    assert_eq!(cpu.recent_pcs(0), Vec::<u64>::new());
}

#[test]
fn a_boot_sector_starts_at_7c00() {
    let mut image = vec![0u8; 700];
    // mov ax, 0x1234 ; hlt
    image[..4].copy_from_slice(&[0xB8, 0x34, 0x12, 0xF4]);
    image[511] = 0xAA;
    image[512] = 0x77;
    let mut cpu = Cpu::new();
    cpu.ds = 5;
    cpu.es = 6;
    cpu.ss = 7;
    assert!(load_boot_sector(&mut cpu, &image).is_ok());
    assert_eq!((cpu.cs, cpu.ds, cpu.es, cpu.ss), (0, 0, 0, 0));
    assert_eq!((cpu.ip, cpu.sp()), (0x7C00, 0xFFFE));
    assert_eq!(cpu.mem.read_u8(0x7C00), 0xB8);
    assert_eq!(cpu.mem.read_u8(0x7DFF), 0xAA);
    // The byte after the sector is not loaded.
    assert_eq!(cpu.mem.read_u8(0x7E00), 0);
    cpu.run(8);
    assert!(cpu.halted);
    assert_eq!(cpu.ax(), 0x1234);
}

#[test]
fn a_short_boot_sector_is_refused() {
    let mut cpu = Cpu::new();
    cpu.ds = 5;
    let r = load_boot_sector(&mut cpu, &[0xF4; 511]);
    assert_eq!(r, Err(BootError::SectorTooSmall { have: 511 }));
    assert_eq!(r.unwrap_err().message(), "boot sector must be at least 512 bytes (got 511)");
    assert_eq!((cpu.ds, cpu.ip, cpu.sp()), (5, 0, 0));
    assert_eq!(cpu.mem.read_u8(0x7C00), 0);
}

#[test]
fn a_flat_binary_starts_at_its_segment_and_offset() {
    let mut cpu = Cpu::new();
    cpu.ss = 7;
    // mov ax, cs ; hlt
    load_flat16(&mut cpu, &[0x8C, 0xC8, 0xF4], 0x2000, 0x0100);
    assert_eq!((cpu.cs, cpu.ds, cpu.es, cpu.ss), (0x2000, 0x2000, 0x2000, 0));
    assert_eq!((cpu.ip, cpu.sp()), (0x0100, 0xFFFE));
    assert_eq!(cpu.mem.read_u8(0x2_0100), 0x8C);
    cpu.run(8);
    assert!(cpu.halted);
    assert_eq!(cpu.ax(), 0x2000);
    // The address wraps at 1 MiB.
    load_flat16(&mut cpu, &[0x55], 0xFFFF, 0x0020);
    assert_eq!(cpu.mem.read_u8(0x10), 0x55);
}

#[test]
fn a_pop_undoes_a_push_without_the_tlb_where_nothing_is_paged() {
    let mut cpu = Cpu::new();
    cpu.pe = true;
    cpu.diag.no_tlb = true;
    cpu.set_esp(0x8000);
    cpu.push32(0x1234_5678);
    assert_eq!(cpu.esp(), 0x7FFC);
    assert_eq!(cpu.pop32(), 0x1234_5678);
    assert_eq!(cpu.esp(), 0x8000);
}
