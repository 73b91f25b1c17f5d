//! The laws of memory, registers and the stack on concrete values.

use x86emu::cpu::{Cpu, Reg8};
use x86emu::memory::{e820_map, Memory, HIGH_RAM_BASE, MMIO_HOLE_START};

fn small() -> Memory {
    Memory::with_size(0x20_0000)
}

#[test]
fn a_store_is_read_back_at_every_width() {
    let mut m = small();
    m.write_u8(0x1000, 0xA5);
    assert_eq!(m.read_u8(0x1000), 0xA5);
    m.write_u16(0x1001, 0xBEEF);
    assert_eq!(m.read_u16(0x1001), 0xBEEF);
    m.write_u32(0x1003, 0xDEAD_BEEF);
    assert_eq!(m.read_u32(0x1003), 0xDEAD_BEEF);
    m.write_u64(0x1007, 0x0123_4567_89AB_CDEF);
    assert_eq!(m.read_u64(0x1007), 0x0123_4567_89AB_CDEF);
}

#[test]
fn a_store_is_read_back_in_and_around_the_text_window() {
    let mut m = small();
    for addr in [0xB7FF9usize, 0xB7FFD, 0xB7FFE, 0xB7FFF, 0xB8000, 0xB8001, 0xB8123, 0xBFFFC, 0xBFFFE] {
        m.write_u32(addr, 0x8765_4321);
        assert_eq!(m.read_u32(addr), 0x8765_4321, "32 bits at {:X}", addr);
        m.write_u64(addr, 0x1122_3344_5566_7788);
        assert_eq!(m.read_u64(addr), 0x1122_3344_5566_7788, "64 bits at {:X}", addr);
    }
}

#[test]
fn a_store_touches_only_its_bytes() {
    let mut m = small();
    for i in 0..32usize {
        m.write_u8(0x2000 + i, i as u8);
    }
    m.write_u32(0x2008, 0xFFFF_FFFF);
    for i in 0..32usize {
        let want = if (8..12).contains(&i) { 0xFF } else { i as u8 };
        assert_eq!(m.read_u8(0x2000 + i), want);
    }
}

#[test]
fn wide_loads_are_little_endian() {
    let mut m = small();
    m.load(0x3000, &[1, 2, 3, 4, 5, 6, 7, 8]);
    assert_eq!(m.read_u16(0x3000), 0x0201);
    assert_eq!(m.read_u32(0x3000), 0x0403_0201);
    assert_eq!(m.read_u64(0x3000), 0x0807_0605_0403_0201);
}

#[test]
fn an_open_bus_reads_ones_and_swallows_writes() {
    let mut m = small();
    let before = m.data.clone();
    m.write_u8(0x4000_0000, 0x12);
    m.write_u64(0x4000_0100, 0x1234);
    assert_eq!(m.read_u8(0x4000_0000), 0xFF);
    assert_eq!(m.read_u16(0x4000_0000), 0xFFFF);
    assert_eq!(m.read_u32(0x4000_0000), 0xFFFF_FFFF);
    assert_eq!(m.read_u64(0x4000_0100), 0xFFFF_FFFF_FFFF_FFFF);
    assert!(m.data == before);
}

#[test]
fn the_text_window_hides_the_ram_behind_it() {
    let mut m = small();
    m.write_u8(0xB8000, b'A');
    m.write_u8(0xB8001, 0x1E);
    assert_eq!(m.vga_text[0], 0x1E41);
    assert_eq!(m.data[0xB8000], 0);
    assert_eq!(m.read_u8(0xB8001), 0x1E);
}

#[test]
fn odd_words_of_the_text_window_are_little_endian() {
    let mut m = Memory::new();
    m.write_u8(0xB8002, 0x42);
    // 0x07 of the first cell, 0x42 of the second.
    assert_eq!(m.read_u16(0xB8001), 0x4207);
    m.write_u16(0xB8003, 0x1234);
    assert_eq!((m.vga_text[1], m.vga_text[2]), (0x3442, 0x0712));
    assert_eq!(m.read_u32(0xB8001), 0x1234_4207);
    m.write_u32(0xB8101, 0xA1B2_C3D4);
    assert_eq!((m.vga_text[0x80], m.vga_text[0x81], m.vga_text[0x82]), (0xD420, 0xB2C3, 0x07A1));
    assert_eq!(m.read_u64(0xB80FF) >> 16, 0x0007_A1B2_C3D4 | (0x20 << 40));
    // Across the ends of the window, too, byte by byte.
    m.write_u16(0xB7FFF, 0xBEEF);
    assert_eq!((m.data[0xB7FFF], m.vga_text[0]), (0xEF, 0x07BE));
    assert_eq!(m.data[0xB8000], 0);
    m.write_u32(0xBFFFE, 0x1122_3344);
    assert_eq!(m.vga_text[0x3FFF], 0x3344);
    assert_eq!(m.read_u16(0xC0000), 0x1122);
}

#[test]
fn even_words_of_the_text_window_are_its_cells() {
    let mut m = small();
    m.write_u16(0xB8010, 0x1E41);
    assert_eq!(m.vga_text[8], 0x1E41);
    assert_eq!(m.read_u16(0xB8010), 0x1E41);
    assert_eq!(m.vga_text[7], 0x0720);
    assert_eq!(m.vga_text[9], 0x0720);
}

#[test]
fn a_watched_store_is_logged() {
    let mut m = small();
    m.watch_store = Some(0x1000);
    m.cur_eip = 0x77;
    m.write_u32(0x1000, 0x1234_5678);
    m.write_u16(0x2000, 1);
    assert_eq!(m.store_log, vec![(0x1000, 0x1234_5678, 4, 0x77)]);
}

#[test]
fn a_memory_map_accounts_for_the_ram() {
    for ram in [0x10_0000u64, 0x800_0000, 0xC000_0000, 0x1_4000_0000, 0x2_0000_0000] {
        let usable: u64 = e820_map(ram).iter().filter(|e| e.2 == 1).map(|e| e.1).sum();
        assert_eq!(usable, ram - 0x400 - 0x6_0000);
    }
}

#[test]
fn a_memory_map_is_ordered() {
    let map = e820_map(0x2_0000_0000);
    assert_eq!(map.len(), 6);
    for w in map.windows(2) {
        assert!(w[0].0 + w[0].1 <= w[1].0);
    }
    assert_eq!(map[4], (MMIO_HOLE_START, HIGH_RAM_BASE - MMIO_HOLE_START, 2));
    assert_eq!(map[5], (HIGH_RAM_BASE, 0x2_0000_0000 - MMIO_HOLE_START, 1));
}

#[test]
fn usable_memory_has_ram_behind_it() {
    let m = small();
    for (base, len, kind) in m.e820() {
        if kind == 1 {
            assert!(m.slot(base as usize).is_some());
            assert!(m.slot((base + len - 1) as usize).is_some());
        }
    }
    assert!(m.slot(0x20_0000).is_none());
}

#[test]
fn a_double_word_write_zero_extends() {
    let mut cpu = Cpu::with_ram(0x10_0000);
    cpu.set_reg64_raw(3, 0xFFFF_FFFF_FFFF_FFFF);
    cpu.set_ebx(0x1234_5678);
    assert_eq!(cpu.reg64(3), 0x1234_5678);
}

#[test]
fn a_word_write_preserves_the_rest() {
    let mut cpu = Cpu::with_ram(0x10_0000);
    cpu.set_reg64_raw(3, 0x1122_3344_5566_7788);
    cpu.set_bx(0xABCD);
    assert_eq!(cpu.reg64(3), 0x1122_3344_5566_ABCD);
}

#[test]
fn a_byte_write_preserves_the_rest() {
    let mut cpu = Cpu::with_ram(0x10_0000);
    cpu.set_reg64_raw(0, 0x1122_3344_5566_7788);
    cpu.set_reg8(Reg8::Ah, 0xAA);
    assert_eq!(cpu.reg64(0), 0x1122_3344_5566_AA88);
    cpu.set_reg8(Reg8::Al, 0xBB);
    assert_eq!(cpu.reg64(0), 0x1122_3344_5566_AABB);
    // With a REX prefix, index 4 is SPL.
    cpu.set_reg64_raw(4, 0x99);
    cpu.pfx.rex_present = true;
    cpu.set_reg8_idx_raw(4, 0x77);
    assert_eq!(cpu.reg64(4), 0x77);
    assert_eq!(cpu.reg64(0), 0x1122_3344_5566_AABB);
}

#[test]
fn register_writes_are_local() {
    let mut cpu = Cpu::with_ram(0x10_0000);
    for i in 0..16u8 {
        cpu.set_reg64_raw(i, 0x1000 + i as u64);
    }
    cpu.set_reg_w_raw(9, 16, 0xFFFF);
    for i in 0..16u8 {
        let want = if i == 9 { 0xFFFF } else { 0x1000 + i as u64 };
        assert_eq!(cpu.reg64(i), want);
    }
}

#[test]
fn a_pop_undoes_a_push_in_every_mode() {
    // Real mode.
    let mut cpu = Cpu::with_ram(0x10_0000);
    cpu.set_reg64_raw(4, 0xAAAA_0000_0000_8000);
    cpu.push_w(16, 0x1_BEEF);
    assert_eq!(cpu.sp(), 0x7FFE);
    assert_eq!(cpu.pop_w(16), 0xBEEF);
    assert_eq!(cpu.reg64(4), 0xAAAA_0000_0000_8000);
    // Protected mode, with a slot that straddles two pages.
    cpu.pe = true;
    cpu.set_esp(0x9002);
    cpu.push_w(32, 0x1234_5678);
    assert_eq!(cpu.mem.read_u16(0x8FFE), 0x5678);
    assert_eq!(cpu.mem.read_u16(0x9000), 0x1234);
    assert_eq!(cpu.pop_w(32), 0x1234_5678);
    assert_eq!(cpu.esp(), 0x9002);
}

#[test]
fn a_64_bit_pop_undoes_a_push_across_two_pages() {
    let mut cpu = Cpu::with_ram(0x400_0000);
    x86emu::boot::load_flat64(&mut cpu, &[0xF4], 0x20_0000).unwrap();
    cpu.set_rsp(0x30_0004);
    cpu.push_w(64, 0x0102_0304_0506_0708);
    assert!(cpu.pending_exception.is_none());
    assert_eq!(cpu.mem.read_u32(0x2F_FFFC), 0x0506_0708);
    assert_eq!(cpu.mem.read_u32(0x30_0000), 0x0102_0304);
    assert_eq!(cpu.pop_w(64), 0x0102_0304_0506_0708);
    assert_eq!(cpu.rsp(), 0x30_0004);
}

#[test]
fn a_load_gives_back_the_store() {
    let mut cpu = Cpu::with_ram(0x10_0000);
    cpu.store(0x5FFF, 32, 0xCAFE_F00D);
    assert_eq!(cpu.load(0x5FFF, 32), 0xCAFE_F00D);
    assert!(cpu.pending_exception.is_none());
}
