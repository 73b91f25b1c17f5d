//! Tests of the memory module.

use x86emu::memory::{e820_map, Memory, HIGH_RAM_BASE, MMIO_HOLE_START, VGA_TEXT_BASE};

#[test]
fn segment_offset_translation() {
    assert_eq!(Memory::phys(0x0000, 0x7C00), 0x07C00);
    assert_eq!(Memory::phys(0x07C0, 0x0000), 0x07C00);
    // Wraparound at 1 MiB.
    assert_eq!(Memory::phys(0xFFFF, 0x0010), 0x00000);
}

#[test]
fn read_write_roundtrip() {
    let mut m = Memory::new();
    m.write_u16(0x100, 0x1234);
    assert_eq!(m.read_u8(0x100), 0x34);
    assert_eq!(m.read_u8(0x101), 0x12);
    assert_eq!(m.read_u16(0x100), 0x1234);
}

#[test]
fn read_write_u32() {
    let mut m = Memory::new();
    m.write_u32(0x200, 0xDEADBEEF);
    assert_eq!(m.read_u32(0x200), 0xDEADBEEF);
    assert_eq!(m.read_u8(0x200), 0xEF);
    assert_eq!(m.read_u8(0x203), 0xDE);
}

#[test]
fn read_write_u64() {
    let mut m = Memory::new();
    m.write_u64(0x300, 0x0123456789ABCDEF);
    assert_eq!(m.read_u64(0x300), 0x0123456789ABCDEF);
    assert_eq!(m.read_u32(0x300), 0x89ABCDEF);
    assert_eq!(m.read_u32(0x304), 0x01234567);
}

#[test]
fn vga_text_window_is_memory_mapped() {
    let mut m = Memory::new();
    // Write a text cell (char 'A', attr 0x07) at 0xB8000.
    m.write_u16(VGA_TEXT_BASE, (0x07 << 8) | b'A' as u16);
    assert_eq!(m.vga_text[0] & 0xFF, b'A' as u16);
    assert_eq!(m.vga_text[0] >> 8, 0x07);
    // Reading it back through the physical address works too.
    assert_eq!(m.read_u8(VGA_TEXT_BASE), b'A');
    assert_eq!(m.read_u8(VGA_TEXT_BASE + 1), 0x07);
    // Byte writes update the cell.
    m.write_u8(VGA_TEXT_BASE + 2, b'B');
    assert_eq!(m.vga_text[1] & 0xFF, b'B' as u16);
    // The backing store is not clobbered by VGA writes.
    assert_eq!(m.data[VGA_TEXT_BASE], 0);
}

#[test]
fn unbacked_addresses_read_as_open_bus_and_swallow_writes() {
    // Past the top of RAM there is nothing: reads are 0xFF and writes go
    // nowhere. They used to alias back into low memory, which quietly
    // corrupted whatever happened to live at the folded address.
    let mut m = Memory::with_size(16 << 20);
    let past = 32 << 20;
    m.write_u32(past, 0xDEAD_BEEF);
    assert_eq!(m.read_u32(past), 0xFFFF_FFFF);
    // The address it would have aliased to is untouched.
    assert_eq!(m.read_u32(past & ((16 << 20) - 1)), 0);
}

#[test]
fn ram_above_four_gib_is_reachable() {
    // A machine with more RAM than fits below the MMIO hole wires the
    // remainder above 4 GiB, and it must be addressable there.
    let ram = MMIO_HOLE_START as usize + (64 << 20);
    let mut m = Memory::with_size(ram);
    assert_eq!(m.top_of_ram(), HIGH_RAM_BASE + (64 << 20));
    let high = HIGH_RAM_BASE as usize + 0x1234;
    m.write_u64(high, 0x0123_4567_89AB_CDEF);
    assert_eq!(m.read_u64(high), 0x0123_4567_89AB_CDEF);
    // The hole between the top of low RAM and 4 GiB is not RAM.
    m.write_u32(MMIO_HOLE_START as usize + 0x1000, 1);
    assert_eq!(m.read_u32(MMIO_HOLE_START as usize + 0x1000), 0xFFFF_FFFF);
    // And the last byte of RAM is the last byte, with nothing past it.
    assert_eq!(m.read_u8(m.top_of_ram() as usize), 0xFF);
}

#[test]
fn e820_describes_a_small_machine_as_four_regions() {
    let map = e820_map(128 << 20);
    assert_eq!(map.len(), 4);
    assert_eq!(map[3], (0x0010_0000, (128 << 20) - 0x0010_0000, 1));
}

#[test]
fn e820_splits_a_large_machine_around_the_mmio_hole() {
    let ram: u64 = 8 << 30; // 8 GiB
    let map = e820_map(ram);
    // Low RAM stops at the hole...
    assert_eq!(map[3], (0x0010_0000, MMIO_HOLE_START - 0x0010_0000, 1));
    // ...the hole itself is reserved...
    assert_eq!(map[4], (MMIO_HOLE_START, HIGH_RAM_BASE - MMIO_HOLE_START, 2));
    // ...and the rest is above 4 GiB.
    assert_eq!(map[5], (HIGH_RAM_BASE, ram - MMIO_HOLE_START, 1));
    // Every usable byte is accounted for exactly once.
    let usable: u64 = map.iter().filter(|e| e.2 == 1).map(|e| e.1).sum();
    assert_eq!(usable, ram - 0x400 - 0x6_0000);
}
