//! Tests of the paging module.

use x86emu::memory::Memory;
use x86emu::paging::translate;

#[test]
fn maps_4k_page() {
    let mut m = Memory::new();
    // Page directory at 0x1000, page table at 0x2000.
    // Map linear 0x0040_0000 (PD index 1, PT index 0) to physical 0x1000.
    m.write_u32(0x1000 + 1 * 4, 0x2003); // PDE: PT base 0x2000, present|rw
    m.write_u32(0x2000, 0x1003); // PTE: page base 0x1000, present|rw
    let map = translate(&m, 0x1000, 0x0040_0000).unwrap();
    assert_eq!(map.phys, 0x1000);
    assert!(map.writable);
    // Offset within the page.
    assert_eq!(translate(&m, 0x1000, 0x0040_0123).unwrap().phys, 0x1123);
}

#[test]
fn not_present_returns_none() {
    let mut m = Memory::new();
    m.write_u32(0x1000 + 1 * 4, 0x2000); // PDE present bit clear
    assert_eq!(translate(&m, 0x1000, 0x0040_0000), None);
}

#[test]
fn maps_4mb_page() {
    let mut m = Memory::new();
    // PDE with PS bit (0x80): maps a 4 MiB page at base 0x0000_0000.
    m.write_u32(0x1000, 0x0000_0083);
    assert_eq!(translate(&m, 0x1000, 0x0000_1234).unwrap().phys, 0x1234);
    assert_eq!(translate(&m, 0x1000, 0x0020_0000).unwrap().phys, 0x0020_0000);
}

#[test]
fn read_only_page_reports_not_writable() {
    let mut m = Memory::new();
    m.write_u32(0x1000 + 1 * 4, 0x2003); // PDE present|rw
    m.write_u32(0x2000, 0x1001); // PTE present, read-only
    let map = translate(&m, 0x1000, 0x0040_0000).unwrap();
    assert_eq!(map.phys, 0x1000);
    assert!(!map.writable);
}

#[test]
fn read_only_directory_makes_every_page_under_it_read_only() {
    let mut m = Memory::new();
    m.write_u32(0x1000 + 1 * 4, 0x2001); // PDE present, read-only
    m.write_u32(0x2000, 0x1003); // PTE present|rw
    assert!(!translate(&m, 0x1000, 0x0040_0000).unwrap().writable);
}

#[test]
fn user_bit_is_the_and_of_both_levels() {
    let mut m = Memory::new();
    m.write_u32(0x1000 + 1 * 4, 0x2003); // PDE supervisor-only
    m.write_u32(0x2000, 0x1007); // PTE user
    assert!(!translate(&m, 0x1000, 0x0040_0000).unwrap().user);
    m.write_u32(0x1000 + 1 * 4, 0x2007); // PDE user too
    assert!(translate(&m, 0x1000, 0x0040_0000).unwrap().user);
}
