//! Tests of the bios module.

use x86emu::cpu::{flags, Cpu, Reg8};
use x86emu::memory::Memory;

fn load(cpu: &mut Cpu, bytes: &[u8]) {
    cpu.mem.load(Memory::phys(cpu.cs, cpu.ip), bytes);
}

#[test]
fn teletype_prints_to_screen() {
    let mut cpu = Cpu::new();
    // mov ah, 0x0E ; mov al, 'A' ; int 0x10 ; hlt
    load(&mut cpu, &[
        0xB4, 0x0E,         // mov ah, 0x0E
        0xB0, 0x41,         // mov al, 'A'
        0xCD, 0x10,         // int 0x10
        0xF4,               // hlt
    ]);
    cpu.run(16);
    // 'A' should be at the top-left of the screen (memory-mapped VGA window).
    assert_eq!(cpu.mem.vga_text[0] & 0xFF, b'A' as u16);
    // Cursor advanced to column 1.
    assert_eq!(cpu.vga.cursor_col, 1);
}

#[test]
fn set_and_get_cursor() {
    let mut cpu = Cpu::new();
    // mov ah, 0x02 ; mov dh, 5 ; mov dl, 10 ; int 0x10
    // mov ah, 0x03 ; int 0x10 ; hlt
    load(&mut cpu, &[
        0xB4, 0x02, 0xB6, 0x05, 0xB2, 0x0A, 0xCD, 0x10,
        0xB4, 0x03, 0xCD, 0x10,
        0xF4,
    ]);
    cpu.run(32);
    assert_eq!(cpu.reg8(Reg8::Dh), 5);
    assert_eq!(cpu.reg8(Reg8::Dl), 10);
}

#[test]
fn disk_read_sector() {
    let mut cpu = Cpu::new();
    cpu.es = 0;
    cpu.set_bx(0x1000);
    // Disk: sector 2 (offset 512) holds a marker.
    let mut disk = vec![0u8; 512 * 3];
    disk[512..512 + 4].copy_from_slice(b"DATA");
    cpu.ide.load_disk(disk);
    // mov ah, 0x02 ; mov al, 1 ; mov ch, 0 ; mov cl, 2 ; mov dh, 0 ; int 0x13 ; hlt
    load(&mut cpu, &[
        0xB4, 0x02, 0xB0, 0x01, 0xB5, 0x00, 0xB1, 0x02, 0xB6, 0x00,
        0xCD, 0x13,
        0xF4,
    ]);
    cpu.run(32);
    assert!(!cpu.get_flag(flags::CF)); // success
    assert_eq!(&cpu.mem.data[0x1000..0x1004], b"DATA");
}

#[test]
fn e820_reports_memory_map() {
    let mut cpu = Cpu::new();
    cpu.es = 0;
    cpu.set_di(0x2000);
    // E820 call: eax=0x0000E820, edx='SMAP', ebx=0 (first entry),
    // ecx=24 (buffer size), es:di = buffer. The program sets eax/edx
    // via movs; ebx/ecx are pre-set here.
    cpu.set_edx(0x534D_4150);
    cpu.set_ebx(0);
    cpu.set_ecx(24);
    // mov ah, 0xE8 ; mov al, 0x20 ; int 0x15 ; hlt
    load(&mut cpu, &[
        0xB4, 0xE8, 0xB0, 0x20, 0xCD, 0x15,
        0xF4,
    ]);
    cpu.run(16);
    assert!(!cpu.get_flag(flags::CF)); // success
    // First entry: base 0, length 0x9FC00, type 1 (usable).
    let base = cpu.mem.read_u64(0x2000);
    let len = cpu.mem.read_u64(0x2008);
    let typ = cpu.mem.read_u32(0x2010);
    assert_eq!(base, 0);
    assert_eq!(len, 0x9FC00);
    assert_eq!(typ, 1);
    // Continuation advanced to 1.
    assert_eq!(cpu.ebx(), 1);
    // eax preserved as 0x0000E820.
    assert_eq!(cpu.eax(), 0x0000_E820);
}

#[test]
fn e820_iterates_entries() {
    let mut cpu = Cpu::new();
    cpu.es = 0;
    cpu.set_di(0x2000);
    cpu.set_edx(0x534D_4150);
    cpu.set_ebx(3); // fourth entry (extended memory)
    cpu.set_ecx(24);
    load(&mut cpu, &[
        0xB4, 0xE8, 0xB0, 0x20, 0xCD, 0x15,
        0xF4,
    ]);
    cpu.run(16);
    assert!(!cpu.get_flag(flags::CF));
    let base = cpu.mem.read_u64(0x2000);
    let len = cpu.mem.read_u64(0x2008);
    let typ = cpu.mem.read_u32(0x2010);
    assert_eq!(base, 0x0010_0000); // 1 MiB
    assert_eq!(len, 0x07F0_0000); // 127 MiB
    assert_eq!(typ, 1);
    // Continuation advanced to 4 (index 4 is the end marker).
    assert_eq!(cpu.ebx(), 4);
}

#[test]
fn e801_reports_extended_memory() {
    let mut cpu = Cpu::new();
    // mov ah, 0xE8 ; mov al, 0x01 ; int 0x15 ; hlt
    load(&mut cpu, &[
        0xB4, 0xE8, 0xB0, 0x01, 0xCD, 0x15,
        0xF4,
    ]);
    cpu.run(16);
    // 15 MiB of extended memory below 16 MiB = 15360 KB in both AX and CX.
    assert_eq!(cpu.ax(), 15 * 1024);
    assert_eq!(cpu.cx(), 15 * 1024);
    // Memory above 16 MiB: (128 MiB - 16 MiB) / 64 KiB = 1792 units.
    assert_eq!(cpu.bx(), 1792);
    assert_eq!(cpu.dx(), 1792);
}

#[test]
fn int15_88_reports_extended_memory_kb() {
    let mut cpu = Cpu::new();
    // mov ah, 0x88 ; int 0x15 ; hlt
    load(&mut cpu, &[
        0xB4, 0x88, 0xCD, 0x15,
        0xF4,
    ]);
    cpu.run(16);
    // 0x88 saturates at 0xFFFF KB (16-bit return) for >64 MiB extended.
    assert_eq!(cpu.ax(), 0xFFFF);
}

#[test]
fn keyboard_read_queued_key() {
    let mut cpu = Cpu::new();
    cpu.bios.push_key(b'x', 0x2D);
    // mov ah, 0x00 ; int 0x16 ; hlt
    load(&mut cpu, &[
        0xB4, 0x00, 0xCD, 0x16,
        0xF4,
    ]);
    cpu.run(16);
    assert_eq!(cpu.reg8(Reg8::Al), b'x');
    assert_eq!(cpu.reg8(Reg8::Ah), 0x2D);
}
