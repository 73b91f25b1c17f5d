//! Tests of the cpu module.

use x86emu::cpu::{flags, Cpu, Reg16, Reg32, Reg8};
use x86emu::memory::Memory;

fn load(cpu: &mut Cpu, bytes: &[u8]) {
    cpu.mem.load(Memory::phys(cpu.cs, cpu.ip), bytes);
}

#[test]
fn reg8_byte_access() {
    let mut cpu = Cpu::new();
    cpu.set_reg16(Reg16::Ax, 0x1234);
    assert_eq!(cpu.reg8(Reg8::Al), 0x34);
    assert_eq!(cpu.reg8(Reg8::Ah), 0x12);
    cpu.set_reg8(Reg8::Al, 0xAB);
    assert_eq!(cpu.ax(), 0x12AB);
    cpu.set_reg8(Reg8::Ah, 0xCD);
    assert_eq!(cpu.ax(), 0xCDAB);
}

#[test]
fn stack_push_pop() {
    let mut cpu = Cpu::new();
    cpu.ss = 0;
    cpu.set_sp(0x0100);
    cpu.push16(0xCAFE);
    assert_eq!(cpu.sp(), 0x00FE);
    assert_eq!(cpu.pop16(), 0xCAFE);
    assert_eq!(cpu.sp(), 0x0100);
}

#[test]
fn reg32_syncs_with_16bit() {
    let mut cpu = Cpu::new();
    cpu.set_reg32(Reg32::Eax, 0x12345678);
    assert_eq!(cpu.ax(), 0x5678);
    assert_eq!(cpu.reg16(Reg16::Ax), 0x5678);
    cpu.set_reg16(Reg16::Ax, 0xABCD);
    assert_eq!(cpu.eax(), 0x1234ABCD);
}

#[test]
fn hardware_interrupt_pit_to_pic_to_cpu() {
    let mut cpu = Cpu::new();
    cpu.ss = 0;
    cpu.set_sp(0x0100);
    // Program the PIT: channel 0, word access, mode 3, count = 1.
    cpu.port_out(0x43, 0x36);
    cpu.port_out(0x40, 1);
    cpu.port_out(0x40, 0);
    // Program the PIC: ICW1, ICW2 base = 0x08 (so IRQ0 -> vector 0x08).
    cpu.port_out(0x20, 0x11);
    cpu.port_out(0x21, 0x08);
    // Install an IVT entry for vector 0x08 -> handler at 0x0000:0x0200.
    cpu.mem.write_u16(0x08 * 4, 0x0200);
    cpu.mem.write_u16(0x08 * 4 + 2, 0x0000);
    // Handler: mov al, 0x01 ; out 0x21, al (mask IRQ0) ; mov ax, 0x77 ; iret
    cpu.mem.load(0x0200, &[
        0xB0, 0x01,       // mov al, 0x01
        0xE6, 0x21,       // out 0x21, al
        0xB8, 0x77, 0x00, // mov ax, 0x77
        0xCF,             // iret
    ]);
    // Main loop: hlt (interrupt should still fire before it).
    cpu.mem.load(0x0100, &[0xF4]);
    cpu.cs = 0;
    cpu.ip = 0x0100;
    // A maskable interrupt is only delivered with IF set.
    cpu.set_flag(flags::IF, true);
    // Run enough instructions for the PIT to wrap (count 1 -> 1 tick).
    cpu.run(8);
    // The handler ran: AX = 0x77.
    assert_eq!(cpu.ax(), 0x77);
    // The main hlt was reached (timer masked, so no re-entry).
    assert!(cpu.halted);
    // Stack restored after the interrupt frame.
    assert_eq!(cpu.sp(), 0x0100);
}

#[test]
fn keyboard_irq1_delivered_through_pic() {
    let mut cpu = Cpu::new();
    cpu.ss = 0;
    cpu.set_sp(0x0100);
    // Program the PIC: ICW1, ICW2 base = 0x08 (so IRQ1 -> vector 0x09).
    cpu.port_out(0x20, 0x11);
    cpu.port_out(0x21, 0x08);
    // Install an IVT entry for vector 0x09 -> handler at 0x0000:0x0300.
    cpu.mem.write_u16(0x09 * 4, 0x0300);
    cpu.mem.write_u16(0x09 * 4 + 2, 0x0000);
    // Handler: mov ax, 0x55 ; iret
    cpu.mem.load(0x0300, &[
        0xB8, 0x55, 0x00,
        0xCF,
    ]);
    // Queue a scancode on the 8042 (raises IRQ1).
    cpu.kbd.push_scancode(0x1E);
    // Main loop: hlt.
    cpu.mem.load(0x0100, &[0xF4]);
    cpu.cs = 0;
    cpu.ip = 0x0100;
    cpu.set_flag(flags::IF, true);
    cpu.run(8);
    assert_eq!(cpu.ax(), 0x55);
    assert!(cpu.halted);
}

#[test]
fn ide_read_via_port_io() {
    let mut cpu = Cpu::new();
    // Load a disk image with a marker in sector 0.
    let mut disk = vec![0u8; 512 * 2];
    disk[0..4].copy_from_slice(b"IDED");
    cpu.ide.load_disk(disk);
    // Program the IDE command block: count=1, LBA=0, drive 0, then read.
    cpu.port_out16(0x1F2, 1);
    cpu.port_out16(0x1F3, 0);
    cpu.port_out16(0x1F4, 0);
    cpu.port_out16(0x1F5, 0);
    cpu.port_out16(0x1F6, 0xE0);
    cpu.port_out16(0x1F7, 0x20); // read sectors
    // Read two words from the data register.
    let w0 = cpu.port_in16(0x1F0);
    let w1 = cpu.port_in16(0x1F0);
    // Disk holds "IDED": word 0 = 'I' | 'D'<<8, word 1 = 'E' | 'D'<<8.
    assert_eq!(w0, b'I' as u16 | ((b'D' as u16) << 8));
    assert_eq!(w1, b'E' as u16 | ((b'D' as u16) << 8));
}

#[test]
fn vga_graphics_mode_via_bios() {
    let mut cpu = Cpu::new();
    // mov ah, 0x00 ; mov al, 0x13 ; int 0x10 ; hlt
    load(&mut cpu, &[
        0xB4, 0x00, 0xB0, 0x13, 0xCD, 0x10,
        0xF4,
    ]);
    cpu.run(16);
    assert!(cpu.vga.is_graphics());
    assert_eq!(cpu.vga.framebuffer.len(), 320 * 200);
}

#[test]
fn exception_without_idt_triple_faults() {
    let mut cpu = Cpu::new();
    cpu.pe = true;
    cpu.ss = 0;
    cpu.set_esp(0x0100);
    // No IDT installed (idt_base=0, idt_limit=0). A #DE fires.
    // mov ax, 1 ; mov bx, 0 ; div bx ; hlt
    cpu.mem.load(0x1000, &[
        0x66, 0xB8, 0x01, 0x00, 0x00, 0x00,
        0x66, 0xBB, 0x00, 0x00, 0x00, 0x00,
        0x66, 0xF7, 0xF3,
        0xF4,
    ]);
    cpu.cs = 0x08;
    cpu.set_eip(0x1000);
    cpu.run(32);
    // The #DE fired but there's no IDT -> triple fault -> halt.
    assert!(cpu.triple_fault);
    assert!(cpu.halted);
}
