//! The laws of the devices, the command line and boot errors on concrete
//! values.

use x86emu::boot::{
    load_elf64_kernel, load_elf_kernel, load_elf_kernel_with_initrd, load_kernel, parse_bzimage, BootError,
};
use x86emu::cli::{parse_addr, parse_size};
use x86emu::cmos::{reg, to_bcd, Cmos};
use x86emu::cpu::Cpu;
use x86emu::dma::Dma;
use x86emu::ide::Ide;
use x86emu::kbd::Kbd;
use x86emu::memory::Memory;
use x86emu::pci::Pci;
use x86emu::pic::Pic;
use x86emu::pit::Pit;

#[test]
fn only_requested_unmasked_interrupts_are_next() {
    let mut p = Pic::new();
    assert_eq!(p.next_irq(), None);
    p.raise_irq(4);
    p.raise_irq(1);
    assert_eq!(p.next_irq(), Some(1));
    p.write_data(0x21, 0b0000_0010);
    assert_eq!(p.next_irq(), Some(4));
    p.write_data(0x21, 0xFF);
    assert_eq!(p.next_irq(), None);
}

#[test]
fn slave_lines_come_by_line_at_the_cascade_input() {
    let mut p = Pic::new();
    for irq in [4, 14, 9, 12] {
        p.raise_irq(irq);
    }
    // The slave stands at line 2: before line 4, its own lines in order.
    assert_eq!(p.next_irq(), Some(9));
    p.raise_irq(1);
    assert_eq!(p.next_irq(), Some(1));
    p.clear_irq(1);
    assert!(p.acknowledge().is_some());
    // Line 9 in service holds back lines 12 and 14, and the master's line 4.
    assert_eq!(p.next_irq(), None);
    p.write_command(0xA0, 0x20);
    assert_eq!(p.next_irq(), Some(12));
    // A masked cascade input lets line 4 come first.
    p.write_data(0x21, 0b0000_0100);
    assert_eq!(p.next_irq(), Some(4));
}

#[test]
fn an_interrupt_in_service_blocks_its_line_until_it_ends() {
    let mut p = Pic::new();
    p.raise_irq(3);
    assert!(p.acknowledge().is_some());
    p.raise_irq(3);
    assert_eq!(p.next_irq(), None);
    // A specific end of interrupt for line 3.
    p.write_command(0x20, 0x63);
    assert_eq!(p.next_irq(), Some(3));
}

#[test]
fn slave_lines_come_through_the_cascade() {
    let mut p = Pic::new();
    p.raise_irq(14);
    p.raise_irq(5);
    assert_eq!(p.next_irq(), Some(14));
    p.write_data(0x21, 1 << 2);
    assert_eq!(p.next_irq(), Some(5));
}

#[test]
fn the_timer_loads_and_counts_down() {
    let mut p = Pit::new();
    p.write_control(0x36);
    p.write_data(0x34);
    assert_eq!(p.ch0_count, 0);
    p.write_data(0x12);
    assert_eq!(p.ch0_count, 0x1234);
    p.tick(0x1233);
    assert_eq!(p.ch0_count, 1);
    assert!(!p.irq0);
    p.tick(1);
    assert_eq!(p.ch0_count, 0x1234);
    assert!(p.irq0);
}

#[test]
fn the_keyboard_is_a_queue() {
    let mut k = Kbd::new();
    k.push_scancode(0x1E);
    k.push_scancode(0x30);
    k.push_scancode(0x2E);
    assert_eq!(k.read_data(), 0x1E);
    assert_eq!(k.read_data(), 0x30);
    k.push_scancode(0x20);
    assert_eq!(k.read_data(), 0x2E);
    assert_eq!(k.read_data(), 0x20);
    assert_eq!(k.read_data(), 0);
}

#[test]
fn the_command_byte_reads_back() {
    let mut k = Kbd::new();
    k.write_command(0x60);
    k.write_data(0x47);
    k.write_command(0x20);
    assert_eq!(k.read_data(), 0x47);
}

#[test]
fn a_silenced_keyboard_drops_keys() {
    let mut k = Kbd::new();
    k.write_data(0xF5);
    assert_eq!(k.read_data(), 0xFA);
    k.push_scancode(0x1E);
    assert!(k.idle());
}

#[test]
fn the_clock_shows_a_time_and_no_update() {
    let mut c = Cmos::new();
    // 2001-09-09 01:46:40, a Sunday.
    c.epoch_secs = 1_000_000_000;
    let mut get = |i: u8| {
        c.write_index(i);
        c.read_data()
    };
    assert_eq!(get(reg::SECONDS), 0x40);
    assert_eq!(get(reg::MINUTES), 0x46);
    assert_eq!(get(reg::HOURS), 0x01);
    assert_eq!(get(reg::WEEKDAY), 0x01);
    assert_eq!(get(reg::DAY), 0x09);
    assert_eq!(get(reg::MONTH), 0x09);
    assert_eq!(get(reg::YEAR), 0x01);
    assert_eq!(get(reg::CENTURY), 0x20);
    assert_eq!(get(reg::STATUS_A) & 0x80, 0);
}

#[test]
fn configuration_ram_is_kept() {
    let mut c = Cmos::new();
    c.write_index(0x40);
    c.write_data(0xC3);
    c.write_index(0x41);
    c.write_data(0x3C);
    c.write_index(0x40);
    assert_eq!(c.read_data(), 0xC3);
}

#[test]
fn bcd_holds_the_digits() {
    assert_eq!(to_bcd(0), 0x00);
    assert_eq!(to_bcd(9), 0x09);
    assert_eq!(to_bcd(10), 0x10);
    assert_eq!(to_bcd(99), 0x99);
}

#[test]
fn sectors_read_back() {
    let mut d = Ide::new();
    d.load_disk(vec![0x11; 512 * 4]);
    d.sector_count = 1;
    d.lba_low = 2;
    d.write_command(0x30);
    for i in 0..256u16 {
        d.write_data(i);
    }
    d.flush_write();
    assert_eq!(d.disk[512 * 2 - 1], 0x11);
    assert_eq!(d.disk[512 * 3], 0x11);
    d.write_command(0x20);
    for i in 0..256u16 {
        assert_eq!(d.read_data(), i);
    }
}

#[test]
fn a_write_past_the_end_is_dropped() {
    let mut d = Ide::new();
    d.load_disk(vec![0x22; 512]);
    d.sector_count = 2;
    d.write_command(0x30);
    for _ in 0..512 {
        d.write_data(0xFFFF);
    }
    d.flush_write();
    assert!(d.disk.iter().all(|b| *b == 0x22));
    d.write_command(0x20);
    assert_eq!(d.error, 0x04);
}

#[test]
fn dma_copies_every_byte() {
    let mut mem = Memory::with_size(0x10_0000);
    let mut dma = Dma::new();
    for i in 0..16usize {
        mem.write_u8(0x1000 + i, 0x80 + i as u8);
    }
    dma.channels[0].base = 0x1000;
    dma.channels[0].count = 7;
    dma.channels[0].enabled = true;
    let n = dma.transfer(&mut mem, 0);
    assert_eq!(n, 16);
    assert_eq!(dma.read_status() & 1, 1);
    assert!(!dma.channels[0].enabled);
}

#[test]
fn a_device_identity_is_read_only_and_a_bar_reports_its_size() {
    let mut pci = Pci::new();
    pci.address = 0x8000_0000 | (1 << 11);
    pci.write_data(0, 4, 0xDEAD_BEEF);
    assert_eq!(pci.read_data(0, 4), 0x1001_1AF4);
    pci.address = 0x8000_0000 | (1 << 11) | 0x10;
    pci.write_data(0, 4, 0xFFFF_FFFF);
    assert_eq!(pci.read_data(0, 4), 0xFFFF_FFC1);
    pci.address = 0x8000_0000 | (9 << 11);
    pci.write_data(0, 4, 0);
    assert_eq!(pci.read_data(0, 4), 0xFFFF_FFFF);
}

// ---- The command line ----

#[test]
fn addresses_are_segment_and_offset_in_hex() {
    assert_eq!(parse_addr("0000:0100"), Some((0, 0x100)));
    assert_eq!(parse_addr("F000:fff0"), Some((0xF000, 0xFFF0)));
    assert_eq!(parse_addr("+7c0:+0"), Some((0x7C0, 0)));
    assert_eq!(parse_addr("7c00"), None);
    assert_eq!(parse_addr(":100"), None);
    assert_eq!(parse_addr("100:"), None);
    assert_eq!(parse_addr("10000:0"), None);
    assert_eq!(parse_addr("1:2:3"), None);
    assert_eq!(parse_addr("x:1"), None);
    assert_eq!(parse_addr("+:1"), None);
}

#[test]
fn sizes_have_a_suffix_or_are_mebibytes() {
    assert_eq!(parse_size("640K"), Some(640 * 1024));
    assert_eq!(parse_size("64M"), Some(64 << 20));
    assert_eq!(parse_size("8G"), Some(8 << 30));
    assert_eq!(parse_size("128"), Some(128 << 20));
    assert_eq!(parse_size("G"), None);
    assert_eq!(parse_size(""), None);
    assert_eq!(parse_size("12X"), None);
    assert_eq!(parse_size("99999999999G"), None);
    assert_eq!(parse_size("18446744073709551616K"), None);
}

// ---- Boot errors ----

fn bzimage() -> Vec<u8> {
    let mut image = vec![0u8; 0x1000];
    image[0x1F1] = 1;
    image[0x1F4..0x1F8].copy_from_slice(&4u32.to_le_bytes());
    image[0x1FE] = 0x55;
    image[0x1FF] = 0xAA;
    image[0x202..0x206].copy_from_slice(b"HdrS");
    image
}

fn elf(class: u8) -> Vec<u8> {
    let mut e = vec![0u8; 0x200];
    e[0..4].copy_from_slice(&[0x7F, b'E', b'L', b'F']);
    e[4] = class;
    if class == 2 {
        e[24..32].copy_from_slice(&0x10_0000u64.to_le_bytes());
        e[32..40].copy_from_slice(&0x40u64.to_le_bytes());
        e[54..56].copy_from_slice(&56u16.to_le_bytes());
        e[56..58].copy_from_slice(&1u16.to_le_bytes());
        e[0x40..0x44].copy_from_slice(&1u32.to_le_bytes());
        e[0x48..0x50].copy_from_slice(&0x100u64.to_le_bytes());
        e[0x58..0x60].copy_from_slice(&0x10_0000u64.to_le_bytes());
        e[0x60..0x68].copy_from_slice(&0x20u64.to_le_bytes());
        e[0x68..0x70].copy_from_slice(&0x20u64.to_le_bytes());
    } else {
        e[24..28].copy_from_slice(&0x10_0000u32.to_le_bytes());
        e[28..32].copy_from_slice(&0x40u32.to_le_bytes());
        e[42..44].copy_from_slice(&32u16.to_le_bytes());
        e[44..46].copy_from_slice(&1u16.to_le_bytes());
        e[0x40..0x44].copy_from_slice(&1u32.to_le_bytes());
        e[0x44..0x48].copy_from_slice(&0x100u32.to_le_bytes());
        e[0x4C..0x50].copy_from_slice(&0x10_0000u32.to_le_bytes());
        e[0x50..0x54].copy_from_slice(&0x20u32.to_le_bytes());
        e[0x54..0x58].copy_from_slice(&0x20u32.to_le_bytes());
    }
    e
}

#[test]
fn a_bzimage_is_refused_for_a_reason() {
    assert_eq!(parse_bzimage(&[0; 16]), Err(BootError::NoSetupHeader));
    let mut bad = bzimage();
    bad[0x1FE] = 0;
    assert_eq!(parse_bzimage(&bad), Err(BootError::BadBootFlag { found: 0xAA00 }));
    let mut bad = bzimage();
    bad[0x202] = b'X';
    assert_eq!(parse_bzimage(&bad), Err(BootError::BadMagic));
    let mut bad = bzimage();
    bad[0x1F4..0x1F8].copy_from_slice(&0x1000u32.to_le_bytes());
    assert_eq!(
        parse_bzimage(&bad),
        Err(BootError::Truncated { need: 0x1_0000, offset: 0x400, have: 0x1000 })
    );
    assert!(parse_bzimage(&bzimage()).is_ok());
    let mut cpu = Cpu::with_ram(0x10_0000);
    assert!(load_kernel(&mut cpu, &bzimage()[..0x280], "").is_err());
}

#[test]
fn an_elf_is_refused_for_a_reason() {
    let mut cpu = Cpu::with_ram(0x100_0000);
    assert_eq!(load_elf_kernel(&mut cpu, b"not an elf at all, not at all", ""), Err(BootError::NotElf));
    assert_eq!(load_elf64_kernel(&mut cpu, &[0; 64], "", None), Err(BootError::NotElf));
    assert_eq!(load_elf64_kernel(&mut cpu, &elf(1), "", None), Err(BootError::NotElf64));
    let mut none = elf(2);
    none[56] = 0;
    assert_eq!(load_elf64_kernel(&mut cpu, &none, "", None), Err(BootError::NoProgramHeaders));
    let mut far = elf(2);
    far[32..40].copy_from_slice(&0x10_0000u64.to_le_bytes());
    assert_eq!(load_elf64_kernel(&mut cpu, &far, "", None), Err(BootError::HeadersPastEnd));
    let mut long = elf(2);
    long[0x60..0x68].copy_from_slice(&0x1000u64.to_le_bytes());
    assert_eq!(load_elf64_kernel(&mut cpu, &long, "", None), Err(BootError::SegmentPastEnd));
    let huge = vec![0u8; 0x101_0000];
    assert_eq!(
        load_elf_kernel_with_initrd(&mut cpu, &elf(1), "", Some(&huge)),
        Err(BootError::RamdiskTooLarge)
    );
}

#[test]
fn good_elfs_load_and_start() {
    let mut cpu = Cpu::with_ram(0x100_0000);
    let mut image = elf(1);
    image[0x100] = 0xF4;
    assert_eq!(load_elf_kernel(&mut cpu, &image, "quiet"), Ok(0x10_0000));
    assert_eq!(cpu.mem.read_u8(0x10_0000), 0xF4);
    assert_eq!(cpu.rip, 0x10_0000);
    cpu.run(10);
    assert!(cpu.halted);
    let mut cpu = Cpu::with_ram(0x100_0000);
    let mut image = elf(2);
    image[0x100] = 0xF4;
    assert_eq!(load_elf64_kernel(&mut cpu, &image, "quiet", Some(&[1, 2, 3])), Ok(0x10_0000));
    assert!(cpu.long64());
    let at = cpu.mem.read_u32(0x90000 + 0x218) as usize;
    assert_eq!(cpu.mem.read_u8(at + 2), 3);
    assert_eq!(cpu.mem.read_u32(0x90000 + 0x21C), 3);
    cpu.run(10);
    assert!(cpu.halted && !cpu.triple_fault);
}

#[test]
fn boot_and_the_bios_describe_the_same_memory() {
    let mut cpu = Cpu::with_ram(0x100_0000);
    load_elf_kernel(&mut cpu, &elf(1), "").unwrap();
    let map = cpu.mem.e820();
    assert_eq!(cpu.mem.read_u8(0x90000 + 0x1E8) as usize, map.len());
    for (i, e) in map.iter().enumerate() {
        let at = 0x90000 + 0x2D0 + i * 20;
        assert_eq!((cpu.mem.read_u64(at), cpu.mem.read_u64(at + 8), cpu.mem.read_u32(at + 16)), *e);
    }
    // INT 0x15, EAX = 0xE820, for each entry in turn.
    let mut next = 0;
    for e in map.iter() {
        cpu.set_eax(0xE820);
        cpu.set_edx(0x534D_4150);
        cpu.set_ebx(next);
        cpu.es = 0;
        cpu.set_di(0x600);
        assert!(cpu.bios_call(0x15));
        assert_eq!((cpu.mem.read_u64(0x600), cpu.mem.read_u64(0x608), cpu.mem.read_u32(0x610)), *e);
        next = cpu.ebx();
    }
}
