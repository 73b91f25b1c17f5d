//! Tests of the ide module.

use x86emu::ide::{Ide, SECTOR_SIZE};

#[test]
fn lba_computed_from_registers() {
    let mut ide = Ide::new();
    ide.lba_low = 0x34;
    ide.lba_mid = 0x12;
    ide.lba_high = 0x00;
    ide.drive_head = 0xE0 | 0x00; // LBA mode, drive 0, LBA bits 24-27 = 0
    assert_eq!(ide.lba(), 0x1234);
}

#[test]
fn read_sectors() {
    let mut ide = Ide::new();
    let mut disk = vec![0u8; SECTOR_SIZE * 2];
    disk[0..4].copy_from_slice(b"DATA");
    ide.load_disk(disk);
    // LBA 0, count 1.
    ide.sector_count = 1;
    ide.lba_low = 0;
    ide.lba_mid = 0;
    ide.lba_high = 0;
    ide.drive_head = 0xE0;
    ide.write_command(0x20);
    assert_eq!(ide.read_data(), b'D' as u16 | ((b'A' as u16) << 8));
    assert_eq!(ide.read_data(), b'T' as u16 | ((b'A' as u16) << 8));
}

#[test]
fn write_sectors() {
    let mut ide = Ide::new();
    let disk = vec![0u8; SECTOR_SIZE * 2];
    ide.load_disk(disk);
    ide.sector_count = 1;
    ide.lba_low = 0;
    ide.lba_mid = 0;
    ide.lba_high = 0;
    ide.drive_head = 0xE0;
    ide.write_command(0x30);
    ide.write_data(0x4241); // "AB"
    ide.write_data(0x4443); // "CD"
    ide.flush_write();
    assert_eq!(&ide.disk[0..4], b"ABCD");
}

#[test]
fn read_missing_sector_sets_error() {
    let mut ide = Ide::new();
    // No disk loaded.
    ide.sector_count = 1;
    ide.lba_low = 0;
    ide.write_command(0x20);
    assert_eq!(ide.error, 0x04);
}
