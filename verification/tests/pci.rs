//! Tests of the pci module.

use x86emu::pci::{Pci, VIRTIO_BLK_SLOT};

fn addr(slot: u32, reg: u32) -> u32 {
    0x8000_0000 | (slot << 11) | (reg & 0xFC)
}

#[test]
fn the_host_bridge_answers_at_slot_zero() {
    let mut pci = Pci::new();
    pci.address = addr(0, 0x00);
    assert_eq!(pci.read_data(0, 4), 0x1237_8086, "vendor and device");
}

#[test]
fn an_empty_slot_reads_as_all_ones() {
    // This is what ends a bus scan. Zeros here invent a device in every
    // one of the 32 slots.
    let mut pci = Pci::new();
    pci.address = addr(5, 0x00);
    assert_eq!(pci.read_data(0, 4), 0xFFFF_FFFF);
}

#[test]
fn the_cycle_needs_the_enable_bit() {
    let mut pci = Pci::new();
    pci.address = addr(0, 0x00) & !0x8000_0000;
    assert_eq!(pci.read_data(0, 4), 0xFFFF_FFFF, "inert without bit 31");
}

#[test]
fn the_block_device_identifies_as_transitional_virtio() {
    let mut pci = Pci::new();
    pci.address = addr(VIRTIO_BLK_SLOT as u32, 0x00);
    assert_eq!(pci.read_data(0, 4), 0x1001_1AF4);
    pci.address = addr(VIRTIO_BLK_SLOT as u32, 0x2C);
    assert_eq!(pci.read_data(0, 4), 0x0002_1AF4, "subsystem says block");
    pci.address = addr(VIRTIO_BLK_SLOT as u32, 0x08);
    assert_eq!(pci.read_data(0, 4) >> 24, 0x01, "class: mass storage");
    assert_eq!(pci.read_data(0, 4) & 0xFF, 0x00, "revision 0 is legacy");
}

#[test]
fn a_bar_reports_its_size_then_takes_an_address() {
    let mut pci = Pci::new();
    pci.address = addr(VIRTIO_BLK_SLOT as u32, 0x10);
    // Writing all ones asks how big the region is: the low six bits read
    // back clear for a 64-byte region, and bit 0 stays set for I/O.
    pci.write_data(0, 4, 0xFFFF_FFFF);
    let probed = pci.read_data(0, 4);
    assert_eq!(probed & 1, 1, "still marked I/O");
    assert_eq!(probed & !0x3, 0xFFFF_FFC0, "64 bytes");

    // Then the kernel writes where it wants it.
    pci.write_data(0, 4, 0xD000);
    assert_eq!(pci.read_data(0, 4), 0xD001, "address with the I/O bit");
    assert_eq!(pci.virtio_io_base(), Some(0xD000));
}

#[test]
fn the_identity_registers_are_read_only() {
    let mut pci = Pci::new();
    pci.address = addr(VIRTIO_BLK_SLOT as u32, 0x00);
    pci.write_data(0, 4, 0xDEAD_BEEF);
    assert_eq!(pci.read_data(0, 4), 0x1001_1AF4, "device cannot be renamed");
}

#[test]
fn io_decoding_can_be_turned_off() {
    // The kernel clears the command register while it sizes BARs. A
    // device that keeps decoding through that answers ports the kernel
    // believes belong to nobody.
    let mut pci = Pci::new();
    assert!(pci.virtio_io_base().is_some());
    pci.address = addr(VIRTIO_BLK_SLOT as u32, 0x04);
    pci.write_data(0, 2, 0x0000);
    assert_eq!(pci.virtio_io_base(), None);
}

#[test]
fn byte_and_word_reads_take_their_lane_from_the_port() {
    let mut pci = Pci::new();
    pci.address = addr(VIRTIO_BLK_SLOT as u32, 0x00);
    assert_eq!(pci.read_data(2, 2), 0x1001, "device id is the high half");
    assert_eq!(pci.read_data(0, 2), 0x1AF4, "vendor id is the low half");
    assert_eq!(pci.read_data(0, 1), 0xF4);
}
