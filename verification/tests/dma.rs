//! Tests of the dma module.

use x86emu::dma::Dma;
use x86emu::memory::Memory;

#[test]
fn channel_address_combines_page_and_base() {
    let mut dma = Dma::new();
    dma.channels[2].base = 0x1234;
    dma.channels[2].page = 0x10;
    assert_eq!(dma.address(2), 0x101234);
}

#[test]
fn program_channel_via_ports() {
    let mut dma = Dma::new();
    // Channel 0 base port 0x00: write LSB then MSB.
    dma.write_channel(0x00, 0x34);
    dma.write_channel(0x00, 0x12);
    assert_eq!(dma.channels[0].base, 0x1234);
    // Count port 0x01.
    dma.write_channel(0x01, 0xFF);
    dma.write_channel(0x01, 0x00);
    assert_eq!(dma.channels[0].count, 0x00FF);
}

#[test]
fn page_register_writes() {
    let mut dma = Dma::new();
    dma.write_page(0x81, 0xAB);
    assert_eq!(dma.channels[2].page, 0xAB);
}

#[test]
fn transfer_copies_memory() {
    let mut dma = Dma::new();
    let mut mem = Memory::new();
    mem.write_u16(0x1000, 0xCAFE);
    mem.write_u16(0x1002, 0xBEEF);
    dma.channels[0].base = 0x1000;
    dma.channels[0].count = 1; // 2 words
    dma.channels[0].enabled = true;
    let n = dma.transfer(&mut mem, 0);
    assert_eq!(n, 4);
    assert_eq!(mem.read_u16(0x1004), 0xCAFE);
    assert_eq!(mem.read_u16(0x1006), 0xBEEF);
}
