//! Tests of the pic module.

use x86emu::pic::Pic;

#[test]
fn init_and_acknowledge_master() {
    let mut pic = Pic::new();
    // ICW1 (port 0x20), ICW2 base = 0x08 (port 0x21).
    pic.write_command(0x20, 0x11);
    pic.write_data(0x21, 0x08);
    assert_eq!(pic.master_base, 0x08);
    // Raise IRQ1 (keyboard) and acknowledge.
    pic.raise_irq(1);
    assert_eq!(pic.acknowledge(), Some(0x09));
    assert!(pic.in_service());
}

#[test]
fn masked_irq_not_acknowledged() {
    let mut pic = Pic::new();
    pic.write_command(0x20, 0x11);
    pic.write_data(0x21, 0x08);
    pic.master_imr = 0x02; // mask IRQ1
    pic.raise_irq(1);
    assert_eq!(pic.acknowledge(), None);
}

#[test]
fn in_service_blocks_the_same_and_lower_priority_until_eoi() {
    let mut pic = Pic::new();
    pic.write_command(0x20, 0x11);
    pic.write_data(0x21, 0x20);
    pic.raise_irq(1);
    assert_eq!(pic.acknowledge(), Some(0x21));
    // IRQ1 in service: another IRQ1 waits, and so does IRQ3 (lower
    // priority) -- but IRQ0 (higher) gets through.
    pic.raise_irq(1);
    pic.raise_irq(3);
    assert_eq!(pic.acknowledge(), None);
    pic.raise_irq(0);
    assert_eq!(pic.acknowledge(), Some(0x20));
    // Specific EOI for IRQ0 (0x60), then for IRQ1 (0x61): the way Linux
    // ends every interrupt.
    pic.write_command(0x20, 0x60);
    assert_eq!(pic.acknowledge(), None, "IRQ1 still in service");
    pic.write_command(0x20, 0x61);
    assert_eq!(pic.acknowledge(), Some(0x21));
    pic.write_command(0x20, 0x20); // non-specific EOI
    assert_eq!(pic.acknowledge(), Some(0x23));
}

#[test]
fn ocw3_selects_isr_reads() {
    let mut pic = Pic::new();
    pic.write_command(0x20, 0x11);
    pic.write_data(0x21, 0x20);
    pic.raise_irq(4);
    pic.acknowledge();
    assert_eq!(pic.read_command(0x20), 0, "IRR: acknowledged");
    pic.write_command(0x20, 0x0B);
    assert_eq!(pic.read_command(0x20), 0x10, "ISR");
    pic.write_command(0x20, 0x0A);
    assert_eq!(pic.read_command(0x20), 0);
}

#[test]
fn slave_irq_maps_to_base() {
    let mut pic = Pic::new();
    pic.write_command(0x20, 0x11);
    pic.write_data(0x21, 0x08);
    pic.write_command(0xA0, 0x11);
    pic.write_data(0xA1, 0x70);
    pic.raise_irq(8); // slave IRQ0
    assert_eq!(pic.acknowledge(), Some(0x70));
}
