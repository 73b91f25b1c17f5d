//! Tests of the pit module.

use x86emu::pit::Pit;

#[test]
fn channel0_counts_down_and_asserts_irq0() {
    let mut pit = Pit::new();
    // Program channel 0, word access, mode 3, count = 5.
    pit.write_control(0x36); // ch0, word, mode 3, binary
    pit.write_data(5);
    pit.write_data(0);
    assert_eq!(pit.ch0_count, 5);
    assert!(!pit.irq0);
    pit.tick(3);
    assert_eq!(pit.ch0_count, 2);
    assert!(!pit.irq0);
    pit.tick(2);
    assert!(pit.irq0);
    assert_eq!(pit.ch0_count, 5); // reloaded
}

#[test]
fn control_word_selects_channel() {
    let mut pit = Pit::new();
    // Program channel 1, word access, mode 3.
    pit.write_control(0x76); // ch1, word, mode 3
    pit.write_data(0x34);
    pit.write_data(0x12);
    assert_eq!(pit.ch1_count, 0x1234);
    assert_eq!(pit.ch1_reload, 0x1234);
}
