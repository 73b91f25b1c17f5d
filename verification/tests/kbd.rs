//! Tests of the kbd module.

use x86emu::kbd::{
    ascii_to_scancode, scancodes_for, Kbd, ACK, CTR_DEFAULT, CTR_KBD_INT, ST_AUX, ST_CMD, ST_OBF,
};

/// Drive the controller the way `i8042_probe` does and read one byte.
fn command(kbd: &mut Kbd, cmd: u8) -> u8 {
    kbd.write_command(cmd);
    assert_eq!(kbd.read_status() & ST_OBF, ST_OBF, "command {cmd:02X} answered nothing");
    kbd.read_data()
}

#[test]
fn scancode_queued_and_read() {
    let mut kbd = Kbd::new();
    kbd.push_scancode(0x1E); // 'A' make
    assert!(kbd.irq1);
    assert_eq!(kbd.read_status() & ST_OBF, ST_OBF);
    assert_eq!(kbd.read_data(), 0x1E);
    assert!(!kbd.irq1);
    assert_eq!(kbd.read_status() & ST_OBF, 0x00);
}

#[test]
fn empty_read_returns_zero() {
    let mut kbd = Kbd::new();
    assert_eq!(kbd.read_data(), 0);
}

#[test]
fn the_control_byte_round_trips() {
    // The whole probe hangs off this: read it with 0x20, write it back
    // with 0x60, read it again and see the change. Answering 0x20 with a
    // fixed acknowledge byte is what failed the probe with "Can't read
    // CTR" and left the machine with no console.
    let mut kbd = Kbd::new();
    let initial = command(&mut kbd, 0x20);
    assert_eq!(initial, CTR_DEFAULT);

    kbd.write_command(0x60);
    kbd.write_data(initial & !CTR_KBD_INT); // mask the keyboard interrupt
    assert_eq!(command(&mut kbd, 0x20), CTR_DEFAULT & !CTR_KBD_INT);
}

#[test]
fn self_test_and_port_test_report_pass() {
    let mut kbd = Kbd::new();
    assert_eq!(command(&mut kbd, 0xAA), 0x55, "controller self-test");
    assert_eq!(command(&mut kbd, 0xAB), 0x00, "first port test");
}

#[test]
fn the_auxiliary_port_reports_no_device() {
    // 0xFF is what stops Linux registering a mouse that is not there.
    let mut kbd = Kbd::new();
    assert_eq!(command(&mut kbd, 0xA9), 0xFF);

    // And a byte written through to the absent device is dropped, so the
    // guest's wait for a reply times out rather than being answered.
    kbd.write_command(0xD4);
    kbd.write_data(0xF2);
    assert_eq!(kbd.read_status() & ST_OBF, 0, "nothing answers for a mouse");
}

#[test]
fn the_keyboard_answers_reset_and_identify() {
    let mut kbd = Kbd::new();
    kbd.write_data(0xFF);
    assert_eq!(kbd.read_data(), ACK);
    assert_eq!(kbd.read_data(), 0xAA, "self-test passed");

    kbd.write_data(0xF2);
    assert_eq!(kbd.read_data(), ACK);
    assert_eq!(kbd.read_data(), 0xAB, "MF2 keyboard, low byte");
    assert_eq!(kbd.read_data(), 0x83, "MF2 keyboard, high byte");
}

#[test]
fn a_command_with_an_argument_consumes_the_next_write() {
    // Set-LEDs takes a byte, and that byte must not be read back as a
    // command in its own right -- 0xED 0x02 is one exchange, not two.
    let mut kbd = Kbd::new();
    kbd.write_data(0xED);
    assert_eq!(kbd.read_data(), ACK);
    kbd.write_data(0x02);
    assert_eq!(kbd.read_data(), ACK);
    assert_eq!(kbd.read_status() & ST_OBF, 0, "exactly two acknowledges");
}

#[test]
fn interrupts_follow_the_control_byte() {
    // With the keyboard interrupt masked a scancode still queues, but
    // raises nothing. Linux masks it for the length of the probe.
    let mut kbd = Kbd::new();
    kbd.write_command(0x60);
    kbd.write_data(CTR_DEFAULT & !CTR_KBD_INT);
    kbd.push_scancode(0x1E);
    assert!(!kbd.irq1, "masked in the CTR");
    assert_eq!(kbd.read_status() & ST_OBF, ST_OBF, "but still waiting");

    // Unmasking with a byte already queued asserts it, which is what
    // makes the first keypress after the probe arrive.
    kbd.write_command(0x60);
    kbd.write_data(CTR_DEFAULT);
    assert!(kbd.irq1);
}

#[test]
fn a_keyboard_told_to_stop_scanning_sends_nothing() {
    let mut kbd = Kbd::new();
    kbd.write_data(0xF5); // disable scanning
    assert_eq!(kbd.read_data(), ACK);
    kbd.push_scancode(0x1E);
    assert_eq!(kbd.read_status() & ST_OBF, 0, "dropped, not queued");

    kbd.write_data(0xF4); // enable scanning
    assert_eq!(kbd.read_data(), ACK);
    kbd.push_scancode(0x1E);
    assert_eq!(kbd.read_data(), 0x1E);
}

#[test]
fn the_status_register_says_where_a_byte_came_from() {
    // Command 0xD3 pushes a byte into the auxiliary buffer. It must read
    // back with the AUX bit set and must not raise IRQ1, which belongs to
    // the keyboard.
    let mut kbd = Kbd::new();
    kbd.write_command(0xD3);
    kbd.write_data(0x5A);
    assert_eq!(kbd.read_status() & ST_AUX, ST_AUX);
    assert!(!kbd.irq1, "an aux byte is IRQ12's business, not IRQ1's");
    assert_eq!(kbd.read_data(), 0x5A);
    assert_eq!(kbd.read_status() & ST_AUX, 0);
}

#[test]
fn text_becomes_make_and_break_codes() {
    // Every key that goes down has to come back up: a make code with no
    // break leaves the guest's driver holding the key down forever.
    assert_eq!(scancodes_for("a"), vec![0x1E, 0x9E]);
    assert_eq!(scancodes_for("A"), vec![0x2A, 0x1E, 0x9E, 0xAA]);
    assert_eq!(scancodes_for("\n"), vec![0x1C, 0x9C]);
    // A character with no key on a US layout is skipped, not mistyped.
    assert_eq!(scancodes_for("\u{20AC}"), Vec::<u8>::new());
}

#[test]
fn shifted_punctuation_sits_on_the_unshifted_key() {
    assert_eq!(ascii_to_scancode(b'?'), Some((0x35, true)), "shift and '/'");
    assert_eq!(ascii_to_scancode(b'/'), Some((0x35, false)));
}

#[test]
fn a_driver_enabling_scanning_is_recorded() {
    // Scripted input waits for this: it is atkbd attaching.
    let mut kbd = Kbd::new();
    assert!(!kbd.driver_attached);
    kbd.write_data(0xF4);
    assert!(kbd.driver_attached);
}

#[test]
fn the_status_register_reports_the_last_write_port() {
    let mut kbd = Kbd::new();
    kbd.write_command(0xAA);
    assert_eq!(kbd.read_status() & ST_CMD, ST_CMD, "last write was 0x64");
    kbd.write_data(0xF4);
    assert_eq!(kbd.read_status() & ST_CMD, 0, "last write was 0x60");
}
