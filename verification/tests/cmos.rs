//! Tests of the cmos module.

use x86emu::cmos::{civil_from_days, reg, Cmos, SB_24HOUR, SB_BINARY};

fn at(epoch: u64) -> Cmos {
    let mut c = Cmos::new();
    c.epoch_secs = epoch;
    c.elapsed_secs = 0;
    c
}

#[test]
fn civil_conversion_matches_known_dates() {
    assert_eq!(civil_from_days(0), (1970, 1, 1));
    assert_eq!(civil_from_days(59), (1970, 3, 1));
    // 2000-02-29 exists: 2000 is a leap year despite being a century.
    assert_eq!(civil_from_days(11016), (2000, 2, 29));
    assert_eq!(civil_from_days(19723), (2024, 1, 1));
}

#[test]
fn reads_the_clock_in_bcd() {
    // 2024-01-01 00:00:00 UTC = 1704067200.
    let mut c = at(1_704_067_200);
    c.write_index(0x00);
    assert_eq!(c.read_data(), 0x00); // seconds
    c.write_index(0x04);
    assert_eq!(c.read_data(), 0x00); // hours
    c.write_index(0x07);
    assert_eq!(c.read_data(), 0x01); // day
    c.write_index(0x08);
    assert_eq!(c.read_data(), 0x01); // month
    c.write_index(0x09);
    assert_eq!(c.read_data(), 0x24); // year 24, BCD
    c.write_index(0x32);
    assert_eq!(c.read_data(), 0x20); // century
}

#[test]
fn binary_mode_is_honoured() {
    let mut c = at(1_704_067_200 + 3600 * 13 + 59);
    c.write_index(reg::STATUS_B);
    c.write_data(SB_24HOUR | SB_BINARY);
    c.write_index(reg::HOURS);
    assert_eq!(c.read_data(), 13);
    c.write_index(reg::SECONDS);
    assert_eq!(c.read_data(), 59);
}

#[test]
fn update_in_progress_never_reads_as_set() {
    // Linux spins on this bit; if it can ever read as 1 the boot hangs.
    let mut c = at(0);
    c.ram[reg::STATUS_A as usize] = 0xFF;
    c.write_index(reg::STATUS_A);
    assert_eq!(c.read_data() & 0x80, 0);
}

#[test]
fn index_write_masks_the_nmi_bit() {
    let mut c = at(0);
    c.write_index(0x80 | 0x15);
    assert_eq!(c.index, 0x15);
    assert!(c.nmi_disabled);
}

#[test]
fn configuration_ram_round_trips() {
    let mut c = at(0);
    c.write_index(0x40);
    c.write_data(0xA5);
    c.write_index(0x40);
    assert_eq!(c.read_data(), 0xA5);
}

#[test]
fn status_c_clears_on_read() {
    let mut c = at(0);
    c.ram[reg::STATUS_C as usize] = 0x40;
    c.write_index(reg::STATUS_C);
    assert_eq!(c.read_data(), 0x40);
    c.write_index(reg::STATUS_C);
    assert_eq!(c.read_data(), 0x00);
}
