//! Laws of the device registers: which bits and bytes of what is written mean
//! what.

use crate::cmos::{day_number, days_in_month, valid_date, CmosView};
use crate::dma::{DmaChannel, DmaView};
use crate::ide::IdeView;
use crate::kbd::{key_code, keystroke, scancode_of};
use crate::laws::devices::lemma_bits;
use crate::laws::fields::{lemma_fields16, lemma_fields32, lemma_fields8, lemma_joined};
use crate::pci::PciView;
use crate::pic::{after_eoi, has_line, lowest_from, Pic};
use crate::pit::{ticked, Loading, Pit};
use crate::vga::VgaView;
use vstd::prelude::*;

verus! {

// ---- The interrupt controller ----

/// A line is delivered on the vector its controller's base is that many below.
pub proof fn law_vectors_follow_the_base(p: Pic, irq: u8)
    requires
        irq < 16,
    ensures
        p.vector_of(irq) == (if irq < 8 { p.master_base + irq } else { p.slave_base + irq - 8 })
            % 0x100,
{
}

/// A command byte with bit 4 set starts initialisation: the data byte after it is
/// the base of the vectors, a multiple of eight. Without one the data byte is the
/// mask.
pub proof fn law_initialisation_sets_the_base(p: Pic, slave: bool, command: u8, v: u8)
    requires
        command / 16 % 2 == 1,
    ensures
        ({
            let ports: (u8, u8) = if slave { (0xA0, 0xA1) } else { (0x20, 0x21) };
            let q = p.after_command(ports.0, command);
            let r = q.after_data(ports.1, v);
            &&& if slave {
                &&& r.slave_base == v / 8 * 8
                &&& r.master_base == p.master_base
                &&& r.slave_irr == 0 && r.slave_isr == 0
                &&& r.master_irr == p.master_irr && r.master_isr == p.master_isr
            } else {
                &&& r.master_base == v / 8 * 8
                &&& r.slave_base == p.slave_base
                &&& r.master_irr == 0 && r.master_isr == 0
                &&& r.slave_irr == p.slave_irr && r.slave_isr == p.slave_isr
            }
            &&& r.master_imr == p.master_imr && r.slave_imr == p.slave_imr
            &&& r.after_data(ports.1, v) == if slave {
                Pic { slave_imr: v, ..r }
            } else {
                Pic { master_imr: v, ..r }
            }
        }),
{
    reveal(Pic::after_command);
    reveal(Pic::after_data);
    lemma_fields8(command);
    lemma_fields8(v);
}

/// The walk for the lowest line finds it.
proof fn lemma_lowest(v: u8, i: u8, k: u8)
    requires
        i <= k < 8,
        has_line(v, k),
        forall|j: u8| i <= j < k ==> !has_line(v, j),
    ensures
        lowest_from(v, i) == k,
    decreases k - i,
{
    if i < k {
        lemma_lowest(v, (i + 1) as u8, k);
    }
}

/// An end of interrupt that names no line, with 1 or 5 in the top three bits,
/// ends the lowest-numbered line in service; one that names a line, with 3 or 7,
/// ends that one. Every other line stays in service, and the other commands end
/// nothing.
pub proof fn law_ends_of_interrupt(isr: u8, v: u8, k: u8, j: u8)
    requires
        k < 8,
        j < 8,
        j != k,
        v / 32 == 1 || v / 32 == 5 ==> has_line(isr, k) && forall|i: u8|
            i < k ==> !has_line(isr, i),
        v / 32 == 3 || v / 32 == 7 ==> v % 8 == k,
    ensures
        v / 32 % 2 == 1 ==> !has_line(after_eoi(isr, v), k),
        v / 32 % 2 == 1 ==> has_line(after_eoi(isr, v), j) == has_line(isr, j),
        v / 32 % 2 == 0 ==> after_eoi(isr, v) == isr,
{
    lemma_fields8(v);
    lemma_bits(isr, k, 0);
    lemma_bits(0, j, 0);
    lemma_bits(isr, v % 8, 0);
    if v / 32 == 1 || v / 32 == 5 {
        lemma_lowest(isr, 0, k);
        if isr == 0 {
            lemma_bits(0, k, 0);
            assert(has_line(0, k));
            lemma_none(k);
        }
    }
}

/// No line is set in zero.
proof fn lemma_none(k: u8)
    ensures
        !has_line(0, k),
{
    crate::laws::fields::lemma_zero_line(crate::pic::line(k));
}

/// A line that is raised is requested, and no other line changes; accepting it
/// moves it from the requests to those in service.
pub proof fn law_lines_are_raised_and_accepted(p: Pic, irq: u8, j: u8)
    requires
        irq < 8,
        j < 8,
        j != irq,
    ensures
        has_line(p.after_raise(irq).master_irr, irq),
        has_line(p.after_raise(irq).master_irr, j) == has_line(p.master_irr, j),
        has_line(p.after_raise((irq + 8) as u8).slave_irr, irq),
        has_line(p.after_raise((irq + 8) as u8).slave_irr, j) == has_line(p.slave_irr, j),
        !has_line(p.after_clear(irq).master_irr, irq),
        has_line(p.after_clear(irq).master_irr, j) == has_line(p.master_irr, j),
        !has_line(p.after_accept(irq).master_irr, irq),
        has_line(p.after_accept(irq).master_isr, irq),
        has_line(p.after_accept(irq).master_isr, j) == has_line(p.master_isr, j),
        !has_line(p.after_accept((irq + 8) as u8).slave_irr, irq),
        has_line(p.after_accept((irq + 8) as u8).slave_isr, irq),
        has_line(p.after_accept((irq + 8) as u8).master_isr, p.cascade_irq),
{
    reveal(Pic::after_raise);
    reveal(Pic::after_clear);
    reveal(Pic::after_accept);
    lemma_bits(p.master_irr, irq, 0);
    lemma_bits(p.slave_irr, irq, 0);
    lemma_bits(p.master_isr, irq, 0);
    lemma_bits(p.slave_isr, irq, 0);
    lemma_bits(p.master_isr, p.cascade_irq, 0);
    lemma_bits(0, j, 0);
}

// ---- The timer ----

/// A control word names a channel in its top two bits, then an access mode of two
/// bits, a counting mode of three, and whether to count in decimal.
pub proof fn law_control_words_have_four_fields(p: Pit, v: u8)
    ensures
        ({
            let q = p.after_control(v);
            let (channel, access, mode) = (v / 64, v / 16 % 4, v / 2 % 8);
            &&& channel == 3 ==> q == p
            &&& channel == 0 ==> q.ch0_access == access && q.ch0_mode == mode && q.ch0_bcd == (v % 2
                == 1)
            &&& channel == 1 ==> q.ch1_access == access && q.ch1_mode == mode
            &&& channel == 2 ==> q.ch2_access == access && q.ch2_mode == mode
            &&& channel < 3 ==> q.active_channel == channel
        }),
{
    reveal(Pit::after_control);
    lemma_fields8(v);
}

/// A count is written a byte at a time: in mode 1 the low byte, in mode 2 the
/// high byte, else the low byte and then the high one.
pub proof fn law_counts_are_written_in_bytes(l: Loading, v: u8)
    ensures
        l.written(1, v).count == l.reload / 0x100 * 0x100 + v,
        l.written(2, v).count == l.reload % 0x100 + v * 0x100,
        l.lsb_pending ==> l.written(3, v).count == l.lsb + v * 0x100,
        l.lsb_pending ==> l.written(3, v).reload == l.lsb + v * 0x100,
        l.lsb_pending ==> !l.written(3, v).lsb_pending,
        !l.lsb_pending ==> l.written(3, v).lsb == v && l.written(3, v).lsb_pending,
{
    lemma_fields16(l.reload);
    lemma_joined(l.lsb, v, 0, 0, 0, 0, 0, 0);
    lemma_joined(0, v, 0, 0, 0, 0, 0, 0);
    crate::laws::fields::lemma_halves(l.reload, v);
}

/// And read so: in the two-byte mode the low byte comes first.
pub proof fn law_counts_are_read_in_bytes(p: Pit, port: u8)
    requires
        port < 3,
    ensures
        ({
            let l = p.loading(port);
            let access = p.access(port);
            let high = access == 2 || (access != 1 && l.lsb_pending);
            &&& p.data_value(port) == if high { l.count / 0x100 } else { l.count % 0x100 }
            &&& access == 1 || access == 2 ==> p.after_read(port) == p
            &&& access != 1 && access != 2 ==> p.after_read(port).loading(port).lsb_pending
                == !l.lsb_pending
            &&& p.after_read(port).loading(port).count == l.count
        }),
{
    lemma_fields16(p.loading(port).count);
}

/// The other two channels count down and start over, too.
pub proof fn law_free_channels_reload(count: u16, reload: u16, cycles: u64)
    ensures
        ({
            let n = cycles as int % 0x1_0000;
            ticked(count, reload, cycles) == if count == 0 {
                0int
            } else if n < count {
                count - n
            } else {
                reload as int
            }
        }),
{
    crate::laws::fields::lemma_narrow(cycles);
}

// ---- DMA ----

/// A channel's base and count are written low byte first; even ports are bases,
/// odd ones counts, two ports to a channel.
pub proof fn law_channels_are_written_in_bytes(d: DmaView, port: u8, lo: u8, hi: u8)
    requires
        d.channels.len() == 4,
        !d.high_byte,
    ensures
        ({
            let e = d.write_channel(port, lo).write_channel(port, hi);
            let ch = port as int / 2 % 4;
            let n = (lo + 0x100 * hi) as u16;
            &&& !e.high_byte
            &&& e.channels == d.channels.update(
                ch,
                if port % 2 == 1 {
                    DmaChannel { count: n, ..d.channels[ch] }
                } else {
                    DmaChannel { base: n, ..d.channels[ch] }
                },
            )
        }),
{
    reveal(DmaView::write_channel);
    lemma_fields8(port);
    let ch = port as int / 2 % 4;
    let c = d.channels[ch];
    crate::laws::fields::lemma_halves(c.count, lo);
    crate::laws::fields::lemma_halves(c.base, lo);
    crate::laws::fields::lemma_halves((c.count / 0x100 * 0x100 + lo) as u16, hi);
    crate::laws::fields::lemma_halves((c.base / 0x100 * 0x100 + lo) as u16, hi);
    let x = d.write_channel(port, lo);
    let e = x.write_channel(port, hi);
    assert(e.channels =~= d.channels.update(ch, e.channels[ch]));
}

/// A channel's memory starts at its base in its page of 64 KiB, and it moves two
/// bytes for each count, and two more.
pub proof fn law_channels_address_their_page(c: DmaChannel)
    ensures
        c.address() == 0x1_0000 * c.page + c.base,
        c.length() == 2 * c.count + 2,
{
}

// ---- The disk ----

/// The sector address is a number of 28 bits: three bytes, and the low half of
/// the drive register on top. A read fills the buffer with the 512-byte sectors
/// from there on, and the data port hands them out as little-endian words.
pub proof fn law_sectors_are_addressed_by_number(d: IdeView, i: int)
    requires
        d.present,
        512 * (d.lba_low + 0x100 * d.lba_mid + 0x1_0000 * d.lba_high + 0x100_0000 * (d.drive_head
            % 16) + (if d.sector_count == 0 { 1 } else { d.sector_count as int })) <= d.disk.len(),
        0 <= i,
        i + 1 < 512 * (if d.sector_count == 0 { 1 } else { d.sector_count as int }),
        d.disk.len() <= usize::MAX,
    ensures
        ({
            let r = d.write_command(0x20);
            let at = 512 * (d.lba_low + 0x100 * d.lba_mid + 0x1_0000 * d.lba_high + 0x100_0000 * (
            d.drive_head % 16));
            let w = (IdeView { index: i as usize, ..r });
            &&& r.index == 0
            &&& r.error == 0
            &&& w.data_value() == d.disk[at + i] + 0x100 * d.disk[at + i + 1]
            &&& w.read_data().index == i + 2
        }),
{
    reveal(IdeView::write_command);
    let r = d.write_command(0x20);
    lemma_joined(r.data[i], r.data[i + 1], 0, 0, 0, 0, 0, 0);
}

/// A word written to the data port goes to the buffer low byte first.
pub proof fn law_words_are_written_low_byte_first(d: IdeView, v: u16)
    requires
        d.left() >= 2,
        d.index + 2 <= usize::MAX,
    ensures
        ({
            let e = d.write_data(v);
            &&& e.data == d.data.update(d.index as int, (v % 0x100) as u8).update(
                d.index + 1,
                (v / 0x100) as u8,
            )
            &&& e.index == d.index + 2
            &&& e.disk == d.disk
        }),
{
    reveal(IdeView::write_data);
    lemma_fields16(v);
}

// ---- The configuration space ----

/// A configuration address names the bus in bits 16 to 23, the slot in bits 11 to
/// 15, the function in bits 8 to 10 and a register, a multiple of four, in bits 2
/// to 7; bit 31 enables it.
pub proof fn law_configuration_addresses_have_fields(p: PciView)
    ensures
        ({
            let a = p.address;
            &&& p.enabled() <==> a >= 0x8000_0000 && a / 0x1_0000 % 256 == 0 && a / 0x100 % 8 == 0
            &&& p.slot() == a as int / 0x800 % 32
            &&& p.register() == a as int / 4 % 64 * 4
        }),
{
    lemma_fields32(p.address, 0);
}

// ---- The calendar ----

/// The length of a month, with a day more for February in a leap year: one in
/// four, but of the centuries one in four.
pub open spec fn month_length(y: int, m: int) -> int {
    let leap = y % 4 == 0 && (y % 100 != 0 || y % 400 == 0);
    seq![31, if leap { 29int } else { 28int }, 31, 30, 31, 30, 31, 31, 30, 31, 30, 31][m - 1]
}

/// Days are numbered from the first of January 1970, a Thursday, one after the
/// other through the months and the years.
pub proof fn law_days_follow_one_another(y: int, m: int, d: int, c: CmosView)
    requires
        1 <= m <= 12,
    ensures
        days_in_month(y, m) == month_length(y, m),
        day_number(1970, 1, 1) == 0,
        day_number(y, m, d + 1) == day_number(y, m, d) + 1,
        m < 12 ==> day_number(y, m + 1, 1) == day_number(y, m, 1) + month_length(y, m),
        day_number(y + 1, 1, 1) == day_number(y, 12, 1) + 31,
        valid_date(y, m, d) <==> 1 <= d <= month_length(y, m),
        c.clock_value(crate::cmos::reg::WEEKDAY) == (c.days() + 4) % 7 + 1,
{
    crate::cmos::lemma_months(y);
    crate::cmos::lemma_months(1970);
    crate::cmos::lemma_year_length(y);
    reveal_with_fuel(crate::cmos::days_before_month, 2);
}

// ---- The keyboard ----

/// The rows of a keyboard, from the digits down, as the characters typed without
/// shift.
pub open spec fn row(n: int) -> Seq<u8> {
    if n == 0 {
        seq![0x31u8, 0x32u8, 0x33u8, 0x34u8, 0x35u8, 0x36u8, 0x37u8, 0x38u8, 0x39u8, 0x30u8, 0x2Du8, 0x3Du8]
    } else if n == 1 {
        seq![0x71u8, 0x77u8, 0x65u8, 0x72u8, 0x74u8, 0x79u8, 0x75u8, 0x69u8, 0x6Fu8, 0x70u8, 0x5Bu8, 0x5Du8]
    } else if n == 2 {
        seq![0x61u8, 0x73u8, 0x64u8, 0x66u8, 0x67u8, 0x68u8, 0x6Au8, 0x6Bu8, 0x6Cu8, 0x3Bu8, 0x27u8]
    } else {
        seq![0x7Au8, 0x78u8, 0x63u8, 0x76u8, 0x62u8, 0x6Eu8, 0x6Du8, 0x2Cu8, 0x2Eu8, 0x2Fu8]
    }
}

/// The keys of a row are numbered one after another.
#[verifier::spinoff_prover]
pub proof fn law_keys_are_numbered_along_their_row(n: int, i: int)
    requires
        0 <= n < 4,
        0 <= i < row(n).len(),
    ensures
        key_code(row(n)[i]) == Some((seq![0x02int, 0x10, 0x1E, 0x2C][n] + i) as u8),
{
    if n == 0 {
        assert(row(0)[0] == 0x31);
        assert(row(0)[1] == 0x32);
        assert(row(0)[2] == 0x33);
        assert(row(0)[3] == 0x34);
        assert(row(0)[4] == 0x35);
        assert(row(0)[5] == 0x36);
        assert(row(0)[6] == 0x37);
        assert(row(0)[7] == 0x38);
        assert(row(0)[8] == 0x39);
        assert(row(0)[9] == 0x30);
        assert(row(0)[10] == 0x2D);
        assert(row(0)[11] == 0x3D);
        if i == 0 {
            assert(key_code(0x31u8) == Some(0x02u8));
        } else if i == 1 {
            assert(key_code(0x32u8) == Some(0x03u8));
        } else if i == 2 {
            assert(key_code(0x33u8) == Some(0x04u8));
        } else if i == 3 {
            assert(key_code(0x34u8) == Some(0x05u8));
        } else if i == 4 {
            assert(key_code(0x35u8) == Some(0x06u8));
        } else if i == 5 {
            assert(key_code(0x36u8) == Some(0x07u8));
        } else if i == 6 {
            assert(key_code(0x37u8) == Some(0x08u8));
        } else if i == 7 {
            assert(key_code(0x38u8) == Some(0x09u8));
        } else if i == 8 {
            assert(key_code(0x39u8) == Some(0x0Au8));
        } else if i == 9 {
            assert(key_code(0x30u8) == Some(0x0Bu8));
        } else if i == 10 {
            assert(key_code(0x2Du8) == Some(0x0Cu8));
        } else if i == 11 {
            assert(key_code(0x3Du8) == Some(0x0Du8));
        }
    } else if n == 1 {
        assert(row(1)[0] == 0x71);
        assert(row(1)[1] == 0x77);
        assert(row(1)[2] == 0x65);
        assert(row(1)[3] == 0x72);
        assert(row(1)[4] == 0x74);
        assert(row(1)[5] == 0x79);
        assert(row(1)[6] == 0x75);
        assert(row(1)[7] == 0x69);
        assert(row(1)[8] == 0x6F);
        assert(row(1)[9] == 0x70);
        assert(row(1)[10] == 0x5B);
        assert(row(1)[11] == 0x5D);
        if i == 0 {
            assert(key_code(0x71u8) == Some(0x10u8));
        } else if i == 1 {
            assert(key_code(0x77u8) == Some(0x11u8));
        } else if i == 2 {
            assert(key_code(0x65u8) == Some(0x12u8));
        } else if i == 3 {
            assert(key_code(0x72u8) == Some(0x13u8));
        } else if i == 4 {
            assert(key_code(0x74u8) == Some(0x14u8));
        } else if i == 5 {
            assert(key_code(0x79u8) == Some(0x15u8));
        } else if i == 6 {
            assert(key_code(0x75u8) == Some(0x16u8));
        } else if i == 7 {
            assert(key_code(0x69u8) == Some(0x17u8));
        } else if i == 8 {
            assert(key_code(0x6Fu8) == Some(0x18u8));
        } else if i == 9 {
            assert(key_code(0x70u8) == Some(0x19u8));
        } else if i == 10 {
            assert(key_code(0x5Bu8) == Some(0x1Au8));
        } else if i == 11 {
            assert(key_code(0x5Du8) == Some(0x1Bu8));
        }
    } else if n == 2 {
        assert(row(2)[0] == 0x61);
        assert(row(2)[1] == 0x73);
        assert(row(2)[2] == 0x64);
        assert(row(2)[3] == 0x66);
        assert(row(2)[4] == 0x67);
        assert(row(2)[5] == 0x68);
        assert(row(2)[6] == 0x6A);
        assert(row(2)[7] == 0x6B);
        assert(row(2)[8] == 0x6C);
        assert(row(2)[9] == 0x3B);
        assert(row(2)[10] == 0x27);
        if i == 0 {
            assert(key_code(0x61u8) == Some(0x1Eu8));
        } else if i == 1 {
            assert(key_code(0x73u8) == Some(0x1Fu8));
        } else if i == 2 {
            assert(key_code(0x64u8) == Some(0x20u8));
        } else if i == 3 {
            assert(key_code(0x66u8) == Some(0x21u8));
        } else if i == 4 {
            assert(key_code(0x67u8) == Some(0x22u8));
        } else if i == 5 {
            assert(key_code(0x68u8) == Some(0x23u8));
        } else if i == 6 {
            assert(key_code(0x6Au8) == Some(0x24u8));
        } else if i == 7 {
            assert(key_code(0x6Bu8) == Some(0x25u8));
        } else if i == 8 {
            assert(key_code(0x6Cu8) == Some(0x26u8));
        } else if i == 9 {
            assert(key_code(0x3Bu8) == Some(0x27u8));
        } else if i == 10 {
            assert(key_code(0x27u8) == Some(0x28u8));
        }
    } else {
        assert(row(3)[0] == 0x7A);
        assert(row(3)[1] == 0x78);
        assert(row(3)[2] == 0x63);
        assert(row(3)[3] == 0x76);
        assert(row(3)[4] == 0x62);
        assert(row(3)[5] == 0x6E);
        assert(row(3)[6] == 0x6D);
        assert(row(3)[7] == 0x2C);
        assert(row(3)[8] == 0x2E);
        assert(row(3)[9] == 0x2F);
        if i == 0 {
            assert(key_code(0x7Au8) == Some(0x2Cu8));
        } else if i == 1 {
            assert(key_code(0x78u8) == Some(0x2Du8));
        } else if i == 2 {
            assert(key_code(0x63u8) == Some(0x2Eu8));
        } else if i == 3 {
            assert(key_code(0x76u8) == Some(0x2Fu8));
        } else if i == 4 {
            assert(key_code(0x62u8) == Some(0x30u8));
        } else if i == 5 {
            assert(key_code(0x6Eu8) == Some(0x31u8));
        } else if i == 6 {
            assert(key_code(0x6Du8) == Some(0x32u8));
        } else if i == 7 {
            assert(key_code(0x2Cu8) == Some(0x33u8));
        } else if i == 8 {
            assert(key_code(0x2Eu8) == Some(0x34u8));
        } else if i == 9 {
            assert(key_code(0x2Fu8) == Some(0x35u8));
        }
    }
}

/// A key going down sends its number and coming up 128 more; a capital letter is
/// its small letter's key inside left shift.
pub proof fn law_keystrokes_go_down_and_up(c: u8)
    ensures
        match scancode_of(c) {
            Some((code, false)) => code < 0x80 && keystroke(c) == seq![code, (code + 0x80) as u8],
            Some((code, true)) => code < 0x80 && keystroke(c) == seq![
                0x2Au8,
                code,
                (code + 0x80) as u8,
                0xAAu8,
            ],
            None => keystroke(c).len() == 0,
        },
        0x41 <= c <= 0x5A ==> scancode_of(c) == match key_code((c + 0x20) as u8) {
            Some(code) => Some((code, true)),
            None => None,
        },
{
    match scancode_of(c) {
        Some((code, shift)) => lemma_fields8(code),
        None => {},
    }
}

// ---- The display ----

/// The screen starts at the cell whose number CRTC registers 12 and 13 hold, high
/// byte first.
pub proof fn law_the_screen_starts_where_the_crtc_says(v: VgaView, hi: u8, lo: u8)
    requires
        v.crtc.len() == crate::vga::CRTC_REGS,
        v.crtc.len() > 13,
    ensures
        ({
            let a = VgaView { crtc_index: 12, ..v }.write_crtc(hi);
            let b = VgaView { crtc_index: 13, ..a }.write_crtc(lo);
            b.start_cell() == 0x100 * hi + lo
        }),
{
    reveal(VgaView::write_crtc);
}

} // verus!
