//! Laws of the devices.

use crate::cmos::CmosView;
use crate::ide::IdeView;
use crate::kbd::KbdView;
use crate::laws::memory::{law_store_touches_only_its_bytes, lemma_own8, plain};
use crate::memory::MemView;
use crate::pci::{FunctionView, PciView};
use crate::pic::Pic;
use crate::pit::{Loading, Pit};
use vstd::prelude::*;

verus! {

/// Facts about the bits of registers: lines set, cleared and told apart, the
/// fields of an end-of-interrupt command, masks, decimal digits, and a word in bytes.
pub(crate) proof fn lemma_bits(v: u8, i: u8, d: u32)
    by (bit_vector)
    ensures
        (v | (1u8 << (i & 7))) & (1u8 << (i & 7)) != 0,
        (v & !(1u8 << (i & 7))) & (1u8 << (i & 7)) == 0,
        ((1u8 << (i & 7)) == (1u8 << (v & 7))) == (i & 7 == v & 7),
        i & 7 < 8,
        i < 8 ==> i & 7 == i,
        i < 8 ==> ((0x60 + i) as u8) >> 5 == 3 && (((0x60 + i) as u8) & 7) & 7 == i & 7,
        (v & 0x7F) & 0x80 == 0,
        v < 128 ==> v & 0x7F == v,
        d < 100 ==> (((d / 10) << 4) | (d % 10)) as u8 == d / 10 * 16 + d % 10,
        ((d as u8) as u32) | ((((d >> 8) as u8) as u32) << 8) | ((((d >> 16) as u8) as u32) << 16)
            | ((((d >> 24) as u8) as u32) << 24) == d,
        forall|j: u8|
            j & 7 != i & 7 ==> #[trigger] ((v & !(1u8 << (i & 7))) & (1u8 << (j & 7))) == v & (1u8
                << (j & 7)),
        forall|j: u8|
            j & 7 != i & 7 ==> #[trigger] ((v | (1u8 << (i & 7))) & (1u8 << (j & 7))) == v & (1u8
                << (j & 7)),
{
}

// ---- The interrupt controller ----

/// Master line `k` neither waits nor is in service.
pub open spec fn master_idle(p: Pic, k: u8) -> bool {
    &&& !crate::pic::has_line(p.master_isr, k)
    &&& !crate::pic::has_line(p.master_irr & !p.master_imr, k)
}

/// Line `k` of the slave neither waits nor is in service.
pub open spec fn slave_idle(p: Pic, k: u8) -> bool {
    &&& !crate::pic::has_line(p.slave_isr, k)
    &&& !p.slave_ready(k)
}

/// A slave line that the priority walk picks is requested and not masked, and
/// no line of its own or a higher priority is in service or ready. A walk that
/// finds nothing has passed every line.
proof fn lemma_slave_walk(p: Pic, j: u8)
    requires
        j <= 8,
    ensures
        match p.slave_walk(j) {
            Some(Some(irq)) => {
                &&& 8 + j <= irq < 16
                &&& p.slave_ready((irq - 8) as u8)
                &&& !crate::pic::has_line(p.slave_isr, (irq - 8) as u8)
                &&& forall|k: u8| j <= k < irq - 8 ==> #[trigger] slave_idle(p, k)
            },
            Some(None) => true,
            None => forall|k: u8|
                j <= k < 8 ==> #[trigger] slave_idle(p, k),
        },
    decreases 8 - j,
{
    if j < 8 && !crate::pic::has_line(p.slave_isr, j) && !p.slave_ready(j) {
        lemma_slave_walk(p, (j + 1) as u8);
    }
}

/// The interrupt the controller would deliver next may be delivered.
pub open spec fn deliverable(p: Pic, irq: u8) -> bool {
    if irq < 8 {
        &&& crate::pic::has_line(p.master_irr & !p.master_imr, irq)
        &&& !crate::pic::has_line(p.master_isr, irq)
    } else {
        &&& irq < 16
        &&& p.slave_ready((irq - 8) as u8)
        &&& !crate::pic::has_line(p.slave_isr, (irq - 8) as u8)
        &&& p.master_imr & crate::pic::line(p.cascade_irq) == 0
    }
}

proof fn lemma_master_walk(p: Pic, i: u8)
    requires
        i <= 8,
    ensures
        match p.master_walk(i) {
            Some(irq) => {
                &&& deliverable(p, irq)
                &&& irq < 8 ==> i <= irq && (forall|k: u8|
                    i <= k < irq && #[trigger] crate::pic::line(k) != crate::pic::line(p.cascade_irq)
                        ==> master_idle(p, k))
                &&& irq < 8 && i <= p.cascade_irq & 7 < irq && p.master_imr & crate::pic::line(
                    p.cascade_irq,
                ) == 0 ==> (forall|k: u8| k < 8 ==> #[trigger] slave_idle(p, k))
                &&& irq >= 8 ==> (forall|k: u8| k < irq - 8 ==> #[trigger] slave_idle(p, k))
                &&& irq >= 8 ==> (forall|k: u8|
                    i <= k < p.cascade_irq & 7 ==> #[trigger] master_idle(p, k))
            },
            None => true,
        },
    decreases 8 - i,
{
    lemma_slave_walk(p, 0);
    lemma_bits(p.cascade_irq, i, 0);
    if i < 8 {
        lemma_master_walk(p, (i + 1) as u8);
    }
}

/// An interrupt is delivered only if its line is requested, not masked, and
/// not in service already.
pub proof fn law_only_deliverable_interrupts_are_next(p: Pic)
    ensures
        match p.next() {
            Some(irq) => deliverable(p, irq),
            None => true,
        },
{
    reveal(Pic::next);
    lemma_master_walk(p, 0);
}

/// Interrupts come in order of priority: while a master line is next, no
/// master line before it waits or is in service, the cascade input apart.
pub proof fn law_priority_is_by_line(p: Pic, k: u8)
    requires
        match p.next() {
            Some(irq) => irq < 8 && k < irq,
            None => false,
        },
        crate::pic::line(k) != crate::pic::line(p.cascade_irq),
    ensures
        master_idle(p, k),
{
    reveal(Pic::next);
    lemma_master_walk(p, 0);
}

/// And so on the slave: while one of lines 8 to 15 is next, no line of the
/// slave before it waits or is in service, nor does a master line before the
/// cascade input.
pub proof fn law_slave_priority_is_by_line(p: Pic, k: u8)
    requires
        match p.next() {
            Some(irq) => irq >= 8 && (8 <= k < irq || k < p.cascade_irq & 7),
            None => false,
        },
    ensures
        k >= 8 ==> slave_idle(p, (k - 8) as u8),
        k < 8 ==> master_idle(p, k),
{
    reveal(Pic::next);
    lemma_master_walk(p, 0);
    lemma_bits(p.cascade_irq, p.cascade_irq, 0);
    law_only_deliverable_interrupts_are_next(p);
}

/// The slave's lines come where the cascade input stands: while a master line
/// after it is next and the input is not masked, no line of the slave waits or
/// is in service.
pub proof fn law_slave_lines_come_at_the_cascade_input(p: Pic, k: u8)
    requires
        match p.next() {
            Some(irq) => p.cascade_irq & 7 < irq < 8,
            None => false,
        },
        p.master_imr & crate::pic::line(p.cascade_irq) == 0,
        8 <= k < 16,
    ensures
        slave_idle(p, (k - 8) as u8),
{
    reveal(Pic::next);
    lemma_master_walk(p, 0);
}

/// An interrupt in service is not delivered again until it is ended.
pub proof fn law_service_blocks_its_line(p: Pic, irq: u8)
    requires
        irq < 16,
    ensures
        p.after_accept(irq).next() != Some(irq),
{
    reveal(Pic::after_accept);
    law_only_deliverable_interrupts_are_next(p.after_accept(irq));
    if irq < 8 {
        lemma_bits(p.master_isr, irq, 0);
    } else {
        lemma_bits(p.slave_isr, (irq - 8) as u8, 0);
    }
}

/// A specific end of interrupt takes its line out of service.
pub proof fn law_specific_end_of_interrupt(isr: u8, i: u8)
    requires
        i < 8,
    ensures
        !crate::pic::has_line(crate::pic::after_eoi(isr, (0x60 + i) as u8), i),
{
    lemma_bits(isr, i, 0);
}

// ---- The timer ----

/// A count is loaded in two halves, low byte first.
pub proof fn law_counts_load_low_byte_first(l: Loading, lo: u8, hi: u8)
    requires
        !l.lsb_pending,
    ensures
        l.written(3, lo).written(3, hi).count == crate::memory::le16(lo, hi),
        l.written(3, lo).written(3, hi).reload == crate::memory::le16(lo, hi),
        l.written(3, lo).count == l.count,
{
}

/// Channel 0 counts down one for each cycle and asserts its interrupt exactly
/// when it runs out, starting over from its reload value.
pub proof fn law_timer_counts_down(p: Pit, cycles: u64)
    requires
        p.ch0_count > 0,
    ensures
        cycles < p.ch0_count ==> p.after_tick(cycles).ch0_count == p.ch0_count - cycles
            && p.after_tick(cycles).irq0 == p.irq0,
        cycles >= p.ch0_count ==> p.after_tick(cycles).ch0_count == p.ch0_reload && p.after_tick(
            cycles,
        ).irq0,
{
    reveal(Pit::after_tick);
}

// ---- The keyboard controller ----

/// Key events come out in the order they went in: a new one goes behind those
/// that wait, and a read takes the oldest.
pub proof fn law_keyboard_is_a_queue(k: KbdView, c: u8)
    requires
        k.scanning,
    ensures
        k.push_scancode(c).out == k.out.push((c, false)),
        k.out.len() == 0 ==> k.push_scancode(c).data_value() == c,
        k.out.len() > 0 ==> k.push_scancode(c).data_value() == k.data_value(),
        k.out.len() > 0 ==> k.push_scancode(c).after_read().out =~= k.after_read().push_scancode(
            c,
        ).out,
{
}

/// The controller's command byte reads back as it was written.
pub proof fn law_command_byte_reads_back(k: KbdView, v: u8)
    requires
        k.out.len() == 0,
    ensures
        k.after_command(0x60).after_data(v).after_command(0x20).data_value() == v,
{
    reveal(KbdView::after_command);
    reveal(KbdView::after_data);
}

/// A keyboard that was told to stop scanning drops key events.
pub proof fn law_a_silenced_keyboard_is_silent(k: KbdView, c: u8)
    requires
        k.pending is None,
        k.dev_pending is None,
    ensures
        k.after_data(0xF5).push_scancode(c) == k.after_data(0xF5),
{
    reveal(KbdView::after_data);
}

// ---- The clock ----

/// The update-in-progress bit never reads as set.
pub proof fn law_no_update_is_ever_in_progress(c: CmosView)
    requires
        c.index == crate::cmos::reg::STATUS_A,
    ensures
        c.data_value() & 0x80 == 0,
{
    lemma_bits(c.ram[crate::cmos::reg::STATUS_A as int], 0, 0);
}

/// Configuration RAM holds what was written to it.
pub proof fn law_configuration_is_kept(c: CmosView, v: u8)
    requires
        c.ram.len() == 128,
        c.index < 128,
        !CmosView::is_clock(c.index),
        c.index != crate::cmos::reg::STATUS_A,
    ensures
        c.write_data(v).data_value() == v,
{
    lemma_bits(c.index, 0, 0);
}

/// The clock registers show a time of day, whatever is written to them.
pub proof fn law_the_clock_shows_a_time(c: CmosView)
    ensures
        0 <= c.clock_value(crate::cmos::reg::SECONDS) < 60,
        0 <= c.clock_value(crate::cmos::reg::MINUTES) < 60,
        0 <= c.clock_value(crate::cmos::reg::HOURS) < 24,
        1 <= c.clock_value(crate::cmos::reg::WEEKDAY) <= 7,
        c.now() % 86_400 == c.clock_value(crate::cmos::reg::HOURS) * 3600 + c.clock_value(
            crate::cmos::reg::MINUTES,
        ) * 60 + c.clock_value(crate::cmos::reg::SECONDS),
{
    let t = c.daytime();
    assert(t % 3600 / 60 * 60 + t % 3600 % 60 == t % 3600);
    assert(t % 3600 % 60 == t % 60);
}

/// A two-digit number in binary-coded decimal: its digits in the two nibbles.
pub proof fn law_bcd_holds_the_digits(v: u32)
    requires
        v < 100,
    ensures
        crate::cmos::bcd(v) == v / 10 * 16 + v % 10,
{
    lemma_bits(0, 0, v);
}

// ---- The disk ----

/// A sector written is read back, and the rest of the disk stays as it was.
pub proof fn law_sectors_read_back(d: IdeView, i: int)
    requires
        d.present,
        d.pending_command == 0x30 || d.pending_command == 0x31,
        d.data.len() == d.span(),
        d.start() + d.span() <= d.disk.len(),
        0 <= i < d.disk.len(),
        i < d.start() || d.start() + d.span() <= i,
    ensures
        d.flush_write().write_command(0x20).data == d.data,
        d.flush_write().disk[i] == d.disk[i],
{
    reveal(IdeView::flush_write);
    reveal(IdeView::write_command);
    let f = d.flush_write();
    assert(f.disk.subrange(f.start(), f.start() + f.span()) =~= d.data);
}

/// A transfer past the end of the disk writes none of it.
pub proof fn law_writes_past_the_end_are_dropped(d: IdeView)
    requires
        d.start() + d.data.len() > d.disk.len(),
    ensures
        d.flush_write().disk == d.disk,
{
    reveal(IdeView::flush_write);
}

// ---- DMA ----

/// A transfer between two stretches of plain RAM that do not overlap copies
/// every byte.
pub proof fn law_dma_copies(m: MemView, src: int, dst: int, n: int, i: int)
    requires
        0 <= i < n,
        0 <= src,
        0 <= dst,
        src + n <= dst || dst + n <= src,
        src + n <= usize::MAX,
        dst + n <= usize::MAX,
        forall|k: int| 0 <= k < n ==> plain(m, #[trigger] ((dst + k) as usize), 1),
    ensures
        crate::dma::copied(m, src, dst, n).read8((dst + i) as usize) == m.read8(
            (src + i) as usize,
        ),
{
    lemma_copied(m, src, dst, n, i, 0);
}

proof fn lemma_copied(m: MemView, src: int, dst: int, n: int, i: int, other: usize)
    requires
        0 <= n,
        0 <= src,
        0 <= dst,
        src + n <= usize::MAX,
        dst + n <= usize::MAX,
        forall|k: int| 0 <= k < n ==> plain(m, #[trigger] ((dst + k) as usize), 1),
    ensures
        crate::dma::copied(m, src, dst, n).data.len() == m.data.len(),
        other < dst || dst + n <= other ==> crate::dma::copied(m, src, dst, n).read8(other)
            == m.read8(other),
        0 <= i < n && (src + n <= dst || dst + n <= src) ==> crate::dma::copied(
            m,
            src,
            dst,
            n,
        ).read8((dst + i) as usize) == m.read8((src + i) as usize),
    decreases n,
{
    if n > 0 {
        lemma_copied(m, src, dst, n - 1, i, other);
        lemma_copied(m, src, dst, n - 1, i, (src + n - 1) as usize);
        let before = crate::dma::copied(m, src, dst, n - 1);
        let at = (dst + (n - 1)) as usize;
        let v = before.read8((src + n - 1) as usize);
        assert(plain(m, at, 1));
        lemma_own8(before, at, v);
        if other < dst || dst + n <= other {
            law_store_touches_only_its_bytes(before, at, 8, v as u64, other);
        }
        if 0 <= i < n - 1 {
            law_store_touches_only_its_bytes(before, at, 8, v as u64, (dst + i) as usize);
        }
    }
}

// ---- PCI ----

/// A device's identity cannot be written.
pub proof fn law_identity_is_read_only(
    f: FunctionView,
    reg: int,
    lane: int,
    size: int,
    value: u32,
    off: int,
)
    requires
        f.config.len() == 256,
        0 <= off < 256,
        crate::pci::read_only(off),
        0 <= reg < 256,
        reg % 4 == 0,
    ensures
        f.written(reg, lane, size, value).config[off] == f.config[off],
{
}

/// All ones written to a base address register ask for the size of its region:
/// what reads back is the complement of the size less one, under the type bit.
pub proof fn law_bar_reports_its_size(f: FunctionView, bar: int)
    requires
        f.config.len() == 256,
        f.bar_size.len() == 6,
        0 <= bar < 6,
        f.bar_size[bar] != 0,
    ensures
        f.written(0x10 + bar * 4, 0, 4, 0xFFFF_FFFF).read32(0x10 + bar * 4) == (!((f.bar_size[bar]
            - 1) as u32)) | (if f.config[0x10 + bar * 4] & 1 != 0 { 1u32 } else { 0u32 }),
{
    lemma_bits(0, 0, f.bar_stored(bar, 0xFFFF_FFFF));
}

/// A slot nobody sits in reads as all ones, and writes to it go nowhere.
pub proof fn law_empty_slots_read_ones(p: PciView, lane: int, size: int, value: u32)
    requires
        p.selected() is None,
    ensures
        p.data_value(lane, size) == 0xFFFF_FFFF,
        p.write_data(lane, size, value) == p,
{
}

} // verus!
