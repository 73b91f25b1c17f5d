//! Laws of what happens between instructions and on the way to memory: faults,
//! page marks, ports and the devices' interrupt lines.

use crate::cpu::address::{walk_marked, Access};
use crate::laws::fields::{lemma_joined, lemma_marks};
use crate::laws::memory::{lemma_kept_size, lemma_own, plain};
use crate::memory::MemView;
use crate::paging::Walk;
use crate::pic::has_line;
use crate::state::State;
use vstd::prelude::*;

verus! {

/// A page fault is exception 14. Its error code says, from bit 0 up, whether the
/// page was present, whether it was a write and whether it came from ring 3, and
/// in bit 4 whether it was a fetch; CR2 holds the address.
pub proof fn law_page_faults_say_why(s: State, linear: u64, present: bool, access: Access)
    requires
        !s.faulted(),
    ensures
        ({
            let code = (if present { 1int } else { 0 }) + (if access == Access::Write {
                2int
            } else {
                0
            }) + (if s.pe && s.cs % 4 == 3 { 4int } else { 0 }) + (if access == Access::Fetch {
                16int
            } else {
                0
            });
            s.raise_page_fault(linear, present, access) == (State {
                cr2: linear,
                pending_exception: Some((14u8, Some(code as u32))),
                ..s
            })
        }),
{
    lemma_marks(
        0,
        0,
        present,
        access == Access::Write,
        s.cpl() == 3,
        access == Access::Fetch,
    );
    crate::laws::fields::lemma_fields16(s.cs);
}

/// An access marks the entry that maps its page as accessed, bit 5, and a write
/// as dirty too, bit 6.
pub proof fn law_accesses_mark_the_page(m: MemView, w: Walk, write: bool)
    requires
        plain(m, w.leaf, 8),
        w.upper4 is Some ==> plain(m, w.upper4->0, 8),
        w.upper3 is Some ==> plain(m, w.upper3->0, 8),
        w.upper2 is Some ==> plain(m, w.upper2->0, 8),
    ensures
        ({
            let t = walk_marked(m, w, write);
            let bits = if write { 0x60u64 } else { 0x20u64 };
            if w.wide {
                t.read64(w.leaf) & bits == bits
            } else {
                (t.read32(w.leaf) as u64) & bits == bits
            }
        }),
{
    reveal(walk_marked);
    lemma_marks(0, 0, false, false, false, false);
    let a = crate::cpu::address::marked_upper(m, w.upper4, w.wide);
    lemma_upper_size(m, w.upper4, w.wide);
    let b = crate::cpu::address::marked_upper(a, w.upper3, w.wide);
    lemma_upper_size(a, w.upper3, w.wide);
    let c = crate::cpu::address::marked_upper(b, w.upper2, w.wide);
    lemma_upper_size(b, w.upper2, w.wide);
    let bits = if write { 0x60u64 } else { 0x20u64 };
    lemma_marks(c.read64(w.leaf), c.read32(w.leaf), false, false, false, false);
    if w.wide {
        lemma_own(c, w.leaf, 64, c.read64(w.leaf) | bits);
    } else {
        lemma_own(c, w.leaf, 32, (c.read32(w.leaf) | (bits as u32)) as u64);
    }
}

/// Marking an entry keeps the size of memory.
proof fn lemma_upper_size(m: MemView, at: Option<usize>, wide: bool)
    requires
        at is Some ==> plain(m, at->0, 8),
    ensures
        crate::cpu::address::marked_upper(m, at, wide).data.len() == m.data.len(),
{
    if at is Some {
        let a = at->0;
        lemma_kept_size(m, a, 64, m.read64(a) | crate::paging::pte::A);
        lemma_kept_size(m, a, 32, (m.read32(a) | (crate::paging::pte::A as u32)) as u64);
    }
}

/// A word read from a port that is not the disk's is the byte at the port and,
/// above it, the byte at the next one, read in that order.
pub proof fn law_wide_reads_take_two_ports(s: State, port: u16)
    requires
        port != 0x1F0,
        port != 0x1F1,
        port != 0x1F7,
        port != 0x3F6,
    ensures
        ({
            let next = ((port + 1) % 0x1_0000) as u16;
            let a = s.port_read(port);
            s.port_in16(port) == (
                a.port_read(next),
                (s.port_value(port) + 0x100 * a.port_value(next)) as u16,
            )
        }),
{
    reveal(State::port_in16);
    let next = port.wrapping_add(1);
    lemma_joined(s.port_value(port), s.port_read(port).port_value(next), 0, 0, 0, 0, 0, 0);
}

/// The timer asks on line 0 of the interrupt controller, the keyboard on line 1
/// and the disk on line 6 of the slave, and what was asked before stays asked.
pub proof fn law_devices_have_their_lines(s: State, j: u8)
    requires
        j < 8,
    ensures
        ({
            let p = s.irqs_latched().pic;
            &&& has_line(p.master_irr, j) == (has_line(s.pic.master_irr, j) || j == 0 && s.pit.irq0
                || j == 1 && s.kbd.irq1)
            &&& has_line(p.slave_irr, j) == (has_line(s.pic.slave_irr, j) || j == 6 && s.ide.busy)
            &&& p.master_imr == s.pic.master_imr && p.slave_imr == s.pic.slave_imr
            &&& p.master_isr == s.pic.master_isr && p.slave_isr == s.pic.slave_isr
        }),
{
    reveal(State::timer_latched);
    reveal(State::key_latched);
    reveal(State::disk_latched);
    reveal(crate::pic::Pic::after_raise);
    let a = s.timer_latched();
    let b = a.key_latched();
    crate::laws::devices::lemma_bits(s.pic.master_irr, 0, 0);
    crate::laws::devices::lemma_bits(a.pic.master_irr, 1, 0);
    crate::laws::devices::lemma_bits(b.pic.slave_irr, 6, 0);
    crate::laws::devices::lemma_bits(0, j, 0);
}

/// Time is not lost: the seconds of the wall clock, and the timer's ticks that do
/// not make a second yet, add up to the ticks that have passed.
pub proof fn law_seconds_are_made_of_ticks(s: State)
    requires
        s.pit_subsecond < 1_193_182,
        s.cmos.elapsed_secs < 0xFFFF_FFFF_FFFF_FFFF,
    ensures
        ({
            let t = s.clocked();
            &&& t.cmos.elapsed_secs * 1_193_182 + t.pit_subsecond == s.cmos.elapsed_secs * 1_193_182
                + s.pit_subsecond + 64
            &&& t.pit_subsecond < 1_193_182
        }),
{
    reveal(State::clocked);
}

} // verus!
