//! Laws of the BIOS services: which registers they go by and what they leave.

use crate::bios::{e801_sizes, extended_kb};
use crate::laws::fields::{lemma_fields8, lemma_narrow, lemma_replaced};
use crate::memory::MemView;
use crate::state::State;
use vstd::prelude::*;

verus! {

/// A byte register by its old number: AL, CL, DL, BL, AH, CH, DH, BH.
pub open spec fn byte_reg(s: State, i: int) -> int {
    if i < 4 { s.regs[i] as int % 0x100 } else { s.regs[i - 4] as int / 0x100 % 0x100 }
}

/// The byte registers are the low and the second bytes of the first four
/// registers.
pub proof fn law_byte_registers(s: State, i: u8)
    requires
        s.regs.len() == 16,
        i < 8,
    ensures
        s.legacy8(i) == byte_reg(s, i as int),
{
    lemma_fields8(i);
    if i < 4 {
        lemma_narrow(s.regs[i as int]);
    } else {
        lemma_fields8((i - 4) as u8);
        lemma_replaced(s.regs[i - 4], 0, 0);
    }
}

/// The BIOS disk has two heads and eighteen sectors, of 512 bytes, to a track,
/// sectors being counted from one: CH is the cylinder, DH the head and CL the
/// sector. A read puts AL sectors at ES:BX and clears CF, a write puts them on
/// the disk; where they are not on the disk CF is set and nothing else changes.
pub proof fn law_bios_disk_transfers(s: State)
    requires
        s.regs.len() == 16,
    ensures
        ({
            let (al, ah) = (byte_reg(s, 0), byte_reg(s, 4));
            let (ch, cl, dh) = (byte_reg(s, 5), byte_reg(s, 1), byte_reg(s, 6));
            let at = 512 * (18 * (2 * ch + dh) + cl - 1);
            let n = 512 * al;
            let there = s.ide.present && cl >= 1 && at + n <= s.ide.disk.len();
            let buf = ((s.es * 16 + s.regs[3] as int % 0x1_0000) % 0x10_0000) as usize;
            let t = s.bios_disk();
            &&& (ah == 2 || ah == 3) && !there ==> t == (State { flags: s.flags | 1, ..s })
            &&& ah == 2 && there ==> t == (State {
                flags: s.flags & !1,
                mem: s.mem.load(buf, s.ide.disk.subrange(at, at + n)),
                ..s
            })
            &&& ah == 3 && there ==> t.flags == s.flags & !1 && t.mem == s.mem && t.ide.disk.len()
                == s.ide.disk.len() && (forall|k: int|
                0 <= k < s.ide.disk.len() ==> #[trigger] t.ide.disk[k] == if at <= k < at + n {
                    s.mem.read8(buf.wrapping_add((k - at) as usize))
                } else {
                    s.ide.disk[k]
                })
        }),
{
    reveal(State::bios_disk);
    reveal(crate::bios::disk_written);
    law_byte_registers(s, 0);
    law_byte_registers(s, 1);
    law_byte_registers(s, 4);
    law_byte_registers(s, 5);
    law_byte_registers(s, 6);
    lemma_fields8(3);
    lemma_narrow(s.regs[3]);
    let (ch, cl, dh) = (s.legacy8(5) as int, s.legacy8(1) as int, s.legacy8(6) as int);
    assert(s.disk_offset() == 512 * (18 * (2 * ch + dh) + cl - 1));
}

/// Teletype output puts the character, in grey on black, at the cursor of a
/// screen of 25 rows of 80, and moves the cursor on: to the next column, to the
/// next row, or on the last row up one line with the rest of the screen.
pub proof fn law_teletype_writes_at_the_cursor(s: State, ch: u8, i: int)
    requires
        s.vga.cursor_row < 25,
        s.vga.cursor_col < 80,
        s.mem.vga.len() == 2000,
        0 <= i < 2000,
    ensures
        ({
            let t = s.teletype(ch);
            let at = 80 * s.vga.cursor_row + s.vga.cursor_col;
            let cell = |k: int| if k == at { 0x700 + ch } else { s.mem.vga[k] as int };
            let scrolls = at == 1999;
            &&& t.mem.vga.len() == 2000
            &&& t.mem.vga[i] == if !scrolls {
                cell(i)
            } else if i + 80 < 2000 {
                cell(i + 80)
            } else {
                crate::bios::BLANK_CELL as int
            }
            &&& 80 * t.vga.cursor_row + t.vga.cursor_col == if scrolls { 1920 } else { at + 1 }
        }),
{
    reveal(State::teletype);
    reveal(MemView::put_text);
    reveal(MemView::scrolled);
    crate::laws::fields::lemma_joined(ch, 7, 0, 0, 0, 0, 0, 0);
    crate::laws::fields::lemma_cell(ch);
}

/// The memory sizes the BIOS reports account for the RAM between one megabyte
/// and the hole below four gigabytes: AX in kilobytes up to sixteen megabytes and
/// BX in units of 64 kilobytes above.
pub proof fn law_reported_sizes_account_for_the_ram(ram: u64)
    requires
        ram >= 0x10_0000,
        ram <= crate::memory::MMIO_HOLE_START,
        ram % 0x1_0000 == 0,
    ensures
        ({
            let (below, above) = e801_sizes(ram);
            &&& extended_kb(ram) == ram as int / 1024 - 1024
            &&& below <= 15 * 1024
            &&& above > 0 ==> below == 15 * 1024
            &&& 0x10_0000 + 1024 * below + 0x1_0000 * above == ram
        }),
{
}

} // verus!
