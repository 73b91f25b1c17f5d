//! What the machine has to show for itself: the text screen and the trail of
//! instruction pointers.

use crate::bios::{SCREEN_COLS, SCREEN_ROWS};
use crate::cpu::Cpu;
use crate::state::State;
use vstd::prelude::*;

verus! {

/// The character a text cell shows: blanks for nothing.
pub open spec fn shown(cell: u16) -> u8 {
    let c = (cell & 0xFF) as u8;
    if c == 0 || c == 0xFF { 0x20 } else { c }
}

impl State {
    /// A row of the text screen. The visible window starts at the CRTC's start
    /// address, not at the beginning of video memory, and wraps at its end.
    pub open spec fn screen_row(self, row: int) -> Seq<u8> {
        Seq::new(
            SCREEN_COLS as nat,
            |col: int|
                if self.mem.vga.len() == 0 {
                    0x20u8
                } else {
                    shown(
                        self.mem.vga[(self.vga.start_cell() + row * SCREEN_COLS + col)
                            % (self.mem.vga.len() as int)],
                    )
                },
        )
    }

    /// The last `n` instruction pointers, oldest first: as many as the ring
    /// holds at most.
    pub open spec fn recent_pcs(self, n: int) -> Seq<u64> {
        let len = self.diag.eip_ring.len();
        let k = if n < len { n } else { len as int };
        Seq::new(
            k as nat,
            |i: int| self.diag.eip_ring[(self.diag.eip_ring_pos + len - k + i) % (len as int)],
        )
    }
}

impl Cpu {
    /// A row of the text screen, blanks included.
    pub fn screen_row(&self, row: usize) -> (line: Vec<u8>)
        requires
            row < SCREEN_ROWS,
        ensures
            line@ == self@.screen_row(row as int),
    {
        let cells: usize = self.mem.vga_text.len();
        let start: usize = self.vga.start_cell();
        let mut line: Vec<u8> = Vec::new();
        let mut col: usize = 0;
        while col < SCREEN_COLS
            invariant
                row < SCREEN_ROWS,
                col <= SCREEN_COLS,
                cells == self.mem.vga_text@.len(),
                start == self@.vga.start_cell(),
                start <= 0xFFFF,
                line@.len() == col,
                forall|k: int| 0 <= k < col ==> line@[k] == self@.screen_row(row as int)[k],
            decreases SCREEN_COLS - col,
        {
            if cells == 0 {
                line.push(0x20);
            } else {
                let at: usize = (start + row * SCREEN_COLS + col) % cells;
                let c: u8 = (self.mem.vga_text[at] & 0xFF) as u8;
                line.push(
                    if c == 0 || c == 0xFF {
                        0x20
                    } else {
                        c
                    },
                );
            }
            col = col + 1;
        }
        assert(line@ =~= self@.screen_row(row as int));
        line
    }

    /// The last `n` instruction pointers, oldest first.
    pub fn recent_pcs(&self, n: usize) -> (pcs: Vec<u64>)
        ensures
            pcs@ == self@.recent_pcs(n as int),
    {
        let len: usize = self.diag.eip_ring.len();
        let k: usize = if n < len {
            n
        } else {
            len
        };
        let mut pcs: Vec<u64> = Vec::new();
        let mut i: usize = 0;
        while i < k
            invariant
                i <= k,
                k == (if n < len { n } else { len }),
                len == self.diag.eip_ring@.len(),
                pcs@.len() == i,
                forall|j: int| 0 <= j < i ==> pcs@[j] == self@.recent_pcs(n as int)[j],
            decreases k - i,
        {
            let ahead: u128 = self.diag.eip_ring_pos as u128 + (len - k) as u128 + i as u128;
            let at: usize = (ahead % (len as u128)) as usize;
            pcs.push(self.diag.eip_ring[at]);
            i = i + 1;
        }
        assert(pcs@ =~= self@.recent_pcs(n as int));
        pcs
    }
}

} // verus!
