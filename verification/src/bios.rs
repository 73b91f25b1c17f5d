//! Minimal BIOS layer: emulated `INT 0x10` (video), `INT 0x16` (keyboard)
//! and `INT 0x13` (disk) services, handled natively in Rust.
//!
//! The BIOS is not real machine code; it is a set of host-side service
//! routines dispatched from the `INT` instruction. This keeps the handlers
//! simple and testable while presenting the same register interface a real
//! BIOS would. The interrupt machinery (IVT + INT/IRET) is already in the
//! CPU core; the BIOS simply intercepts the vectors it owns before the IVT
//! is consulted.
//!
//! Text output goes to the text window in memory and mode setting to the
//! `Vga` device; keyboard and disk state live in the `Kbd`/`Ide` devices. The
//! BIOS keeps a small key queue for `INT 0x16`.

use crate::cpu::{flags, Cpu, Reg8};
use crate::ide::IdeView;
use crate::memory::{e820_map, E820Entry, MemView, Memory, HIGH_RAM_BASE, MMIO_HOLE_START};
use crate::state::State;
use crate::vga::VgaView;
use std::collections::VecDeque;
use vstd::prelude::*;

verus! {

/// Text screen width (standard 80x25 VGA text mode).
pub const SCREEN_COLS: usize = 80;

/// Text screen height.
pub const SCREEN_ROWS: usize = 25;

/// A blank cell: a space in light grey on black.
pub const BLANK_CELL: u16 = 0x0720;

/// The EDX signature of an E820 call, `'SMAP'`.
pub const SMAP: u32 = 0x534D_4150;

/// A minimal BIOS with emulated video, keyboard and disk state.
pub struct Bios {
    /// Keys waiting for `INT 0x16`, as (ascii, scancode).
    pub key_buffer: VecDeque<(u8, u8)>,
}

/// What a [`Bios`] holds, as mathematics.
#[verifier::ext_equal]
pub struct BiosView {
    pub keys: Seq<(u8, u8)>,
}

impl Bios {
    /// The value this stands for.
    pub open spec fn view(&self) -> BiosView {
        BiosView { keys: self.key_buffer@ }
    }
}

impl BiosView {
    /// A BIOS with no key waiting.
    pub open spec fn reset() -> BiosView {
        BiosView { keys: Seq::empty() }
    }
}

impl MemView {
    /// The text window with a character on the screen at a row and column, if
    /// there is such a place.
    #[verifier::opaque]
    pub open spec fn put_text(self, row: int, col: int, ch: u8) -> MemView {
        let i = row * SCREEN_COLS + col;
        if 0 <= row < SCREEN_ROWS && 0 <= col < SCREEN_COLS && i < self.vga.len() {
            MemView { vga: self.vga.update(i, (0x07u16 << 8) | (ch as u16)), ..self }
        } else {
            self
        }
    }

    /// The text window scrolled up one line: every cell takes the one a row
    /// below it, and the last line of the screen is blank.
    #[verifier::opaque]
    pub open spec fn scrolled(self) -> MemView {
        let last = SCREEN_COLS * (SCREEN_ROWS - 1);
        MemView {
            vga: Seq::new(
                self.vga.len(),
                |i: int|
                    if last <= i < last + SCREEN_COLS {
                        BLANK_CELL
                    } else if i + SCREEN_COLS < self.vga.len() {
                        self.vga[i + SCREEN_COLS]
                    } else {
                        self.vga[i]
                    },
            ),
            ..self
        }
    }

    /// The text window after the `n` bytes at `base` have been written to one
    /// row, from a column on.
    pub open spec fn text_written(self, base: usize, row: int, col: int, n: int) -> MemView
        decreases n,
    {
        if n <= 0 {
            self
        } else {
            let m = self.text_written(base, row, col, n - 1);
            m.put_text(row, col + n - 1, m.read8(base.wrapping_add((n - 1) as usize)))
        }
    }
}

/// The memory map `INT 0x15/E820` walks: the machine's own, and an empty
/// reserved entry at the end of RAM.
pub open spec fn bios_map(ram: u64) -> Seq<E820Entry> {
    crate::memory::e820_spec(ram).push((end_of_ram(ram), 0u64, 2u32))
}

/// The first address past the RAM of a machine.
pub open spec fn end_of_ram(ram: u64) -> u64 {
    if ram > MMIO_HOLE_START {
        ram.wrapping_add((HIGH_RAM_BASE - MMIO_HOLE_START) as u64)
    } else {
        ram
    }
}

/// Extended memory between 1 MiB and the MMIO hole, in KiB.
pub open spec fn extended_kb(ram: u64) -> int {
    let low = if ram < MMIO_HOLE_START { ram as int } else { MMIO_HOLE_START as int };
    if low < 0x10_0000 { 0 } else { (low - 0x10_0000) / 1024 }
}

/// What E801 reports: KiB between 1 and 16 MiB, and 64 KiB units above.
pub open spec fn e801_sizes(ram: u64) -> (u16, u16) {
    let kb = extended_kb(ram);
    if kb < 15 * 1024 {
        (kb as u16, 0)
    } else {
        ((15 * 1024) as u16, ((kb - 15 * 1024) / 64) as u16)
    }
}

/// The byte offset of a CHS address on a disk of 2 heads and 18 sectors per
/// track. Sectors are numbered from one.
pub open spec fn chs_offset(cyl: u8, head: u8, sector: u8) -> int {
    ((cyl * 2 + head) * 18 + (sector - 1)) * 512
}

/// A disk image with `n` bytes of memory written at an offset.
#[verifier::opaque]
pub open spec fn disk_written(disk: Seq<u8>, at: int, mem: MemView, buf: usize, n: int) -> Seq<u8> {
    Seq::new(
        disk.len(),
        |k: int|
            if at <= k < at + n {
                mem.read8(buf.wrapping_add((k - at) as usize))
            } else {
                disk[k]
            },
    )
}

impl State {
    /// The state with a memory.
    pub open spec fn with_mem(self, m: MemView) -> State {
        State { mem: m, ..self }
    }

    /// Teletype output: the character goes where the cursor is, and the cursor
    /// advances, wrapping to the next line and scrolling at the last one.
    #[verifier::opaque]
    pub open spec fn teletype(self, ch: u8) -> State {
        let row = self.vga.cursor_row;
        let col = self.vga.cursor_col;
        let m = self.mem.put_text(row as int, col as int, ch);
        if col.wrapping_add(1) < SCREEN_COLS {
            State {
                mem: m,
                vga: VgaView { cursor_col: col.wrapping_add(1), ..self.vga },
                ..self
            }
        } else if row.wrapping_add(1) < SCREEN_ROWS {
            State {
                mem: m,
                vga: VgaView { cursor_col: 0, cursor_row: row.wrapping_add(1), ..self.vga },
                ..self
            }
        } else {
            State {
                mem: m.scrolled(),
                vga: VgaView {
                    cursor_col: 0,
                    cursor_row: (SCREEN_ROWS - 1) as u8,
                    ..self.vga
                },
                ..self
            }
        }
    }

    /// INT 0x10: AH selects set mode (0x00), set and get cursor (0x02, 0x03),
    /// teletype (0x0E) and write string (0x13).
    #[verifier::opaque]
    pub open spec fn bios_video(self) -> State {
        let f = self.legacy8(4);
        if f == 0x00 {
            State { vga: self.vga.set_mode(self.legacy8(0)), ..self }
        } else if f == 0x02 {
            State {
                vga: VgaView {
                    cursor_row: self.legacy8(6),
                    cursor_col: self.legacy8(2),
                    ..self.vga
                },
                ..self
            }
        } else if f == 0x03 {
            self.set_legacy8(6, self.vga.cursor_row).set_legacy8(2, self.vga.cursor_col)
        } else if f == 0x0E {
            self.teletype(self.legacy8(0))
        } else if f == 0x13 {
            self.with_mem(
                self.mem.text_written(
                    crate::memory::phys_of(self.es, self.reg16(5)),
                    self.legacy8(6) as int,
                    self.legacy8(2) as int,
                    self.reg16(1) as int,
                ),
            )
        } else {
            self
        }
    }

    /// E820: the entry EBX names is written at ES:DI, and EBX becomes the next
    /// one or zero. Carry reports a call without the signature, or an entry
    /// that does not exist.
    #[verifier::opaque]
    pub open spec fn bios_e820(self) -> State {
        let map = bios_map(self.mem.data.len() as u64);
        let i = self.reg32(3);
        if self.reg32(0) != 0xE820 || self.reg32(2) != SMAP || i >= map.len() {
            self.with_flag(flags::CF, true)
        } else {
            self.e820_answered(map[i as int], if i + 1 < map.len() { (i + 1) as u32 } else { 0 })
        }
    }

    /// One entry of the memory map reported: twenty bytes at ES:DI.
    #[verifier::opaque]
    pub open spec fn e820_answered(self, e: E820Entry, next: u32) -> State {
        let buf = crate::memory::phys_of(self.es, self.reg16(7));
        self.with_mem(
            self.mem.write64(buf, e.0).write64(buf.wrapping_add(8), e.1).write32(
                buf.wrapping_add(16),
                e.2,
            ),
        ).with_reg32(3, next).with_reg32(0, 0xE820).with_reg32(1, 20).with_flag(flags::CF, false)
    }

    /// INT 0x15: E820 and E801 (AH = 0xE8) and the extended memory size
    /// (AH = 0x88), which saturates at 16 bits.
    #[verifier::opaque]
    pub open spec fn bios_memory(self) -> State {
        let f = self.legacy8(4);
        let ram = self.mem.data.len() as u64;
        if f == 0xE8 && self.legacy8(0) == 0x20 {
            self.bios_e820()
        } else if f == 0xE8 {
            let (below, above) = e801_sizes(ram);
            self.with_reg16(0, below).with_reg16(1, below).with_reg16(3, above).with_reg16(2, above)
        } else if f == 0x88 {
            self.with_reg16(
                0,
                if extended_kb(ram) < 0xFFFF { extended_kb(ram) as u16 } else { 0xFFFF },
            )
        } else {
            self.with_flag(flags::CF, true)
        }
    }

    /// INT 0x16: read the oldest key (AH = 0x00; zeros if there is none) or
    /// test for one (AH = 0x01).
    #[verifier::opaque]
    pub open spec fn bios_keyboard(self) -> State {
        let f = self.legacy8(4);
        let keys = self.bios.keys;
        if f == 0x00 {
            if keys.len() > 0 {
                State {
                    bios: BiosView { keys: keys.subrange(1, keys.len() as int) },
                    ..self
                }.set_legacy8(0, keys[0].0).set_legacy8(4, keys[0].1)
            } else {
                self.set_legacy8(0, 0).set_legacy8(4, 0)
            }
        } else if f == 0x01 {
            self.with_flag(flags::ZF, keys.len() == 0)
        } else {
            self
        }
    }

    /// The byte offset CH, CL and DH name on the disk.
    pub open spec fn disk_offset(self) -> int {
        chs_offset(self.legacy8(5), self.legacy8(6), self.legacy8(1))
    }

    /// Can AL sectors be transferred at the named offset?
    pub open spec fn disk_ready(self) -> bool {
        &&& self.ide.present
        &&& self.legacy8(1) >= 1
        &&& self.disk_offset() + self.legacy8(0) * 512 <= self.ide.disk.len()
    }

    /// INT 0x13: reset (AH = 0x00), read (0x02) and write (0x03) sectors at
    /// ES:BX. Carry reports a failure.
    #[verifier::opaque]
    pub open spec fn bios_disk(self) -> State {
        let f = self.legacy8(4);
        let at = self.disk_offset();
        let n = self.legacy8(0) * 512;
        let buf = crate::memory::phys_of(self.es, self.reg16(3));
        if f == 0x00 {
            self.with_flag(flags::CF, false)
        } else if (f == 0x02 || f == 0x03) && !self.disk_ready() {
            self.with_flag(flags::CF, true)
        } else if f == 0x02 {
            self.with_mem(self.mem.load(buf, self.ide.disk.subrange(at, at + n))).with_flag(
                flags::CF,
                false,
            )
        } else if f == 0x03 {
            State {
                ide: IdeView {
                    disk: disk_written(self.ide.disk, at, self.mem, buf, n),
                    ..self.ide
                },
                ..self
            }.with_flag(flags::CF, false)
        } else {
            self
        }
    }

    /// A BIOS service call, and whether the vector was one.
    pub open spec fn bios_service(self, vector: u8) -> (State, bool) {
        if vector == 0x10 {
            (self.bios_video(), true)
        } else if vector == 0x15 {
            (self.bios_memory(), true)
        } else if vector == 0x16 {
            (self.bios_keyboard(), true)
        } else if vector == 0x13 {
            (self.bios_disk(), true)
        } else {
            (self, false)
        }
    }
}

impl Memory {
    /// Put a character on the text screen.
    pub fn put_text(&mut self, row: usize, col: usize, ch: u8)
        ensures
            final(self)@ == old(self)@.put_text(row as int, col as int, ch),
    {
        proof {
            reveal(MemView::put_text);
        }
        if row < SCREEN_ROWS && col < SCREEN_COLS {
            let i: usize = row * SCREEN_COLS + col;
            if i < self.vga_text.len() {
                self.vga_text.set(i, (0x07u16 << 8) | (ch as u16));
            }
        }
    }

    /// Scroll the memory-mapped text window up one line.
    pub fn scroll(&mut self)
        ensures
            final(self)@ == old(self)@.scrolled(),
    {
        proof {
            reveal(MemView::scrolled);
        }
        let n: usize = self.vga_text.len();
        let last: usize = SCREEN_COLS * (SCREEN_ROWS - 1);
        let mut i: usize = 0;
        while i < n
            invariant
                i <= n,
                n == self.vga_text@.len(),
                n == old(self)@.vga.len(),
                last == 1920,
                self@ == (MemView { vga: self.vga_text@, ..old(self)@ }),
                forall|k: int| i <= k < n ==> self.vga_text@[k] == old(self)@.vga[k],
                forall|k: int|
                    0 <= k < i ==> self.vga_text@[k] == (if 1920 <= k < 2000 {
                        BLANK_CELL
                    } else if k + 80 < n {
                        old(self)@.vga[k + 80]
                    } else {
                        old(self)@.vga[k]
                    }),
            decreases n - i,
        {
            if i >= last && i < last + SCREEN_COLS {
                self.vga_text.set(i, BLANK_CELL);
            } else if n - i > SCREEN_COLS {
                let c: u16 = self.vga_text[i + SCREEN_COLS];
                self.vga_text.set(i, c);
            }
            i = i + 1;
        }
        assert(self@.vga =~= old(self)@.scrolled().vga);
    }

    /// Write the `n` bytes at `base` to one row of the screen.
    fn put_string(&mut self, base: usize, row: usize, col: usize, n: usize)
        requires
            col <= 0xFF,
            n <= 0xFFFF,
        ensures
            final(self)@ == old(self)@.text_written(base, row as int, col as int, n as int),
    {
        let mut i: usize = 0;
        while i < n
            invariant
                i <= n,
                col <= 0xFF,
                n <= 0xFFFF,
                self@ == old(self)@.text_written(base, row as int, col as int, i as int),
            decreases n - i,
        {
            let ch: u8 = self.read_u8(base.wrapping_add(i));
            self.put_text(row, col + i, ch);
            i = i + 1;
        }
    }

    /// Store part of a disk image in memory.
    fn load_from(&mut self, buf: usize, disk: &Vec<u8>, at: usize, n: usize)
        requires
            at + n <= disk@.len(),
        ensures
            final(self)@ == old(self)@.load(buf, disk@.subrange(at as int, at + n)),
    {
        let ghost part = disk@.subrange(at as int, at + n);
        let total: usize = disk.len();
        let mut i: usize = 0;
        assert(part.take(0) =~= Seq::<u8>::empty());
        while i < n
            invariant
                i <= n,
                total == disk@.len(),
                at + n <= total,
                part == disk@.subrange(at as int, at + n),
                self@ == old(self)@.load(buf, part.take(i as int)),
            decreases n - i,
        {
            self.write_u8(buf.wrapping_add(i), disk[at + i]);
            i = i + 1;
            assert(part.take(i as int).take(i - 1) =~= part.take(i - 1));
        }
        assert(part.take(i as int) =~= part);
    }
}

/// Store part of memory in a disk image.
fn store_to(disk: &mut Vec<u8>, at: usize, mem: &Memory, buf: usize, n: usize)
    requires
        at + n <= old(disk)@.len(),
    ensures
        final(disk)@ == disk_written(old(disk)@, at as int, mem@, buf, n as int),
{
    proof {
        reveal(disk_written);
    }
    let total: usize = disk.len();
    let mut i: usize = 0;
    while i < n
        invariant
            i <= n,
            at + n <= total,
            total == disk@.len(),
            disk@.len() == old(disk)@.len(),
            forall|k: int|
                0 <= k < disk@.len() ==> disk@[k] == (if at <= k < at + i {
                    mem@.read8(buf.wrapping_add((k - at) as usize))
                } else {
                    old(disk)@[k]
                }),
        decreases n - i,
    {
        disk.set(at + i, mem.read_u8(buf.wrapping_add(i)));
        i = i + 1;
    }
    assert(disk@ =~= disk_written(old(disk)@, at as int, mem@, buf, n as int));
}

impl Bios {
    pub fn new() -> (b: Self)
        ensures
            b@ == BiosView::reset(),
    {
        Bios { key_buffer: VecDeque::new() }
    }

    /// Queue a keypress (ascii, scancode) into the keyboard buffer.
    pub fn push_key(&mut self, ascii: u8, scancode: u8)
        ensures
            final(self)@ == (BiosView { keys: old(self)@.keys.push((ascii, scancode)) }),
    {
        self.key_buffer.push_back((ascii, scancode));
    }

    /// Handle an interrupt. Returns `true` if `vector` was a BIOS service
    /// (and was handled), `false` if the caller should vector through the IVT.
    pub fn handle(&mut self, cpu: &mut Cpu, vector: u8) -> (handled: bool)
        ensures
            ({
                let (s, b) = State { bios: old(self)@, ..old(cpu)@ }.bios_service(vector);
                &&& handled == b
                &&& final(self)@ == s.bios
                &&& final(cpu)@ == (State { bios: old(cpu)@.bios, ..s })
            }),
    {
        std::mem::swap(self, &mut cpu.bios);
        let handled = cpu.bios_call(vector);
        std::mem::swap(self, &mut cpu.bios);
        handled
    }
}

impl Default for Bios {
    fn default() -> (b: Self)
        ensures
            b@ == BiosView::reset(),
    {
        Self::new()
    }
}

impl Cpu {
    /// Teletype output of one character.
    fn put_char(&mut self, ch: u8)
        ensures
            final(self)@ == old(self)@.teletype(ch),
    {
        proof {
            reveal(State::teletype);
        }
        let row: u8 = self.vga.cursor_row;
        let col: u8 = self.vga.cursor_col;
        self.mem.put_text(row as usize, col as usize, ch);
        let next: u8 = col.wrapping_add(1);
        if (next as usize) < SCREEN_COLS {
            self.vga.cursor_col = next;
            return;
        }
        self.vga.cursor_col = 0;
        let below: u8 = row.wrapping_add(1);
        if (below as usize) < SCREEN_ROWS {
            self.vga.cursor_row = below;
            return;
        }
        self.mem.scroll();
        self.vga.cursor_row = (SCREEN_ROWS - 1) as u8;
    }

    /// INT 0x10: video services (AH = function).
    fn video(&mut self)
        ensures
            final(self)@ == old(self)@.bios_video(),
    {
        proof {
            reveal(State::bios_video);
        }
        match self.reg8(Reg8::Ah) {
            0x00 => {  // set video mode: AL = mode
                let mode: u8 = self.reg8(Reg8::Al);
                self.vga.set_mode(mode);
            },
            0x02 => {  // set cursor position: DH = row, DL = col
                let row: u8 = self.reg8(Reg8::Dh);
                let col: u8 = self.reg8(Reg8::Dl);
                self.vga.cursor_row = row;
                self.vga.cursor_col = col;
            },
            0x03 => {  // get cursor position -> DH = row, DL = col
                let row: u8 = self.vga.cursor_row;
                let col: u8 = self.vga.cursor_col;
                self.set_reg8(Reg8::Dh, row);
                self.set_reg8(Reg8::Dl, col);
            },
            0x0E => {  // teletype output: AL = char
                let ch: u8 = self.reg8(Reg8::Al);
                self.put_char(ch);
            },
            0x13 => {  // write string: ES:BP = string, CX = length, DH/DL = row/col
                let row: usize = self.reg8(Reg8::Dh) as usize;
                let col: usize = self.reg8(Reg8::Dl) as usize;
                let len: usize = self.cx() as usize;
                let base: usize = Memory::phys(self.es, self.bp());
                self.mem.put_string(base, row, col, len);
            },
            _ => {},
        }
    }

    /// INT 0x15, AX = 0xE820.
    fn e820(&mut self)
        ensures
            final(self)@ == old(self)@.bios_e820(),
    {
        proof {
            reveal(State::bios_e820);
        }
        let ram: u64 = self.mem.ram_size();
        let mut map: Vec<E820Entry> = e820_map(ram);
        let end: u64 = if ram > MMIO_HOLE_START {
            ram.wrapping_add(HIGH_RAM_BASE - MMIO_HOLE_START)
        } else {
            ram
        };
        map.push((end, 0, 2));  // end marker (reserved)
        let cont: u32 = self.ebx();
        // E820 protocol: EAX=0x0000E820, EDX='SMAP' (0x534D4150),
        // EBX=continuation (0 first), ECX=buffer size, ES:DI=buffer.
        // Returns EBX=next continuation (0=done).
        if self.eax() != 0xE820 || self.edx() != SMAP || cont as u64 >= map.len() as u64 {
            self.set_flag(flags::CF, true);
            return;
        }
        let next: u32 = if (cont as u64) + 1 < map.len() as u64 {
            cont + 1
        } else {
            0
        };
        self.e820_answer(map[cont as usize], next);
    }

    /// Report one entry of the memory map.
    fn e820_answer(&mut self, e: E820Entry, next: u32)
        ensures
            final(self)@ == old(self)@.e820_answered(e, next),
    {
        proof {
            reveal(State::e820_answered);
        }
        let buf: usize = Memory::phys(self.es, self.di());
        self.mem.write_u64(buf, e.0);
        self.mem.write_u64(buf.wrapping_add(8), e.1);
        self.mem.write_u32(buf.wrapping_add(16), e.2);
        self.set_ebx(next);
        self.set_eax(0xE820);
        self.set_ecx(20);  // bytes written
        self.set_flag(flags::CF, false);
    }

    /// Extended memory below the MMIO hole, in KiB.
    fn extended_kb(&self) -> (kb: u64)
        ensures
            kb == extended_kb(self@.mem.data.len() as u64),
            kb < 0x30_0000,
    {
        let ram: u64 = self.mem.ram_size();
        let low: u64 = if ram < MMIO_HOLE_START {
            ram
        } else {
            MMIO_HOLE_START
        };
        if low < 0x10_0000 {
            0
        } else {
            (low - 0x10_0000) / 1024
        }
    }

    /// INT 0x15: memory map services (AH = function). E820, E801 and 0x88
    /// report the physical RAM layout; Linux queries these very early in boot
    /// to learn how much memory it can use.
    fn memory_map(&mut self)
        ensures
            final(self)@ == old(self)@.bios_memory(),
    {
        proof {
            reveal(State::bios_memory);
        }
        let f: u8 = self.reg8(Reg8::Ah);
        let al: u8 = self.reg8(Reg8::Al);
        let kb: u64 = self.extended_kb();
        if f == 0xE8 && al == 0x20 {
            self.e820();
        } else if f == 0xE8 {
            // Extended memory below 16 MiB in KB, and above it in 64 KiB units.
            let below: u16 = if kb < 15 * 1024 {
                kb as u16
            } else {
                15 * 1024
            };
            let above: u16 = if kb < 15 * 1024 {
                0
            } else {
                ((kb - 15 * 1024) / 64) as u16
            };
            self.set_ax(below);
            self.set_cx(below);
            self.set_bx(above);
            self.set_dx(above);
        } else if f == 0x88 {
            // The 0x88 return is a 16-bit value, so it saturates at 65535 KB
            // (~64 MiB); real BIOSes report 0xFFFF when extended memory
            // exceeds that.
            self.set_ax(if kb < 0xFFFF {
                kb as u16
            } else {
                0xFFFF
            });
        } else {
            self.set_flag(flags::CF, true);  // unsupported function
        }
    }

    /// INT 0x16: keyboard services (AH = function).
    fn keyboard(&mut self)
        ensures
            final(self)@ == old(self)@.bios_keyboard(),
    {
        proof {
            reveal(State::bios_keyboard);
        }
        match self.reg8(Reg8::Ah) {
            0x00 => {  // read character: AL = ascii, AH = scancode
                match self.bios.key_buffer.pop_front() {
                    Some((ascii, scancode)) => {
                        self.set_reg8(Reg8::Al, ascii);
                        self.set_reg8(Reg8::Ah, scancode);
                    },
                    None => {
                        self.set_reg8(Reg8::Al, 0);
                        self.set_reg8(Reg8::Ah, 0);
                    },
                }
            },
            0x01 => {  // check buffer: ZF = 1 if empty
                let empty = self.bios.key_buffer.len() == 0;
                self.set_flag(flags::ZF, empty);
            },
            _ => {},
        }
    }

    /// INT 0x13: disk services (AH = function). CHS geometry: 2 heads, 18
    /// sectors/track (standard 1.44 MB floppy). Backed by the IDE device's
    /// disk image.
    fn disk(&mut self)
        ensures
            final(self)@ == old(self)@.bios_disk(),
    {
        proof {
            reveal(State::bios_disk);
        }
        let f: u8 = self.reg8(Reg8::Ah);
        if f == 0x00 {  // reset disk: CF = 0 on success
            self.set_flag(flags::CF, false);
            return;
        }
        if f != 0x02 && f != 0x03 {
            return;
        }
        // AL=count, CH=cyl, CL=sector (1-based), DH=head, ES:BX=buf
        let count: usize = self.reg8(Reg8::Al) as usize;
        let cyl: usize = self.reg8(Reg8::Ch) as usize;
        let sector: usize = self.reg8(Reg8::Cl) as usize;
        let head: usize = self.reg8(Reg8::Dh) as usize;
        let buf: usize = Memory::phys(self.es, self.bx());
        if !self.ide.present || sector == 0 {
            self.set_flag(flags::CF, true);
            return;
        }
        let at: usize = ((cyl * 2 + head) * 18 + (sector - 1)) * 512;
        let n: usize = count * 512;
        if at + n > self.ide.disk.len() {
            self.set_flag(flags::CF, true);
            return;
        }
        if f == 0x02 {
            self.mem.load_from(buf, &self.ide.disk, at, n);
        } else {
            store_to(&mut self.ide.disk, at, &self.mem, buf, n);
        }
        self.set_flag(flags::CF, false);
    }

    /// Call the BIOS. Returns `true` if `vector` was one of its services.
    pub fn bios_call(&mut self, vector: u8) -> (handled: bool)
        ensures
            (final(self)@, handled) == old(self)@.bios_service(vector),
    {
        match vector {
            0x10 => {
                self.video();
                true
            },
            0x15 => {
                self.memory_map();
                true
            },
            0x16 => {
                self.keyboard();
                true
            },
            0x13 => {
                self.disk();
                true
            },
            _ => false,
        }
    }
}

} // verus!
