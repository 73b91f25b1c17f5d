//! Flat memory for real, protected and long mode.
//!
//! Real-mode physical addresses are 20 bits wide; protected mode uses 32-bit
//! physical addresses; long mode uses up to 52. The backing store is sized at
//! construction: `Memory::DEFAULT_SIZE` is only the default, and
//! `Memory::with_size` builds a machine with any amount of RAM the host can
//! allocate. The length of that store is the single source of truth for how
//! much RAM the machine has: the BIOS memory services and the boot loader's
//! `boot_params` are all derived from `e820_map` below.
//!
//! # Where the RAM lives
//!
//! The top of the 32-bit address space belongs to devices, so a machine with
//! more RAM than fits underneath that window has the remainder wired *above*
//! 4 GiB. RAM occupies `0 .. min(ram, MMIO_HOLE_START)` and then
//! `4 GiB .. 4 GiB + (ram - MMIO_HOLE_START)`, with the gap between reading
//! as an unclaimed bus. `slot()` is the one place that knows the layout.
//!
//! Addresses with no RAM behind them read as `0xFF` and swallow writes, which
//! is what an unclaimed bus does.

use vstd::prelude::*;

verus! {

/// Physical address of the VGA text window.
pub const VGA_TEXT_BASE: usize = 0xB8000;

/// Size of the VGA text window in bytes: the whole 32 KiB colour-text
/// aperture, not just the 4000 bytes one screenful occupies. A text console
/// scrolls by moving the CRTC's start address through this buffer, so the
/// lines that have scrolled off the top are still sitting in it.
pub const VGA_TEXT_SIZE: usize = 0x8000;

/// Number of character cells in that window.
pub const VGA_TEXT_CELLS: usize = 0x4000;

/// Where the 32-bit MMIO window begins. RAM that would otherwise land between
/// here and 4 GiB is wired above 4 GiB instead.
pub const MMIO_HOLE_START: u64 = 0xC000_0000;

/// The 4 GiB mark, where RAM resumes on a machine with more than
/// `MMIO_HOLE_START` bytes of it.
pub const HIGH_RAM_BASE: u64 = 0x1_0000_0000;

/// The physical address handed back for a linear address with no mapping.
/// It is deliberately far above any real machine's RAM, so a read through it
/// answers `0xFF` (an open bus) instead of landing on whatever lives at zero.
pub const UNBACKED: usize = usize::MAX / 2;

/// Stores remembered by the store watch before the oldest is dropped.
pub const STORE_LOG_MAX: usize = 64;

/// One entry of the E820 memory map: (base, length, type). Type 1 is usable
/// RAM, 2 is reserved.
pub type E820Entry = (u64, u64, u32);

/// The machine's memory: RAM, the text window, and the store watch.
pub struct Memory {
    /// The RAM, low region first and the above-4 GiB region after it.
    pub data: Vec<u8>,
    /// Memory-mapped VGA text window at physical 0xB8000, one `u16` per cell
    /// (`char | (attr << 8)`). Reads and writes anywhere in the aperture are
    /// routed here so the CPU can drive the text screen directly.
    pub vga_text: Vec<u16>,
    /// Physical address to log every store to, recorded where the store
    /// actually happens rather than where it was translated.
    pub watch_store: Option<usize>,
    /// (physical address, value, width in bytes, RIP) for each logged store.
    pub store_log: Vec<(usize, u64, u8, u64)>,
    /// RIP of the instruction currently executing, kept in step by `Cpu::step`
    /// only while a store watch is armed.
    pub cur_eip: u64,
}

/// What a [`Memory`] holds, as mathematics.
#[verifier::ext_equal]
pub struct MemView {
    pub data: Seq<u8>,
    pub vga: Seq<u16>,
    pub watch: Option<usize>,
    pub log: Seq<(usize, u64, u8, u64)>,
    pub cur_eip: u64,
}

/// The little-endian 16-bit value of two bytes.
pub open spec fn le16(b0: u8, b1: u8) -> u16 {
    (b0 as u16) | ((b1 as u16) << 8)
}

/// The little-endian 32-bit value of four bytes.
pub open spec fn le32(b0: u8, b1: u8, b2: u8, b3: u8) -> u32 {
    (b0 as u32) | ((b1 as u32) << 8) | ((b2 as u32) << 16) | ((b3 as u32) << 24)
}

/// The 64-bit value of a low and a high 32-bit half.
pub open spec fn halves64(lo: u32, hi: u32) -> u64 {
    (lo as u64) | ((hi as u64) << 32)
}

/// The byte of `v` at little-endian position `i`.
pub open spec fn byte_of(v: u64, i: u64) -> u8 {
    (v >> (i * 8) as u64) as u8
}

impl MemView {
    /// Bytes of RAM below the MMIO hole; also the index at which the
    /// above-4 GiB region continues.
    pub open spec fn low_size(self) -> int {
        if self.data.len() < MMIO_HOLE_START { self.data.len() as int } else { MMIO_HOLE_START as int }
    }

    /// The index of the RAM byte behind a physical address, or `None` when no
    /// RAM answers there.
    pub open spec fn slot(self, addr: usize) -> Option<usize> {
        if addr < self.low_size() {
            Some(addr)
        } else if addr >= HIGH_RAM_BASE
            && addr - HIGH_RAM_BASE + self.low_size() < self.data.len() {
            Some((addr - HIGH_RAM_BASE + self.low_size()) as usize)
        } else {
            None
        }
    }

    /// Is `addr` inside the VGA text window?
    pub open spec fn in_vga(addr: int) -> bool {
        VGA_TEXT_BASE <= addr < VGA_TEXT_BASE + VGA_TEXT_SIZE
    }

    /// The text cell that holds the byte at `addr` (an address of the window).
    pub open spec fn cell(self, addr: usize) -> u16 {
        let i = (addr - VGA_TEXT_BASE) / 2;
        if 0 <= i < self.vga.len() { self.vga[i] } else { 0xFFFF }
    }

    /// The byte RAM answers with at `addr`, 0xFF where there is none.
    pub open spec fn ram8(self, addr: usize) -> u8 {
        match self.slot(addr) {
            Some(a) => self.data[a as int],
            None => 0xFF,
        }
    }

    /// The byte at a physical address.
    #[verifier::opaque]
    pub open spec fn read8(self, addr: usize) -> u8 {
        if Self::in_vga(addr as int) {
            if (addr - VGA_TEXT_BASE) % 2 == 0 {
                (self.cell(addr) & 0xFF) as u8
            } else {
                (self.cell(addr) >> 8) as u8
            }
        } else {
            self.ram8(addr)
        }
    }

    /// The `n` bytes from `addr` are consecutive bytes of one region of RAM,
    /// none of them in the text window.
    pub open spec fn at_once(self, addr: usize, n: int) -> bool {
        &&& addr + n <= usize::MAX
        &&& addr + n <= VGA_TEXT_BASE || VGA_TEXT_BASE + VGA_TEXT_SIZE <= addr
        &&& match self.slot(addr) {
            Some(a) => if addr < self.low_size() {
                a + n <= self.low_size()
            } else {
                a + n <= self.data.len()
            },
            None => false,
        }
    }

    /// The little-endian 16-bit value at a physical address.
    #[verifier::opaque]
    pub open spec fn read16(self, addr: usize) -> u16 {
        le16(self.read8(addr), self.read8(addr.wrapping_add(1)))
    }

    /// The little-endian 32-bit value at a physical address.
    #[verifier::opaque]
    pub open spec fn read32(self, addr: usize) -> u32 {
        le32(
            self.read8(addr),
            self.read8(addr.wrapping_add(1)),
            self.read8(addr.wrapping_add(2)),
            self.read8(addr.wrapping_add(3)),
        )
    }

    /// The little-endian 64-bit value at a physical address.
    #[verifier::opaque]
    pub open spec fn read64(self, addr: usize) -> u64 {
        halves64(self.read32(addr), self.read32(addr.wrapping_add(4)))
    }

    /// Log a store that overlaps the watched physical address, dropping the
    /// oldest record once the log is full.
    #[verifier::opaque]
    pub open spec fn note_store(self, addr: usize, val: u64, width: u8) -> MemView {
        match self.watch {
            Some(w) => {
                if addr <= w.wrapping_add(7) && w < addr.wrapping_add(width as usize) {
                    let kept = if self.log.len() >= STORE_LOG_MAX {
                        self.log.subrange(1, self.log.len() as int)
                    } else {
                        self.log
                    };
                    MemView { log: kept.push((addr, val, width, self.cur_eip)), ..self }
                } else {
                    self
                }
            },
            None => self,
        }
    }

    /// Replace the text cell that holds the byte at `addr`.
    pub open spec fn set_cell(self, addr: usize, v: u16) -> MemView {
        let i = (addr - VGA_TEXT_BASE) / 2;
        if 0 <= i < self.vga.len() {
            MemView { vga: self.vga.update(i, v), ..self }
        } else {
            self
        }
    }

    /// Replace RAM bytes from index `a` on.
    pub open spec fn set_ram(self, a: int, v: u8) -> MemView {
        MemView { data: self.data.update(a, v), ..self }
    }

    /// Memory with the byte at an address replaced: half a cell of the text
    /// window, a byte of RAM, or nothing where nothing answers.
    #[verifier::opaque]
    pub open spec fn put8(self, addr: usize, val: u8) -> MemView {
        if Self::in_vga(addr as int) {
            if (addr - VGA_TEXT_BASE) % 2 == 0 {
                self.set_cell(addr, (self.cell(addr) & 0xFF00) | (val as u16))
            } else {
                self.set_cell(addr, (self.cell(addr) & 0x00FF) | ((val as u16) << 8))
            }
        } else {
            match self.slot(addr) {
                Some(a) => self.set_ram(a as int, val),
                None => self,
            }
        }
    }

    /// A 16-bit store as the watch sees it: whole, and then byte by byte where
    /// it is neither one text cell nor in one region of RAM.
    pub open spec fn noted16(self, addr: usize, val: u16) -> MemView {
        let m = self.note_store(addr, val as u64, 2);
        let cell = Self::in_vga(addr as int) && (addr - VGA_TEXT_BASE) % 2 == 0;
        if cell || self.at_once(addr, 2) {
            m
        } else {
            m.note_store(addr, ((val & 0xFF) as u8) as u64, 1).note_store(
                addr.wrapping_add(1),
                ((val >> 8) as u8) as u64,
                1,
            )
        }
    }

    /// A 32-bit store as the watch sees it: whole, and then in the halves or
    /// bytes it is made in.
    pub open spec fn noted32(self, addr: usize, val: u32) -> MemView {
        let m = self.note_store(addr, val as u64, 4);
        if Self::in_vga(addr.wrapping_add(3) as int) {
            m.noted16(addr, (val & 0xFFFF) as u16).noted16(
                addr.wrapping_add(2),
                (val >> 16) as u16,
            )
        } else if self.at_once(addr, 4) {
            m
        } else {
            m.note_store(addr, ((val & 0xFF) as u8) as u64, 1)
                .note_store(addr.wrapping_add(1), (((val >> 8) & 0xFF) as u8) as u64, 1)
                .note_store(addr.wrapping_add(2), (((val >> 16) & 0xFF) as u8) as u64, 1)
                .note_store(addr.wrapping_add(3), (((val >> 24) & 0xFF) as u8) as u64, 1)
        }
    }

    /// A 64-bit store as the watch sees it.
    pub open spec fn noted64(self, addr: usize, val: u64) -> MemView {
        let m = self.note_store(addr, val, 8);
        if addr.wrapping_add(7) >= VGA_TEXT_BASE && addr < VGA_TEXT_BASE + VGA_TEXT_SIZE {
            m.noted32(addr, val as u32).noted32(addr.wrapping_add(4), (val >> 32) as u32)
        } else if self.at_once(addr, 8) {
            m
        } else {
            m.note_store(addr, byte_of(val, 0) as u64, 1)
                .note_store(addr.wrapping_add(1), byte_of(val, 1) as u64, 1)
                .note_store(addr.wrapping_add(2), byte_of(val, 2) as u64, 1)
                .note_store(addr.wrapping_add(3), byte_of(val, 3) as u64, 1)
                .note_store(addr.wrapping_add(4), byte_of(val, 4) as u64, 1)
                .note_store(addr.wrapping_add(5), byte_of(val, 5) as u64, 1)
                .note_store(addr.wrapping_add(6), byte_of(val, 6) as u64, 1)
                .note_store(addr.wrapping_add(7), byte_of(val, 7) as u64, 1)
        }
    }

    /// Memory after a byte store.
    #[verifier::opaque]
    pub open spec fn write8(self, addr: usize, val: u8) -> MemView {
        self.note_store(addr, val as u64, 1).put8(addr, val)
    }

    /// Memory after a 16-bit store.
    #[verifier::opaque]
    pub open spec fn write16(self, addr: usize, val: u16) -> MemView {
        self.noted16(addr, val).put8(addr, (val & 0xFF) as u8).put8(
            addr.wrapping_add(1),
            (val >> 8) as u8,
        )
    }

    /// Memory after a 32-bit store.
    #[verifier::opaque]
    pub open spec fn write32(self, addr: usize, val: u32) -> MemView {
        self.noted32(addr, val)
            .put8(addr, (val & 0xFF) as u8)
            .put8(addr.wrapping_add(1), ((val >> 8) & 0xFF) as u8)
            .put8(addr.wrapping_add(2), ((val >> 16) & 0xFF) as u8)
            .put8(addr.wrapping_add(3), ((val >> 24) & 0xFF) as u8)
    }

    /// Memory after a 64-bit store.
    #[verifier::opaque]
    pub open spec fn write64(self, addr: usize, val: u64) -> MemView {
        self.noted64(addr, val)
            .put8(addr, byte_of(val, 0))
            .put8(addr.wrapping_add(1), byte_of(val, 1))
            .put8(addr.wrapping_add(2), byte_of(val, 2))
            .put8(addr.wrapping_add(3), byte_of(val, 3))
            .put8(addr.wrapping_add(4), byte_of(val, 4))
            .put8(addr.wrapping_add(5), byte_of(val, 5))
            .put8(addr.wrapping_add(6), byte_of(val, 6))
            .put8(addr.wrapping_add(7), byte_of(val, 7))
    }

    /// Memory after `bytes` have been stored one by one from `addr` on.
    pub open spec fn load(self, addr: usize, bytes: Seq<u8>) -> MemView
        decreases bytes.len(),
    {
        if bytes.len() == 0 {
            self
        } else {
            let n = bytes.len() - 1;
            self.load(addr, bytes.take(n)).write8(addr.wrapping_add(n as usize), bytes[n])
        }
    }
}

impl MemView {
    /// Without a watch no store is logged.
    pub proof fn lemma_unwatched(self, addr: usize, v16: u16, v32: u32, v64: u64)
        requires
            self.watch is None,
        ensures
            self.noted16(addr, v16) == self,
            self.noted32(addr, v32) == self,
            self.noted64(addr, v64) == self,
    {
        reveal(MemView::note_store);
    }
}

/// The memory map of a machine with `ram` bytes of RAM.
pub open spec fn e820_spec(ram: u64) -> Seq<E820Entry> {
    let low = if ram < MMIO_HOLE_START { ram } else { MMIO_HOLE_START };
    let fixed: Seq<E820Entry> = seq![
        (0u64, 0x0009_FC00u64, 1u32),
        (0x0009_FC00u64, 0x0400u64, 2u32),
        (0x000A_0000u64, 0x0006_0000u64, 2u32),
    ];
    let extended = if low > 0x0010_0000 {
        fixed.push((0x0010_0000u64, (low - 0x0010_0000) as u64, 1u32))
    } else {
        fixed
    };
    if ram > MMIO_HOLE_START {
        extended.push((MMIO_HOLE_START, (HIGH_RAM_BASE - MMIO_HOLE_START) as u64, 2u32)).push(
            (HIGH_RAM_BASE, (ram - MMIO_HOLE_START) as u64, 1u32),
        )
    } else {
        extended
    }
}

/// The machine's memory map for `ram` bytes of RAM, in the form the BIOS
/// `INT 0x15/E820` service and the Linux `boot_params` table both want.
///
/// This is the single description of the layout, so a machine cannot describe
/// itself two different ways to two different consumers.
pub fn e820_map(ram: u64) -> (map: Vec<E820Entry>)
    ensures
        map@ == e820_spec(ram),
{
    let low: u64 = if ram < MMIO_HOLE_START { ram } else { MMIO_HOLE_START };
    let mut map: Vec<E820Entry> = Vec::new();
    map.push((0x0000_0000, 0x0009_FC00, 1));  // conventional memory (640K - 1K)
    map.push((0x0009_FC00, 0x0000_0400, 2));  // EBDA
    map.push((0x000A_0000, 0x0006_0000, 2));  // VGA / ROM area
    if low > 0x0010_0000 {
        map.push((0x0010_0000, low - 0x0010_0000, 1));  // extended memory
    }
    if ram > MMIO_HOLE_START {
        // The device window, then the rest of the RAM above 4 GiB.
        map.push((MMIO_HOLE_START, HIGH_RAM_BASE - MMIO_HOLE_START, 2));
        map.push((HIGH_RAM_BASE, ram - MMIO_HOLE_START, 1));
    }
    map
}

/// Rounding down to a page by masking.
proof fn lemma_page_mask(x: usize)
    ensures
        x & !0xFFFusize == x / 4096 * 4096,
{
    crate::bits::lemma_masks();
}

impl Memory {
    /// The value this stands for.
    pub open spec fn view(&self) -> MemView {
        MemView {
            data: self.data@,
            vga: self.vga_text@,
            watch: self.watch_store,
            log: self.store_log@,
            cur_eip: self.cur_eip,
        }
    }
}

/// The size of a machine asked to have `bytes` of RAM: whole pages, and never
/// less than 1 MiB.
pub open spec fn rounded_size(bytes: int) -> int {
    let wanted = if bytes < 0x10_0000 { 0x10_0000 } else { bytes };
    (wanted + 0xFFF) / 4096 * 4096
}

impl Memory {
    /// Default backing store size (128 MiB) when no size is given.
    pub const DEFAULT_SIZE: usize = 0x0800_0000;

    pub fn new() -> (m: Self)
        ensures
            m@ == MemView::blank(Self::DEFAULT_SIZE as nat),
    {
        Self::with_size(Self::DEFAULT_SIZE)
    }

    /// Build a machine with `bytes` of RAM, rounded up to a whole 4 KiB page
    /// and never smaller than 1 MiB.
    pub fn with_size(bytes: usize) -> (m: Self)
        requires
            bytes <= usize::MAX - 0xFFF,
        ensures
            m@ == MemView::blank(rounded_size(bytes as int) as nat),
    {
        let wanted: usize = if bytes < 0x10_0000 { 0x10_0000 } else { bytes };
        let size: usize = (wanted + 0xFFF) & !0xFFF;
        proof {
            lemma_page_mask((wanted + 0xFFF) as usize);
        }
        Memory {
            data: vec![0u8; size],
            vga_text: vec![0x0720u16; VGA_TEXT_CELLS],
            watch_store: None,
            store_log: Vec::new(),
            cur_eip: 0,
        }
    }

    /// Total RAM in bytes.
    pub fn ram_size(&self) -> (n: u64)
        ensures
            n == self@.data.len(),
    {
        self.data.len() as u64
    }

    /// Bytes of RAM below the MMIO hole.
    fn low_size(&self) -> (n: usize)
        ensures
            n == self@.low_size(),
    {
        if (self.data.len() as u64) < MMIO_HOLE_START {
            self.data.len()
        } else {
            MMIO_HOLE_START as usize
        }
    }

    /// The highest physical address that has RAM behind it, exclusive. On a
    /// machine larger than the MMIO hole this is past the 4 GiB mark.
    pub fn top_of_ram(&self) -> (top: u64)
        requires
            self@.data.len() <= u64::MAX - HIGH_RAM_BASE,
        ensures
            top == self@.top_of_ram(),
    {
        if self.data.len() as u64 > MMIO_HOLE_START {
            HIGH_RAM_BASE + (self.data.len() as u64 - MMIO_HOLE_START)
        } else {
            self.data.len() as u64
        }
    }

    /// This machine's E820 memory map.
    pub fn e820(&self) -> (map: Vec<E820Entry>)
        ensures
            map@ == e820_spec(self@.data.len() as u64),
    {
        e820_map(self.ram_size())
    }

    /// Map a physical address onto an index into the backing store, or `None`
    /// when no RAM answers at that address (the MMIO hole, or past the top).
    pub fn slot(&self, addr: usize) -> (s: Option<usize>)
        ensures
            s == self@.slot(addr),
            s matches Some(a) ==> a < self@.data.len(),
    {
        let low: usize = self.low_size();
        if addr < low {
            return Some(addr);
        }
        if addr as u64 >= HIGH_RAM_BASE {
            let off: u64 = (addr as u64 - HIGH_RAM_BASE) + low as u64;
            if off < self.data.len() as u64 {
                return Some(off as usize);
            }
        }
        None
    }

    /// Log a store that overlaps the watched physical address.
    fn note_store(&mut self, addr: usize, val: u64, width: u8)
        ensures
            final(self)@ == old(self)@.note_store(addr, val, width),
    {
        proof {
            reveal(MemView::note_store);
        }
        if let Some(w) = self.watch_store {
            if addr <= w.wrapping_add(7) && w < addr.wrapping_add(width as usize) {
                if self.store_log.len() >= STORE_LOG_MAX {
                    self.store_log.remove(0);
                    assert(self.store_log@ =~= old(self).store_log@.subrange(1, old(self).store_log@.len() as int));
                }
                let eip: u64 = self.cur_eip;
                self.store_log.push((addr, val, width, eip));
            }
        }
    }

    /// True if `addr` falls inside the VGA text window.
    pub fn in_vga_text(&self, addr: usize) -> (b: bool)
        ensures
            b == MemView::in_vga(addr as int),
    {
        addr >= VGA_TEXT_BASE && addr < VGA_TEXT_BASE + VGA_TEXT_SIZE
    }

    /// The text cell behind an address of the window.
    fn cell(&self, addr: usize) -> (v: u16)
        requires
            addr >= VGA_TEXT_BASE,
        ensures
            v == self@.cell(addr),
    {
        let i: usize = (addr - VGA_TEXT_BASE) / 2;
        if i < self.vga_text.len() {
            self.vga_text[i]
        } else {
            0xFFFF
        }
    }

    /// Replace the text cell behind an address of the window.
    fn set_cell(&mut self, addr: usize, v: u16)
        requires
            addr >= VGA_TEXT_BASE,
        ensures
            final(self)@ == old(self)@.set_cell(addr, v),
    {
        let i: usize = (addr - VGA_TEXT_BASE) / 2;
        if i < self.vga_text.len() {
            self.vga_text[i] = v;
        }
    }

    /// Read a byte at a physical address.
    pub fn read_u8(&self, addr: usize) -> (b: u8)
        ensures
            b == self@.read8(addr),
    {
        proof {
            reveal(MemView::read8);
        }
        if addr >= VGA_TEXT_BASE && addr < VGA_TEXT_BASE + VGA_TEXT_SIZE {
            let cell: u16 = self.cell(addr);
            return if (addr - VGA_TEXT_BASE) % 2 == 0 {
                (cell & 0xFF) as u8
            } else {
                (cell >> 8) as u8
            };
        }
        self.read_u8_raw(addr)
    }

    /// Read a byte at a physical address, skipping the VGA text window check.
    /// Used for instruction fetch (code is never in VGA memory).
    pub fn read_u8_raw(&self, addr: usize) -> (b: u8)
        ensures
            b == self@.ram8(addr),
    {
        match self.slot(addr) {
            Some(a) => self.data[a],
            None => 0xFF,
        }
    }

    /// Do the `n` bytes from `addr` lie in one region of RAM, outside the
    /// text window? If so, where?
    fn at_once(&self, addr: usize, n: usize) -> (r: Option<usize>)
        requires
            n <= 8,
        ensures
            r == (if self@.at_once(addr, n as int) {
                self@.slot(addr)
            } else {
                None
            }),
    {
        let clear: bool = addr >= VGA_TEXT_BASE + VGA_TEXT_SIZE || addr <= VGA_TEXT_BASE - n;
        if !clear || addr > usize::MAX - n {
            return None;
        }
        let low: usize = self.low_size();
        match self.slot(addr) {
            Some(a) => {
                let end: usize = if addr < low {
                    low
                } else {
                    self.data.len()
                };
                if end - a >= n {
                    Some(a)
                } else {
                    None
                }
            },
            None => None,
        }
    }

    /// Read a little-endian u16 at a physical address.
    pub fn read_u16(&self, addr: usize) -> (v: u16)
        ensures
            v == self@.read16(addr),
    {
        proof {
            reveal(MemView::read16);
            reveal(MemView::read8);
        }
        if let Some(a) = self.at_once(addr, 2) {
            return (self.data[a] as u16) | ((self.data[a + 1] as u16) << 8);
        }
        // In the text window, across the end of a region, or unbacked: byte at
        // a time.
        (self.read_u8(addr) as u16) | ((self.read_u8(addr.wrapping_add(1)) as u16) << 8)
    }

    /// Read a little-endian u32 at a physical address.
    pub fn read_u32(&self, addr: usize) -> (v: u32)
        ensures
            v == self@.read32(addr),
    {
        proof {
            reveal(MemView::read32);
            reveal(MemView::read8);
        }
        if let Some(a) = self.at_once(addr, 4) {
            return (self.data[a] as u32) | ((self.data[a + 1] as u32) << 8) | ((self.data[a + 2]
                as u32) << 16) | ((self.data[a + 3] as u32) << 24);
        }
        let b0: u32 = self.read_u8(addr) as u32;
        let b1: u32 = self.read_u8(addr.wrapping_add(1)) as u32;
        let b2: u32 = self.read_u8(addr.wrapping_add(2)) as u32;
        let b3: u32 = self.read_u8(addr.wrapping_add(3)) as u32;
        b0 | (b1 << 8) | (b2 << 16) | (b3 << 24)
    }

    /// Read a little-endian u64 at a physical address (page-table entries,
    /// GDT/IDT descriptors, and every 64-bit operand).
    pub fn read_u64(&self, addr: usize) -> (v: u64)
        ensures
            v == self@.read64(addr),
    {
        proof {
            reveal(MemView::read64);
        }
        let lo: u64 = self.read_u32(addr) as u64;
        let hi: u64 = self.read_u32(addr.wrapping_add(4)) as u64;
        lo | (hi << 32)
    }

    /// Replace the byte at a physical address.
    fn put(&mut self, addr: usize, val: u8)
        ensures
            final(self)@ == old(self)@.put8(addr, val),
    {
        proof {
            reveal(MemView::put8);
        }
        if addr >= VGA_TEXT_BASE && addr < VGA_TEXT_BASE + VGA_TEXT_SIZE {
            let cell: u16 = self.cell(addr);
            if (addr - VGA_TEXT_BASE) % 2 == 0 {
                self.set_cell(addr, (cell & 0xFF00) | (val as u16));
            } else {
                self.set_cell(addr, (cell & 0x00FF) | ((val as u16) << 8));
            }
            return;
        }
        if let Some(a) = self.slot(addr) {
            self.data[a] = val;
        }
    }

    /// Log a 16-bit store.
    fn note16(&mut self, addr: usize, val: u16)
        ensures
            final(self)@ == old(self)@.noted16(addr, val),
    {
        proof {
            reveal(MemView::note_store);
        }
        self.note_store(addr, val as u64, 2);
        let cell: bool = self.in_vga_text(addr) && (addr - VGA_TEXT_BASE) % 2 == 0;
        if !cell && self.at_once(addr, 2).is_none() {
            self.note_store(addr, ((val & 0xFF) as u8) as u64, 1);
            self.note_store(addr.wrapping_add(1), ((val >> 8) as u8) as u64, 1);
        }
    }

    /// Log a 32-bit store.
    fn note32(&mut self, addr: usize, val: u32)
        ensures
            final(self)@ == old(self)@.noted32(addr, val),
    {
        proof {
            reveal(MemView::note_store);
        }
        self.note_store(addr, val as u64, 4);
        if self.in_vga_text(addr.wrapping_add(3)) {
            self.note16(addr, (val & 0xFFFF) as u16);
            self.note16(addr.wrapping_add(2), (val >> 16) as u16);
        } else if self.at_once(addr, 4).is_none() {
            self.note_store(addr, ((val & 0xFF) as u8) as u64, 1);
            self.note_store(addr.wrapping_add(1), (((val >> 8) & 0xFF) as u8) as u64, 1);
            self.note_store(addr.wrapping_add(2), (((val >> 16) & 0xFF) as u8) as u64, 1);
            self.note_store(addr.wrapping_add(3), (((val >> 24) & 0xFF) as u8) as u64, 1);
        }
    }

    /// Log a 64-bit store.
    fn note64(&mut self, addr: usize, val: u64)
        ensures
            final(self)@ == old(self)@.noted64(addr, val),
    {
        let ghost m = self@.note_store(addr, val, 8);
        proof {
            assert(m.at_once(addr, 8) == self@.at_once(addr, 8)) by {
                reveal(MemView::note_store);
            }
        }
        self.note_store(addr, val, 8);
        if addr.wrapping_add(7) >= VGA_TEXT_BASE && addr < VGA_TEXT_BASE + VGA_TEXT_SIZE {
            self.note32(addr, val as u32);
            self.note32(addr.wrapping_add(4), (val >> 32) as u32);
        } else if self.at_once(addr, 8).is_none() {
            self.note_store(addr, ((val >> 0u64) as u8) as u64, 1);
            self.note_store(addr.wrapping_add(1), ((val >> 8u64) as u8) as u64, 1);
            self.note_store(addr.wrapping_add(2), ((val >> 16u64) as u8) as u64, 1);
            self.note_store(addr.wrapping_add(3), ((val >> 24u64) as u8) as u64, 1);
            self.note_store(addr.wrapping_add(4), ((val >> 32u64) as u8) as u64, 1);
            self.note_store(addr.wrapping_add(5), ((val >> 40u64) as u8) as u64, 1);
            self.note_store(addr.wrapping_add(6), ((val >> 48u64) as u8) as u64, 1);
            self.note_store(addr.wrapping_add(7), ((val >> 56u64) as u8) as u64, 1);
        }
    }

    /// Write a byte to a physical address.
    pub fn write_u8(&mut self, addr: usize, val: u8)
        ensures
            final(self)@ == old(self)@.write8(addr, val),
    {
        proof {
            reveal(MemView::write8);
        }
        self.note_store(addr, val as u64, 1);
        self.put(addr, val);
    }

    /// Write a little-endian u16 to a physical address.
    pub fn write_u16(&mut self, addr: usize, val: u16)
        ensures
            final(self)@ == old(self)@.write16(addr, val),
    {
        proof {
            reveal(MemView::write16);
        }
        if self.watch_store.is_some() {
            self.note16(addr, val);
        } else {
            proof {
                self@.lemma_unwatched(addr, val, 0, 0);
            }
        }
        self.put(addr, (val & 0xFF) as u8);
        self.put(addr.wrapping_add(1), (val >> 8) as u8);
    }

    /// Write a little-endian u32 to a physical address.
    pub fn write_u32(&mut self, addr: usize, val: u32)
        ensures
            final(self)@ == old(self)@.write32(addr, val),
    {
        proof {
            reveal(MemView::write32);
        }
        if self.watch_store.is_some() {
            self.note32(addr, val);
        } else {
            proof {
                self@.lemma_unwatched(addr, 0, val, 0);
            }
        }
        self.put(addr, (val & 0xFF) as u8);
        self.put(addr.wrapping_add(1), ((val >> 8) & 0xFF) as u8);
        self.put(addr.wrapping_add(2), ((val >> 16) & 0xFF) as u8);
        self.put(addr.wrapping_add(3), ((val >> 24) & 0xFF) as u8);
    }

    /// Write a little-endian u64 to a physical address.
    pub fn write_u64(&mut self, addr: usize, val: u64)
        ensures
            final(self)@ == old(self)@.write64(addr, val),
    {
        proof {
            reveal(MemView::write64);
        }
        if self.watch_store.is_some() {
            self.note64(addr, val);
        } else {
            proof {
                self@.lemma_unwatched(addr, 0, 0, val);
            }
        }
        self.put(addr, (val >> 0u64) as u8);
        self.put(addr.wrapping_add(1), (val >> 8u64) as u8);
        self.put(addr.wrapping_add(2), (val >> 16u64) as u8);
        self.put(addr.wrapping_add(3), (val >> 24u64) as u8);
        self.put(addr.wrapping_add(4), (val >> 32u64) as u8);
        self.put(addr.wrapping_add(5), (val >> 40u64) as u8);
        self.put(addr.wrapping_add(6), (val >> 48u64) as u8);
        self.put(addr.wrapping_add(7), (val >> 56u64) as u8);
    }

    /// Load a block of bytes at a physical address (used to install code/data).
    pub fn load(&mut self, addr: usize, bytes: &[u8])
        ensures
            final(self)@ == old(self)@.load(addr, bytes@),
    {
        let mut i: usize = 0;
        assert(bytes@.take(0) =~= Seq::<u8>::empty());
        while i < bytes.len()
            invariant
                i <= bytes.len(),
                self@ == old(self)@.load(addr, bytes@.take(i as int)),
            decreases bytes.len() - i,
        {
            self.write_u8(addr.wrapping_add(i), bytes[i]);
            i = i + 1;
            assert(bytes@.take(i as int).take(i - 1) =~= bytes@.take(i - 1));
        }
        assert(bytes@.take(i as int) =~= bytes@);
    }

    /// Translate a real-mode `segment:offset` pair to a 20-bit physical address.
    pub fn phys(segment: u16, offset: u16) -> (a: usize)
        ensures
            a == phys_of(segment, offset),
    {
        proof {
            lemma_phys(segment, offset);
        }
        ((((segment as u32) << 4) + offset as u32) as usize) & 0xFFFFF
    }

    /// Widen a 32-bit physical address to a backing-store address.
    pub fn phys32(addr: u32) -> (a: usize)
        ensures
            a == addr,
    {
        addr as usize
    }
}

/// The 20-bit physical address of a real-mode pair: sixteen times the segment
/// plus the offset, wrapping at 1 MiB.
pub open spec fn phys_of(segment: u16, offset: u16) -> usize {
    ((segment * 16 + offset) % 0x10_0000) as usize
}

pub(crate) proof fn lemma_phys(segment: u16, offset: u16)
    by (bit_vector)
    ensures
        (segment as u32) << 4u32 == segment * 16,
        (segment as u32) << 4u32 <= 0xF_FFF0,
        (((segment * 16 + offset) as u32) as usize) & 0xFFFFFusize == (segment * 16 + offset)
            % 0x10_0000,
{
}

impl MemView {
    /// A fresh memory of `size` zero bytes with a blank text screen.
    pub open spec fn blank(size: nat) -> MemView {
        MemView {
            data: Seq::new(size, |i: int| 0u8),
            vga: Seq::new(VGA_TEXT_CELLS as nat, |i: int| 0x0720u16),
            watch: None,
            log: Seq::empty(),
            cur_eip: 0,
        }
    }

    /// One past the highest physical address with RAM behind it.
    pub open spec fn top_of_ram(self) -> int {
        if self.data.len() > MMIO_HOLE_START {
            HIGH_RAM_BASE + (self.data.len() - MMIO_HOLE_START)
        } else {
            self.data.len() as int
        }
    }
}

impl Default for Memory {
    fn default() -> (m: Self)
        ensures
            m@ == MemView::blank(Self::DEFAULT_SIZE as nat),
    {
        Self::new()
    }
}

} // verus!
