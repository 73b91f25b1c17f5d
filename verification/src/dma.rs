//! 8237 DMA controller.
//!
//! Four DMA channels (0-3). Each channel has a base address, a word count,
//! and a page register (which supplies the high address bits). The controller
//! can transfer data between memory and an I/O device, or between two memory
//! regions.
//!
//! I/O ports:
//!   0x00-0x07 - channel 0-3 address/count (byte and word)
//!   0x08-0x0F - command/status registers
//!   0x81-0x8F - page registers (high address bits per channel)

use crate::memory::{MemView, Memory};
use vstd::prelude::*;

verus! {

/// A single DMA channel.
#[derive(Clone, Copy, Debug)]
pub struct DmaChannel {
    /// Base address (low 16 bits).
    pub base: u16,
    /// Word count (number of 16-bit transfers minus 1).
    pub count: u16,
    /// Page register (high address bits).
    pub page: u8,
    /// Whether the channel is enabled.
    pub enabled: bool,
    /// Auto-initialize (reload base/count after transfer).
    pub auto_init: bool,
    /// Transfer direction: true = write (memory -> I/O), false = read.
    pub write: bool,
}

impl DmaChannel {
    /// A channel at power-on.
    pub open spec fn idle() -> DmaChannel {
        DmaChannel { base: 0, count: 0, page: 0, enabled: false, auto_init: false, write: false }
    }

    /// The channel's physical address: its page above its base.
    pub open spec fn address(self) -> int {
        self.page * 0x1_0000 + self.base
    }

    /// The number of bytes a transfer moves: two per word, and one word more
    /// than the count.
    pub open spec fn length(self) -> int {
        2 * (self.count + 1)
    }
}

impl Default for DmaChannel {
    fn default() -> (c: Self)
        ensures
            c == DmaChannel::idle(),
    {
        DmaChannel { base: 0, count: 0, page: 0, enabled: false, auto_init: false, write: false }
    }
}

/// The 8237 DMA controller.
pub struct Dma {
    pub channels: [DmaChannel; 4],
    /// Command register (port 0x08).
    pub command: u8,
    /// Status register (port 0x08 read).
    pub status: u8,
    /// Mask register (port 0x0A).
    pub mask: u8,
    /// Currently selected channel for byte/word programming.
    pub selected: u8,
    /// Whether the next access to a channel port is the high byte.
    pub high_byte: bool,
}

/// What a [`Dma`] holds, as mathematics.
#[verifier::ext_equal]
pub struct DmaView {
    pub channels: Seq<DmaChannel>,
    pub command: u8,
    pub status: u8,
    pub mask: u8,
    pub selected: u8,
    pub high_byte: bool,
}

impl Dma {
    /// The value this stands for.
    pub open spec fn view(&self) -> DmaView {
        DmaView {
            channels: self.channels@,
            command: self.command,
            status: self.status,
            mask: self.mask,
            selected: self.selected,
            high_byte: self.high_byte,
        }
    }
}

/// A 16-bit register after its low or its high byte has been written.
pub open spec fn half_written(reg: u16, high: bool, val: u8) -> u16 {
    if high {
        (reg & 0x00FF) | ((val as u16) << 8)
    } else {
        (reg & 0xFF00) | (val as u16)
    }
}

/// Memory after the `n` bytes at `src` have been copied, one by one and
/// upwards, to `dst`.
pub open spec fn copied(mem: MemView, src: int, dst: int, n: int) -> MemView
    decreases n,
{
    if n <= 0 {
        mem
    } else {
        let before = copied(mem, src, dst, n - 1);
        before.write8((dst + n - 1) as usize, before.read8((src + n - 1) as usize))
    }
}

impl DmaView {
    /// The controller at power-on.
    pub open spec fn reset() -> DmaView {
        DmaView {
            channels: Seq::new(4, |i: int| DmaChannel::idle()),
            command: 0,
            status: 0,
            mask: 0,
            selected: 0,
            high_byte: false,
        }
    }

    /// The controller after a byte at a channel port: even ports address a
    /// channel's base, odd ports its count, low byte and high byte in turn.
    #[verifier::opaque]
    pub open spec fn write_channel(self, port: u8, val: u8) -> DmaView {
        let ch = ((port >> 1) & 3) as int;
        let c = self.channels[ch];
        let next = if port & 1 == 1 {
            DmaChannel { count: half_written(c.count, self.high_byte, val), ..c }
        } else {
            DmaChannel { base: half_written(c.base, self.high_byte, val), ..c }
        };
        DmaView {
            channels: self.channels.update(ch, next),
            high_byte: !self.high_byte,
            ..self
        }
    }

    /// The channel a page-register port belongs to.
    pub open spec fn page_channel(port: u8) -> Option<int> {
        if port == 0x87 {
            Some(0int)
        } else if port == 0x83 {
            Some(1int)
        } else if port == 0x81 {
            Some(2int)
        } else if port == 0x82 {
            Some(3int)
        } else {
            None
        }
    }

    /// The controller after a page-register write.
    #[verifier::opaque]
    pub open spec fn write_page(self, port: u8, val: u8) -> DmaView {
        match Self::page_channel(port) {
            Some(ch) => DmaView {
                channels: self.channels.update(ch, DmaChannel { page: val, ..self.channels[ch] }),
                ..self
            },
            None => self,
        }
    }

    /// The controller after a command or mask write.
    #[verifier::opaque]
    pub open spec fn write_command(self, port: u8, val: u8) -> DmaView {
        if port == 0x08 {
            DmaView { command: val, ..self }
        } else if port == 0x0A {
            let ch = (val & 3) as int;
            DmaView {
                channels: self.channels.update(
                    ch,
                    DmaChannel { enabled: val & 4 == 0, ..self.channels[ch] },
                ),
                mask: val,
                ..self
            }
        } else {
            self
        }
    }

    /// The controller after a transfer on an enabled channel.
    pub open spec fn transferred(self, ch: usize) -> DmaView {
        let c = self.channels[ch as int];
        DmaView {
            status: self.status | (1u8 << ch),
            channels: if c.auto_init {
                self.channels
            } else {
                self.channels.update(ch as int, DmaChannel { enabled: false, ..c })
            },
            ..self
        }
    }
}

/// A page register above a 16-bit base is their sum.
proof fn lemma_page_base(page: u8, base: u16)
    by (bit_vector)
    ensures
        ((page as usize) << 16usize) | (base as usize) == page * 0x1_0000 + base,
{
}

impl Dma {
    pub fn new() -> (d: Self)
        ensures
            d@ == DmaView::reset(),
    {
        let c = DmaChannel::default();
        Dma {
            channels: [c, c, c, c],
            command: 0,
            status: 0,
            mask: 0,
            selected: 0,
            high_byte: false,
        }
    }

    /// Compute the physical address for a channel.
    pub fn address(&self, ch: usize) -> (a: usize)
        ensures
            a == self@.channels[(ch & 3) as int].address(),
    {
        proof {
            crate::bits::lemma_masks();
        }
        let c = self.channels[ch & 3];
        proof {
            lemma_page_base(c.page, c.base);
        }
        ((c.page as usize) << 16) | (c.base as usize)
    }

    /// Write to a channel address/count port (0x00-0x07).
    pub fn write_channel(&mut self, port: u8, val: u8)
        ensures
            final(self)@ == old(self)@.write_channel(port, val),
    {
        proof {
            reveal(DmaView::write_channel);
            crate::bits::lemma_masks();
        }
        let ch: usize = ((port >> 1) & 3) as usize;
        let is_count = port & 1 == 1;
        let mut c = self.channels[ch];
        if self.high_byte {
            if is_count {
                c.count = (c.count & 0x00FF) | ((val as u16) << 8);
            } else {
                c.base = (c.base & 0x00FF) | ((val as u16) << 8);
            }
            self.high_byte = false;
        } else {
            if is_count {
                c.count = (c.count & 0xFF00) | (val as u16);
            } else {
                c.base = (c.base & 0xFF00) | (val as u16);
            }
            self.high_byte = true;
        }
        self.channels[ch] = c;
    }

    /// Write to a page register (0x81-0x8F).
    pub fn write_page(&mut self, port: u8, val: u8)
        ensures
            final(self)@ == old(self)@.write_page(port, val),
    {
        proof {
            reveal(DmaView::write_page);
        }
        let ch: usize = match port {
            0x87 => 0,
            0x83 => 1,
            0x81 => 2,
            0x82 => 3,
            _ => {
                return;
            },
        };
        let mut c = self.channels[ch];
        c.page = val;
        self.channels[ch] = c;
    }

    /// Write to a command/mask register.
    pub fn write_command(&mut self, port: u8, val: u8)
        ensures
            final(self)@ == old(self)@.write_command(port, val),
    {
        proof {
            reveal(DmaView::write_command);
            crate::bits::lemma_masks();
        }
        match port {
            0x08 => {
                self.command = val;
            },
            0x0A => {
                // Single mask register: bits 1-0 = channel, bit 2 = mask.
                let ch: usize = (val & 3) as usize;
                let mut c = self.channels[ch];
                c.enabled = val & 4 == 0;
                self.channels[ch] = c;
                self.mask = val;
            },
            _ => {},
        }
    }

    /// Read the status register.
    pub fn read_status(&self) -> (v: u8)
        ensures
            v == self@.status,
    {
        self.status
    }

    /// Perform a memory-to-memory transfer on a channel: the block at the
    /// channel's address is copied to the addresses right behind it. Returns
    /// the number of bytes moved, none when the channel is masked.
    pub fn transfer(&mut self, mem: &mut Memory, ch: usize) -> (n: usize)
        ensures
            ({
                let c = old(self)@.channels[(ch & 3) as int];
                if c.enabled {
                    &&& n == c.length()
                    &&& final(mem)@ == copied(
                        old(mem)@,
                        c.address(),
                        c.address() + c.length(),
                        c.length(),
                    )
                    &&& final(self)@ == old(self)@.transferred(ch & 3)
                } else {
                    &&& n == 0
                    &&& final(mem)@ == old(mem)@
                    &&& final(self)@ == old(self)@
                }
            }),
    {
        proof {
            crate::bits::lemma_masks();
        }
        let ch: usize = ch & 3;
        proof {
            lemma_masked_twice(ch);
        }
        let mut c = self.channels[ch];
        if !c.enabled {
            return 0;
        }
        let src: usize = self.address(ch);
        // DMA transfers happen in 16-bit words; count is words - 1.
        let words: usize = (c.count as usize) + 1;
        let n: usize = words * 2;
        let dst: usize = src + n;
        let mut i: usize = 0;
        while i < n
            invariant
                i <= n,
                src + n == dst,
                src <= 0xFF_FFFF,
                n <= 0x2_0000,
                mem@ == copied(old(mem)@, src as int, dst as int, i as int),
            decreases n - i,
        {
            let b: u8 = mem.read_u8(src + i);
            mem.write_u8(dst + i, b);
            i = i + 1;
        }
        self.status = self.status | (1u8 << ch);
        if !c.auto_init {
            c.enabled = false;
            self.channels[ch] = c;
        }
        n
    }
}

proof fn lemma_masked_twice(ch: usize)
    ensures
        ch < 4 ==> ch & 3 == ch,
{
    crate::bits::lemma_masks();
}

impl Default for Dma {
    fn default() -> (d: Self)
        ensures
            d@ == DmaView::reset(),
    {
        Self::new()
    }
}

} // verus!
