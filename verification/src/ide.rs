//! IDE/ATA disk controller.
//!
//! A minimal ATA (PIO mode) controller on the primary channel. The CPU talks
//! to it through 16-bit registers at I/O ports 0x1F0-0x1F7 (data + command
//! block) and 0x3F6 (device control). It supports the classic "read sectors"
//! (0x20) and "write sectors" (0x30) commands in LBA28 addressing.
//!
//! I/O ports:
//!   0x1F0 - data register (16-bit)
//!   0x1F1 - error register
//!   0x1F2 - sector count
//!   0x1F3 - LBA low
//!   0x1F4 - LBA mid
//!   0x1F5 - LBA high
//!   0x1F6 - drive/head register (LBA bits 24-27 + drive select)
//!   0x1F7 - status (read) / command (write)
//!   0x3F6 - device control / alternate status

use vstd::prelude::*;

verus! {

/// Sector size in bytes (standard ATA).
pub const SECTOR_SIZE: usize = 512;

/// The IDE/ATA disk controller.
pub struct Ide {
    /// The disk image (a sequence of 512-byte sectors).
    pub disk: Vec<u8>,
    /// True when a disk image is loaded.
    pub present: bool,
    // Command block registers.
    pub error: u8,
    pub sector_count: u8,
    pub lba_low: u8,
    pub lba_mid: u8,
    pub lba_high: u8,
    pub drive_head: u8,
    pub status: u8,
    /// Data buffer for the current PIO transfer.
    pub data_buffer: Vec<u8>,
    pub data_index: usize,
    /// Pending command (0x20 read, 0x30 write).
    pub pending_command: u8,
    /// True while a transfer is in progress.
    pub busy: bool,
}

/// What an [`Ide`] holds, as mathematics.
#[verifier::ext_equal]
pub struct IdeView {
    pub disk: Seq<u8>,
    pub present: bool,
    pub error: u8,
    pub sector_count: u8,
    pub lba_low: u8,
    pub lba_mid: u8,
    pub lba_high: u8,
    pub drive_head: u8,
    pub status: u8,
    pub data: Seq<u8>,
    pub index: usize,
    pub pending_command: u8,
    pub busy: bool,
}

impl Ide {
    /// The value this stands for.
    pub open spec fn view(&self) -> IdeView {
        IdeView {
            disk: self.disk@,
            present: self.present,
            error: self.error,
            sector_count: self.sector_count,
            lba_low: self.lba_low,
            lba_mid: self.lba_mid,
            lba_high: self.lba_high,
            drive_head: self.drive_head,
            status: self.status,
            data: self.data_buffer@,
            index: self.data_index,
            pending_command: self.pending_command,
            busy: self.busy,
        }
    }
}

/// `disk` with the bytes from `start` on replaced by `data`.
pub open spec fn overwritten(disk: Seq<u8>, start: int, data: Seq<u8>) -> Seq<u8> {
    Seq::new(
        disk.len(),
        |i: int| if start <= i < start + data.len() { data[i - start] } else { disk[i] },
    )
}

impl IdeView {
    /// The controller at power-on, with no disk.
    pub open spec fn reset() -> IdeView {
        IdeView {
            disk: Seq::empty(),
            present: false,
            error: 0,
            sector_count: 0,
            lba_low: 0,
            lba_mid: 0,
            lba_high: 0,
            drive_head: 0,
            status: 0x40,
            data: Seq::empty(),
            index: 0,
            pending_command: 0,
            busy: false,
        }
    }

    /// The 28-bit sector address in the command block.
    pub open spec fn lba(self) -> int {
        self.lba_low + self.lba_mid * 0x100 + self.lba_high * 0x1_0000 + (self.drive_head % 16)
            * 0x100_0000
    }

    /// The byte of the disk the command block addresses.
    pub open spec fn start(self) -> int {
        self.lba() * SECTOR_SIZE
    }

    /// The bytes the sector count asks for; a count of zero asks for one.
    pub open spec fn span(self) -> int {
        (if self.sector_count == 0 { 1 } else { self.sector_count as int }) * SECTOR_SIZE
    }

    /// The controller after a command-block write.
    pub open spec fn write_reg(self, port: u16, val: u8) -> IdeView {
        if port == 0x1F1 {
            IdeView { error: val, ..self }
        } else if port == 0x1F2 {
            IdeView { sector_count: val, ..self }
        } else if port == 0x1F3 {
            IdeView { lba_low: val, ..self }
        } else if port == 0x1F4 {
            IdeView { lba_mid: val, ..self }
        } else if port == 0x1F5 {
            IdeView { lba_high: val, ..self }
        } else if port == 0x1F6 {
            IdeView { drive_head: val, ..self }
        } else {
            self
        }
    }

    /// The controller after a command: a read fills the buffer from the disk
    /// or reports the sectors missing, a write readies a zeroed buffer, and
    /// anything else is an error.
    #[verifier::opaque]
    pub open spec fn write_command(self, cmd: u8) -> IdeView {
        let c = IdeView { pending_command: cmd, index: 0, busy: false, status: 0x40, ..self };
        if cmd == 0x20 || cmd == 0x21 {
            if self.present && self.start() + self.span() <= self.disk.len() {
                IdeView {
                    data: self.disk.subrange(self.start(), self.start() + self.span()),
                    error: 0,
                    ..c
                }
            } else {
                IdeView { data: Seq::empty(), error: 0x04, ..c }
            }
        } else if cmd == 0x30 || cmd == 0x31 {
            IdeView { data: Seq::new(self.span() as nat, |i: int| 0u8), error: 0, ..c }
        } else {
            IdeView { error: 0x04, ..c }
        }
    }

    /// Bytes left in the transfer buffer.
    pub open spec fn left(self) -> int {
        self.data.len() - self.index
    }

    /// The word a data-register read returns.
    pub open spec fn data_value(self) -> u16 {
        if self.left() >= 2 {
            (self.data[self.index as int] as u16) | ((self.data[self.index + 1] as u16) << 8)
        } else if self.left() == 1 {
            self.data[self.index as int] as u16
        } else {
            0
        }
    }

    /// The index after a data-register access.
    pub open spec fn next_index(self) -> usize {
        if self.left() >= 2 {
            (self.index + 2) as usize
        } else if self.left() == 1 {
            (self.index + 1) as usize
        } else {
            self.index
        }
    }

    /// The controller after a data-register read.
    pub open spec fn read_data(self) -> IdeView {
        IdeView { index: self.next_index(), ..self }
    }

    /// The controller after a data-register write.
    #[verifier::opaque]
    pub open spec fn write_data(self, val: u16) -> IdeView {
        let i = self.index as int;
        IdeView {
            data: if self.left() >= 2 {
                self.data.update(i, (val & 0xFF) as u8).update(i + 1, (val >> 8) as u8)
            } else if self.left() == 1 {
                self.data.update(i, (val & 0xFF) as u8)
            } else {
                self.data
            },
            index: self.next_index(),
            ..self
        }
    }

    /// The controller after a pending write has been flushed to the disk. A
    /// write that does not fit on the disk changes none of it.
    #[verifier::opaque]
    pub open spec fn flush_write(self) -> IdeView {
        if self.pending_command == 0x30 || self.pending_command == 0x31 {
            IdeView {
                disk: if self.present && self.start() + self.data.len() <= self.disk.len() {
                    overwritten(self.disk, self.start(), self.data)
                } else {
                    self.disk
                },
                pending_command: 0,
                ..self
            }
        } else {
            self
        }
    }
}

proof fn lemma_lba(lo: u8, mid: u8, hi: u8, head: u8)
    by (bit_vector)
    ensures
        (lo as u32) | ((mid as u32) << 8u32) | ((hi as u32) << 16u32) | (((head & 0x0Fu8) as u32)
            << 24u32) == lo + mid * 0x100 + hi * 0x1_0000 + (head % 16) * 0x100_0000,
{
}

impl Ide {
    pub fn new() -> (d: Self)
        ensures
            d@ == IdeView::reset(),
    {
        Ide {
            disk: Vec::new(),
            present: false,
            error: 0,
            sector_count: 0,
            lba_low: 0,
            lba_mid: 0,
            lba_high: 0,
            drive_head: 0,
            status: 0x40,  // DRDY (drive ready)
            data_buffer: Vec::new(),
            data_index: 0,
            pending_command: 0,
            busy: false,
        }
    }

    /// Load a disk image.
    pub fn load_disk(&mut self, image: Vec<u8>)
        ensures
            final(self)@ == (IdeView { disk: image@, present: true, status: 0x40, ..old(self)@ }),
    {
        self.disk = image;
        self.present = true;
        self.status = 0x40;
    }

    /// Compute the 28-bit LBA from the command block registers.
    pub fn lba(&self) -> (a: u32)
        ensures
            a == self@.lba(),
    {
        proof {
            lemma_lba(self.lba_low, self.lba_mid, self.lba_high, self.drive_head);
        }
        (self.lba_low as u32) | ((self.lba_mid as u32) << 8) | ((self.lba_high as u32) << 16) | (((
        self.drive_head & 0x0F) as u32) << 24)
    }

    /// Write to a command block register (ports 0x1F1-0x1F6).
    pub fn write_reg(&mut self, port: u16, val: u8)
        ensures
            final(self)@ == old(self)@.write_reg(port, val),
    {
        match port {
            0x1F1 => {
                self.error = val;
            },
            0x1F2 => {
                self.sector_count = val;
            },
            0x1F3 => {
                self.lba_low = val;
            },
            0x1F4 => {
                self.lba_mid = val;
            },
            0x1F5 => {
                self.lba_high = val;
            },
            0x1F6 => {
                self.drive_head = val;
            },
            _ => {},
        }
    }

    /// Write to the command register (port 0x1F7). Starts a transfer.
    pub fn write_command(&mut self, cmd: u8)
        ensures
            final(self)@ == old(self)@.write_command(cmd),
    {
        proof {
            reveal(IdeView::write_command);
        }
        self.pending_command = cmd;
        let lba: u32 = self.lba();
        let count: usize = if self.sector_count == 0 {
            1
        } else {
            self.sector_count as usize
        };
        let span: usize = count * SECTOR_SIZE;
        let start: u64 = (lba as u64) * 512;
        match cmd {
            0x20 | 0x21 => {
                // Read sectors.
                if self.present && start + span as u64 <= self.disk.len() as u64 {
                    let from: usize = start as usize;
                    self.data_buffer = copy_range(&self.disk, from, from + span);
                    self.error = 0;
                } else {
                    self.data_buffer = Vec::new();
                    self.error = 0x04;  // sector not found
                }
            },
            0x30 | 0x31 => {
                // Write sectors: the buffer is sized to receive the data.
                self.data_buffer = vec![0u8; span];
                self.error = 0;
            },
            _ => {
                self.error = 0x04;
            },
        }
        self.data_index = 0;
        self.busy = false;
        self.status = 0x40;  // DRDY, transfer ready
    }

    /// Read a 16-bit word from the data register (port 0x1F0).
    pub fn read_data(&mut self) -> (v: u16)
        ensures
            v == old(self)@.data_value(),
            final(self)@ == old(self)@.read_data(),
    {
        let i: usize = self.data_index;
        if i < self.data_buffer.len() {
            let lo: u16 = self.data_buffer[i] as u16;
            if self.data_buffer.len() - i >= 2 {
                let hi: u16 = self.data_buffer[i + 1] as u16;
                self.data_index = i + 2;
                lo | (hi << 8)
            } else {
                self.data_index = i + 1;
                lo
            }
        } else {
            0
        }
    }

    /// Write a 16-bit word to the data register (port 0x1F0).
    pub fn write_data(&mut self, val: u16)
        ensures
            final(self)@ == old(self)@.write_data(val),
    {
        proof {
            reveal(IdeView::write_data);
        }
        let i: usize = self.data_index;
        if i < self.data_buffer.len() {
            if self.data_buffer.len() - i >= 2 {
                self.data_buffer[i] = (val & 0xFF) as u8;
                self.data_buffer[i + 1] = (val >> 8) as u8;
                self.data_index = i + 2;
            } else {
                self.data_buffer[i] = (val & 0xFF) as u8;
                self.data_index = i + 1;
            }
        }
    }

    /// Read the status register (port 0x1F7).
    pub fn read_status(&self) -> (v: u8)
        ensures
            v == self@.status,
    {
        self.status
    }

    /// Finalize a pending write command: flush the buffered data to the disk.
    pub fn flush_write(&mut self)
        ensures
            final(self)@ == old(self)@.flush_write(),
    {
        proof {
            reveal(IdeView::flush_write);
        }
        if self.pending_command == 0x30 || self.pending_command == 0x31 {
            let lba: u32 = self.lba();
            let start: u64 = (lba as u64) * 512;
            let n: usize = self.data_buffer.len();
            if self.present && n <= self.disk.len() && start <= (self.disk.len() - n) as u64 {
                let from: usize = start as usize;
                let mut i: usize = 0;
                while i < n
                    invariant
                        i <= n,
                        n == self.data_buffer@.len(),
                        from + n <= old(self)@.disk.len() <= usize::MAX,
                        self@.disk.len() == old(self)@.disk.len(),
                        self@ == (IdeView { disk: self@.disk, ..old(self)@ }),
                        self@.disk =~= overwritten(
                            old(self)@.disk,
                            from as int,
                            self@.data.take(i as int),
                        ),
                    decreases n - i,
                {
                    let b: u8 = self.data_buffer[i];
                    self.disk[from + i] = b;
                    i = i + 1;
                }
                assert(self@.data.take(n as int) =~= self@.data);
            }
            self.pending_command = 0;
        }
    }
}

/// The bytes `from..to` of a vector.
fn copy_range(v: &Vec<u8>, from: usize, to: usize) -> (r: Vec<u8>)
    requires
        from <= to <= v@.len(),
    ensures
        r@ == v@.subrange(from as int, to as int),
{
    let mut r: Vec<u8> = Vec::with_capacity(to - from);
    let mut i: usize = from;
    while i < to
        invariant
            from <= i <= to <= v@.len(),
            r@ =~= v@.subrange(from as int, i as int),
        decreases to - i,
    {
        r.push(v[i]);
        i = i + 1;
    }
    r
}

impl Default for Ide {
    fn default() -> (d: Self)
        ensures
            d@ == IdeView::reset(),
    {
        Self::new()
    }
}

} // verus!
