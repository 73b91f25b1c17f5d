//! PCI bus: configuration space through the 0xCF8/0xCFC port pair.
//!
//! This is configuration mechanism #1: write an *address* to 0xCF8 naming
//! bus/device/function/register, then read or write the value at 0xCFC. The
//! address register's top bit enables the cycle; without it the ports are
//! inert.
//!
//! Three details are what make an enumeration terminate rather than wander:
//!
//! 1. **An absent device reads back all ones.**
//! 2. **BARs report their size by writing all ones**, reading back a mask
//!    whose low clear bits give the region's size.
//! 3. **The low bits of a BAR are type, not address.** Bit 0 says I/O rather
//!    than memory, and it is read-only.
//!
//! Only what a guest needs to find the devices this machine has is here: one
//! bus, no bridges, no capabilities list, no MSI.

use vstd::prelude::*;

verus! {

/// A single function's 256-byte configuration space, plus the sizes of its
/// base address regions.
#[derive(Clone)]
pub struct Function {
    /// The configuration space as the guest sees it.
    pub config: [u8; 256],
    /// Size of each base address region, indexed by BAR number. Zero means
    /// the BAR is unimplemented and reads back as zero.
    pub bar_size: [u32; 6],
}

/// What a [`Function`] holds, as mathematics.
#[verifier::ext_equal]
pub struct FunctionView {
    pub config: Seq<u8>,
    pub bar_size: Seq<u32>,
}

impl Function {
    /// The value this stands for.
    pub open spec fn view(&self) -> FunctionView {
        FunctionView { config: self.config@, bar_size: self.bar_size@ }
    }
}

impl FunctionView {
    /// An empty configuration space.
    pub open spec fn blank() -> FunctionView {
        FunctionView {
            config: Seq::new(256, |i: int| 0u8),
            bar_size: Seq::new(6, |i: int| 0u32),
        }
    }

    pub open spec fn put8(self, off: int, val: u8) -> FunctionView {
        FunctionView { config: self.config.update(off, val), ..self }
    }

    pub open spec fn put16(self, off: int, val: u16) -> FunctionView {
        self.put8(off, val as u8).put8(off + 1, (val >> 8) as u8)
    }

    pub open spec fn put32(self, off: int, val: u32) -> FunctionView {
        self.put8(off, val as u8).put8(off + 1, (val >> 8) as u8).put8(
            off + 2,
            (val >> 16) as u8,
        ).put8(off + 3, (val >> 24) as u8)
    }

    pub open spec fn read32(self, off: int) -> u32 {
        crate::memory::le32(
            self.config[off],
            self.config[off + 1],
            self.config[off + 2],
            self.config[off + 3],
        )
    }

    /// The base address of an I/O BAR, with the type bits masked off.
    pub open spec fn io_base(self, bar: int) -> u16 {
        (self.read32(0x10 + bar * 4) & !3u32) as u16
    }

    /// The configuration byte at an offset, all ones past the end.
    pub open spec fn byte(self, off: int) -> u8 {
        if 0 <= off < 256 { self.config[off] } else { 0xFF }
    }

    /// What a write of `value` leaves in BAR `bar`: the address with the bits
    /// below the region's size clear, and the type bit unchanged. All ones ask
    /// for the size.
    pub open spec fn bar_stored(self, bar: int, value: u32) -> u32 {
        let type_bits = if self.config[0x10 + bar * 4] & 1 != 0 { 1u32 } else { 0u32 };
        let mask = !((self.bar_size[bar] - 1) as u32);
        if value == 0xFFFF_FFFF { mask | type_bits } else { (value & mask) | type_bits }
    }

    /// The function after a configuration write of `size` bytes at register
    /// `reg`, byte lane `lane`.
    pub open spec fn written(self, reg: int, lane: int, size: int, value: u32) -> FunctionView {
        if 0x10 <= reg < 0x28 && size == 4 && lane == 0 {
            let bar = (reg - 0x10) / 4;
            if self.bar_size[bar] == 0 {
                self
            } else {
                self.put32(reg, self.bar_stored(bar, value))
            }
        } else {
            FunctionView {
                config: Seq::new(
                    256,
                    |o: int|
                        if reg + lane <= o < reg + lane + size && !read_only(o) {
                            ((value >> ((o - reg - lane) * 8) as u32) & 0xFF) as u8
                        } else {
                            self.config[o]
                        },
                ),
                ..self
            }
        }
    }
}

/// Registers a guest may not change: the identity of the device and the
/// fields describing its class and header layout.
pub open spec fn read_only(off: int) -> bool {
    0x00 <= off <= 0x03 || 0x08 <= off <= 0x0B || off == 0x0E || 0x2C <= off <= 0x2F || off == 0x3D
}

/// The PCI bus: the address latch and the devices on it.
pub struct Pci {
    /// The value last written to 0xCF8.
    pub address: u32,
    /// Slot -> function 0. One bus, function 0 only: enough for a machine
    /// whose devices are all single-function, and an absent slot is `None`
    /// so it can read back as all ones.
    pub slots: Vec<Option<Function>>,
}

/// Where the virtio block device's I/O region is put before the guest moves
/// it.
pub const VIRTIO_BLK_IO_BASE: u16 = 0xC000;

/// The slot the virtio block device sits in.
pub const VIRTIO_BLK_SLOT: usize = 1;

/// The interrupt line the virtio device drives.
pub const VIRTIO_IRQ: u8 = 11;

/// Slots on the bus.
pub const SLOTS: usize = 32;

/// The host bridge: an Intel 440FX at 00:00.0.
pub open spec fn host_bridge() -> FunctionView {
    FunctionView::blank().put16(0x00, 0x8086).put16(0x02, 0x1237).put16(0x04, 0x0006).put16(
        0x06,
        0x0200,
    ).put8(0x08, 0x02).put8(0x0A, 0x00).put8(0x0B, 0x06).put8(0x0E, 0x00)
}

/// A transitional virtio block device with 64 bytes of I/O space at BAR 0.
pub open spec fn virtio_block() -> FunctionView {
    let f = FunctionView::blank().put16(0x00, 0x1AF4).put16(0x02, 0x1001).put16(
        0x04,
        0x0001,
    ).put16(0x06, 0x0000).put8(0x08, 0x00).put8(0x09, 0x00).put8(0x0A, 0x00).put8(0x0B, 0x01).put8(
        0x0E,
        0x00,
    ).put16(0x2C, 0x1AF4).put16(0x2E, 0x0002).put8(0x3C, VIRTIO_IRQ).put8(0x3D, 0x01).put32(
        0x10,
        (VIRTIO_BLK_IO_BASE as u32) | 1,
    );
    FunctionView { bar_size: f.bar_size.update(0, 64), ..f }
}

/// What a [`Pci`] holds, as mathematics.
#[verifier::ext_equal]
pub struct PciView {
    pub address: u32,
    pub slots: Seq<Option<FunctionView>>,
}

/// A slot's contents, as mathematics.
pub open spec fn slot_view(s: Option<Function>) -> Option<FunctionView> {
    match s {
        Some(f) => Some(f@),
        None => None,
    }
}

impl Pci {
    /// The value this stands for.
    pub open spec fn view(&self) -> PciView {
        PciView {
            address: self.address,
            slots: Seq::new(self.slots@.len(), |i: int| slot_view(self.slots@[i])),
        }
    }
}

impl PciView {
    /// The bus at power-on: the host bridge, the block device, and 30 empty
    /// slots.
    pub open spec fn reset() -> PciView {
        PciView {
            address: 0,
            slots: Seq::new(
                SLOTS as nat,
                |i: int|
                    if i == 0 {
                        Some(host_bridge())
                    } else if i == VIRTIO_BLK_SLOT {
                        Some(virtio_block())
                    } else {
                        None
                    },
            ),
        }
    }

    /// Does the latch name bus 0, function 0, with the enable bit set?
    pub open spec fn enabled(self) -> bool {
        self.address & 0x8000_0000 != 0 && (self.address >> 16) & 0xFF == 0 && (self.address >> 8)
            & 0x07 == 0
    }

    /// The slot the latch names.
    pub open spec fn slot(self) -> int {
        ((self.address >> 11) & 0x1F) as int
    }

    /// The register the latch names.
    pub open spec fn register(self) -> int {
        (self.address & 0xFC) as int
    }

    /// The function the latch reaches, if any.
    pub open spec fn selected(self) -> Option<FunctionView> {
        if self.enabled() && self.slot() < self.slots.len() {
            self.slots[self.slot()]
        } else {
            None
        }
    }

    /// What the data port reads: the bytes of the selected function from the
    /// lane on, or all ones where no function answers.
    pub open spec fn data_value(self, lane: int, size: int) -> u32 {
        match self.selected() {
            Some(f) => {
                let off = self.register() + lane;
                crate::memory::le32(
                    if size > 0 { f.byte(off) } else { 0 },
                    if size > 1 { f.byte(off + 1) } else { 0 },
                    if size > 2 { f.byte(off + 2) } else { 0 },
                    if size > 3 { f.byte(off + 3) } else { 0 },
                )
            },
            None => 0xFFFF_FFFF,
        }
    }

    /// The bus after a data-port write.
    pub open spec fn write_data(self, lane: int, size: int, value: u32) -> PciView {
        match self.selected() {
            Some(f) => PciView {
                slots: self.slots.update(
                    self.slot(),
                    Some(f.written(self.register(), lane, size, value)),
                ),
                ..self
            },
            None => self,
        }
    }

    /// The block device's I/O base while it decodes I/O and has one.
    pub open spec fn virtio_io_base(self) -> Option<u16> {
        if VIRTIO_BLK_SLOT < self.slots.len() {
            match self.slots[VIRTIO_BLK_SLOT as int] {
                Some(f) => if f.config[0x04] & 1 == 0 || f.io_base(0) == 0 {
                    None
                } else {
                    Some(f.io_base(0))
                },
                None => None,
            }
        } else {
            None
        }
    }
}

proof fn lemma_register(address: u32)
    by (bit_vector)
    ensures
        address & 0xFC <= 0xFC,
        (address & 0xFC) % 4 == 0,
{
}

impl Function {
    pub fn new() -> (f: Self)
        ensures
            f@ == FunctionView::blank(),
    {
        Function { config: [0; 256], bar_size: [0; 6] }
    }

    fn put8(&mut self, off: usize, val: u8)
        requires
            off < 256,
        ensures
            final(self)@ == old(self)@.put8(off as int, val),
    {
        self.config[off] = val;
    }

    fn put16(&mut self, off: usize, val: u16)
        requires
            off + 2 <= 256,
        ensures
            final(self)@ == old(self)@.put16(off as int, val),
    {
        self.put8(off, val as u8);
        self.put8(off + 1, (val >> 8) as u8);
    }

    fn put32(&mut self, off: usize, val: u32)
        requires
            off + 4 <= 256,
        ensures
            final(self)@ == old(self)@.put32(off as int, val),
    {
        self.put8(off, val as u8);
        self.put8(off + 1, (val >> 8) as u8);
        self.put8(off + 2, (val >> 16) as u8);
        self.put8(off + 3, (val >> 24) as u8);
    }

    /// Read a 32-bit register.
    pub fn read32(&self, off: usize) -> (v: u32)
        requires
            off + 4 <= 256,
        ensures
            v == self@.read32(off as int),
    {
        (self.config[off] as u32) | ((self.config[off + 1] as u32) << 8) | ((self.config[off
            + 2] as u32) << 16) | ((self.config[off + 3] as u32) << 24)
    }

    /// The current base address of an I/O BAR, with the type bits masked off.
    pub fn io_base(&self, bar: usize) -> (v: u16)
        requires
            0x10 + bar * 4 + 4 <= 256,
        ensures
            v == self@.io_base(bar as int),
    {
        (self.read32(0x10 + bar * 4) & !3u32) as u16
    }

    /// The byte at an offset, all ones past the end.
    fn byte(&self, off: usize) -> (b: u8)
        ensures
            b == self@.byte(off as int),
    {
        if off < 256 {
            self.config[off]
        } else {
            0xFF
        }
    }

    /// Write to the configuration space.
    fn write(&mut self, reg: usize, lane: usize, size: usize, value: u32)
        requires
            reg <= 0xFC,
            reg % 4 == 0,
            size <= 4,
            lane <= usize::MAX - 0x100,
        ensures
            final(self)@ == old(self)@.written(reg as int, lane as int, size as int, value),
    {
        // Base address registers are not plain storage: a write of all ones
        // is a *size query*, and the type bits in the low end are read-only.
        if reg >= 0x10 && reg < 0x28 && size == 4 && lane == 0 {
            let bar: usize = (reg - 0x10) / 4;
            let size_bytes: u32 = self.bar_size[bar];
            if size_bytes == 0 {
                return;  // unimplemented BAR: stays zero
            }
            let is_io = self.config[0x10 + bar * 4] & 1 != 0;
            let type_bits: u32 = if is_io {
                1
            } else {
                0
            };
            let mask: u32 = !(size_bytes - 1);
            let stored: u32 = if value == 0xFFFF_FFFF {
                mask | type_bits
            } else {
                (value & mask) | type_bits
            };
            self.put32(reg, stored);
            return;
        }
        // Everything else is byte-writable except the identity registers,
        // which a guest must not be able to rename.

        let mut i: usize = 0;
        while i < size
            invariant
                i <= size <= 4,
                reg <= 0xFC,
                lane <= usize::MAX - 0x100,
                self@.bar_size == old(self)@.bar_size,
                forall|o: int|
                    0 <= o < 256 ==> #[trigger] self.config@[o] == (if reg + lane <= o < reg + lane
                        + i && !read_only(o) {
                        ((value >> ((o - reg - lane) * 8) as u32) & 0xFF) as u8
                    } else {
                        old(self).config@[o]
                    }),
            decreases size - i,
        {
            let off: usize = reg + lane + i;
            if off < 256 && !Pci::read_only(off) {
                let shift: u32 = (i * 8) as u32;
                self.config[off] = ((value >> shift) & 0xFF) as u8;
            }
            i = i + 1;
        }
        assert(self@.config =~= old(self)@.written(
            reg as int,
            lane as int,
            size as int,
            value,
        ).config);
    }
}

impl Pci {
    pub fn new() -> (p: Self)
        ensures
            p@ == PciView::reset(),
    {
        // 00:00.0 -- the host bridge. A bus with no device 0 is not a bus
        // that gets scanned; the bridge is read before anything else.
        let mut bridge = Function::new();
        bridge.put16(0x00, 0x8086);  // Intel
        bridge.put16(0x02, 0x1237);  // 440FX
        bridge.put16(0x04, 0x0006);  // command: memory + bus master
        bridge.put16(0x06, 0x0200);  // status: devsel
        bridge.put8(0x08, 0x02);  // revision
        bridge.put8(0x0A, 0x00);  // subclass: host bridge
        bridge.put8(0x0B, 0x06);  // class: bridge
        bridge.put8(0x0E, 0x00);  // header type 0, single function
        // 00:01.0 -- a transitional virtio block device.
        let mut blk = Function::new();
        blk.put16(0x00, 0x1AF4);  // virtio vendor
        blk.put16(0x02, 0x1001);  // legacy block device
        blk.put16(0x04, 0x0001);  // command: I/O space enabled
        blk.put16(0x06, 0x0000);
        blk.put8(0x08, 0x00);  // revision 0 marks it legacy, not 1.0
        blk.put8(0x09, 0x00);  // programming interface
        blk.put8(0x0A, 0x00);  // subclass
        blk.put8(0x0B, 0x01);  // class: mass storage
        blk.put8(0x0E, 0x00);  // header type 0
        blk.put16(0x2C, 0x1AF4);  // subsystem vendor
        blk.put16(0x2E, 0x0002);  // subsystem device: block
        blk.put8(0x3C, VIRTIO_IRQ);  // interrupt line
        blk.put8(0x3D, 0x01);  // interrupt pin A
        // BAR0: 64 bytes of I/O space. Bit 0 set marks it I/O.
        blk.put32(0x10, (VIRTIO_BLK_IO_BASE as u32) | 1);
        blk.bar_size[0] = 64;
        assert(bridge@ == host_bridge());
        assert(blk@ == virtio_block());
        let mut slots: Vec<Option<Function>> = Vec::new();
        slots.push(Some(bridge));
        slots.push(Some(blk));
        let ghost first = slots@;
        while slots.len() < SLOTS
            invariant
                2 <= slots@.len() <= SLOTS,
                slots@[0] == first[0],
                slots@[1] == first[1],
                forall|i: int| 2 <= i < slots@.len() ==> slots@[i] is None,
            decreases SLOTS - slots@.len(),
        {
            slots.push(None);
        }
        let p = Pci { address: 0, slots };
        assert(p@.slots =~= PciView::reset().slots);
        p
    }

    /// Decode the address latch into (slot, register offset), or `None` when
    /// the enable bit is clear or the cycle names a bus or function this
    /// machine does not have.
    pub fn target(&self) -> (t: Option<(usize, usize)>)
        ensures
            match t {
                Some((slot, reg)) => self@.enabled() && slot == self@.slot() && reg
                    == self@.register(),
                None => !self@.enabled(),
            },
    {
        if self.address & 0x8000_0000 == 0 {
            return None;
        }
        let bus: u32 = (self.address >> 16) & 0xFF;
        let slot: usize = ((self.address >> 11) & 0x1F) as usize;
        let func: u32 = (self.address >> 8) & 0x07;
        if bus != 0 || func != 0 {
            return None;
        }
        Some((slot, (self.address & 0xFC) as usize))
    }

    /// Read from the data port. `size` is 1, 2 or 4 bytes and `lane` is the
    /// byte offset within the aligned register, taken from the low bits of
    /// the port address rather than from the latch.
    pub fn read_data(&self, lane: usize, size: usize) -> (v: u32)
        requires
            size <= 4,
            lane <= usize::MAX - 0x100,
        ensures
            v == self@.data_value(lane as int, size as int),
    {
        proof {
            lemma_register(self.address);
        }
        let (slot, reg): (usize, usize) = match self.target() {
            Some(t) => t,
            None => {
                return 0xFFFF_FFFF;
            },
        };
        if slot >= self.slots.len() {
            return 0xFFFF_FFFF;
        }
        match &self.slots[slot] {
            Some(func) => {
                let off: usize = reg + lane;
                let b0: u32 = if size > 0 {
                    func.byte(off) as u32
                } else {
                    0
                };
                let b1: u32 = if size > 1 {
                    func.byte(off + 1) as u32
                } else {
                    0
                };
                let b2: u32 = if size > 2 {
                    func.byte(off + 2) as u32
                } else {
                    0
                };
                let b3: u32 = if size > 3 {
                    func.byte(off + 3) as u32
                } else {
                    0
                };
                b0 | (b1 << 8) | (b2 << 16) | (b3 << 24)
            },
            // An empty slot reads as all ones. This is what ends a scan.
            None => 0xFFFF_FFFF,
        }
    }

    /// Write to the data port.
    pub fn write_data(&mut self, lane: usize, size: usize, value: u32)
        requires
            size <= 4,
            lane <= usize::MAX - 0x100,
        ensures
            final(self)@ == old(self)@.write_data(lane as int, size as int, value),
    {
        proof {
            lemma_register(self.address);
        }
        let (slot, reg): (usize, usize) = match self.target() {
            Some(t) => t,
            None => {
                return;
            },
        };
        if slot >= self.slots.len() {
            return;
        }
        match &mut self.slots[slot] {
            Some(func) => {
                func.write(reg, lane, size, value);
            },
            None => {},
        }
        assert(self@.slots =~= old(self)@.write_data(lane as int, size as int, value).slots);
    }

    /// Registers a guest may not change: the identity of the device and the
    /// fields describing its class and header layout.
    fn read_only(off: usize) -> (b: bool)
        ensures
            b == read_only(off as int),
    {
        off <= 0x03 || (off >= 0x08 && off <= 0x0B) || off == 0x0E || (off >= 0x2C && off <= 0x2F)
            || off == 0x3D
    }

    /// The virtio block device's current I/O base, or `None` when the guest
    /// has not enabled I/O decoding for it.
    pub fn virtio_io_base(&self) -> (r: Option<u16>)
        ensures
            r == self@.virtio_io_base(),
    {
        if VIRTIO_BLK_SLOT >= self.slots.len() {
            return None;
        }
        match &self.slots[VIRTIO_BLK_SLOT] {
            Some(func) => {
                if func.config[0x04] & 0x01 == 0 {
                    return None;  // I/O space decoding disabled
                }
                let base: u16 = func.io_base(0);
                if base == 0 {
                    None
                } else {
                    Some(base)
                }
            },
            None => None,
        }
    }
}

impl Default for Pci {
    fn default() -> (p: Self)
        ensures
            p@ == PciView::reset(),
    {
        Self::new()
    }
}

} // verus!
