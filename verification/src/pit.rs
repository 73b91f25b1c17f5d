//! 8254 Programmable Interval Timer (PIT).
//!
//! Three 16-bit countdown channels. Channel 0 is wired to the PIC's IRQ0
//! (the system timer). The timer is ticked once per emulated instruction.
//!
//! I/O ports:
//!   0x40 - channel 0 data
//!   0x41 - channel 1 data
//!   0x42 - channel 2 data
//!   0x43 - control word
//!   0x61 - system control port B: channel 2's gate and output line
//!
//! Control word (port 0x43):
//!   bits 7-6: channel select (0=ch0, 1=ch1, 2=ch2, 3=read-back)
//!   bits 5-4: access mode (0=latch, 1=LSB, 2=MSB, 3=word)
//!   bits 3-1: operating mode
//!   bit 0:    BCD (1 = BCD counting)

use vstd::prelude::*;

verus! {

/// The 8254 PIT.
pub struct Pit {
    // Channel 0 (system timer -> IRQ0)
    pub ch0_count: u16,
    pub ch0_reload: u16,
    pub ch0_mode: u8,
    pub ch0_bcd: bool,
    pub ch0_access: u8,
    pub ch0_lsb_pending: bool,
    pub ch0_lsb: u8,
    // Channel 1 (kept minimal; not wired to an IRQ)
    pub ch1_count: u16,
    pub ch1_reload: u16,
    pub ch1_mode: u8,
    pub ch1_access: u8,
    pub ch1_lsb_pending: bool,
    pub ch1_lsb: u8,
    // Channel 2 (speaker; kept minimal)
    pub ch2_count: u16,
    pub ch2_reload: u16,
    pub ch2_mode: u8,
    pub ch2_access: u8,
    pub ch2_lsb_pending: bool,
    pub ch2_lsb: u8,
    /// IRQ0 output, asserted when channel 0 wraps. The PIC latches the edge.
    pub irq0: bool,
    // State set by the most recent control word.
    pub active_channel: u8,
    pub active_access: u8,
    pub active_mode: u8,
    pub active_bcd: bool,
    /// Channel 2's output line: set when it wraps, cleared by a new count.
    pub ch2_out: bool,
    /// The writable low bits of port 0x61: channel 2's gate and the speaker.
    pub gate: u8,
    /// The DRAM refresh bit of port 0x61, flipped by every read.
    pub refresh: bool,
}

/// What a data write can change of one channel.
pub struct Loading {
    pub count: u16,
    pub reload: u16,
    pub lsb_pending: bool,
    pub lsb: u8,
}

impl Loading {
    /// A channel after a data byte in the given access mode: the low byte
    /// alone, the high byte alone, or a word in two halves, low byte first.
    pub open spec fn written(self, access: u8, val: u8) -> Loading {
        if access == 1 {
            let n = (self.reload & 0xFF00) | (val as u16);
            Loading { reload: n, count: n, ..self }
        } else if access == 2 {
            let n = (self.reload & 0x00FF) | ((val as u16) << 8);
            Loading { reload: n, count: n, ..self }
        } else if self.lsb_pending {
            let n = (self.lsb as u16) | ((val as u16) << 8);
            Loading { reload: n, count: n, lsb_pending: false, ..self }
        } else {
            Loading { lsb: val, lsb_pending: true, ..self }
        }
    }

    /// Did that write load a whole count?
    pub open spec fn loads(self, access: u8) -> bool {
        access == 1 || access == 2 || self.lsb_pending
    }
}

/// A free-running channel after `cycles` ticks: it stops at zero and reloads.
pub open spec fn ticked(count: u16, reload: u16, cycles: u64) -> u16 {
    let step = cycles as u16;
    if count == 0 {
        0
    } else if count <= step {
        reload
    } else {
        (count - step) as u16
    }
}

impl Pit {
    /// The timer at power-on.
    pub open spec fn reset() -> Pit {
        Pit {
            ch0_count: 0,
            ch0_reload: 0,
            ch0_mode: 3,
            ch0_bcd: false,
            ch0_access: 3,
            ch0_lsb_pending: false,
            ch0_lsb: 0,
            ch1_count: 0,
            ch1_reload: 0,
            ch1_mode: 3,
            ch1_access: 3,
            ch1_lsb_pending: false,
            ch1_lsb: 0,
            ch2_count: 0,
            ch2_reload: 0,
            ch2_mode: 3,
            ch2_access: 3,
            ch2_lsb_pending: false,
            ch2_lsb: 0,
            irq0: false,
            active_channel: 0,
            active_access: 3,
            active_mode: 3,
            active_bcd: false,
            ch2_out: false,
            gate: 0,
            refresh: false,
        }
    }

    /// The timer after a control word. A read-back command changes nothing.
    #[verifier::opaque]
    pub open spec fn after_control(self, val: u8) -> Pit {
        let channel = (val >> 6) & 3;
        let access = (val >> 4) & 3;
        let mode = (val >> 1) & 7;
        let bcd = val & 1 == 1;
        let chosen = Pit {
            active_channel: channel,
            active_access: access,
            active_mode: mode,
            active_bcd: bcd,
            ..self
        };
        if channel == 3 {
            self
        } else if channel == 0 {
            Pit { ch0_mode: mode, ch0_access: access, ch0_bcd: bcd, ..chosen }
        } else if channel == 1 {
            Pit { ch1_mode: mode, ch1_access: access, ..chosen }
        } else {
            Pit { ch2_mode: mode, ch2_access: access, ..chosen }
        }
    }

    /// The loading state of a channel.
    pub open spec fn loading(self, channel: u8) -> Loading {
        if channel == 0 {
            Loading {
                count: self.ch0_count,
                reload: self.ch0_reload,
                lsb_pending: self.ch0_lsb_pending,
                lsb: self.ch0_lsb,
            }
        } else if channel == 1 {
            Loading {
                count: self.ch1_count,
                reload: self.ch1_reload,
                lsb_pending: self.ch1_lsb_pending,
                lsb: self.ch1_lsb,
            }
        } else {
            Loading {
                count: self.ch2_count,
                reload: self.ch2_reload,
                lsb_pending: self.ch2_lsb_pending,
                lsb: self.ch2_lsb,
            }
        }
    }

    /// The access mode of a channel.
    pub open spec fn access(self, channel: u8) -> u8 {
        if channel == 0 {
            self.ch0_access
        } else if channel == 1 {
            self.ch1_access
        } else {
            self.ch2_access
        }
    }

    /// The timer with a channel's loading state replaced.
    pub open spec fn with_loading(self, channel: u8, l: Loading) -> Pit {
        if channel == 0 {
            Pit {
                ch0_count: l.count,
                ch0_reload: l.reload,
                ch0_lsb_pending: l.lsb_pending,
                ch0_lsb: l.lsb,
                ..self
            }
        } else if channel == 1 {
            Pit {
                ch1_count: l.count,
                ch1_reload: l.reload,
                ch1_lsb_pending: l.lsb_pending,
                ch1_lsb: l.lsb,
                ..self
            }
        } else {
            Pit {
                ch2_count: l.count,
                ch2_reload: l.reload,
                ch2_lsb_pending: l.lsb_pending,
                ch2_lsb: l.lsb,
                ..self
            }
        }
    }

    /// The timer after a data byte for the active channel. A whole new count
    /// in channel 2 takes its output line low.
    #[verifier::opaque]
    pub open spec fn after_data(self, val: u8) -> Pit {
        let ch = self.active_channel;
        let old_load = self.loading(ch);
        let next = self.with_loading(ch, old_load.written(self.access(ch), val));
        if ch != 0 && ch != 1 && old_load.loads(self.access(ch)) {
            Pit { ch2_out: false, ..next }
        } else {
            next
        }
    }

    /// The byte a read of a channel returns: one half of the count, or the two
    /// halves in turn, low byte first.
    pub open spec fn data_value(self, port: u8) -> u8 {
        let l = self.loading(port);
        if self.access(port) == 1 {
            (l.count & 0xFF) as u8
        } else if self.access(port) == 2 || l.lsb_pending {
            (l.count >> 8) as u8
        } else {
            (l.count & 0xFF) as u8
        }
    }

    /// The timer after that read.
    pub open spec fn after_read(self, port: u8) -> Pit {
        let l = self.loading(port);
        if self.access(port) == 1 || self.access(port) == 2 {
            self
        } else if l.lsb_pending {
            self.with_loading(port, Loading { lsb_pending: false, ..l })
        } else {
            self.with_loading(
                port,
                Loading { lsb_pending: true, lsb: (l.count & 0xFF) as u8, ..l },
            )
        }
    }

    /// The timer `cycles` ticks later. Channel 0 asserts IRQ0 and reloads
    /// when it runs out; the other two reload silently.
    #[verifier::opaque]
    pub open spec fn after_tick(self, cycles: u64) -> Pit {
        let out0 = 0 < self.ch0_count && self.ch0_count <= cycles;
        Pit {
            ch0_count: if self.ch0_count == 0 {
                0
            } else if out0 {
                self.ch0_reload
            } else {
                (self.ch0_count - cycles) as u16
            },
            irq0: self.irq0 || out0,
            ch1_count: ticked(self.ch1_count, self.ch1_reload, cycles),
            ch2_count: ticked(self.ch2_count, self.ch2_reload, cycles),
            ch2_out: self.ch2_out || (0 < self.ch2_count && self.ch2_count <= cycles as u16),
            ..self
        }
    }

    /// What port 0x61 reads: the writable bits, the refresh bit, and channel
    /// 2's output line.
    pub open spec fn port61_value(self) -> u8 {
        (self.gate & 0x0F) | (if self.refresh { 0u8 } else { 0x10u8 }) | (if self.ch2_out {
            0x20u8
        } else {
            0u8
        })
    }

    pub fn new() -> (p: Self)
        ensures
            p == Pit::reset(),
    {
        Pit {
            ch0_count: 0,
            ch0_reload: 0,
            ch0_mode: 3,
            ch0_bcd: false,
            ch0_access: 3,
            ch0_lsb_pending: false,
            ch0_lsb: 0,
            ch1_count: 0,
            ch1_reload: 0,
            ch1_mode: 3,
            ch1_access: 3,
            ch1_lsb_pending: false,
            ch1_lsb: 0,
            ch2_count: 0,
            ch2_reload: 0,
            ch2_mode: 3,
            ch2_access: 3,
            ch2_lsb_pending: false,
            ch2_lsb: 0,
            irq0: false,
            active_channel: 0,
            active_access: 3,
            active_mode: 3,
            active_bcd: false,
            ch2_out: false,
            gate: 0,
            refresh: false,
        }
    }

    /// Write a control word (port 0x43).
    pub fn write_control(&mut self, val: u8)
        ensures
            *final(self) == old(self).after_control(val),
    {
        proof {
            reveal(Pit::after_control);
        }
        let channel: u8 = (val >> 6) & 3;
        let access: u8 = (val >> 4) & 3;
        let mode: u8 = (val >> 1) & 7;
        let bcd = val & 1 == 1;
        if channel == 3 {
            // Read-back command: treated as no-op.
            return;
        }
        self.active_channel = channel;
        self.active_access = access;
        self.active_mode = mode;
        self.active_bcd = bcd;
        match channel {
            0 => {
                self.ch0_mode = mode;
                self.ch0_access = access;
                self.ch0_bcd = bcd;
            },
            1 => {
                self.ch1_mode = mode;
                self.ch1_access = access;
            },
            _ => {
                self.ch2_mode = mode;
                self.ch2_access = access;
            },
        }
    }

    /// Write a data byte to the active channel (ports 0x40-0x42).
    pub fn write_data(&mut self, val: u8)
        ensures
            *final(self) == old(self).after_data(val),
    {
        proof {
            reveal(Pit::after_data);
        }
        match self.active_channel {
            0 => self.write_ch0(val),
            1 => self.write_ch1(val),
            _ => self.write_ch2(val),
        }
    }

    fn write_ch0(&mut self, val: u8)
        ensures
            *final(self) == old(self).with_loading(
                0,
                old(self).loading(0).written(old(self).ch0_access, val),
            ),
    {
        match self.ch0_access {
            1 => {
                self.ch0_reload = (self.ch0_reload & 0xFF00) | (val as u16);
                self.ch0_count = self.ch0_reload;
            },
            2 => {
                self.ch0_reload = (self.ch0_reload & 0x00FF) | ((val as u16) << 8);
                self.ch0_count = self.ch0_reload;
            },
            _ => {
                if self.ch0_lsb_pending {
                    self.ch0_reload = (self.ch0_lsb as u16) | ((val as u16) << 8);
                    self.ch0_count = self.ch0_reload;
                    self.ch0_lsb_pending = false;
                } else {
                    self.ch0_lsb = val;
                    self.ch0_lsb_pending = true;
                }
            },
        }
    }

    fn write_ch1(&mut self, val: u8)
        ensures
            *final(self) == old(self).with_loading(
                1,
                old(self).loading(1).written(old(self).ch1_access, val),
            ),
    {
        match self.ch1_access {
            1 => {
                self.ch1_reload = (self.ch1_reload & 0xFF00) | (val as u16);
                self.ch1_count = self.ch1_reload;
            },
            2 => {
                self.ch1_reload = (self.ch1_reload & 0x00FF) | ((val as u16) << 8);
                self.ch1_count = self.ch1_reload;
            },
            _ => {
                if self.ch1_lsb_pending {
                    self.ch1_reload = (self.ch1_lsb as u16) | ((val as u16) << 8);
                    self.ch1_count = self.ch1_reload;
                    self.ch1_lsb_pending = false;
                } else {
                    self.ch1_lsb = val;
                    self.ch1_lsb_pending = true;
                }
            },
        }
    }

    fn write_ch2(&mut self, val: u8)
        ensures
            *final(self) == (Pit {
                ch2_out: old(self).ch2_out && !old(self).loading(2).loads(old(self).ch2_access),
                ..old(self).with_loading(
                    2,
                    old(self).loading(2).written(old(self).ch2_access, val),
                )
            }),
    {
        match self.ch2_access {
            1 => {
                self.ch2_reload = (self.ch2_reload & 0xFF00) | (val as u16);
                self.ch2_count = self.ch2_reload;
                self.ch2_out = false;
            },
            2 => {
                self.ch2_reload = (self.ch2_reload & 0x00FF) | ((val as u16) << 8);
                self.ch2_count = self.ch2_reload;
                self.ch2_out = false;
            },
            _ => {
                if self.ch2_lsb_pending {
                    self.ch2_reload = (self.ch2_lsb as u16) | ((val as u16) << 8);
                    self.ch2_count = self.ch2_reload;
                    self.ch2_lsb_pending = false;
                    self.ch2_out = false;
                } else {
                    self.ch2_lsb = val;
                    self.ch2_lsb_pending = true;
                }
            },
        }
    }

    /// Read a data byte from a channel (ports 0x40-0x42). Returns the
    /// current count's LSB or MSB depending on the access mode.
    pub fn read_data(&mut self, port: u8) -> (v: u8)
        ensures
            v == old(self).data_value(port),
            *final(self) == old(self).after_read(port),
    {
        let (access, count, pending): (u8, u16, bool) = match port {
            0 => (self.ch0_access, self.ch0_count, self.ch0_lsb_pending),
            1 => (self.ch1_access, self.ch1_count, self.ch1_lsb_pending),
            _ => (self.ch2_access, self.ch2_count, self.ch2_lsb_pending),
        };
        match access {
            1 => (count & 0xFF) as u8,
            2 => (count >> 8) as u8,
            _ => {
                // Word access: return LSB then MSB on successive reads.
                if !pending {
                    let lo: u8 = (count & 0xFF) as u8;
                    match port {
                        0 => {
                            self.ch0_lsb = lo;
                            self.ch0_lsb_pending = true;
                        },
                        1 => {
                            self.ch1_lsb = lo;
                            self.ch1_lsb_pending = true;
                        },
                        _ => {
                            self.ch2_lsb = lo;
                            self.ch2_lsb_pending = true;
                        },
                    }
                    lo
                } else {
                    match port {
                        0 => {
                            self.ch0_lsb_pending = false;
                        },
                        1 => {
                            self.ch1_lsb_pending = false;
                        },
                        _ => {
                            self.ch2_lsb_pending = false;
                        },
                    }
                    (count >> 8) as u8
                }
            },
        }
    }

    /// Advance the timer by `cycles` (one per emulated instruction). Channel
    /// 0 drives IRQ0.
    pub fn tick(&mut self, cycles: u64)
        ensures
            *final(self) == old(self).after_tick(cycles),
    {
        proof {
            reveal(Pit::after_tick);
        }
        if self.ch0_count > 0 {
            let c: u64 = self.ch0_count as u64;
            if c <= cycles {
                // Wrap: reload and assert IRQ0.
                self.ch0_count = self.ch0_reload;
                self.irq0 = true;
            } else {
                self.ch0_count = (c - cycles) as u16;
            }
        }
        // Channels 1 and 2 also count down (no IRQ wiring).
        self.ch1_count = tick_channel(self.ch1_count, self.ch1_reload, cycles);
        self.ch2_out = self.ch2_out || (self.ch2_count > 0 && self.ch2_count <= cycles as u16);
        self.ch2_count = tick_channel(self.ch2_count, self.ch2_reload, cycles);
    }

    /// Read system control port B (port 0x61), flipping the refresh bit.
    pub fn read_port61(&mut self) -> (v: u8)
        ensures
            v == old(self).port61_value(),
            *final(self) == (Pit { refresh: !old(self).refresh, ..*old(self) }),
    {
        let mut v: u8 = self.gate & 0x0F;
        self.refresh = !self.refresh;
        v = v | (if self.refresh { 0x10u8 } else { 0u8 });
        v | (if self.ch2_out { 0x20u8 } else { 0u8 })
    }

    /// Write system control port B (port 0x61): channel 2's gate and the
    /// speaker are the only bits a write can change.
    pub fn write_port61(&mut self, val: u8)
        ensures
            *final(self) == (Pit { gate: val & 0x0F, ..*old(self) }),
    {
        self.gate = val & 0x0F;
    }
}

/// Count a free-running channel down.
fn tick_channel(count: u16, reload: u16, cycles: u64) -> (r: u16)
    ensures
        r == ticked(count, reload, cycles),
{
    let step: u16 = cycles as u16;
    if count == 0 {
        0
    } else if count <= step {
        reload
    } else {
        count - step
    }
}

impl Default for Pit {
    fn default() -> (p: Self)
        ensures
            p == Pit::reset(),
    {
        Self::new()
    }
}

} // verus!
