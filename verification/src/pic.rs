//! 8259 Programmable Interrupt Controller (PIC).
//!
//! Two cascaded PICs (master at 0x20/0x21, slave at 0xA0/0xA1) provide 15
//! hardware interrupt lines (IRQ0-IRQ15). Each PIC maps its 8 IRQs onto a
//! configurable base vector in the CPU's IDT/IVT.
//!
//! I/O ports:
//!   master: 0x20 (command), 0x21 (data)
//!   slave:  0xA0 (command), 0xA1 (data)
//!
//! The master's IRQ2 is the cascade input from the slave.

use vstd::prelude::*;

verus! {

/// The 8259 PIC pair.
pub struct Pic {
    /// Base vector for IRQ0-7.
    pub master_base: u8,
    /// Master interrupt mask register.
    pub master_imr: u8,
    /// Master interrupt request register (latched).
    pub master_irr: u8,
    /// Master in-service register.
    pub master_isr: u8,
    pub master_auto_eoi: bool,
    /// Base vector for IRQ8-15.
    pub slave_base: u8,
    pub slave_imr: u8,
    pub slave_irr: u8,
    pub slave_isr: u8,
    pub slave_auto_eoi: bool,
    /// Which master IRQ the slave feeds (default 2).
    pub cascade_irq: u8,
    /// ICW2 has been written (initialization complete).
    pub initialized: bool,
    /// ICW1 has been written and ICW2 is awaited.
    pub icw2_pending: bool,
    pub icw2_for_slave: bool,
    /// OCW3 selected the ISR (rather than the IRR) for command-port reads.
    pub master_read_isr: bool,
    pub slave_read_isr: bool,
}

/// The bit of an eight-line register that stands for line `i`.
pub open spec fn line(i: u8) -> u8 {
    1u8 << (i & 7)
}

/// Is line `i` set in the register `v`?
pub open spec fn has_line(v: u8, i: u8) -> bool {
    v & line(i) != 0
}

/// The lowest set line of `v` at or above `i`, 0 when there is none.
pub open spec fn lowest_from(v: u8, i: u8) -> u8
    decreases 8 - i,
{
    if i >= 8 {
        0
    } else if has_line(v, i) {
        i
    } else {
        lowest_from(v, (i + 1) as u8)
    }
}

/// The in-service register `isr` after an end-of-interrupt command: 001 and
/// 101 end the highest-priority interrupt in service, 011 and 111 end the one
/// the low three bits name, and every other command ends nothing.
pub open spec fn after_eoi(isr: u8, val: u8) -> u8 {
    let command = val >> 5;
    if command == 1 || command == 5 {
        if isr != 0 { isr & !line(lowest_from(isr, 0)) } else { isr }
    } else if command == 3 || command == 7 {
        isr & !line(val & 7)
    } else {
        isr
    }
}

impl Pic {
    /// The controller at power-on.
    pub open spec fn reset() -> Pic {
        Pic {
            master_base: 0x08,
            master_imr: 0,
            master_irr: 0,
            master_isr: 0,
            master_auto_eoi: false,
            slave_base: 0x70,
            slave_imr: 0,
            slave_irr: 0,
            slave_isr: 0,
            slave_auto_eoi: false,
            cascade_irq: 2,
            initialized: false,
            icw2_pending: false,
            icw2_for_slave: false,
            master_read_isr: false,
            slave_read_isr: false,
        }
    }

    /// The controller after a command byte: ICW1 starts initialisation, OCW2
    /// ends an interrupt, OCW3 chooses what the command port reads.
    #[verifier::opaque]
    pub open spec fn after_command(self, port: u8, val: u8) -> Pic {
        let slave = port == 0xA0;
        if val & 0x10 != 0 {
            let begun = Pic { icw2_pending: true, icw2_for_slave: slave, ..self };
            if slave {
                Pic { slave_irr: 0, slave_isr: 0, ..begun }
            } else {
                Pic { master_irr: 0, master_isr: 0, ..begun }
            }
        } else if val & 0x18 == 0 {
            if slave {
                let isr = after_eoi(self.slave_isr, val);
                // A slave with nothing left in service lets go of the
                // master's cascade line.
                Pic {
                    slave_isr: isr,
                    master_isr: if isr == 0 {
                        self.master_isr & !line(self.cascade_irq)
                    } else {
                        self.master_isr
                    },
                    ..self
                }
            } else {
                Pic { master_isr: after_eoi(self.master_isr, val), ..self }
            }
        } else if val & 0x18 == 0x08 && (val & 3 == 3 || val & 3 == 2) {
            if slave {
                Pic { slave_read_isr: val & 3 == 3, ..self }
            } else {
                Pic { master_read_isr: val & 3 == 3, ..self }
            }
        } else {
            self
        }
    }

    /// The controller after a data byte: the base vector ICW2 sets while one
    /// is awaited, the interrupt mask otherwise.
    #[verifier::opaque]
    pub open spec fn after_data(self, port: u8, val: u8) -> Pic {
        let slave = port == 0xA1;
        if self.icw2_pending {
            let done = Pic { icw2_pending: false, initialized: true, ..self };
            if slave {
                Pic { slave_base: val & 0xF8, ..done }
            } else {
                Pic { master_base: val & 0xF8, ..done }
            }
        } else if slave {
            Pic { slave_imr: val, ..self }
        } else {
            Pic { master_imr: val, ..self }
        }
    }

    /// What the command port reads.
    pub open spec fn command_value(self, port: u8) -> u8 {
        if port == 0xA0 {
            if self.slave_read_isr { self.slave_isr } else { self.slave_irr }
        } else if self.master_read_isr {
            self.master_isr
        } else {
            self.master_irr
        }
    }

    /// What the data port reads.
    pub open spec fn data_value(self, port: u8) -> u8 {
        if port == 0xA1 { self.slave_imr } else { self.master_imr }
    }

    /// The controller with line `irq` requested.
    #[verifier::opaque]
    pub open spec fn after_raise(self, irq: u8) -> Pic {
        if irq < 8 {
            Pic { master_irr: self.master_irr | line(irq), ..self }
        } else {
            Pic { slave_irr: self.slave_irr | line((irq - 8) as u8), ..self }
        }
    }

    /// The controller with line `irq` no longer requested.
    #[verifier::opaque]
    pub open spec fn after_clear(self, irq: u8) -> Pic {
        if irq < 8 {
            Pic { master_irr: self.master_irr & !line(irq), ..self }
        } else {
            Pic { slave_irr: self.slave_irr & !line((irq - 8) as u8), ..self }
        }
    }

    /// Can slave line `j` be delivered as far as the slave is concerned?
    pub open spec fn slave_ready(self, j: u8) -> bool {
        has_line(self.slave_irr & !self.slave_imr, j)
    }

    /// The slave's priority walk from line `j` down: `None` when no line is
    /// in service or ready, `Some(None)` when one in service blocks the rest,
    /// `Some(Some(irq))` when `irq` is next.
    pub open spec fn slave_walk(self, j: u8) -> Option<Option<u8>>
        decreases 8 - j,
    {
        if j >= 8 {
            None
        } else if has_line(self.slave_isr, j) {
            Some(None)
        } else if self.slave_ready(j) {
            Some(Some((8 + j) as u8))
        } else {
            self.slave_walk((j + 1) as u8)
        }
    }

    /// The master's priority walk from line `i` down, with the slave's lines
    /// sitting at the cascade input.
    pub open spec fn master_walk(self, i: u8) -> Option<u8>
        decreases 8 - i,
    {
        if i >= 8 {
            None
        } else if line(i) == line(self.cascade_irq) {
            let slave = if self.master_imr & line(self.cascade_irq) == 0 {
                self.slave_walk(0)
            } else {
                None
            };
            match slave {
                Some(outcome) => outcome,
                None => if has_line(self.master_isr, i) {
                    None
                } else {
                    self.master_walk((i + 1) as u8)
                },
            }
        } else if has_line(self.master_isr, i) {
            None
        } else if has_line(self.master_irr & !self.master_imr, i) {
            Some(i)
        } else {
            self.master_walk((i + 1) as u8)
        }
    }

    /// The IRQ that would be delivered next.
    #[verifier::opaque]
    pub open spec fn next(self) -> Option<u8> {
        self.master_walk(0)
    }

    /// The controller once `irq` has moved from requested to in service.
    #[verifier::opaque]
    pub open spec fn after_accept(self, irq: u8) -> Pic {
        if irq >= 8 {
            Pic {
                slave_irr: self.slave_irr & !line((irq - 8) as u8),
                slave_isr: self.slave_isr | line((irq - 8) as u8),
                master_isr: self.master_isr | line(self.cascade_irq),
                ..self
            }
        } else {
            Pic {
                master_irr: self.master_irr & !line(irq),
                master_isr: self.master_isr | line(irq),
                ..self
            }
        }
    }

    /// The vector `irq` is delivered on.
    pub open spec fn vector_of(self, irq: u8) -> u8 {
        if irq >= 8 {
            self.slave_base.wrapping_add((irq - 8) as u8)
        } else {
            self.master_base.wrapping_add(irq)
        }
    }

    pub fn new() -> (p: Self)
        ensures
            p == Pic::reset(),
    {
        Pic {
            master_base: 0x08,
            master_imr: 0,
            master_irr: 0,
            master_isr: 0,
            master_auto_eoi: false,
            slave_base: 0x70,
            slave_imr: 0,
            slave_irr: 0,
            slave_isr: 0,
            slave_auto_eoi: false,
            cascade_irq: 2,
            initialized: false,
            icw2_pending: false,
            icw2_for_slave: false,
            master_read_isr: false,
            slave_read_isr: false,
        }
    }

    /// Write a command byte to a PIC (port 0x20 or 0xA0).
    pub fn write_command(&mut self, port: u8, val: u8)
        ensures
            *final(self) == old(self).after_command(port, val),
    {
        proof {
            reveal(Pic::after_command);
        }
        let slave = port == 0xA0;
        if val & 0x10 != 0 {
            // ICW1: initialization command word 1; ICW2 comes next.
            self.icw2_pending = true;
            self.icw2_for_slave = slave;
            if slave {
                self.slave_irr = 0;
                self.slave_isr = 0;
            } else {
                self.master_irr = 0;
                self.master_isr = 0;
            }
            return;
        }
        // Bits 4:3 tell OCW2 (00) from OCW3 (01).
        if val & 0x18 == 0 {
            if slave {
                self.slave_isr = eoi(self.slave_isr, val);
                if self.slave_isr == 0 {
                    self.master_isr = self.master_isr & !line_bit(self.cascade_irq);
                }
            } else {
                self.master_isr = eoi(self.master_isr, val);
            }
        } else if val & 0x18 == 0x08 {
            // OCW3: bits 1:0 = 10 read IRR, 11 read ISR on command-port reads.
            if val & 3 == 3 || val & 3 == 2 {
                let read_isr = val & 3 == 3;
                if slave {
                    self.slave_read_isr = read_isr;
                } else {
                    self.master_read_isr = read_isr;
                }
            }
        }
    }

    /// Write a data byte (ICW2 base vector or OCW1 mask) to a PIC
    /// (port 0x21 or 0xA1).
    pub fn write_data(&mut self, port: u8, val: u8)
        ensures
            *final(self) == old(self).after_data(port, val),
    {
        proof {
            reveal(Pic::after_data);
        }
        let slave = port == 0xA1;
        if self.icw2_pending {
            if slave {
                self.slave_base = val & 0xF8;
            } else {
                self.master_base = val & 0xF8;
            }
            self.icw2_pending = false;
            self.initialized = true;
            return;
        }
        if slave {
            self.slave_imr = val;
        } else {
            self.master_imr = val;
        }
    }

    /// Read a command byte (IRR, or ISR after an OCW3 asked for it) from a
    /// PIC (port 0x20 or 0xA0).
    pub fn read_command(&self, port: u8) -> (v: u8)
        ensures
            v == self.command_value(port),
    {
        if port == 0xA0 {
            if self.slave_read_isr {
                self.slave_isr
            } else {
                self.slave_irr
            }
        } else if self.master_read_isr {
            self.master_isr
        } else {
            self.master_irr
        }
    }

    /// Read the interrupt mask register (port 0x21 or 0xA1).
    pub fn read_data(&self, port: u8) -> (v: u8)
        ensures
            v == self.data_value(port),
    {
        if port == 0xA1 {
            self.slave_imr
        } else {
            self.master_imr
        }
    }

    /// Raise an IRQ line (0-15). Latches the request.
    pub fn raise_irq(&mut self, irq: u8)
        ensures
            *final(self) == old(self).after_raise(irq),
    {
        proof {
            reveal(Pic::after_raise);
        }
        if irq < 8 {
            self.master_irr = self.master_irr | line_bit(irq);
        } else {
            self.slave_irr = self.slave_irr | line_bit(irq - 8);
        }
    }

    /// Clear a pending IRQ line (used after servicing).
    pub fn clear_irq(&mut self, irq: u8)
        ensures
            *final(self) == old(self).after_clear(irq),
    {
        proof {
            reveal(Pic::after_clear);
        }
        if irq < 8 {
            self.master_irr = self.master_irr & !line_bit(irq);
        } else {
            self.slave_irr = self.slave_irr & !line_bit(irq - 8);
        }
    }

    /// The slave's own priority walk.
    fn slave_next(&self) -> (r: Option<Option<u8>>)
        ensures
            r == self.slave_walk(0),
    {
        let pending: u8 = self.slave_irr & !self.slave_imr;
        let mut j: u8 = 0;
        while j < 8
            invariant
                j <= 8,
                pending == self.slave_irr & !self.slave_imr,
                self.slave_walk(0) == self.slave_walk(j),
            decreases 8 - j,
        {
            let bit: u8 = line_bit(j);
            if self.slave_isr & bit != 0 {
                return Some(None);
            }
            if pending & bit != 0 {
                return Some(Some(8 + j));
            }
            j = j + 1;
        }
        None
    }

    /// The IRQ (0-15) the PIC pair would deliver next: the highest-priority
    /// pending unmasked request that is not blocked by an in-service bit of
    /// equal or higher priority (fixed priority, IRQ0 highest, with the
    /// slave's eight lines sitting at the master's cascade input). This is
    /// what keeps a handler from being re-entered by its own interrupt
    /// before it EOIs, and it is the whole of the "in a handler" state.
    pub fn next_irq(&self) -> (r: Option<u8>)
        ensures
            r == self.next(),
    {
        proof {
            reveal(Pic::next);
        }
        let pending: u8 = self.master_irr & !self.master_imr;
        let cascade: u8 = line_bit(self.cascade_irq);
        let mut i: u8 = 0;
        while i < 8
            invariant
                i <= 8,
                pending == self.master_irr & !self.master_imr,
                cascade == line(self.cascade_irq),
                self.next() == self.master_walk(i),
            decreases 8 - i,
        {
            let bit: u8 = line_bit(i);
            if bit == cascade {
                // The slave's requests are visible only when the cascade line
                // is not masked.
                if self.master_imr & cascade == 0 {
                    if let Some(outcome) = self.slave_next() {
                        return outcome;
                    }
                }
                if self.master_isr & bit != 0 {
                    return None;
                }
            } else {
                if self.master_isr & bit != 0 {
                    return None;
                }
                if pending & bit != 0 {
                    return Some(i);
                }
            }
            i = i + 1;
        }
        None
    }

    /// Acknowledge an interrupt: return the vector of the IRQ `next_irq`
    /// names, moving it from requested to in-service. `None` when nothing
    /// can be delivered.
    pub fn acknowledge(&mut self) -> (r: Option<u8>)
        ensures
            match old(self).next() {
                Some(irq) => r == Some(old(self).vector_of(irq)) && *final(self) == old(
                    self,
                ).after_accept(irq),
                None => r is None && *final(self) == *old(self),
            },
    {
        let irq: u8 = match self.next_irq() {
            Some(irq) => irq,
            None => {
                return None;
            },
        };
        proof {
            reveal(Pic::after_accept);
        }
        if irq >= 8 {
            let bit: u8 = irq - 8;
            self.slave_irr = self.slave_irr & !line_bit(bit);
            self.slave_isr = self.slave_isr | line_bit(bit);
            self.master_isr = self.master_isr | line_bit(self.cascade_irq);
            Some(self.slave_base.wrapping_add(bit))
        } else {
            self.master_irr = self.master_irr & !line_bit(irq);
            self.master_isr = self.master_isr | line_bit(irq);
            Some(self.master_base.wrapping_add(irq))
        }
    }

    /// True when an interrupt is waiting and could be delivered now.
    pub fn has_pending(&self) -> (b: bool)
        ensures
            b == (self.next() is Some),
    {
        self.next_irq().is_some()
    }

    /// True while any interrupt is being serviced.
    pub fn in_service(&self) -> (b: bool)
        ensures
            b == (self.master_isr != 0 || self.slave_isr != 0),
    {
        self.master_isr != 0 || self.slave_isr != 0
    }
}

/// The register bit of a line.
fn line_bit(i: u8) -> (b: u8)
    ensures
        b == line(i),
{
    proof {
        crate::bits::lemma_masks();
    }
    1u8 << (i & 7)
}

/// End an interrupt in an in-service register.
fn eoi(isr: u8, val: u8) -> (r: u8)
    ensures
        r == after_eoi(isr, val),
{
    match val >> 5 {
        1 | 5 => {
            if isr != 0 {
                isr & !line_bit(lowest_bit(isr))
            } else {
                isr
            }
        },
        3 | 7 => isr & !line_bit(val & 7),
        _ => isr,
    }
}

/// Index of the lowest set bit in a byte.
pub fn lowest_bit(v: u8) -> (r: u8)
    ensures
        r == lowest_from(v, 0),
{
    let mut i: u8 = 0;
    while i < 8
        invariant
            i <= 8,
            lowest_from(v, 0) == lowest_from(v, i),
        decreases 8 - i,
    {
        if v & line_bit(i) != 0 {
            return i;
        }
        i = i + 1;
    }
    0
}

impl Default for Pic {
    fn default() -> (p: Self)
        ensures
            p == Pic::reset(),
    {
        Self::new()
    }
}

} // verus!
