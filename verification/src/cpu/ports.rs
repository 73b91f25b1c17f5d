//! Port I/O: which device answers which port.

use crate::cpu::Cpu;
use crate::cmos::CmosView;
use crate::pit::Pit;
use crate::state::State;
use crate::vga::VgaView;
use vstd::prelude::*;

verus! {

impl State {
    /// The byte a read of a port returns. A port nothing claims reads 0xFF.
    #[verifier::opaque]
    pub open spec fn port_value(self, port: u16) -> u8 {
        if port == 0x20 || port == 0xA0 {
            self.pic.command_value(port as u8)
        } else if port == 0x21 || port == 0xA1 {
            self.pic.data_value(port as u8)
        } else if port == 0x40 || port == 0x41 || port == 0x42 {
            self.pit.data_value((port - 0x40) as u8)
        } else if port == 0x60 {
            self.kbd.data_value()
        } else if port == 0x64 {
            self.kbd.status()
        } else if port == 0x08 {
            self.dma.status
        } else if port == 0x71 {
            self.cmos.data_value()
        } else if port == 0x1F1 {
            self.ide.error
        } else if port == 0x1F7 || port == 0x3F6 {
            self.ide.status
        } else if port == 0x3D4 {
            self.vga.crtc_index
        } else if port == 0x3D5 {
            self.vga.crtc_value()
        } else if port == 0x3DA {
            if self.vga.retrace { 0x00 } else { 0x09 }
        } else if port == 0x61 {
            self.pit.port61_value()
        } else {
            0xFF
        }
    }

    /// The machine after that read.
    #[verifier::opaque]
    pub open spec fn port_read(self, port: u16) -> State {
        if port == 0x40 || port == 0x41 || port == 0x42 {
            State { pit: self.pit.after_read((port - 0x40) as u8), ..self }
        } else if port == 0x60 {
            State { kbd: self.kbd.after_read(), ..self }
        } else if port == 0x71 {
            State { cmos: self.cmos.after_read(), ..self }
        } else if port == 0x3DA {
            State { vga: VgaView { retrace: !self.vga.retrace, ..self.vga }, ..self }
        } else if port == 0x61 {
            State { pit: Pit { refresh: !self.pit.refresh, ..self.pit }, ..self }
        } else {
            self
        }
    }

    /// A 16-bit port read: the IDE registers answer whole, everything else is
    /// two byte reads.
    #[verifier::opaque]
    pub open spec fn port_in16(self, port: u16) -> (State, u16) {
        if port == 0x1F0 {
            (State { ide: self.ide.read_data(), ..self }, self.ide.data_value())
        } else if port == 0x1F1 {
            (self, self.ide.error as u16)
        } else if port == 0x1F7 || port == 0x3F6 {
            (self, self.ide.status as u16)
        } else {
            let lo = self.port_value(port);
            let s = self.port_read(port);
            let next = port.wrapping_add(1);
            (s.port_read(next), (lo as u16) | ((s.port_value(next) as u16) << 8))
        }
    }

    /// The machine after a byte has been written to a port.
    #[verifier::opaque]
    pub open spec fn port_out(self, port: u16, val: u8) -> State {
        if port == 0x20 || port == 0xA0 {
            State { pic: self.pic.after_command(port as u8, val), ..self }
        } else if port == 0x21 || port == 0xA1 {
            State { pic: self.pic.after_data(port as u8, val), ..self }
        } else if port == 0x40 || port == 0x41 || port == 0x42 {
            State { pit: self.pit.after_data(val), ..self }
        } else if port == 0x43 {
            State { pit: self.pit.after_control(val), ..self }
        } else if port == 0x60 {
            State { kbd: self.kbd.after_data(val), ..self }
        } else if port == 0x64 {
            State { kbd: self.kbd.after_command(val), ..self }
        } else if port == 0x08 || port == 0x0A {
            State { dma: self.dma.write_command(port as u8, val), ..self }
        } else if 0x81 <= port <= 0x8F {
            State { dma: self.dma.write_page(port as u8, val), ..self }
        } else if port == 0x61 {
            State { pit: Pit { gate: val & 0x0F, ..self.pit }, ..self }
        } else if 0x1F1 <= port <= 0x1F6 {
            State { ide: self.ide.write_reg(port, val), ..self }
        } else if port == 0x1F7 {
            State { ide: self.ide.write_command(val), ..self }
        } else if port == 0x3D4 {
            State { vga: VgaView { crtc_index: val, ..self.vga }, ..self }
        } else if port == 0x3D5 {
            State { vga: self.vga.write_crtc(val), ..self }
        } else if port == 0x70 {
            State {
                cmos: CmosView { nmi_disabled: val & 0x80 != 0, index: val & 0x7F, ..self.cmos },
                ..self
            }
        } else if port == 0x71 {
            State { cmos: self.cmos.write_data(val), ..self }
        } else {
            self
        }
    }

    /// The machine after a 16-bit port write.
    #[verifier::opaque]
    pub open spec fn port_out16(self, port: u16, val: u16) -> State {
        if port == 0x1F0 {
            State { ide: self.ide.write_data(val), ..self }
        } else if 0x1F1 <= port <= 0x1F6 {
            State { ide: self.ide.write_reg(port, (val & 0xFF) as u8), ..self }
        } else if port == 0x1F7 {
            State { ide: self.ide.write_command((val & 0xFF) as u8), ..self }
        } else if port == 0x3F6 {
            self
        } else {
            self.port_out(port, (val & 0xFF) as u8).port_out(
                port.wrapping_add(1),
                (val >> 8) as u8,
            )
        }
    }
}

impl Cpu {
    /// Read a byte from an I/O port.
    pub fn port_in(&mut self, port: u16) -> (v: u8)
        ensures
            v == old(self)@.port_value(port),
            final(self)@ == old(self)@.port_read(port),
    {
        proof {
            reveal(State::port_value);
            reveal(State::port_read);
        }
        match port {
            0x20 => self.pic.read_command(0x20),
            0x21 => self.pic.read_data(0x21),
            0xA0 => self.pic.read_command(0xA0),
            0xA1 => self.pic.read_data(0xA1),
            0x40 | 0x41 | 0x42 => self.pit.read_data((port - 0x40) as u8),
            // 8042 keyboard controller.
            0x60 => self.kbd.read_data(),
            0x64 => self.kbd.read_status(),
            // 8237 DMA status.
            0x08 => self.dma.read_status(),
            // CMOS RTC. 0x70 is write-only on real hardware.
            0x71 => self.cmos.read_data(),
            // IDE command block (byte registers).
            0x1F1 => self.ide.error,
            0x1F7 | 0x3F6 => self.ide.read_status(),
            // VGA CRTC (colour addressing).
            0x3D4 => self.vga.crtc_index,
            0x3D5 => self.vga.read_crtc_data(),
            // VGA input status 1.
            0x3DA => self.vga.read_status(),
            // System control port B: speaker/gate control, the refresh toggle,
            // and PIT channel 2's output.
            0x61 => self.pit.read_port61(),
            _ => 0xFF,
        }
    }

    /// Read a 16-bit value from an I/O port (two byte reads).
    pub fn port_in16(&mut self, port: u16) -> (v: u16)
        ensures
            (final(self)@, v) == old(self)@.port_in16(port),
    {
        proof {
            reveal(State::port_in16);
        }
        match port {
            // IDE/ATA: data register (0x1F0) is 16-bit; the command block
            // registers are byte registers read through the 16-bit path.
            0x1F0 => self.ide.read_data(),
            0x1F1 => self.ide.error as u16,
            0x1F7 => self.ide.read_status() as u16,
            0x3F6 => self.ide.read_status() as u16,
            _ => {
                let lo: u8 = self.port_in(port);
                let hi: u8 = self.port_in(port.wrapping_add(1));
                (lo as u16) | ((hi as u16) << 8)
            },
        }
    }

    /// Write a byte to an I/O port.
    pub fn port_out(&mut self, port: u16, val: u8)
        ensures
            final(self)@ == old(self)@.port_out(port, val),
    {
        proof {
            reveal(State::port_out);
        }
        match port {
            0x20 => self.pic.write_command(0x20, val),
            0x21 => self.pic.write_data(0x21, val),
            0xA0 => self.pic.write_command(0xA0, val),
            0xA1 => self.pic.write_data(0xA1, val),
            0x40 | 0x41 | 0x42 => self.pit.write_data(val),
            0x43 => self.pit.write_control(val),
            // 8042 keyboard controller.
            0x60 => self.kbd.write_data(val),
            0x64 => self.kbd.write_command(val),
            // 8237 DMA.
            0x08 => self.dma.write_command(0x08, val),
            0x0A => self.dma.write_command(0x0A, val),
            0x81..=0x8F => self.dma.write_page(port as u8, val),
            0x61 => self.pit.write_port61(val),
            // IDE command block (byte registers).
            0x1F1..=0x1F6 => self.ide.write_reg(port, val),
            0x1F7 => self.ide.write_command(val),
            // VGA CRTC.
            0x3D4 => self.vga.write_crtc_index(val),
            0x3D5 => self.vga.write_crtc_data(val),
            // CMOS RTC index/data.
            0x70 => self.cmos.write_index(val),
            0x71 => self.cmos.write_data(val),
            // Device control (0x3F6) and everything unclaimed: ignored.
            _ => {},
        }
    }

    /// Write a 16-bit value to an I/O port (two byte writes).
    pub fn port_out16(&mut self, port: u16, val: u16)
        ensures
            final(self)@ == old(self)@.port_out16(port, val),
    {
        proof {
            reveal(State::port_out16);
        }
        match port {
            // IDE/ATA command block.
            0x1F0 => self.ide.write_data(val),
            0x1F1..=0x1F6 => self.ide.write_reg(port, (val & 0xFF) as u8),
            0x1F7 => self.ide.write_command((val & 0xFF) as u8),
            0x3F6 => {},  // device control: ignored
            _ => {
                self.port_out(port, (val & 0xFF) as u8);
                self.port_out(port.wrapping_add(1), (val >> 8) as u8);
            },
        }
    }
}

} // verus!
