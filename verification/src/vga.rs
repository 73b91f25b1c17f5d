//! VGA display: text mode plus the graphics modes 12h and 13h.
//!
//! The text cells themselves live in [`crate::memory::Memory`], where the CPU
//! writes them; this device keeps the mode, the BIOS cursor, the graphics
//! framebuffer and the CRTC registers on ports 0x3D4/0x3D5. The CRTC's
//! start-address register selects which part of the text aperture is on
//! screen, which is how a text console scrolls.

use vstd::prelude::*;

verus! {

/// Mode 12h: 640x480 in 16 colours.
pub const MODE_12H: u8 = 0x12;
/// Mode 13h: 320x200 in 256 colours.
pub const MODE_13H: u8 = 0x13;
/// CRTC registers behind the index port.
pub const CRTC_REGS: usize = 32;
/// CRTC register: start address, high byte.
pub const CRTC_START_HIGH: usize = 0x0C;
/// CRTC register: start address, low byte.
pub const CRTC_START_LOW: usize = 0x0D;

/// The VGA device.
pub struct Vga {
    /// The current video mode.
    pub mode: u8,
    /// BIOS cursor position.
    pub cursor_row: u8,
    pub cursor_col: u8,
    /// One byte per pixel in a graphics mode, empty in text mode.
    pub framebuffer: Vec<u8>,
    /// Register selected through port 0x3D4.
    pub crtc_index: u8,
    /// The CRTC registers.
    pub crtc: [u8; 32],
    /// Vertical-retrace bit of the input-status register, flipped per read.
    pub retrace: bool,
}

/// What a [`Vga`] holds, as mathematics.
#[verifier::ext_equal]
pub struct VgaView {
    pub mode: u8,
    pub cursor_row: u8,
    pub cursor_col: u8,
    pub framebuffer: Seq<u8>,
    pub crtc_index: u8,
    pub crtc: Seq<u8>,
    pub retrace: bool,
}

impl Vga {
    /// The value this stands for.
    pub open spec fn view(&self) -> VgaView {
        VgaView {
            mode: self.mode,
            cursor_row: self.cursor_row,
            cursor_col: self.cursor_col,
            framebuffer: self.framebuffer@,
            crtc_index: self.crtc_index,
            crtc: self.crtc@,
            retrace: self.retrace,
        }
    }
}

/// Pixels in a video mode's framebuffer, none in a text mode.
pub open spec fn pixels(mode: u8) -> nat {
    if mode == MODE_13H {
        320 * 200
    } else if mode == MODE_12H {
        640 * 480
    } else {
        0
    }
}

impl VgaView {
    /// The device at power-on: 80x25 text.
    pub open spec fn reset() -> VgaView {
        VgaView {
            mode: 0x03,
            cursor_row: 0,
            cursor_col: 0,
            framebuffer: Seq::empty(),
            crtc_index: 0,
            crtc: Seq::new(CRTC_REGS as nat, |i: int| 0u8),
            retrace: false,
        }
    }

    /// The device after a mode set: a blank framebuffer of that mode's size.
    #[verifier::opaque]
    pub open spec fn set_mode(self, mode: u8) -> VgaView {
        VgaView { mode, framebuffer: Seq::new(pixels(mode), |i: int| 0u8), ..self }
    }

    /// Is a graphics mode selected?
    pub open spec fn graphics(self) -> bool {
        self.mode == MODE_12H || self.mode == MODE_13H
    }

    /// The selected CRTC register, 0xFF where there is none.
    pub open spec fn crtc_value(self) -> u8 {
        if self.crtc_index < CRTC_REGS { self.crtc[self.crtc_index as int] } else { 0xFF }
    }

    /// The device after a CRTC data write.
    #[verifier::opaque]
    pub open spec fn write_crtc(self, val: u8) -> VgaView {
        if self.crtc_index < CRTC_REGS {
            VgaView { crtc: self.crtc.update(self.crtc_index as int, val), ..self }
        } else {
            self
        }
    }

    /// The text cell at the top left of the screen.
    pub open spec fn start_cell(self) -> int {
        self.crtc[CRTC_START_HIGH as int] * 0x100 + self.crtc[CRTC_START_LOW as int]
    }
}

impl Vga {
    pub fn new() -> (v: Self)
        ensures
            v@ == VgaView::reset(),
    {
        Vga {
            mode: 0x03,
            cursor_row: 0,
            cursor_col: 0,
            framebuffer: Vec::new(),
            crtc_index: 0,
            crtc: [0; 32],
            retrace: false,
        }
    }

    /// Select a video mode, clearing its framebuffer.
    pub fn set_mode(&mut self, mode: u8)
        ensures
            final(self)@ == old(self)@.set_mode(mode),
    {
        proof {
            reveal(VgaView::set_mode);
        }
        let n: usize = if mode == MODE_13H {
            320 * 200
        } else if mode == MODE_12H {
            640 * 480
        } else {
            0
        };
        self.mode = mode;
        self.framebuffer = vec![0u8; n];
    }

    /// True in a graphics mode.
    pub fn is_graphics(&self) -> (b: bool)
        ensures
            b == self@.graphics(),
    {
        self.mode == MODE_12H || self.mode == MODE_13H
    }

    /// Port 0x3D4 write: select a CRTC register.
    pub fn write_crtc_index(&mut self, val: u8)
        ensures
            final(self)@ == (VgaView { crtc_index: val, ..old(self)@ }),
    {
        self.crtc_index = val;
    }

    /// Port 0x3D5 read.
    pub fn read_crtc_data(&self) -> (v: u8)
        ensures
            v == self@.crtc_value(),
    {
        let i: usize = self.crtc_index as usize;
        if i < CRTC_REGS {
            self.crtc[i]
        } else {
            0xFF
        }
    }

    /// Port 0x3D5 write.
    pub fn write_crtc_data(&mut self, val: u8)
        ensures
            final(self)@ == old(self)@.write_crtc(val),
    {
        proof {
            reveal(VgaView::write_crtc);
        }
        let i: usize = self.crtc_index as usize;
        if i < CRTC_REGS {
            self.crtc[i] = val;
        }
    }

    /// Port 0x3DA read, input status 1: bit 3 is the vertical-retrace flag and
    /// bit 0 the display-enable flag. Both flip on every read so a driver
    /// polling for retrace sees it happen instead of spinning.
    pub fn read_status(&mut self) -> (v: u8)
        ensures
            v == (if old(self)@.retrace { 0x00u8 } else { 0x09u8 }),
            final(self)@ == (VgaView { retrace: !old(self)@.retrace, ..old(self)@ }),
    {
        self.retrace = !self.retrace;
        if self.retrace {
            0x09
        } else {
            0x00
        }
    }

    /// The text cell the CRTC shows at the top left of the screen.
    pub fn start_cell(&self) -> (n: usize)
        ensures
            n == self@.start_cell(),
    {
        (self.crtc[CRTC_START_HIGH] as usize) * 0x100 + self.crtc[CRTC_START_LOW] as usize
    }
}

impl Default for Vga {
    fn default() -> (v: Self)
        ensures
            v@ == VgaView::reset(),
    {
        Self::new()
    }
}

} // verus!
