//! 8042 keyboard controller (PS/2).
//!
//! The 8042 sits between the keyboard and the CPU. The CPU reads bytes from
//! port 0x60 and status from port 0x64, writes *controller* commands to 0x64
//! and *data* -- either a command's argument or a command for the keyboard
//! device itself -- to 0x60. It raises IRQ1 when a byte is waiting.
//!
//! Two things make this more than a scancode queue:
//!
//! 1. **The controller command byte** (CTR) is read with command 0x20 and
//!    written back with 0x60, and has to *round trip*.
//! 2. **One output buffer, shared.** Command responses and scancodes come
//!    back through the same port, and the status register says whether the
//!    byte at the head came from the keyboard or the auxiliary (mouse) port.
//!
//! There is no mouse on this machine: the port test answers 0xFF ("no
//! device"), and a byte written through to the absent device is dropped.

use std::collections::VecDeque;
use vstd::prelude::*;

verus! {

// Status register (port 0x64).
/// Output buffer full.
pub const ST_OBF: u8 = 0x01;
/// System flag, mirrors CTR bit 2.
pub const ST_SYS: u8 = 0x04;
/// Last write went to 0x64 rather than 0x60.
pub const ST_CMD: u8 = 0x08;
/// Keyboard not inhibited.
pub const ST_UNLOCKED: u8 = 0x10;
/// The byte at the head came from the aux port.
pub const ST_AUX: u8 = 0x20;

// Controller command byte.
/// IRQ1 on a keyboard byte.
pub const CTR_KBD_INT: u8 = 0x01;
pub const CTR_SYS: u8 = 0x04;
pub const CTR_KBD_DISABLE: u8 = 0x10;
pub const CTR_AUX_DISABLE: u8 = 0x20;

/// What a BIOS leaves behind: keyboard interrupt on, system flag set,
/// translation on, and the auxiliary port disabled because nothing is on it.
pub const CTR_DEFAULT: u8 = 0x65;

/// Acknowledge, the keyboard's answer to almost every command.
pub const ACK: u8 = 0xFA;

/// The 8042 keyboard controller.
pub struct Kbd {
    /// Bytes waiting at port 0x60, each flagged with whether it came from the
    /// auxiliary port. Scancodes and command responses share this queue, as
    /// they share the one buffer on the real device.
    pub out: VecDeque<(u8, bool)>,
    /// The controller command byte: read with 0x20, written with 0x60.
    pub ctr: u8,
    /// A controller command that is still waiting for its argument at 0x60.
    pub pending: Option<u8>,
    /// A keyboard command that is still waiting for its argument at 0x60.
    pub dev_pending: Option<u8>,
    /// Set when a byte is waiting and its interrupt is enabled. The CPU
    /// consumes this as an edge and hands it to the PIC.
    pub irq1: bool,
    /// True when the last write went to 0x64 (status bit 3).
    pub cmd_written: bool,
    /// Keyboard scanning, toggled by the device commands 0xF4 and 0xF5. A
    /// keyboard told to stop scanning sends nothing, so host key events are
    /// dropped rather than queued behind the guest's back.
    pub scanning: bool,
    /// Set the first time the *guest* enables scanning (0xF4). Scripted
    /// keystrokes wait for this: typing into a machine whose keyboard driver
    /// has not bound yet only throws the bytes away.
    pub driver_attached: bool,
}

/// What a [`Kbd`] holds, as mathematics.
#[verifier::ext_equal]
pub struct KbdView {
    pub out: Seq<(u8, bool)>,
    pub ctr: u8,
    pub pending: Option<u8>,
    pub dev_pending: Option<u8>,
    pub irq1: bool,
    pub cmd_written: bool,
    pub scanning: bool,
    pub driver_attached: bool,
}

impl Kbd {
    /// The value this stands for.
    pub open spec fn view(&self) -> KbdView {
        KbdView {
            out: self.out@,
            ctr: self.ctr,
            pending: self.pending,
            dev_pending: self.dev_pending,
            irq1: self.irq1,
            cmd_written: self.cmd_written,
            scanning: self.scanning,
            driver_attached: self.driver_attached,
        }
    }
}

impl KbdView {
    /// The controller at power-on.
    pub open spec fn reset() -> KbdView {
        KbdView {
            out: Seq::empty(),
            ctr: CTR_DEFAULT,
            pending: None,
            dev_pending: None,
            irq1: false,
            cmd_written: false,
            scanning: true,
            driver_attached: false,
        }
    }

    /// IRQ1 follows the byte at the head of the queue: a keyboard byte with
    /// its interrupt enabled asserts it, anything else does not.
    pub open spec fn refreshed(self) -> KbdView {
        KbdView {
            irq1: self.out.len() > 0 && !self.out[0].1 && (self.ctr & CTR_KBD_INT) != 0,
            ..self
        }
    }

    /// The controller with a byte from the keyboard queued.
    pub open spec fn reply(self, byte: u8) -> KbdView {
        KbdView { out: self.out.push((byte, false)), ..self }.refreshed()
    }

    /// The controller with a byte from the auxiliary port queued.
    pub open spec fn reply_aux(self, byte: u8) -> KbdView {
        KbdView { out: self.out.push((byte, true)), ..self }.refreshed()
    }

    /// A host key event: queued while the keyboard scans, dropped otherwise.
    pub open spec fn push_scancode(self, scancode: u8) -> KbdView {
        if self.scanning { self.reply(scancode) } else { self }
    }

    /// What port 0x60 reads: the oldest byte waiting, or zero.
    pub open spec fn data_value(self) -> u8 {
        if self.out.len() > 0 { self.out[0].0 } else { 0 }
    }

    /// The controller after that read.
    pub open spec fn after_read(self) -> KbdView {
        KbdView {
            out: if self.out.len() > 0 { self.out.subrange(1, self.out.len() as int) } else { self.out },
            ..self
        }.refreshed()
    }

    /// What port 0x64 reads.
    pub open spec fn status(self) -> u8 {
        ST_UNLOCKED | (if self.out.len() > 0 { ST_OBF } else { 0 }) | (if self.ctr & CTR_SYS != 0 {
            ST_SYS
        } else {
            0
        }) | (if self.cmd_written { ST_CMD } else { 0 }) | (if self.out.len() > 0 && self.out[0].1 {
            ST_AUX
        } else {
            0
        })
    }

    /// The controller after a command at port 0x64.
    #[verifier::opaque]
    pub open spec fn after_command(self, cmd: u8) -> KbdView {
        let k = KbdView { cmd_written: true, ..self };
        if cmd == 0x20 {
            k.reply(k.ctr)
        } else if 0x21 <= cmd <= 0x3F {
            k.reply(0)
        } else if 0x60 <= cmd <= 0x7F || 0xD1 <= cmd <= 0xD4 {
            KbdView { pending: Some(cmd), ..k }
        } else if cmd == 0xA7 {
            KbdView { ctr: k.ctr | CTR_AUX_DISABLE, ..k }
        } else if cmd == 0xA8 {
            KbdView { ctr: k.ctr & !CTR_AUX_DISABLE, ..k }
        } else if cmd == 0xA9 {
            k.reply(0xFF)
        } else if cmd == 0xAA {
            KbdView { ctr: k.ctr | CTR_SYS, ..k }.reply(0x55)
        } else if cmd == 0xAB || cmd == 0xC0 {
            k.reply(0)
        } else if cmd == 0xAD {
            KbdView { ctr: k.ctr | CTR_KBD_DISABLE, ..k }
        } else if cmd == 0xAE {
            KbdView { ctr: k.ctr & !CTR_KBD_DISABLE, ..k }
        } else if cmd == 0xD0 {
            k.reply(0x02)
        } else {
            k
        }
    }

    /// The argument of a pending controller command.
    pub open spec fn after_argument(self, cmd: u8, val: u8) -> KbdView {
        if cmd == 0x60 {
            KbdView { ctr: val, ..self }.refreshed()
        } else if cmd == 0xD2 {
            self.reply(val)
        } else if cmd == 0xD3 {
            self.reply_aux(val)
        } else {
            self
        }
    }

    /// The argument of a pending keyboard command. The scancode-set command
    /// with an argument of 0 is a query, which answers set 2.
    pub open spec fn after_device_argument(self, cmd: u8, val: u8) -> KbdView {
        if cmd == 0xF0 && val == 0 { self.reply(ACK).reply(0x02) } else { self.reply(ACK) }
    }

    /// A command for the keyboard itself.
    pub open spec fn after_device_command(self, val: u8) -> KbdView {
        if val == 0xFF {
            self.reply(ACK).reply(0xAA)
        } else if val == 0xEE {
            self.reply(0xEE)
        } else if val == 0xF2 {
            self.reply(ACK).reply(0xAB).reply(0x83)
        } else if val == 0xF4 {
            KbdView { scanning: true, driver_attached: true, ..self }.reply(ACK)
        } else if val == 0xF5 {
            KbdView { scanning: false, ..self }.reply(ACK)
        } else if val == 0xED || val == 0xF0 || val == 0xF3 {
            KbdView { dev_pending: Some(val), ..self }.reply(ACK)
        } else {
            self.reply(ACK)
        }
    }

    /// The controller after a write to port 0x60: the argument of whichever
    /// command is waiting for one, or else a command for the keyboard.
    #[verifier::opaque]
    pub open spec fn after_data(self, val: u8) -> KbdView {
        let k = KbdView { cmd_written: false, ..self };
        match self.pending {
            Some(cmd) => KbdView { pending: None, ..k }.after_argument(cmd, val),
            None => match self.dev_pending {
                Some(cmd) => KbdView { dev_pending: None, ..k }.after_device_argument(cmd, val),
                None => k.after_device_command(val),
            },
        }
    }
}

impl Kbd {
    pub fn new() -> (k: Self)
        ensures
            k@ == KbdView::reset(),
    {
        Kbd {
            out: VecDeque::new(),
            ctr: CTR_DEFAULT,
            pending: None,
            dev_pending: None,
            irq1: false,
            cmd_written: false,
            scanning: true,
            driver_attached: false,
        }
    }

    /// Queue a byte from the keyboard.
    fn reply(&mut self, byte: u8)
        ensures
            final(self)@ == old(self)@.reply(byte),
    {
        self.out.push_back((byte, false));
        self.refresh_irq();
    }

    /// Queue a byte from the auxiliary port.
    fn reply_aux(&mut self, byte: u8)
        ensures
            final(self)@ == old(self)@.reply_aux(byte),
    {
        self.out.push_back((byte, true));
        self.refresh_irq();
    }

    /// IRQ1 follows the byte at the head of the queue.
    fn refresh_irq(&mut self)
        ensures
            final(self)@ == old(self)@.refreshed(),
    {
        self.irq1 = self.out.len() > 0 && !self.out[0].1 && (self.ctr & CTR_KBD_INT) != 0;
    }

    /// Queue a scancode from a host key event. Raises IRQ1.
    pub fn push_scancode(&mut self, scancode: u8)
        ensures
            final(self)@ == old(self)@.push_scancode(scancode),
    {
        if !self.scanning {
            return;
        }
        self.reply(scancode);
    }

    /// Read from port 0x60 (data).
    pub fn read_data(&mut self) -> (byte: u8)
        ensures
            byte == old(self)@.data_value(),
            final(self)@ == old(self)@.after_read(),
    {
        let byte: u8 = match self.out.pop_front() {
            Some((b, _)) => b,
            None => 0,
        };
        self.refresh_irq();
        byte
    }

    /// True when nothing is waiting to be read. Scripted input feeds one
    /// scancode at a time and waits for this, so the pace follows the guest
    /// draining the buffer rather than a count of instructions.
    pub fn idle(&self) -> (b: bool)
        ensures
            b == (self@.out.len() == 0),
    {
        self.out.len() == 0
    }

    /// Read from port 0x64 (status).
    pub fn read_status(&self) -> (v: u8)
        ensures
            v == self@.status(),
    {
        let full: u8 = if self.out.len() > 0 {
            ST_OBF
        } else {
            0
        };
        let sys: u8 = if self.ctr & CTR_SYS != 0 {
            ST_SYS
        } else {
            0
        };
        let cmd: u8 = if self.cmd_written {
            ST_CMD
        } else {
            0
        };
        let aux: u8 = if self.out.len() > 0 && self.out[0].1 {
            ST_AUX
        } else {
            0
        };
        ST_UNLOCKED | full | sys | cmd | aux
    }

    /// Write to port 0x64: a command for the controller itself.
    pub fn write_command(&mut self, cmd: u8)
        ensures
            final(self)@ == old(self)@.after_command(cmd),
    {
        proof {
            reveal(KbdView::after_command);
        }
        self.cmd_written = true;
        match cmd {
            // Read controller RAM. Byte 0 is the command byte; the other 31
            // are scratch nobody here keeps, and read back as zero.
            0x20 => {
                let ctr: u8 = self.ctr;
                self.reply(ctr);
            },
            0x21..=0x3F => self.reply(0),
            // Write controller RAM: the byte follows at port 0x60.
            0x60..=0x7F => {
                self.pending = Some(cmd);
            },
            // Disable / enable the auxiliary port.
            0xA7 => {
                self.ctr = self.ctr | CTR_AUX_DISABLE;
            },
            0xA8 => {
                self.ctr = self.ctr & !CTR_AUX_DISABLE;
            },
            // Test the auxiliary port: 0xFF is "no device down there".
            0xA9 => self.reply(0xFF),
            // Controller self-test: 0x55 is pass, and it sets the system flag.
            0xAA => {
                self.ctr = self.ctr | CTR_SYS;
                self.reply(0x55);
            },
            // Test the first PS/2 port: 0x00 is pass.
            0xAB => self.reply(0x00),
            // Disable / enable the keyboard port.
            0xAD => {
                self.ctr = self.ctr | CTR_KBD_DISABLE;
            },
            0xAE => {
                self.ctr = self.ctr & !CTR_KBD_DISABLE;
            },
            // Read the input port. Bit 7 clear means not inhibited.
            0xC0 => self.reply(0x00),
            // Read the output port. A20 (bit 1) is always on here.
            0xD0 => self.reply(0x02),
            // Each of these takes an argument at port 0x60.
            0xD1..=0xD4 => {
                self.pending = Some(cmd);
            },
            // Pulsing the reset line (0xFE) and everything else: ignored.
            _ => {},
        }
    }

    /// Write to port 0x60: either the argument to a controller command, or a
    /// command for the keyboard device.
    pub fn write_data(&mut self, val: u8)
        ensures
            final(self)@ == old(self)@.after_data(val),
    {
        proof {
            reveal(KbdView::after_data);
        }
        self.cmd_written = false;
        if let Some(cmd) = self.pending {
            self.pending = None;
            match cmd {
                0x60 => {
                    self.ctr = val;
                    // Interrupts may have just been enabled or masked, and a
                    // byte may already be waiting behind that decision.
                    self.refresh_irq();
                },
                0xD2 => self.reply(val),  // echo into the keyboard buffer
                0xD3 => self.reply_aux(val),  // echo into the aux buffer
                // Scratch RAM and the output port are not modelled, and a byte
                // for the absent auxiliary device is answered by nobody.
                _ => {},
            }
            return;
        }
        if let Some(cmd) = self.dev_pending {
            self.dev_pending = None;
            self.reply(ACK);
            // Scancode set: an argument of 0 is a query, not a set.
            if cmd == 0xF0 && val == 0 {
                self.reply(0x02);
            }
            return;
        }
        match val {
            // Reset: acknowledge, then report the self-test passed.
            0xFF => {
                self.reply(ACK);
                self.reply(0xAA);
            },
            0xEE => self.reply(0xEE),  // echo, and not acknowledged
            // Identify: an MF2 keyboard.
            0xF2 => {
                self.reply(ACK);
                self.reply(0xAB);
                self.reply(0x83);
            },
            0xF4 => {
                self.scanning = true;
                self.driver_attached = true;
                self.reply(ACK);
            },
            0xF5 => {
                self.scanning = false;
                self.reply(ACK);
            },
            // These take an argument, which arrives as the next write.
            0xED | 0xF0 | 0xF3 => {
                self.dev_pending = Some(val);
                self.reply(ACK);
            },
            _ => self.reply(ACK),
        }
    }
}

/// The unshifted key that types `c`: its set-1 make code.
pub open spec fn key_code(c: u8) -> Option<u8> {
    match c {
        0x31u8 => Some(0x02u8),  // 1
        0x32u8 => Some(0x03u8),  // 2
        0x33u8 => Some(0x04u8),  // 3
        0x34u8 => Some(0x05u8),  // 4
        0x35u8 => Some(0x06u8),  // 5
        0x36u8 => Some(0x07u8),  // 6
        0x37u8 => Some(0x08u8),  // 7
        0x38u8 => Some(0x09u8),  // 8
        0x39u8 => Some(0x0Au8),  // 9
        0x30u8 => Some(0x0Bu8),  // 0
        0x2Du8 => Some(0x0Cu8),  // -
        0x3Du8 => Some(0x0Du8),  // =
        0x08u8 => Some(0x0Eu8),  // backspace
        0x09u8 => Some(0x0Fu8),  // tab
        0x71u8 => Some(0x10u8),  // q
        0x77u8 => Some(0x11u8),  // w
        0x65u8 => Some(0x12u8),  // e
        0x72u8 => Some(0x13u8),  // r
        0x74u8 => Some(0x14u8),  // t
        0x79u8 => Some(0x15u8),  // y
        0x75u8 => Some(0x16u8),  // u
        0x69u8 => Some(0x17u8),  // i
        0x6Fu8 => Some(0x18u8),  // o
        0x70u8 => Some(0x19u8),  // p
        0x5Bu8 => Some(0x1Au8),  // [
        0x5Du8 => Some(0x1Bu8),  // ]
        0x0Au8 => Some(0x1Cu8),  // newline
        0x61u8 => Some(0x1Eu8),  // a
        0x73u8 => Some(0x1Fu8),  // s
        0x64u8 => Some(0x20u8),  // d
        0x66u8 => Some(0x21u8),  // f
        0x67u8 => Some(0x22u8),  // g
        0x68u8 => Some(0x23u8),  // h
        0x6Au8 => Some(0x24u8),  // j
        0x6Bu8 => Some(0x25u8),  // k
        0x6Cu8 => Some(0x26u8),  // l
        0x3Bu8 => Some(0x27u8),  // ;
        0x27u8 => Some(0x28u8),  // '
        0x60u8 => Some(0x29u8),  // `
        0x5Cu8 => Some(0x2Bu8),  // backslash
        0x7Au8 => Some(0x2Cu8),  // z
        0x78u8 => Some(0x2Du8),  // x
        0x63u8 => Some(0x2Eu8),  // c
        0x76u8 => Some(0x2Fu8),  // v
        0x62u8 => Some(0x30u8),  // b
        0x6Eu8 => Some(0x31u8),  // n
        0x6Du8 => Some(0x32u8),  // m
        0x2Cu8 => Some(0x33u8),  // ,
        0x2Eu8 => Some(0x34u8),  // .
        0x2Fu8 => Some(0x35u8),  // /
        0x20u8 => Some(0x39u8),  // space
        _ => None,
    }
}

/// The unshifted keycap of the key that types `c` with shift held.
pub open spec fn shifted_on(c: u8) -> Option<u8> {
    match c {
        0x21u8 => Some(0x31u8),  // ! on 1
        0x40u8 => Some(0x32u8),  // @ on 2
        0x23u8 => Some(0x33u8),  // # on 3
        0x24u8 => Some(0x34u8),  // $ on 4
        0x25u8 => Some(0x35u8),  // % on 5
        0x5Eu8 => Some(0x36u8),  // ^ on 6
        0x26u8 => Some(0x37u8),  // & on 7
        0x2Au8 => Some(0x38u8),  // * on 8
        0x28u8 => Some(0x39u8),  // ( on 9
        0x29u8 => Some(0x30u8),  // ) on 0
        0x5Fu8 => Some(0x2Du8),  // _ on -
        0x2Bu8 => Some(0x3Du8),  // + on =
        0x7Bu8 => Some(0x5Bu8),  // { on [
        0x7Du8 => Some(0x5Du8),  // } on ]
        0x3Au8 => Some(0x3Bu8),  // : on ;
        0x22u8 => Some(0x27u8),  // " on '
        0x7Eu8 => Some(0x60u8),  // ~ on `
        0x7Cu8 => Some(0x5Cu8),  // | on backslash
        0x3Cu8 => Some(0x2Cu8),  // < on ,
        0x3Eu8 => Some(0x2Eu8),  // > on .
        0x3Fu8 => Some(0x2Fu8),  // ? on /
        _ => None,
    }
}

/// The make code of the key that types `c`, and whether shift is held.
pub open spec fn scancode_of(c: u8) -> Option<(u8, bool)> {
    let (keycap, shift) = if 0x41 <= c <= 0x5A {
        // An upper-case letter sits on its lower-case key.
        ((c + 0x20) as u8, true)
    } else {
        match shifted_on(c) {
            Some(base) => (base, true),
            None => (c, false),
        }
    };
    match key_code(keycap) {
        Some(code) => Some((code, shift)),
        None => None,
    }
}

/// The make code of an unshifted key.
fn key(c: u8) -> (r: Option<u8>)
    ensures
        r == key_code(c),
{
    match c {
        0x31 => Some(0x02),  // 1
        0x32 => Some(0x03),  // 2
        0x33 => Some(0x04),  // 3
        0x34 => Some(0x05),  // 4
        0x35 => Some(0x06),  // 5
        0x36 => Some(0x07),  // 6
        0x37 => Some(0x08),  // 7
        0x38 => Some(0x09),  // 8
        0x39 => Some(0x0A),  // 9
        0x30 => Some(0x0B),  // 0
        0x2D => Some(0x0C),  // -
        0x3D => Some(0x0D),  // =
        0x08 => Some(0x0E),  // backspace
        0x09 => Some(0x0F),  // tab
        0x71 => Some(0x10),  // q
        0x77 => Some(0x11),  // w
        0x65 => Some(0x12),  // e
        0x72 => Some(0x13),  // r
        0x74 => Some(0x14),  // t
        0x79 => Some(0x15),  // y
        0x75 => Some(0x16),  // u
        0x69 => Some(0x17),  // i
        0x6F => Some(0x18),  // o
        0x70 => Some(0x19),  // p
        0x5B => Some(0x1A),  // [
        0x5D => Some(0x1B),  // ]
        0x0A => Some(0x1C),  // newline
        0x61 => Some(0x1E),  // a
        0x73 => Some(0x1F),  // s
        0x64 => Some(0x20),  // d
        0x66 => Some(0x21),  // f
        0x67 => Some(0x22),  // g
        0x68 => Some(0x23),  // h
        0x6A => Some(0x24),  // j
        0x6B => Some(0x25),  // k
        0x6C => Some(0x26),  // l
        0x3B => Some(0x27),  // ;
        0x27 => Some(0x28),  // '
        0x60 => Some(0x29),  // `
        0x5C => Some(0x2B),  // backslash
        0x7A => Some(0x2C),  // z
        0x78 => Some(0x2D),  // x
        0x63 => Some(0x2E),  // c
        0x76 => Some(0x2F),  // v
        0x62 => Some(0x30),  // b
        0x6E => Some(0x31),  // n
        0x6D => Some(0x32),  // m
        0x2C => Some(0x33),  // ,
        0x2E => Some(0x34),  // .
        0x2F => Some(0x35),  // /
        0x20 => Some(0x39),  // space
        _ => None,
    }
}

/// The unshifted keycap under a shifted character.
fn shifted(c: u8) -> (r: Option<u8>)
    ensures
        r == shifted_on(c),
{
    match c {
        0x21 => Some(0x31),  // ! on 1
        0x40 => Some(0x32),  // @ on 2
        0x23 => Some(0x33),  // # on 3
        0x24 => Some(0x34),  // $ on 4
        0x25 => Some(0x35),  // % on 5
        0x5E => Some(0x36),  // ^ on 6
        0x26 => Some(0x37),  // & on 7
        0x2A => Some(0x38),  // * on 8
        0x28 => Some(0x39),  // ( on 9
        0x29 => Some(0x30),  // ) on 0
        0x5F => Some(0x2D),  // _ on -
        0x2B => Some(0x3D),  // + on =
        0x7B => Some(0x5B),  // { on [
        0x7D => Some(0x5D),  // } on ]
        0x3A => Some(0x3B),  // : on ;
        0x22 => Some(0x27),  // " on '
        0x7E => Some(0x60),  // ~ on `
        0x7C => Some(0x5C),  // | on backslash
        0x3C => Some(0x2C),  // < on ,
        0x3E => Some(0x2E),  // > on .
        0x3F => Some(0x2F),  // ? on /
        _ => None,
    }
}

/// Translate an ASCII byte to its set-1 make code and whether shift is held.
///
/// Set 1 because the controller's translation bit is on: the keyboard sends
/// set 2 and the 8042 hands set 1 to the CPU. Only the keys a scripted line
/// needs are here -- letters, digits, punctuation, space, tab, newline and
/// backspace.
pub fn ascii_to_scancode(c: u8) -> (r: Option<(u8, bool)>)
    ensures
        r == scancode_of(c),
{
    let (keycap, shift): (u8, bool) = if c >= 0x41 && c <= 0x5A {
        (c + 0x20, true)
    } else {
        match shifted(c) {
            Some(base) => (base, true),
            None => (c, false),
        }
    };
    match key(keycap) {
        Some(code) => Some((code, shift)),
        None => None,
    }
}

/// The codes one character sends: nothing for a character with no key, and
/// otherwise the key going down and coming back up, inside left shift when it
/// is a shifted one.
pub open spec fn keystroke(c: u8) -> Seq<u8> {
    match scancode_of(c) {
        Some((sc, true)) => seq![LSHIFT_MAKE, sc, sc | 0x80u8, LSHIFT_BREAK],
        Some((sc, false)) => seq![sc, sc | 0x80u8],
        None => Seq::empty(),
    }
}

/// The codes a line of bytes sends, one keystroke after another.
pub open spec fn keystrokes(text: Seq<u8>) -> Seq<u8>
    decreases text.len(),
{
    if text.len() == 0 {
        Seq::empty()
    } else {
        keystrokes(text.drop_last()) + keystroke(text.last())
    }
}

/// Left shift going down and coming back up.
pub const LSHIFT_MAKE: u8 = 0x2A;
pub const LSHIFT_BREAK: u8 = 0xAA;

/// Expand text into the make and break codes a keyboard would send,
/// bracketing shifted characters with left shift down and up. A character
/// with no key on a US layout is skipped rather than mistyped.
pub fn scancodes_for(text: &str) -> (out: Vec<u8>)
    ensures
        out@ == keystrokes(vstd::utf8::encode_utf8(text@)),
{
    let bytes = text.as_bytes();
    let mut out: Vec<u8> = Vec::new();
    let mut i: usize = 0;
    while i < bytes.len()
        invariant
            i <= bytes@.len(),
            out@ == keystrokes(bytes@.take(i as int)),
        decreases bytes@.len() - i,
    {
        let ghost sofar = out@;
        let c: u8 = bytes[i];
        if let Some((sc, shift)) = ascii_to_scancode(c) {
            if shift {
                out.push(LSHIFT_MAKE);
            }
            out.push(sc);
            out.push(sc | 0x80);  // every key that goes down comes back up
            if shift {
                out.push(LSHIFT_BREAK);
            }
        }
        assert(out@ =~= sofar + keystroke(c));
        i = i + 1;
        assert(bytes@.take(i as int).drop_last() =~= bytes@.take(i - 1));
    }
    assert(bytes@.take(i as int) =~= bytes@);
    out
}

impl Default for Kbd {
    fn default() -> (k: Self)
        ensures
            k@ == KbdView::reset(),
    {
        Self::new()
    }
}

} // verus!
