//! The instruction stream: fetching bytes, immediates, and the ModR/M byte
//! with everything it implies.

use crate::cpu::address::Access;
use crate::cpu::{Cpu, FetchCache};
use crate::modrm::ModRm;
use crate::state::State;
use vstd::prelude::*;

verus! {

/// A byte displacement, sign-extended to 16 bits.
pub open spec fn sext8_16(b: u8) -> u16 {
    ((b as i8) as i16) as u16
}

/// A byte displacement, sign-extended to 32 bits.
pub open spec fn sext8_32(b: u8) -> u32 {
    ((b as i8) as i32) as u32
}

/// A register field with its REX extension.
pub open spec fn extended(field: u8, rex: bool) -> u8 {
    if rex { field | 8 } else { field }
}

impl State {
    /// The state with the instruction stream translated.
    pub open spec fn fetching(self) -> State {
        if self.fetch.valid {
            self
        } else {
            let linear = self.ip_linear();
            let (s, phys) = self.access(linear, Access::Fetch);
            State { fetch: FetchCache { phys, linear, valid: true }, ..s }
        }
    }

    /// The next byte of the instruction stream, not consumed.
    #[verifier::opaque]
    pub open spec fn peek8(self) -> (State, u8) {
        let s = self.fetching();
        (s, s.mem.ram8(s.fetch.phys))
    }

    /// The instruction pointer moved past one byte, at the mode's width.
    pub open spec fn ip_advanced(self) -> State {
        if self.long64() {
            State { rip: self.rip.wrapping_add(1), ..self }
        } else if self.pe {
            State { rip: self.eip().wrapping_add(1) as u64, ..self }
        } else {
            State { ip: self.ip.wrapping_add(1), ..self }
        }
    }

    /// The next byte of the instruction stream. The translation is dropped
    /// when the stream crosses into another page.
    #[verifier::opaque]
    pub open spec fn fetch8(self) -> (State, u8) {
        let s = self.fetching();
        let f = FetchCache {
            phys: s.fetch.phys.wrapping_add(1),
            linear: s.fetch.linear.wrapping_add(1),
            valid: s.fetch.linear & 0xFFF != 0xFFF,
        };
        (State { fetch: f, ..s.ip_advanced() }, s.mem.ram8(s.fetch.phys))
    }

    /// A little-endian 16-bit value from the instruction stream.
    #[verifier::opaque]
    pub open spec fn fetch16(self) -> (State, u16) {
        let (s1, lo) = self.fetch8();
        let (s2, hi) = s1.fetch8();
        (s2, crate::memory::le16(lo, hi))
    }

    /// A little-endian 32-bit value from the instruction stream.
    #[verifier::opaque]
    pub open spec fn fetch32(self) -> (State, u32) {
        let (s1, lo) = self.fetch16();
        let (s2, hi) = s1.fetch16();
        (s2, (lo as u32) | ((hi as u32) << 16))
    }

    /// A little-endian 64-bit value from the instruction stream.
    #[verifier::opaque]
    pub open spec fn fetch64(self) -> (State, u64) {
        let (s1, lo) = self.fetch32();
        let (s2, hi) = s1.fetch32();
        (s2, crate::memory::halves64(lo, hi))
    }

    /// A ModR/M byte's fields with the REX extensions in force. `rm` is
    /// extended only where it names a register.
    pub open spec fn modrm_fields(self, byte: u8) -> ModRm {
        let m = ModRm::of(byte);
        ModRm {
            reg: extended(m.reg, self.pfx.rex_r),
            rm: extended(m.rm, m.mod_field == 3 && self.pfx.rex_b),
            rex_b: self.pfx.rex_b,
            rex_x: self.pfx.rex_x,
            ..m
        }
    }

    /// A ModR/M byte's SIB byte, where it has one.
    pub open spec fn fetch_sib(self, m: ModRm) -> (State, ModRm) {
        if m.mod_field != 3 && m.rm_raw == 4 {
            let (s, b) = self.fetch8();
            (s, ModRm { sib: Some(b), ..m })
        } else {
            (self, m)
        }
    }

    /// The displacement of a 32- or 64-bit addressing mode. With mod 00, rm
    /// 101 is a bare displacement, relative to RIP in 64-bit code, and so is a
    /// SIB base of 101, relative to nothing.
    pub open spec fn fetch_disp32(self, m: ModRm) -> (State, ModRm) {
        let sib_bare = match m.sib {
            Some(b) => b & 7 == 5,
            None => false,
        };
        if m.mod_field == 0 {
            if m.rm_raw == 5 || sib_bare {
                let (s, d) = self.fetch32();
                (
                    s,
                    ModRm {
                        disp32: Some(d),
                        rip_rel: m.rm_raw == 5 && self.long64(),
                        ..m
                    },
                )
            } else {
                (self, m)
            }
        } else if m.mod_field == 1 {
            let (s, b) = self.fetch8();
            (s, ModRm { disp32: Some(sext8_32(b)), ..m })
        } else if m.mod_field == 2 {
            let (s, d) = self.fetch32();
            (s, ModRm { disp32: Some(d), ..m })
        } else {
            (self, m)
        }
    }

    /// The displacement of a 16-bit addressing mode.
    pub open spec fn fetch_disp16(self, m: ModRm) -> (State, ModRm) {
        if m.mod_field == 0 {
            if m.rm_raw == 6 {
                let (s, d) = self.fetch16();
                (s, ModRm { disp16: Some(d), ..m })
            } else {
                (self, m)
            }
        } else if m.mod_field == 1 {
            let (s, b) = self.fetch8();
            (s, ModRm { disp8: Some(sext8_16(b)), ..m })
        } else if m.mod_field == 2 {
            let (s, d) = self.fetch16();
            (s, ModRm { disp16: Some(d), ..m })
        } else {
            (self, m)
        }
    }

    /// A ModR/M byte with the SIB byte and the displacement it implies.
    #[verifier::opaque]
    pub open spec fn fetch_modrm(self) -> (State, ModRm) {
        let (s, byte) = self.fetch8();
        let m = self.modrm_fields(byte);
        if self.pfx.addrsize {
            let (t, m2) = s.fetch_sib(m);
            t.fetch_disp32(m2)
        } else {
            s.fetch_disp16(m)
        }
    }
}

impl Cpu {
    /// Ensure the fetch cache is valid for the current RIP. Called once at the
    /// start of an instruction (or after a page-boundary crossing).
    fn ensure_phys_ip(&mut self)
        ensures
            final(self)@ == old(self)@.fetching(),
            final(self)@.fetch.valid,
    {
        if !self.fetch.valid {
            let linear: u64 = self.ip_linear();
            let phys: usize = self.apply_paging_fetch(linear);
            self.fetch = FetchCache { phys, linear, valid: true };
        }
    }

    /// Peek at the next instruction byte without advancing RIP. Used by the
    /// decoder's prefix loop.
    pub fn peek_u8(&mut self) -> (b: u8)
        ensures
            (final(self)@, b) == old(self)@.peek8(),
    {
        proof {
            reveal(State::peek8);
        }
        self.ensure_phys_ip();
        self.mem.read_u8_raw(self.fetch.phys)
    }

    /// Move the instruction pointer past one byte.
    fn advance_ip(&mut self)
        ensures
            final(self)@ == old(self)@.ip_advanced(),
    {
        if self.long64() {
            self.rip = self.rip.wrapping_add(1);
        } else if self.pe {
            self.rip = (self.rip as u32).wrapping_add(1) as u64;
        } else {
            self.ip = self.ip.wrapping_add(1);
        }
    }

    /// Fetch the next instruction byte.
    pub fn fetch_u8(&mut self) -> (b: u8)
        ensures
            (final(self)@, b) == old(self)@.fetch8(),
    {
        proof {
            reveal(State::fetch8);
        }
        self.ensure_phys_ip();
        let f = self.fetch;
        let b: u8 = self.mem.read_u8_raw(f.phys);
        self.advance_ip();
        // Advance the cached addresses. If the stream just crossed a page
        // boundary, invalidate so the next fetch re-translates.
        self.fetch = FetchCache {
            phys: f.phys.wrapping_add(1),
            linear: f.linear.wrapping_add(1),
            valid: f.linear & 0xFFF != 0xFFF,
        };
        b
    }

    /// Fetch a 16-bit immediate. Either byte may be the first of a new page,
    /// whose physical address is unrelated to the last one's.
    pub fn fetch_u16(&mut self) -> (v: u16)
        ensures
            (final(self)@, v) == old(self)@.fetch16(),
    {
        proof {
            reveal(State::fetch16);
        }
        let lo: u16 = self.fetch_u8() as u16;
        let hi: u16 = self.fetch_u8() as u16;
        lo | (hi << 8)
    }

    /// Fetch a 32-bit immediate.
    pub fn fetch_u32(&mut self) -> (v: u32)
        ensures
            (final(self)@, v) == old(self)@.fetch32(),
    {
        proof {
            reveal(State::fetch32);
        }
        let lo: u32 = self.fetch_u16() as u32;
        let hi: u32 = self.fetch_u16() as u32;
        lo | (hi << 16)
    }

    /// Fetch a 64-bit immediate.
    pub fn fetch_u64(&mut self) -> (v: u64)
        ensures
            (final(self)@, v) == old(self)@.fetch64(),
    {
        proof {
            reveal(State::fetch64);
        }
        let lo: u64 = self.fetch_u32() as u64;
        let hi: u64 = self.fetch_u32() as u64;
        lo | (hi << 32)
    }

    /// Fetch the displacement of a 32- or 64-bit addressing mode.
    fn fetch_disp32(&mut self, m: ModRm) -> (r: ModRm)
        ensures
            (final(self)@, r) == old(self)@.fetch_disp32(m),
    {
        let mut modrm = m;
        match modrm.mod_field {
            0 => {
                // mod=00, rm=101 -> disp32; SIB base=101 -> disp32.
                let sib_bare = match modrm.sib {
                    Some(b) => b & 7 == 5,
                    None => false,
                };
                if modrm.rm_raw == 5 || sib_bare {
                    modrm.rip_rel = modrm.rm_raw == 5 && self.long64();
                    let d: u32 = self.fetch_u32();
                    modrm.disp32 = Some(d);
                }
            },
            1 => {
                let b: u8 = self.fetch_u8();
                modrm.disp32 = Some(((b as i8) as i32) as u32);
            },
            2 => {
                let d: u32 = self.fetch_u32();
                modrm.disp32 = Some(d);
            },
            _ => {},
        }
        modrm
    }

    /// Fetch the displacement of a 16-bit addressing mode.
    fn fetch_disp16(&mut self, m: ModRm) -> (r: ModRm)
        ensures
            (final(self)@, r) == old(self)@.fetch_disp16(m),
    {
        let mut modrm = m;
        match modrm.mod_field {
            0 => {
                if modrm.rm_raw == 6 {
                    let d: u16 = self.fetch_u16();
                    modrm.disp16 = Some(d);
                }
            },
            1 => {
                let b: u8 = self.fetch_u8();
                modrm.disp8 = Some(((b as i8) as i16) as u16);
            },
            2 => {
                let d: u16 = self.fetch_u16();
                modrm.disp16 = Some(d);
            },
            _ => {},
        }
        modrm
    }

    /// Read the ModR/M byte and decode it into a `ModRm` descriptor, fetching
    /// any SIB byte and displacement bytes it implies (based on the address
    /// size).
    pub fn fetch_modrm(&mut self) -> (m: ModRm)
        ensures
            (final(self)@, m) == old(self)@.fetch_modrm(),
    {
        proof {
            reveal(State::fetch_modrm);
        }
        let pfx = self.pfx;
        let byte: u8 = self.fetch_u8();
        let mut modrm = ModRm::from_byte(byte);
        if pfx.rex_r {
            modrm.reg = modrm.reg | 8;
        }
        if modrm.mod_field == 3 && pfx.rex_b {
            modrm.rm = modrm.rm | 8;
        }
        modrm.rex_b = pfx.rex_b;
        modrm.rex_x = pfx.rex_x;
        if pfx.addrsize {
            if modrm.mod_field != 3 && modrm.rm_raw == 4 {
                let sib: u8 = self.fetch_u8();
                modrm.sib = Some(sib);
            }
            self.fetch_disp32(modrm)
        } else {
            self.fetch_disp16(modrm)
        }
    }
}

} // verus!
