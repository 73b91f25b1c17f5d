//! Memory operands: effective addresses, and loads and stores of every width,
//! split where they straddle a page.

use crate::cpu::address::Access;
use crate::cpu::{Cpu, SegReg};
use crate::memory::MemView;
use crate::modrm::ModRm;
use crate::state::State;
use vstd::prelude::*;

verus! {

/// A 32-bit displacement, sign-extended to 64 bits.
pub open spec fn sext32_64(d: u32) -> u64 {
    ((d as i32) as i64) as u64
}

/// The bytes an operand of `w` bits takes. Widths other than 64, 32 and 16
/// stand for a byte.
pub open spec fn bytes_of(w: u32) -> u32 {
    if w == 64 {
        8
    } else if w == 32 {
        4
    } else if w == 16 {
        2
    } else {
        1
    }
}

/// Does an access of `bytes` bytes at `phys` run over the end of its page?
pub open spec fn crosses(phys: usize, bytes: u32) -> bool {
    (phys & 0xFFF) + bytes > 0x1000
}

/// Where byte `i` of a split access is: `first` bytes at `phys`, the rest at
/// the start of another page.
pub open spec fn split_addr(phys: usize, first: usize, next: usize, i: usize) -> usize {
    if i < first {
        phys.wrapping_add(i)
    } else {
        next.wrapping_add((i - first) as usize)
    }
}

impl MemView {
    /// The value at a physical address, at a width.
    pub open spec fn read_w(self, addr: usize, w: u32) -> u64 {
        if w == 64 {
            self.read64(addr)
        } else if w == 32 {
            self.read32(addr) as u64
        } else if w == 16 {
            self.read16(addr) as u64
        } else {
            self.read8(addr) as u64
        }
    }

    /// Memory after a store at a width.
    pub open spec fn write_w(self, addr: usize, w: u32, v: u64) -> MemView {
        if w == 64 {
            self.write64(addr, v)
        } else if w == 32 {
            self.write32(addr, v as u32)
        } else if w == 16 {
            self.write16(addr, v as u16)
        } else {
            self.write8(addr, v as u8)
        }
    }

    /// The little-endian value of the first `n` bytes of a split access.
    pub open spec fn gathered(self, phys: usize, first: usize, next: usize, n: int) -> u64
        decreases n,
    {
        if n <= 0 {
            0
        } else {
            self.gathered(phys, first, next, n - 1) | ((self.read8(
                split_addr(phys, first, next, (n - 1) as usize),
            ) as u64) << ((n - 1) * 8) as u64)
        }
    }

    /// Memory after the first `n` bytes of a split store.
    pub open spec fn scattered(
        self,
        phys: usize,
        first: usize,
        next: usize,
        v: u64,
        n: int,
    ) -> MemView
        decreases n,
    {
        if n <= 0 {
            self
        } else {
            self.scattered(phys, first, next, v, n - 1).write8(
                split_addr(phys, first, next, (n - 1) as usize),
                (v >> ((n - 1) * 8) as u64) as u8,
            )
        }
    }
}

impl State {
    /// The segment a memory operand is in, honouring any override.
    pub open spec fn operand_seg(self, default: SegReg) -> SegReg {
        match self.pfx.seg_override {
            Some(s) => s,
            None => default,
        }
    }

    /// The base of a 16-bit addressing mode, and the segment it defaults to.
    pub open spec fn base16(self, rm: u8) -> (u16, SegReg) {
        if rm == 0 {
            (self.reg16(3).wrapping_add(self.reg16(6)), SegReg::Ds)
        } else if rm == 1 {
            (self.reg16(3).wrapping_add(self.reg16(7)), SegReg::Ds)
        } else if rm == 2 {
            (self.reg16(5).wrapping_add(self.reg16(6)), SegReg::Ss)
        } else if rm == 3 {
            (self.reg16(5).wrapping_add(self.reg16(7)), SegReg::Ss)
        } else if rm == 4 {
            (self.reg16(6), SegReg::Ds)
        } else if rm == 5 {
            (self.reg16(7), SegReg::Ds)
        } else if rm == 6 {
            (self.reg16(5), SegReg::Ss)
        } else {
            (self.reg16(3), SegReg::Ds)
        }
    }

    /// The offset of a 16-bit-addressed operand.
    pub open spec fn ea16(self, m: ModRm) -> u32 {
        let base = self.base16(m.rm).0 as u32;
        let a = match m.disp8 {
            Some(d) => base.wrapping_add(d as u32),
            None => base,
        };
        match m.disp16 {
            Some(d) => a.wrapping_add(d as u32),
            None => a,
        }
    }

    /// The base-and-index part of a 32- or 64-bit addressing mode, and the
    /// segment it defaults to: SS when the base is the stack or frame pointer.
    pub open spec fn base32(self, m: ModRm) -> (u64, SegReg) {
        match m.sib {
            Some(sib) => {
                let index = crate::cpu::fetch::extended((sib >> 3) & 7, m.rex_x);
                let base = crate::cpu::fetch::extended(sib & 7, m.rex_b);
                let scaled = if index != 4 {
                    self.reg64(index).wrapping_mul(1u64 << ((sib >> 6) & 3))
                } else {
                    0u64
                };
                if m.mod_field == 0 && sib & 7 == 5 {
                    (scaled, SegReg::Ds)
                } else {
                    (
                        scaled.wrapping_add(self.reg64(base)),
                        if base == 4 || base == 5 { SegReg::Ss } else { SegReg::Ds },
                    )
                }
            },
            None => {
                let base = crate::cpu::fetch::extended(m.rm_raw, m.rex_b);
                if m.rip_rel {
                    (self.rip, SegReg::Ds)
                } else if m.mod_field == 0 && m.rm_raw == 5 {
                    (0u64, SegReg::Ds)
                } else {
                    (
                        self.reg64(base),
                        if base == 4 || base == 5 { SegReg::Ss } else { SegReg::Ds },
                    )
                }
            },
        }
    }

    /// The offset of a 32- or 64-bit-addressed operand and its default
    /// segment. RIP-relative operands are measured from the end of the
    /// instruction, which is where RIP stands once it has been decoded.
    #[verifier::opaque]
    pub open spec fn ea32(self, m: ModRm) -> (u64, SegReg) {
        let (base, seg) = self.base32(m);
        let ea = match m.disp32 {
            Some(d) => base.wrapping_add(sext32_64(d)),
            None => base,
        };
        (if self.pfx.addr64 { ea } else { ea & 0xFFFF_FFFF }, seg)
    }

    /// The offset of a memory operand, without its segment.
    pub open spec fn ea(self, m: ModRm) -> u64 {
        if self.pfx.addrsize { self.ea32(m).0 } else { self.ea16(m) as u64 }
    }

    /// The linear address of what lies `disp` bytes from a memory operand, in
    /// its segment.
    #[verifier::opaque]
    pub open spec fn rm_linear_by(self, m: ModRm, disp: u64) -> u64 {
        if self.pfx.addrsize {
            self.linear_addr(self.operand_seg(self.ea32(m).1), self.ea32(m).0.wrapping_add(disp))
        } else {
            self.linear_addr(
                self.operand_seg(self.base16(m.rm).1),
                (self.ea16(m) as u64).wrapping_add(disp),
            )
        }
    }

    /// The linear address of a 16-bit-addressed operand.
    pub open spec fn linear16(self, m: ModRm) -> u64 {
        self.linear_addr(self.operand_seg(self.base16(m.rm).1), self.ea16(m) as u64)
    }

    /// The linear address of a 32- or 64-bit-addressed operand.
    pub open spec fn linear32(self, m: ModRm) -> u64 {
        self.linear_addr(self.operand_seg(self.ea32(m).1), self.ea32(m).0)
    }

    /// The linear address of a memory operand.
    #[verifier::opaque]
    pub open spec fn rm_linear(self, m: ModRm) -> u64 {
        if self.pfx.addrsize { self.linear32(m) } else { self.linear16(m) }
    }

    /// The second page of an access that crosses out of `phys`'s page.
    pub open spec fn next_page(self, linear: u64, phys: usize, access: Access) -> (State, usize) {
        self.access(linear.wrapping_add((0x1000 - (phys & 0xFFF)) as u64), access)
    }

    /// The value a split load sees.
    #[verifier::opaque]
    pub open spec fn read_split(self, phys: usize, linear: u64, bytes: u32) -> (State, u64) {
        let (s, next) = self.next_page(linear, phys, Access::Read);
        (s, s.mem.gathered(phys, (0x1000 - (phys & 0xFFF)) as usize, next, bytes as int))
    }

    /// The state after a split store: nothing is written unless both pages
    /// can be.
    #[verifier::opaque]
    pub open spec fn write_split(self, phys: usize, linear: u64, bytes: u32, v: u64) -> State {
        let (s, next) = self.next_page(linear, phys, Access::Write);
        if s.faulted() {
            s
        } else {
            State {
                mem: s.mem.scattered(
                    phys,
                    (0x1000 - (phys & 0xFFF)) as usize,
                    next,
                    v,
                    bytes as int,
                ),
                ..s
            }
        }
    }

    /// A load at a width from a linear address already translated to `phys`.
    #[verifier::opaque]
    pub open spec fn load_at(self, phys: usize, linear: u64, w: u32) -> (State, u64) {
        if !self.faulted() && crosses(phys, bytes_of(w)) {
            self.read_split(phys, linear, bytes_of(w))
        } else {
            (self, self.mem.read_w(phys, w))
        }
    }

    /// A store at a width to a linear address already translated to `phys`.
    /// A faulting instruction stores nothing.
    #[verifier::opaque]
    pub open spec fn store_at(self, phys: usize, linear: u64, w: u32, v: u64) -> State {
        if self.faulted() {
            self
        } else if crosses(phys, bytes_of(w)) {
            self.write_split(phys, linear, bytes_of(w), v)
        } else {
            State { mem: self.mem.write_w(phys, w, v), ..self }
        }
    }

    /// A load at a width from a linear address.
    #[verifier::opaque]
    pub open spec fn load(self, linear: u64, w: u32) -> (State, u64) {
        let (s, phys) = self.access(linear, Access::Read);
        s.load_at(phys, linear, w)
    }

    /// A store at a width to a linear address.
    #[verifier::opaque]
    pub open spec fn store(self, linear: u64, w: u32, v: u64) -> State {
        let (s, phys) = self.access(linear, Access::Write);
        s.store_at(phys, linear, w, v)
    }

    /// The value of a ModR/M operand at a width.
    #[verifier::opaque]
    pub open spec fn read_rm(self, m: ModRm, w: u32) -> (State, u64) {
        if m.mod_field == 3 {
            (self, self.reg_w(m.rm, w))
        } else {
            self.load(self.rm_linear(m), w)
        }
    }

    /// The state after a ModR/M operand has been written at a width. Nothing
    /// is written once the instruction has faulted.
    #[verifier::opaque]
    pub open spec fn write_rm(self, m: ModRm, w: u32, v: u64) -> State {
        if self.faulted() {
            self
        } else if m.mod_field == 3 {
            self.with_reg_w(m.rm, w, v)
        } else {
            self.store(self.rm_linear(m), w, v)
        }
    }
}

/// The bytes an operand of `w` bits takes.
pub fn byte_count(w: u32) -> (n: u32)
    ensures
        n == bytes_of(w),
{
    match w {
        64 => 8,
        32 => 4,
        16 => 2,
        _ => 1,
    }
}

proof fn lemma_scale(sib: u8)
    ensures
        (sib >> 6) & 3 < 4,
{
    crate::bits::lemma_masks();
}

impl Cpu {
    /// The segment register used for a memory operand, honouring any override.
    pub fn operand_seg_for_exec(&self, default: SegReg) -> (s: SegReg)
        ensures
            s == self@.operand_seg(default),
    {
        match self.pfx.seg_override {
            Some(s) => s,
            None => default,
        }
    }

    /// The base of a 16-bit addressing mode, and the segment it defaults to.
    fn base16(&self, rm: u8) -> (r: (u16, SegReg))
        ensures
            r == self@.base16(rm),
    {
        match rm {
            0 => (self.bx().wrapping_add(self.si()), SegReg::Ds),
            1 => (self.bx().wrapping_add(self.di()), SegReg::Ds),
            2 => (self.bp().wrapping_add(self.si()), SegReg::Ss),
            3 => (self.bp().wrapping_add(self.di()), SegReg::Ss),
            4 => (self.si(), SegReg::Ds),
            5 => (self.di(), SegReg::Ds),
            6 => (self.bp(), SegReg::Ss),
            _ => (self.bx(), SegReg::Ds),
        }
    }

    /// Compute the offset (without segment translation) of a 16-bit-addressed
    /// memory operand.
    pub fn modrm_offset(&self, m: &ModRm) -> (ea: u32)
        ensures
            ea == self@.ea16(*m),
    {
        let (base, _): (u16, SegReg) = self.base16(m.rm);
        let mut ea: u32 = base as u32;
        if let Some(d8) = m.disp8 {
            ea = ea.wrapping_add(d8 as u32);
        }
        if let Some(d16) = m.disp16 {
            ea = ea.wrapping_add(d16 as u32);
        }
        ea
    }

    /// The base-and-index part of a 32- or 64-bit addressing mode.
    fn base32(&self, m: &ModRm) -> (r: (u64, SegReg))
        ensures
            r == self@.base32(*m),
    {
        match m.sib {
            Some(sib) => {
                let mut index: u8 = (sib >> 3) & 7;
                if m.rex_x {
                    index = index | 8;
                }
                let mut base: u8 = sib & 7;
                if m.rex_b {
                    base = base | 8;
                }
                proof {
                    lemma_scale(sib);
                }
                let scaled: u64 = if index != 4 {
                    self.reg64(index).wrapping_mul(1u64 << ((sib >> 6) & 3))
                } else {
                    0
                };
                if m.mod_field == 0 && sib & 7 == 5 {
                    (scaled, SegReg::Ds)
                } else {
                    let seg = if base == 4 || base == 5 {
                        SegReg::Ss
                    } else {
                        SegReg::Ds
                    };
                    (scaled.wrapping_add(self.reg64(base)), seg)
                }
            },
            None => {
                let mut base: u8 = m.rm_raw;
                if m.rex_b {
                    base = base | 8;
                }
                if m.rip_rel {
                    (self.rip, SegReg::Ds)
                } else if m.mod_field == 0 && m.rm_raw == 5 {
                    // A bare displacement: no base register.
                    (0, SegReg::Ds)
                } else {
                    let seg = if base == 4 || base == 5 {
                        SegReg::Ss
                    } else {
                        SegReg::Ds
                    };
                    (self.reg64(base), seg)
                }
            },
        }
    }

    /// Compute the offset (without segment translation) of a 32- or
    /// 64-bit-addressed memory operand, and the segment it defaults to.
    pub fn modrm_ea32(&self, m: &ModRm) -> (r: (u64, SegReg))
        ensures
            r == self@.ea32(*m),
    {
        proof {
            reveal(State::ea32);
        }
        let (base, seg): (u64, SegReg) = self.base32(m);
        let ea: u64 = match m.disp32 {
            Some(d) => base.wrapping_add(((d as i32) as i64) as u64),
            None => base,
        };
        if self.pfx.addr64 {
            (ea, seg)
        } else {
            (ea & 0xFFFF_FFFF, seg)
        }
    }

    /// The low 32 bits of `modrm_ea32`'s offset.
    pub fn modrm_offset32(&self, m: &ModRm) -> (ea: u32)
        ensures
            ea == self@.ea32(*m).0 as u32,
    {
        self.modrm_ea32(m).0 as u32
    }

    /// The offset of a memory operand, without its segment.
    pub fn modrm_ea(&self, m: &ModRm) -> (ea: u64)
        ensures
            ea == self@.ea(*m),
    {
        if self.pfx.addrsize {
            self.modrm_ea32(m).0
        } else {
            self.modrm_offset(m) as u64
        }
    }

    /// The linear address of a memory operand.
    pub fn modrm_linear(&self, m: &ModRm) -> (a: u64)
        ensures
            a == self@.rm_linear(*m),
    {
        proof {
            reveal(State::rm_linear);
        }
        if self.pfx.addrsize {
            self.linear32(m)
        } else {
            self.linear16(m)
        }
    }

    /// Does an access run over the end of its page?
    pub fn straddles(phys: usize, bytes: u32) -> (b: bool)
        requires
            bytes <= 16,
        ensures
            b == crosses(phys, bytes),
    {
        proof {
            crate::bits::lemma_masks();
        }
        (phys & 0xFFF) + bytes as usize > 0x1000
    }

    /// Load a value whose bytes lie on two pages, which need not be adjacent
    /// in physical memory.
    pub fn read_split(&mut self, phys: usize, linear: u64, bytes: u32) -> (v: u64)
        requires
            bytes <= 8,
        ensures
            (final(self)@, v) == old(self)@.read_split(phys, linear, bytes),
    {
        proof {
            reveal(State::read_split);
            crate::bits::lemma_masks();
        }
        let first: usize = 0x1000 - (phys & 0xFFF);
        let next: usize = self.apply_paging(linear.wrapping_add(first as u64));
        self.mem.gather(phys, first, next, bytes)
    }

    /// Store a value whose bytes lie on two pages. Both pages are translated
    /// before anything is written, so a store that faults on the second one
    /// leaves the first untouched.
    pub fn write_split(&mut self, phys: usize, linear: u64, bytes: u32, v: u64)
        requires
            bytes <= 8,
        ensures
            final(self)@ == old(self)@.write_split(phys, linear, bytes, v),
    {
        proof {
            reveal(State::write_split);
            crate::bits::lemma_masks();
        }
        let first: usize = 0x1000 - (phys & 0xFFF);
        let next: usize = self.apply_paging_access(linear.wrapping_add(first as u64), true);
        if self.pending_exception.is_some() {
            return;
        }
        self.mem.scatter(phys, first, next, v, bytes);
    }

    /// Read memory at a width.
    pub fn mem_read_w(&self, addr: usize, w: u32) -> (v: u64)
        ensures
            v == self@.mem.read_w(addr, w),
    {
        self.mem.read_w(addr, w)
    }

    /// Write memory at a width.
    pub fn mem_write_w(&mut self, addr: usize, w: u32, v: u64)
        ensures
            final(self)@ == (State { mem: old(self)@.mem.write_w(addr, w, v), ..old(self)@ }),
    {
        self.mem.write_w(addr, w, v);
    }

    /// Load from a linear address already translated to `phys`, split where it
    /// straddles a page.
    pub fn load_at(&mut self, phys: usize, linear: u64, w: u32) -> (v: u64)
        ensures
            (final(self)@, v) == old(self)@.load_at(phys, linear, w),
    {
        proof {
            reveal(State::load_at);
        }
        let bytes: u32 = byte_count(w);
        if self.pending_exception.is_none() && Self::straddles(phys, bytes) {
            return self.read_split(phys, linear, bytes);
        }
        self.mem_read_w(phys, w)
    }

    /// Store to a linear address already translated to `phys`.
    pub fn store_at(&mut self, phys: usize, linear: u64, w: u32, v: u64)
        ensures
            final(self)@ == old(self)@.store_at(phys, linear, w, v),
    {
        proof {
            reveal(State::store_at);
        }
        if self.pending_exception.is_some() {
            return;
        }
        let bytes: u32 = byte_count(w);
        if Self::straddles(phys, bytes) {
            self.write_split(phys, linear, bytes, v);
            return;
        }
        self.mem_write_w(phys, w, v);
    }

    /// Load at a width from a linear address.
    pub fn load(&mut self, linear: u64, w: u32) -> (v: u64)
        ensures
            (final(self)@, v) == old(self)@.load(linear, w),
    {
        proof {
            reveal(State::load);
        }
        let phys: usize = self.apply_paging(linear);
        self.load_at(phys, linear, w)
    }

    /// Store at a width to a linear address.
    pub fn store(&mut self, linear: u64, w: u32, v: u64)
        ensures
            final(self)@ == old(self)@.store(linear, w, v),
    {
        proof {
            reveal(State::store);
        }
        let phys: usize = self.apply_paging_access(linear, true);
        self.store_at(phys, linear, w, v);
    }

    /// Read a ModR/M operand at a width.
    pub fn read_rm_w(&mut self, m: &ModRm, w: u32) -> (v: u64)
        ensures
            (final(self)@, v) == old(self)@.read_rm(*m, w),
    {
        proof {
            reveal(State::read_rm);
        }
        if m.is_reg() {
            return self.reg_w(m.rm, w);
        }
        let linear: u64 = self.modrm_linear(m);
        self.load(linear, w)
    }

    /// Write a ModR/M operand at a width.
    pub fn write_rm_w(&mut self, m: &ModRm, w: u32, v: u64)
        ensures
            final(self)@ == old(self)@.write_rm(*m, w, v),
    {
        proof {
            reveal(State::write_rm);
        }
        if self.pending_exception.is_some() {
            return;
        }
        if m.is_reg() {
            self.set_reg_w_raw(m.rm, w, v);
            return;
        }
        let linear: u64 = self.modrm_linear(m);
        self.store(linear, w, v);
    }

    /// Read an 8-bit ModR/M operand.
    pub fn read_rm8(&mut self, m: &ModRm) -> (v: u8)
        ensures
            final(self)@ == old(self)@.read_rm(*m, 8).0,
            v == old(self)@.read_rm(*m, 8).1 as u8,
    {
        self.read_rm_w(m, 8) as u8
    }

    /// Write an 8-bit ModR/M operand.
    pub fn write_rm8(&mut self, m: &ModRm, val: u8)
        ensures
            final(self)@ == old(self)@.write_rm(*m, 8, val as u64),
    {
        self.write_rm_w(m, 8, val as u64);
    }

    /// Read a 16-bit ModR/M operand.
    pub fn read_rm16(&mut self, m: &ModRm) -> (v: u16)
        ensures
            final(self)@ == old(self)@.read_rm(*m, 16).0,
            v == old(self)@.read_rm(*m, 16).1 as u16,
    {
        self.read_rm_w(m, 16) as u16
    }

    /// Write a 16-bit ModR/M operand.
    pub fn write_rm16(&mut self, m: &ModRm, val: u16)
        ensures
            final(self)@ == old(self)@.write_rm(*m, 16, val as u64),
    {
        self.write_rm_w(m, 16, val as u64);
    }

    /// Read a 32-bit ModR/M operand.
    pub fn read_rm32(&mut self, m: &ModRm) -> (v: u32)
        ensures
            final(self)@ == old(self)@.read_rm(*m, 32).0,
            v == old(self)@.read_rm(*m, 32).1 as u32,
    {
        self.read_rm_w(m, 32) as u32
    }

    /// Write a 32-bit ModR/M operand.
    pub fn write_rm32(&mut self, m: &ModRm, val: u32)
        ensures
            final(self)@ == old(self)@.write_rm(*m, 32, val as u64),
    {
        self.write_rm_w(m, 32, val as u64);
    }

    /// Compute the physical address of a 16-bit-addressed memory operand.
    pub fn modrm_addr(&mut self, m: &ModRm) -> (phys: usize)
        ensures
            (final(self)@, phys) == old(self)@.access(old(self)@.linear16(*m), Access::Read),
    {
        self.modrm_addr_access_pub(m, false)
    }

    /// `modrm_addr` for a store.
    pub fn modrm_addr_write(&mut self, m: &ModRm) -> (phys: usize)
        ensures
            (final(self)@, phys) == old(self)@.access(old(self)@.linear16(*m), Access::Write),
    {
        self.modrm_addr_access_pub(m, true)
    }

    /// `modrm_addr` with the access type chosen by the caller.
    pub fn modrm_addr_access_pub(&mut self, m: &ModRm, write: bool) -> (phys: usize)
        ensures
            (final(self)@, phys) == old(self)@.access(
                old(self)@.linear16(*m),
                if write { Access::Write } else { Access::Read },
            ),
    {
        let linear: u64 = self.linear16(m);
        self.apply_paging_access(linear, write)
    }

    /// Compute the physical address of a 32-bit-addressed memory operand.
    pub fn modrm_addr32(&mut self, m: &ModRm) -> (phys: usize)
        ensures
            (final(self)@, phys) == old(self)@.access(old(self)@.linear32(*m), Access::Read),
    {
        self.modrm_addr32_access_pub(m, false)
    }

    /// `modrm_addr32` for a store.
    pub fn modrm_addr32_write(&mut self, m: &ModRm) -> (phys: usize)
        ensures
            (final(self)@, phys) == old(self)@.access(old(self)@.linear32(*m), Access::Write),
    {
        self.modrm_addr32_access_pub(m, true)
    }

    /// `modrm_addr32` with the access type chosen by the caller.
    pub fn modrm_addr32_access_pub(&mut self, m: &ModRm, write: bool) -> (phys: usize)
        ensures
            (final(self)@, phys) == old(self)@.access(
                old(self)@.linear32(*m),
                if write { Access::Write } else { Access::Read },
            ),
    {
        let linear: u64 = self.linear32(m);
        self.apply_paging_access(linear, write)
    }

    /// The linear address of what lies `disp` bytes from a memory operand.
    pub fn modrm_linear_by(&self, m: &ModRm, disp: u64) -> (a: u64)
        ensures
            a == self@.rm_linear_by(*m, disp),
    {
        proof {
            reveal(State::rm_linear_by);
        }
        if self.pfx.addrsize {
            let (ea, seg): (u64, SegReg) = self.modrm_ea32(m);
            self.linear_addr(self.operand_seg_for_exec(seg), ea.wrapping_add(disp))
        } else {
            let (_, seg): (u16, SegReg) = self.base16(m.rm);
            let ea: u64 = self.modrm_offset(m) as u64;
            self.linear_addr(self.operand_seg_for_exec(seg), ea.wrapping_add(disp))
        }
    }

    /// The linear address of a 16-bit-addressed operand.
    fn linear16(&self, m: &ModRm) -> (a: u64)
        ensures
            a == self@.linear16(*m),
    {
        let (_, seg): (u16, SegReg) = self.base16(m.rm);
        self.linear_addr(self.operand_seg_for_exec(seg), self.modrm_offset(m) as u64)
    }

    /// The linear address of a 32- or 64-bit-addressed operand.
    fn linear32(&self, m: &ModRm) -> (a: u64)
        ensures
            a == self@.linear32(*m),
    {
        let (ea, seg): (u64, SegReg) = self.modrm_ea32(m);
        self.linear_addr(self.operand_seg_for_exec(seg), ea)
    }
}

} // verus!
