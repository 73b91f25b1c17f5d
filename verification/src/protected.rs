//! Protected-mode support: segment descriptors, the GDT/IDT, and address
//! translation.
//!
//! A segment descriptor is an 8-byte structure. It is parsed into a
//! `Descriptor` with a base, a limit, and an attribute byte, which the CPU
//! caches for each loaded segment register.

use crate::cpu::SegReg;
use crate::memory::Memory;
use vstd::prelude::*;

verus! {

/// A parsed segment descriptor.
#[derive(Clone, Copy, Debug, PartialEq, Eq, Structural)]
pub struct Descriptor {
    pub base: u32,
    pub limit: u32,
    /// Access byte: bit 7 = P (present), bits 6-5 = DPL, bit 4 = S
    /// (0 = system segment), bits 3-0 = type.
    pub attr: u8,
    /// Granularity bit (G) and default operand size bit (D/B).
    pub g: bool,
    pub d_b: bool,
    /// Long bit: a code segment that holds 64-bit code.
    pub l: bool,
}

/// The 386 descriptor layout, as a little-endian u64:
///   bits 0-15:  limit 15:0
///   bits 16-31: base 15:0
///   bits 32-39: base 23:16
///   bits 40-47: type/attr
///   bits 48-51: limit 19:16
///   bits 52-55: AVL, L, D/B, G
///   bits 56-63: base 31:24
/// The limit counts pages rather than bytes when G is set.
#[verifier::opaque]
pub open spec fn parsed(raw: u64) -> Descriptor {
    let limit20 = ((raw & 0xFFFF) as u32) | ((((raw >> 48) & 0xF) as u32) << 16);
    let g = (raw >> 55) & 1 == 1;
    Descriptor {
        base: (((raw >> 16) & 0xFFFF) as u32) | ((((raw >> 32) & 0xFF) as u32) << 16) | ((((raw
            >> 56) & 0xFF) as u32) << 24),
        limit: if g { (limit20 << 12) | 0xFFF } else { limit20 },
        attr: ((raw >> 40) & 0xFF) as u8,
        g,
        d_b: (raw >> 54) & 1 == 1,
        l: (raw >> 53) & 1 == 1,
    }
}

impl Descriptor {
    /// An unloaded segment.
    pub open spec fn null() -> Descriptor {
        Descriptor { base: 0, limit: 0, attr: 0, g: false, d_b: false, l: false }
    }

    /// Parse an 8-byte descriptor (little-endian u64).
    pub fn parse(raw: u64) -> (d: Descriptor)
        ensures
            d == parsed(raw),
    {
        proof {
            reveal(parsed);
        }
        let base: u32 = (((raw >> 16) & 0xFFFF) as u32) | ((((raw >> 32) & 0xFF) as u32) << 16) | ((
        ((raw >> 56) & 0xFF) as u32) << 24);
        let limit20: u32 = ((raw & 0xFFFF) as u32) | ((((raw >> 48) & 0xF) as u32) << 16);
        let g = (raw >> 55) & 1 == 1;
        let d_b = (raw >> 54) & 1 == 1;
        let l = (raw >> 53) & 1 == 1;
        let limit: u32 = if g {
            (limit20 << 12) | 0xFFF
        } else {
            limit20
        };
        let attr: u8 = ((raw >> 40) & 0xFF) as u8;
        Descriptor { base, limit, attr, g, d_b, l }
    }

    /// True if the descriptor is present.
    pub fn present(&self) -> (b: bool)
        ensures
            b == (self.attr & 0x80 != 0),
    {
        self.attr & 0x80 != 0
    }

    /// True if this is a code segment (S=1, type bit 3 = 1).
    pub fn is_code(&self) -> (b: bool)
        ensures
            b == (self.attr & 0x18 == 0x18),
    {
        (self.attr & 0x18) == 0x18
    }

    /// True if this is a data segment (S=1, type bit 3 = 0).
    pub fn is_data(&self) -> (b: bool)
        ensures
            b == (self.attr & 0x18 == 0x10),
    {
        (self.attr & 0x18) == 0x10
    }

    /// True if this is a system segment (S=0).
    pub fn is_system(&self) -> (b: bool)
        ensures
            b == (self.attr & 0x10 == 0),
    {
        self.attr & 0x10 == 0
    }

    /// The DPL (descriptor privilege level), bits 6-5 of the attribute.
    pub fn dpl(&self) -> (v: u8)
        ensures
            v == (self.attr >> 5) & 3,
    {
        (self.attr >> 5) & 0x3
    }
}

impl Default for Descriptor {
    fn default() -> (d: Self)
        ensures
            d == Descriptor::null(),
    {
        Descriptor { base: 0, limit: 0, attr: 0, g: false, d_b: false, l: false }
    }
}

/// Read a descriptor from the GDT/IDT at the physical address
/// `base + index*8`, wrapping at 4 GiB.
pub fn read_descriptor(mem: &Memory, base: u32, index: u16) -> (d: Descriptor)
    ensures
        d == parsed(mem@.read64(base.wrapping_add((index * 8) as u32) as usize)),
{
    let addr: usize = Memory::phys32(base.wrapping_add((index as u32) * 8));
    Descriptor::parse(mem.read_u64(addr))
}

/// Translate a logical address in protected mode to a linear address.
/// `seg` is the cached descriptor for the segment register.
pub fn translate(seg: &Descriptor, offset: u32) -> (a: u32)
    ensures
        a == (seg.base + offset) % 0x1_0000_0000,
{
    seg.base.wrapping_add(offset)
}

/// The index of a segment register in the cached-descriptor arrays.
pub fn seg_index(s: SegReg) -> (i: usize)
    ensures
        i == s.index(),
        i < 6,
{
    match s {
        SegReg::Es => 0,
        SegReg::Cs => 1,
        SegReg::Ss => 2,
        SegReg::Ds => 3,
        SegReg::Fs => 4,
        SegReg::Gs => 5,
    }
}

} // verus!
