//! Laws of memory operands: which address an addressing mode names, in
//! arithmetic on the registers.

use crate::cpu::SegReg;
use crate::laws::fields::{lemma_fields64, lemma_fields8, lemma_index, lemma_narrow};
use crate::laws::sums::as_signed;
use crate::modrm::ModRm;
use crate::state::State;
use vstd::arithmetic::power2::{lemma2_to64, pow2};
use vstd::prelude::*;

verus! {

/// A displacement, as a signed number; none is zero.
pub open spec fn displacement(m: ModRm) -> int {
    match m.disp32 {
        Some(d) => as_signed(d as int, 32),
        None => 0,
    }
}

/// An offset at the address size of the instruction.
pub open spec fn at_address_size(s: State, v: int) -> int {
    if s.pfx.addr64 { v % 0x1_0000_0000_0000_0000 } else { v % 0x1_0000_0000 }
}

/// A register's number, with the bit a REX prefix adds.
pub open spec fn numbered(field: int, rex: bool) -> int {
    if rex { field + 8 } else { field }
}

/// The scale of a SIB byte's index.
pub open spec fn scale_of(sib: u8) -> int {
    pow2((sib as int / 64) as nat) as int
}

/// A memory operand with a SIB byte: the base register, the index register
/// times one, two, four or eight, and the displacement, added up at the address
/// size. Index 100b is none; base 101b is none under mod 0. The stack and frame
/// pointers as bases are in the stack segment.
#[verifier::spinoff_prover]
pub proof fn law_scaled_operands(s: State, m: ModRm, sib: u8)
    requires
        m.sib == Some(sib),
        s.regs.len() == 16,
    ensures
        ({
            let i = numbered(sib as int / 8 % 8, m.rex_x);
            let b = numbered(sib as int % 8, m.rex_b);
            let bare = m.mod_field == 0 && sib as int % 8 == 5;
            let index = if i == 4 { 0 } else { s.regs[i] * scale_of(sib) };
            let base = if bare { 0 } else { s.regs[b] as int };
            &&& s.ea32(m).0 == at_address_size(s, base + index + displacement(m))
            &&& s.ea32(m).1 == if !bare && (b == 4 || b == 5) { SegReg::Ss } else { SegReg::Ds }
        }),
{
    reveal(State::ea32);
    lemma_fields8(sib);
    lemma_fields8((sib >> 3) & 7);
    lemma_fields8(sib & 7);
    lemma_fields8(((sib >> 3) & 7) | 8);
    lemma_fields8((sib & 7) | 8);
    lemma2_to64();
    let i = numbered(sib as int / 8 % 8, m.rex_x);
    let b = numbered(sib as int % 8, m.rex_b);
    let index = crate::cpu::fetch::extended((sib >> 3) & 7, m.rex_x);
    let base = crate::cpu::fetch::extended(sib & 7, m.rex_b);
    assert(index == i && base == b);
    assert(s.reg64(index) == s.regs[i] && s.reg64(base) == s.regs[b]);
    let k = (sib >> 6) & 3;
    assert(1u64 << k == scale_of(sib));
    let sc = s.regs[i] * scale_of(sib);
    assert(s.reg64(index).wrapping_mul(1u64 << k) == sc % 0x1_0000_0000_0000_0000);
    lemma_displaced(s, m);
    let regb = if m.mod_field == 0 && sib as int % 8 == 5 { 0 } else { s.regs[b] as int };
    let index_part = if i == 4 { 0 } else { sc };
    assert(s.base32(m).0 == (regb + index_part % 0x1_0000_0000_0000_0000)
        % 0x1_0000_0000_0000_0000);
    lemma_mods(regb, index_part, displacement(m));
}

/// Remainders taken early do not show in a remainder taken at the end.
proof fn lemma_mods(a: int, b: int, c: int)
    ensures
        ((a + b % 0x1_0000_0000_0000_0000) % 0x1_0000_0000_0000_0000 + c)
            % 0x1_0000_0000_0000_0000 == (a + b + c) % 0x1_0000_0000_0000_0000,
        ((a + b % 0x1_0000_0000_0000_0000) % 0x1_0000_0000_0000_0000 + c) % 0x1_0000_0000 == (a + b
            + c) % 0x1_0000_0000,
{
}

/// The displacement added, at the address size.
proof fn lemma_displaced(s: State, m: ModRm)
    ensures
        s.ea32(m).0 == at_address_size(s, s.base32(m).0 + displacement(m)),
{
    reveal(State::ea32);
    let base = s.base32(m).0;
    let ea = match m.disp32 {
        Some(d) => base.wrapping_add(crate::cpu::operand::sext32_64(d)),
        None => base,
    };
    assert(ea == (base + displacement(m)) % 0x1_0000_0000_0000_0000) by {
        match m.disp32 {
            Some(d) => {
                crate::laws::fields::lemma_extended(0, 0, d);
                lemma_signed32(d);
            },
            None => {},
        }
    }
    lemma_fields64(ea, 0);
    lemma_mods(0, base + displacement(m), 0);
}

/// A double word read as two's complement.
pub(crate) proof fn lemma_signed32(d: u32)
    ensures
        as_signed(d as int, 32) == if d < 0x8000_0000 { d as int } else { d - 0x1_0000_0000 },
{
    lemma2_to64();
}

/// A memory operand without a SIB byte: a register and a displacement, added up
/// at the address size. Under mod 0 register 101b is none, or RIP where the
/// operand is relative to it.
pub proof fn law_based_operands(s: State, m: ModRm)
    requires
        m.sib is None,
        m.rm_raw < 8,
        s.regs.len() == 16,
    ensures
        ({
            let b = numbered(m.rm_raw as int, m.rex_b);
            let bare = m.mod_field == 0 && m.rm_raw == 5;
            let base = if m.rip_rel {
                s.rip as int
            } else if bare {
                0
            } else {
                s.regs[b] as int
            };
            &&& s.ea32(m).0 == at_address_size(s, base + displacement(m))
            &&& s.ea32(m).1 == if !m.rip_rel && !bare && (b == 4 || b == 5) {
                SegReg::Ss
            } else {
                SegReg::Ds
            }
        }),
{
    lemma_displaced(s, m);
    reveal(State::ea32);
    lemma_fields8(m.rm_raw);
    lemma_fields8(m.rm_raw | 8);
}

/// A 16-bit register: the low half of the low half.
pub open spec fn word(s: State, i: int) -> int {
    s.regs[i] as int % 0x1_0000
}

/// A memory operand of 16-bit code: BX or BP, SI or DI, and the displacement.
/// Those with BP are in the stack segment.
#[verifier::spinoff_prover]
#[verifier::rlimit(40)]
pub proof fn law_word_operands(s: State, m: ModRm)
    requires
        m.rm < 8,
        s.regs.len() == 16,
    ensures
        ({
            let (bx, bp, si, di) = (word(s, 3), word(s, 5), word(s, 6), word(s, 7));
            let base = seq![bx + si, bx + di, bp + si, bp + di, si, di, bp, bx][m.rm as int];
            let d8 = if m.disp8 is Some { m.disp8->0 as int } else { 0 };
            let d16 = if m.disp16 is Some { m.disp16->0 as int } else { 0 };
            &&& s.ea16(m) as int % 0x1_0000 == (base + d8 + d16) % 0x1_0000
            &&& s.base16(m.rm).1 == if m.rm == 2 || m.rm == 3 || m.rm == 6 {
                SegReg::Ss
            } else {
                SegReg::Ds
            }
        }),
{
    lemma_index(3);
    lemma_index(5);
    lemma_index(6);
    lemma_index(7);
    lemma_narrow(s.regs[3]);
    lemma_narrow(s.regs[5]);
    lemma_narrow(s.regs[6]);
    lemma_narrow(s.regs[7]);
    assert(s.reg16(3) == word(s, 3) && s.reg16(5) == word(s, 5) && s.reg16(6) == word(s, 6)
        && s.reg16(7) == word(s, 7));
}

/// The segment of an operand is the one a prefix names, or its default; its
/// linear address is the segment's base plus the offset. In 64-bit code only FS
/// and GS have a base, in real mode a segment's base is sixteen times its
/// selector.
#[verifier::spinoff_prover]
pub proof fn law_operands_lie_in_their_segment(s: State, m: ModRm, g: SegReg)
    requires
        s.seg_desc.len() == 6,
        g == match s.pfx.seg_override {
            Some(o) => o,
            None => if s.pfx.addrsize { s.ea32(m).1 } else { s.base16(m.rm).1 },
        },
    ensures
        ({
            let offset = s.ea(m) as int;
            let n: int = match g {
                SegReg::Es => 0,
                SegReg::Cs => 1,
                SegReg::Ss => 2,
                SegReg::Ds => 3,
                SegReg::Fs => 4,
                SegReg::Gs => 5,
            };
            let selector = seq![s.es, s.cs, s.ss, s.ds, s.fs, s.gs][n];
            let base = if n == 4 {
                s.fs_base as int
            } else if n == 5 {
                s.gs_base as int
            } else {
                0
            };
            &&& s.long64() ==> s.rm_linear(m) == (base + offset) % 0x1_0000_0000_0000_0000
            &&& !s.long64() && s.pe ==> s.rm_linear(m) == (s.seg_desc[n].base + offset)
                % 0x1_0000_0000
            &&& !s.long64() && !s.pe && offset < 0x1_0000_0000 ==> s.rm_linear(m) == (selector * 16
                + offset) % 0x10_0000
        }),
{
    reveal(State::rm_linear);
    let offset = s.ea(m);
    assert(s.rm_linear(m) == s.linear_addr(g, offset));
    assert(offset as u32 == offset as int % 0x1_0000_0000) by {
        lemma_fields64(offset, 0);
    }
    let selector = seq![s.es, s.cs, s.ss, s.ds, s.fs, s.gs];
    assert(selector[0] == s.es && selector[1] == s.cs && selector[2] == s.ss && selector[3] == s.ds
        && selector[4] == s.fs && selector[5] == s.gs);
}

} // verus!
