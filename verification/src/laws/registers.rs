//! Laws of the register file: sixteen registers stored once, with every
//! narrower register a view of them.

use crate::cpu::SegReg;
use crate::state::State;
use vstd::prelude::*;

verus! {

proof fn lemma_views(r: u64, v16: u16, v8: u8, v32: u32, i: u8)
    by (bit_vector)
    ensures
        ((r & 0xFFFF_FFFF_FFFF_0000) | (v16 as u64)) as u16 == v16,
        ((r & 0xFFFF_FFFF_FFFF_0000) | (v16 as u64)) >> 16 == r >> 16,
        ((r & 0xFFFF_FFFF_FFFF_FF00) | (v8 as u64)) as u8 == v8,
        ((r & 0xFFFF_FFFF_FFFF_FF00) | (v8 as u64)) >> 8 == r >> 8,
        ((r & 0xFFFF_FFFF_FFFF_00FF) | ((v8 as u64) << 8)) as u8 == r as u8,
        (((r & 0xFFFF_FFFF_FFFF_00FF) | ((v8 as u64) << 8)) >> 8) as u8 == v8,
        ((r & 0xFFFF_FFFF_FFFF_00FF) | ((v8 as u64) << 8)) >> 16 == r >> 16,
        (v32 as u64) as u32 == v32,
        (v32 as u64) >> 32 == 0,
        i & 15 < 16,
{
}

/// A 32-bit write zero-extends into the whole register.
pub proof fn law_double_word_write_zero_extends(s: State, i: u8, v: u32)
    requires
        s.regs.len() == 16,
    ensures
        s.with_reg32(i, v).reg32(i) == v,
        s.with_reg32(i, v).reg64(i) == v as u64,
{
    lemma_views(0, 0, 0, v, i);
}

/// A 16-bit write is seen by the 16-bit view and preserves the upper 48 bits.
pub proof fn law_word_write_preserves_the_rest(s: State, i: u8, v: u16)
    requires
        s.regs.len() == 16,
    ensures
        s.with_reg16(i, v).reg16(i) == v,
        s.with_reg16(i, v).reg64(i) >> 16 == s.reg64(i) >> 16,
{
    lemma_views(s.reg64(i), v, 0, 0, i);
}

/// A byte write is seen by the byte register written and preserves every other
/// byte: AH, CH, DH and BH are the second bytes of the first four registers
/// unless a REX prefix renames them.
pub proof fn law_byte_write_preserves_the_rest(s: State, i: u8, v: u8)
    requires
        s.regs.len() == 16,
    ensures
        s.with_reg8(i, v).reg8(i) == v,
        !s.pfx.rex_present && 4 <= i < 8 ==> {
            let k = (i - 4) as u8;
            let t = s.with_reg8(i, v);
            &&& t.reg64(k) as u8 == s.reg64(k) as u8
            &&& t.reg64(k) >> 16 == s.reg64(k) >> 16
        },
        s.pfx.rex_present || i < 4 || i >= 8 ==> s.with_reg8(i, v).reg64(i) >> 8 == s.reg64(i) >> 8,
{
    lemma_views(s.reg64(i), 0, v, 0, i);
    if !s.pfx.rex_present && 4 <= i < 8 {
        let k = (i - 4) as u8;
        lemma_views(s.reg64(k), 0, v, 0, k);
    }
}

/// A register write of any width leaves the other registers, memory, the
/// flags and the segment registers alone.
pub proof fn law_register_writes_are_local(s: State, i: u8, w: u32, v: u64, j: u8, g: SegReg)
    requires
        s.regs.len() == 16,
        i & 15 != j & 15,
        w == 8 ==> s.pfx.rex_present || i < 4 || i >= 8,
        w == 8 || w == 16 || w == 32 || w == 64,
    ensures
        s.with_reg_w(i, w, v).reg64(j) == s.reg64(j),
        s.with_reg_w(i, w, v).mem == s.mem,
        s.with_reg_w(i, w, v).flags == s.flags,
        s.with_reg_w(i, w, v).seg(g) == s.seg(g),
{
    reveal(State::with_reg_w);
    lemma_views(0, 0, 0, 0, i);
    lemma_views(0, 0, 0, 0, j);
}

} // verus!
