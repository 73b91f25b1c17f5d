//! Laws of the register views: what each narrower register is as a number, and
//! what a write to it does to the whole register.

use crate::instructions::alu::modulus;
use crate::laws::effects::low;
use crate::laws::fields::{lemma_fields64, lemma_fields8, lemma_replaced};
use crate::laws::sums::lemma_powers;
use crate::state::State;
use vstd::arithmetic::power2::lemma2_to64;
use vstd::prelude::*;

verus! {

/// Does a byte register's number name the second byte of one of the first four
/// registers?
pub open spec fn is_high(s: State, i: u8) -> bool {
    !s.pfx.rex_present && 4 <= i < 8
}

/// A register read at a width is the remainder of the whole one; AH, CH, DH and
/// BH are second bytes.
pub proof fn law_registers_are_remainders(s: State, i: u8, w: u32)
    requires
        s.regs.len() == 16,
        i < 16,
        w == 8 || w == 16 || w == 32 || w == 64,
    ensures
        s.reg_w(i, w) == if w == 8 && is_high(s, i) {
            s.regs[i - 4] as int / 0x100 % 0x100
        } else {
            low(s.regs[i as int] as int, w)
        },
{
    lemma_powers(w);
    lemma_fields8(i);
    lemma_fields64(s.regs[i as int], 0);
    assert(low(s.regs[i as int] as int, w) == s.regs[i as int] as int % modulus(w));
    if w == 8 && is_high(s, i) {
        lemma_fields8((i - 4) as u8);
        lemma_replaced(s.regs[i - 4], 0, 0);
    }
}

/// A write to a register at a width: at 64 bits it is the value, at 32 bits the
/// value below two to the 32nd with nothing above it, at 16 and 8 bits only that
/// part changes. No other register changes.
pub proof fn law_register_writes_replace_their_part(s: State, i: u8, w: u32, v: u64, j: int)
    requires
        s.regs.len() == 16,
        i < 16,
        w == 8 || w == 16 || w == 32 || w == 64,
        0 <= j < 16,
    ensures
        ({
            let t = s.with_reg_w(i, w, v);
            let k = if w == 8 && is_high(s, i) { i - 4 } else { i as int };
            let r = s.regs[j] as int;
            &&& t == (State { regs: t.regs, ..s })
            &&& t.regs.len() == 16
            &&& t.regs[j] == if j != k {
                r
            } else if w == 64 {
                v as int
            } else if w == 32 {
                v as int % 0x1_0000_0000
            } else if w == 16 {
                r / 0x1_0000 * 0x1_0000 + v as int % 0x1_0000
            } else if is_high(s, i) {
                r / 0x1_0000 * 0x1_0000 + v as int % 0x100 * 0x100 + r % 0x100
            } else {
                r / 0x100 * 0x100 + v as int % 0x100
            }
        }),
{
    reveal(State::with_reg_w);
    lemma_fields8(i);
    lemma_fields64(v, 0);
    lemma_replaced(s.regs[j], v, v as u8);
    if w == 8 && is_high(s, i) {
        lemma_fields8((i - 4) as u8);
    }
}

/// What was written at a width is read at it.
pub(crate) proof fn lemma_read_back(s: State, i: u8, w: u32, v: u64)
    requires
        s.regs.len() == 16,
        i < 16,
        w == 8 || w == 16 || w == 32 || w == 64,
    ensures
        s.with_reg_w(i, w, v).reg_w(i, w) == low(v as int, w),
        s.with_reg_w(i, w, v).regs.len() == 16,
{
    lemma2_to64();
    let t = s.with_reg_w(i, w, v);
    let k = if w == 8 && is_high(s, i) { i - 4 } else { i as int };
    law_register_writes_replace_their_part(s, i, w, v, k);
    law_registers_are_remainders(t, i, w);
}

/// Another register is read as before, at a width that is no byte's.
pub(crate) proof fn lemma_other_reg(s: State, i: u8, j: u8, w: u32, v: u64)
    requires
        s.regs.len() == 16,
        i < 16,
        j < 16,
        i != j,
        w == 16 || w == 32 || w == 64,
    ensures
        s.with_reg_w(i, w, v).reg_w(j, w) == s.reg_w(j, w),
{
    law_register_writes_replace_their_part(s, i, w, v, j as int);
    law_registers_are_remainders(s, j, w);
    law_registers_are_remainders(s.with_reg_w(i, w, v), j, w);
}

} // verus!
