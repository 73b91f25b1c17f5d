//! Laws of the stack and of memory operands: what was stored at a linear
//! address is loaded from it, and a pop undoes a push.

use crate::cpu::address::Access;
use crate::cpu::operand::bytes_of;
use crate::cpu::{SegReg, TLB_SIZE};
use crate::laws::frame::{law_access_frame, law_store_frame};
use crate::laws::memory::{
    law_store_touches_only_its_bytes, lemma_own, lemma_own8, narrow, plain,
};
use crate::laws::paging::{law_translation_is_remembered, lemma_slot};
use crate::memory::MemView;
use crate::state::State;
use vstd::prelude::*;

verus! {

/// The bytes of a split access lie in plain RAM, at different places.
pub open spec fn split_plain(m: MemView, phys: usize, first: usize, next: usize, n: int) -> bool {
    &&& forall|i: usize| i < n ==> plain(
        m,
        #[trigger] crate::cpu::operand::split_addr(phys, first, next, i),
        1,
    )
    &&& forall|i: usize, j: usize|
        #![trigger crate::cpu::operand::split_addr(phys, first, next, i), crate::cpu::operand::split_addr(phys, first, next, j)]
        i < j < n ==> crate::cpu::operand::split_addr(phys, first, next, i)
            != crate::cpu::operand::split_addr(phys, first, next, j)
}

/// Each byte of a split store is read back.
proof fn lemma_scatter(
    m: MemView,
    phys: usize,
    first: usize,
    next: usize,
    v: u64,
    n: int,
    i: usize,
)
    requires
        0 <= n <= 8,
        split_plain(m, phys, first, next, n),
    ensures
        m.scattered(phys, first, next, v, n).data.len() == m.data.len(),
        i < n ==> m.scattered(phys, first, next, v, n).read8(
            crate::cpu::operand::split_addr(phys, first, next, i),
        ) == (v >> (i * 8) as u64) as u8,
    decreases n,
{
    if n > 0 {
        lemma_scatter(m, phys, first, next, v, n - 1, i);
        let before = m.scattered(phys, first, next, v, n - 1);
        let k = (n - 1) as usize;
        let at = crate::cpu::operand::split_addr(phys, first, next, k);
        let b = (v >> ((n - 1) * 8) as u64) as u8;
        lemma_own8(before, at, b);
        if i < n - 1 {
            let other = crate::cpu::operand::split_addr(phys, first, next, i);
            assert(plain(m, other, 1));
            law_store_touches_only_its_bytes(before, at, 8, b as u64, other);
        }
    }
}

/// The bytes of a value, put together.
proof fn lemma_gathered_bits(v: u64)
    by (bit_vector)
    ensures
        (v >> 0u64) as u8 as u64 == (v as u8) as u64,
        ((v >> 0u64) as u8 as u64) | (((v >> 8u64) as u8 as u64) << 8u64) == (v as u16) as u64,
        ((v >> 0u64) as u8 as u64) | (((v >> 8u64) as u8 as u64) << 8u64) | (((v >> 16u64) as u8
            as u64) << 16u64) | (((v >> 24u64) as u8 as u64) << 24u64) == (v as u32) as u64,
        ((v >> 0u64) as u8 as u64) | (((v >> 8u64) as u8 as u64) << 8u64) | (((v >> 16u64) as u8
            as u64) << 16u64) | (((v >> 24u64) as u8 as u64) << 24u64) | (((v >> 32u64) as u8
            as u64) << 32u64) | (((v >> 40u64) as u8 as u64) << 40u64) | (((v >> 48u64) as u8
            as u64) << 48u64) | (((v >> 56u64) as u8 as u64) << 56u64) == v,
        forall|x: u64| #![trigger x << 0u64] 0 | (x << 0u64) == x,
{
}

/// A split store is read back whole.
pub(crate) proof fn lemma_split_back(m: MemView, phys: usize, first: usize, next: usize, v: u64, w: u32)
    requires
        split_plain(m, phys, first, next, bytes_of(w) as int),
    ensures
        m.scattered(phys, first, next, v, bytes_of(w) as int).gathered(
            phys,
            first,
            next,
            bytes_of(w) as int,
        ) == narrow(v, w),
{
    let n = bytes_of(w) as int;
    let x = m.scattered(phys, first, next, v, n);
    lemma_gathered_bits(v);
    lemma_scatter(m, phys, first, next, v, n, 0);
    lemma_scatter(m, phys, first, next, v, n, 1);
    lemma_scatter(m, phys, first, next, v, n, 2);
    lemma_scatter(m, phys, first, next, v, n, 3);
    lemma_scatter(m, phys, first, next, v, n, 4);
    lemma_scatter(m, phys, first, next, v, n, 5);
    lemma_scatter(m, phys, first, next, v, n, 6);
    lemma_scatter(m, phys, first, next, v, n, 7);
    reveal_with_fuel(MemView::gathered, 9);
}

/// The store of `w` bits at a linear address lands in plain RAM.
pub open spec fn lands_plain(s: State, linear: u64, w: u32) -> bool {
    let n = bytes_of(w);
    let (a, phys) = s.access(linear, Access::Write);
    if crate::cpu::operand::crosses(phys, n) {
        let (b, next) = a.next_page(linear, phys, Access::Write);
        split_plain(b.mem, phys, (0x1000 - (phys & 0xFFF)) as usize, next, n as int)
    } else {
        plain(a.mem, phys, n as int)
    }
}

/// The page after an address is in another TLB slot.
pub(crate) proof fn lemma_next_slot(l: u64, p: usize, trimmed: bool)
    by (bit_vector)
    requires
        (p as u64) & 0xFFF == l & 0xFFF,
    ensures
        p & 0xFFF < 0x1000,
        ({
            let step = (0x1000 - (p & 0xFFF)) as u64;
            let far = if l + step > 0xFFFF_FFFF_FFFF_FFFF {
                (l + step - 0x1_0000_0000_0000_0000) as u64
            } else {
                (l + step) as u64
            };
            let x = if trimmed { l & 0xFFFF_FFFF } else { l };
            let y = if trimmed { far & 0xFFFF_FFFF } else { far };
            (x >> 12) & 0xFF != (y >> 12) & 0xFF
        }),
{
}

/// What was stored at a linear address is loaded from it, also where the
/// operand straddles two pages: the load goes to the same physical bytes, with
/// the same translation. Where addresses are paged this takes the TLB: without
/// it the store may have changed the tables that the load walks.
pub proof fn law_load_gives_back_the_store(s: State, linear: u64, w: u32, v: u64, later: State)
    requires
        s.tlb.len() == TLB_SIZE,
        !s.diag.no_tlb || !s.paging(),
        !s.store(linear, w, v).faulted(),
        lands_plain(s, linear, w),
        later.mem == s.store(linear, w, v).mem,
        later.tlb == s.store(linear, w, v).tlb,
        later.cr0 == s.cr0,
        later.efer == s.efer,
        later.cpl() == s.cpl(),
        !later.diag.no_tlb || !later.paging(),
        !later.faulted(),
    ensures
        later.load(linear, w) == (later, narrow(v, w)),
{
    reveal(State::store);
    reveal(State::store_at);
    reveal(State::write_split);
    reveal(State::load);
    reveal(State::load_at);
    reveal(State::read_split);
    let (a, phys) = s.access(linear, Access::Write);
    let n = bytes_of(w);
    law_access_frame(s, linear, Access::Write);
    if crate::cpu::operand::crosses(phys, n) {
        let far = linear.wrapping_add((0x1000 - (phys & 0xFFF)) as u64);
        let (b, next) = a.next_page(linear, phys, Access::Write);
        law_access_frame(a, far, Access::Write);
        lemma_next_slot(linear, phys, !s.long_mode());
        lemma_slot(s.trimmed(linear));
        lemma_slot(s.trimmed(far));
        lemma_remembered(s, linear, later);
        lemma_remembered(a, far, later);
        lemma_split_back(b.mem, phys, (0x1000 - (phys & 0xFFF)) as usize, next, v, w);
    } else {
        lemma_remembered(s, linear, later);
        lemma_own(a.mem, phys, w, v);
    }
}

/// A translation made for a store is found again by a load.
pub(crate) proof fn lemma_remembered(s: State, linear: u64, later: State)
    requires
        s.tlb.len() == TLB_SIZE,
        !s.access(linear, Access::Write).0.faulted(),
        later.cr0 == s.cr0,
        later.efer == s.efer,
        later.cpl() == s.cpl(),
        !later.diag.no_tlb || !later.paging(),
        later.tlb[State::tlb_slot(s.trimmed(linear))] == s.access(
            linear,
            Access::Write,
        ).0.tlb[State::tlb_slot(s.trimmed(linear))],
    ensures
        later.access(linear, Access::Read) == (later, s.access(linear, Access::Write).1),
{
    reveal(State::access);
    reveal(State::watched);
    law_translation_is_remembered(s, linear, Access::Write, later);
}

proof fn lemma_stack_pointer(r: u64, x: u16)
    by (bit_vector)
    ensures
        ((((r & 0xFFFF_FFFF_FFFF_0000) | (x as u64)) & 0xFFFF_FFFF_FFFF_0000) | ((r as u16) as u64))
            == r,
        ((r & 0xFFFF_FFFF_FFFF_0000) | (x as u64)) as u16 == x,
{
}

/// Where the next push of `w` bits goes, as a linear address.
pub open spec fn push_target(s: State, w: u32) -> u64 {
    if s.wide_stack(w) {
        s.linear_addr(SegReg::Ss, s.reg64(4).wrapping_sub(bytes_of(w) as u64))
    } else {
        s.linear_addr(SegReg::Ss, s.reg32(4).wrapping_sub(bytes_of(w)) as u64)
    }
}

/// A push of `w` bits goes to plain RAM.
pub open spec fn pushes_plain(s: State, w: u32) -> bool {
    if s.pe || s.wide_stack(w) {
        lands_plain(s, push_target(s, w), w)
    } else {
        plain(
            s.mem,
            crate::memory::phys_of(s.ss, s.reg16(4).wrapping_sub(bytes_of(w) as u16)),
            bytes_of(w) as int,
        )
    }
}

/// A pop that follows a push, with at most the instruction pointer moved in
/// between.
proof fn lemma_popped(s: State, w: u32, v: u64, later: State)
    requires
        w == 16 || w == 32 || w == 64,
        s.regs.len() == 16,
        s.tlb.len() == TLB_SIZE,
        !s.diag.no_tlb || !s.paging() || !(s.pe || s.wide_stack(w)),
        !s.push(w, v).faulted(),
        pushes_plain(s, w),
        later == (State {
            ip: later.ip,
            rip: later.rip,
            fetch: later.fetch,
            ..s.push(w, v)
        }),
    ensures
        ({
            let (t, popped) = later.pop(w);
            &&& t == (State { regs: t.regs, ..later })
            &&& popped == narrow(v, w)
            &&& if s.wide_stack(w) || !s.pe {
                t.reg64(4) == s.reg64(4)
            } else {
                t.reg32(4) == s.reg32(4)
            }
        }),
{
    reveal(State::push);
    reveal(State::pop);
    let target = push_target(s, w);
    crate::bits::lemma_masks();
    if s.pe || s.wide_stack(w) {
        law_store_frame(s, target, w, v);
        law_load_gives_back_the_store(s, target, w, v, later);
    } else {
        let sp = s.reg16(4).wrapping_sub(bytes_of(w) as u16);
        lemma_stack_pointer(s.reg64(4), sp);
        lemma_own(s.mem, crate::memory::phys_of(s.ss, sp), w, v);
    }
}

/// A pop undoes a push: it yields the value pushed and puts the stack pointer
/// back, in real mode, in protected mode and in 64-bit code alike.
pub proof fn law_pop_undoes_push(s: State, w: u32, v: u64)
    requires
        w == 16 || w == 32 || w == 64,
        s.regs.len() == 16,
        s.tlb.len() == TLB_SIZE,
        !s.diag.no_tlb || !s.paging() || !(s.pe || s.wide_stack(w)),
        !s.push(w, v).faulted(),
        pushes_plain(s, w),
    ensures
        ({
            let (t, popped) = s.push(w, v).pop(w);
            &&& !t.faulted()
            &&& popped == narrow(v, w)
            &&& if s.wide_stack(w) || !s.pe {
                t.reg64(4) == s.reg64(4)
            } else {
                t.reg32(4) == s.reg32(4)
            }
        }),
{
    lemma_popped(s, w, v, s.push(w, v));
}

/// RET undoes CALL, in 16-bit code: execution goes on after the call, with the
/// stack pointer where it was.
pub proof fn law_ret_undoes_call16(s: State, rel: i16)
    requires
        s.regs.len() == 16,
        s.tlb.len() == TLB_SIZE,
        !s.diag.no_tlb || !s.paging() || !s.pe,
        !s.long64(),
        !s.call16(rel).faulted(),
        pushes_plain(s, 16),
    ensures
        ({
            let t = s.call16(rel).ret16();
            &&& !t.faulted()
            &&& t.ip == s.ip
            &&& t.reg32(4) == s.reg32(4)
        }),
{
    lemma_popped(s, 16, s.ip as u64, s.call16(rel));
    reveal(State::push);
    law_store_frame(s, push_target(s, 16), 16, s.ip as u64);
}

/// And so in 32-bit and 64-bit code.
pub proof fn law_ret_undoes_call(s: State, rel: i32)
    requires
        s.regs.len() == 16,
        s.tlb.len() == TLB_SIZE,
        !s.diag.no_tlb || !s.paging() || !(s.pe || s.long64()),
        s.stack_width() >= 32,
        !s.call32(rel).faulted(),
        pushes_plain(s, s.stack_width()),
    ensures
        ({
            let t = s.call32(rel).ret32();
            &&& !t.faulted()
            &&& t.rip == s.return_address()
            &&& t.reg32(4) == s.reg32(4)
            &&& s.long64() ==> t.reg64(4) == s.reg64(4)
        }),
{
    reveal(State::call32);
    reveal(State::ret32);
    let w = s.stack_width();
    let p = s.push(w, s.return_address());
    lemma_popped(s, w, s.return_address(), s.call32(rel));
    reveal(State::push);
    law_store_frame(s, push_target(s, w), w, s.return_address());
}

} // verus!
