//! Laws of interrupts and exceptions: what a handler finds on its stack, which
//! flags a gate clears, and what IRET undoes.

use crate::cpu::address::Access;
use crate::cpu::operand::{bytes_of, crosses};
use crate::cpu::{flags, SegReg, TLB_SIZE};
use crate::laws::frame::{law_access_frame, lemma_watch_frame, only_accessed};
use crate::laws::memory::{lemma_kept_size, lemma_other, lemma_own, narrow, plain};
use crate::laws::paging::lemma_slot;
use crate::laws::slots::{before_the_end, lemma_frame, separate, slot_value};
use crate::laws::stack::{lemma_next_slot, lemma_remembered};
use crate::memory::MemView;
use crate::state::State;
use vstd::prelude::*;

verus! {

// ---- Frames ----

/// Claiming slots changes what address translation may change, and nothing
/// else.
proof fn lemma_claimed_frame(s: State, w: u32, n: int)
    requires
        s.tlb.len() == TLB_SIZE,
        0 <= n,
    ensures
        only_accessed(s, s.claimed(w, n).0),
        !s.claimed(w, n).0.faulted() ==> s.claimed(w, n).1.len() == n,
    decreases n,
{
    if n > 0 {
        lemma_claimed_frame(s, w, n - 1);
        let (a, slots) = s.claimed(w, n - 1);
        if !a.faulted() {
            reveal(State::claim);
            let linear = a.slot_linear(w, n - 1);
            law_access_frame(a, linear, Access::Write);
            let (b, phys) = a.access(linear, Access::Write);
            law_access_frame(
                b,
                linear.wrapping_add((0x1000 - (phys & 0xFFF)) as u64),
                Access::Write,
            );
        }
    }
}

/// A frame is pushed whole: every value is in the slot that was translated for
/// it, and the stack pointer is below the last. A frame that faults moves
/// nothing.
#[verifier::spinoff_prover]
pub proof fn law_frames_are_pushed_whole(s: State, w: u32, vals: Seq<u64>)
    requires
        s.pe || s.wide_stack(w),
        w == 16 || w == 32 || w == 64,
        s.regs.len() == 16,
        s.tlb.len() == TLB_SIZE,
        s.claimed(w, vals.len() as int).0.faulted() || separate(
            s.claimed(w, vals.len() as int).0.mem,
            s.claimed(w, vals.len() as int).1,
            w,
        ),
    ensures
        ({
            let t = s.push_all(w, vals);
            let (c, slots) = s.claimed(w, vals.len() as int);
            let down = vals.len() * bytes_of(w);
            &&& t == (State { regs: t.regs, mem: t.mem, ..c })
            &&& t.regs.len() == 16
            &&& t.faulted() ==> t == c
            &&& !t.faulted() ==> {
                &&& slots.len() == vals.len()
                &&& forall|i: int|
                    0 <= i < vals.len() ==> #[trigger] slot_value(t.mem, slots[i], w) == narrow(
                        vals[i],
                        w,
                    )
                &&& s.wide_stack(w) ==> t.reg64(4) == s.reg64(4).wrapping_sub(down as u64)
                &&& !s.wide_stack(w) ==> t.reg32(4) == s.reg32(4).wrapping_sub(down as u32)
            }
        }),
{
    reveal(State::push_all);
    let n = vals.len() as int;
    lemma_claimed_frame(s, w, n);
    let (c, slots) = s.claimed(w, n);
    crate::bits::lemma_masks();
    if !c.faulted() {
        assert forall|i: int| 0 <= i < n implies #[trigger] slot_value(
            c.mem.frame_written(w, slots, vals, n),
            slots[i],
            w,
        ) == narrow(vals[i], w) by {
            lemma_frame(c.mem, w, slots, vals, n, i);
        }
    }
}

// ---- Reading a frame back ----

proof fn lemma_pages(x: u64)
    by (bit_vector)
    ensures
        x >> 12 == x / 0x1000,
        (x >> 12) & 0xFF == (x / 0x1000) % 0x100,
        x & 0xFFFF_FFFF == x % 0x1_0000_0000,
{
}

/// Two addresses close to each other, with one page number modulo 256, are in
/// one page.
proof fn lemma_close(x: int, y: int, end: int)
    requires
        end == 0x1_0000_0000 || end == 0x1_0000_0000_0000_0000,
        0 <= x < end,
        0 <= y < end,
        -64 < x - y < 64 || x - y < 64 - end || end - 64 < x - y,
        (x / 0x1000) % 0x100 == (y / 0x1000) % 0x100,
    ensures
        x / 0x1000 == y / 0x1000,
{
}

/// The linear address `d` bytes below the stack pointer.
spec fn below(s: State, d: int) -> u64 {
    if s.long64() {
        s.linear_addr(SegReg::Ss, s.reg64(4).wrapping_sub(d as u64))
    } else {
        s.linear_addr(SegReg::Ss, s.reg32(4).wrapping_sub(d as u32) as u64)
    }
}

/// Two addresses of a frame in one TLB slot are in one page.
proof fn lemma_near(s: State, p: int, q: int)
    requires
        s.long64() || s.pe,
        0 < p <= 64,
        0 < q <= 64,
    ensures
        ({
            let a = s.trimmed(below(s, p));
            let b = s.trimmed(below(s, q));
            State::tlb_slot(a) == State::tlb_slot(b) ==> a >> 12 == b >> 12
        }),
{
    let x = below(s, p);
    let y = below(s, q);
    lemma_pages(x);
    lemma_pages(y);
    let end: int = if s.long64() { 0x1_0000_0000_0000_0000 } else { 0x1_0000_0000 };
    assert(-64 < x - y < 64 || x - y < 64 - end || end - 64 < x - y);
    assert(x < end && y < end);
    assert(s.trimmed(x) == x && s.trimmed(y) == y);
    if (x as int / 0x1000) % 0x100 == (y as int / 0x1000) % 0x100 {
        lemma_close(x as int, y as int, end);
    }
}

/// In compatibility mode no slot of a frame reaches over the 4 GiB line, where
/// 32-bit addresses come round to zero and linear ones do not.
pub open spec fn under_the_line(s: State, w: u32, n: int) -> bool {
    s.long_mode() && !s.long64() ==> forall|i: int|
        0 <= i < n ==> #[trigger] s.slot_linear(w, i) + bytes_of(w) <= 0x1_0000_0000
}

/// The address of a slot and that of its second page, seen from the stack
/// pointer.
proof fn lemma_below(s: State, w: u32, i: int, n: int, first: int)
    requires
        s.long64() || (s.pe && !s.wide_stack(w)),
        0 <= i < n <= 8,
        0 < first < bytes_of(w),
        under_the_line(s, w, n),
    ensures
        0 < (i + 1) * bytes_of(w) <= 64,
        s.slot_linear(w, i) == below(s, (i + 1) * bytes_of(w)),
        s.trimmed(s.slot_linear(w, i).wrapping_add(first as u64)) == s.trimmed(
            below(s, (i + 1) * bytes_of(w) - first),
        ),
        0 < (i + 1) * bytes_of(w) - first <= 64,
{
    let k = bytes_of(w) as int;
    let d = (i + 1) * k;
    assert(k <= d <= 64) by (nonlinear_arith)
        requires
            0 <= i < 8,
            0 < k <= 8,
            d == (i + 1) * k,
    ;
    let x = s.slot_linear(w, i);
    lemma_pages(x.wrapping_add(first as u64));
    lemma_pages(below(s, d - first));
}

/// An entry that answers a write to a page at once.
spec fn answers(s: State, linear: u64) -> bool {
    let l = s.trimmed(linear);
    let e = s.tlb[State::tlb_slot(l)];
    &&& e.valid && e.dirtied
    &&& e.vpage == l >> 12
    &&& s.access_allowed(e.writable, e.user, e.no_exec, Access::Write)
}

proof fn lemma_walked(s: State, l: u64)
    requires
        s.tlb.len() == TLB_SIZE,
        !s.walk_access(l, Access::Write).0.faulted(),
        s.trimmed(l) == l,
    ensures
        answers(s.walk_access(l, Access::Write).0, l),
{
    lemma_slot(l);
}

proof fn lemma_hit(s: State, l: u64)
    requires
        s.tlb.len() == TLB_SIZE,
        s.tlb_hit(l),
        !s.tlb_access(l, Access::Write).0.faulted(),
        s.trimmed(l) == l,
    ensures
        answers(s.tlb_access(l, Access::Write).0, l),
{
    lemma_slot(l);
}

/// A write that went through leaves a TLB entry that answers the next one.
proof fn lemma_entry(s: State, linear: u64)
    requires
        s.tlb.len() == TLB_SIZE,
        s.paging(),
        !s.access(linear, Access::Write).0.faulted(),
    ensures
        answers(s.access(linear, Access::Write).0, linear),
{
    reveal(State::access);
    reveal(State::paged);
    let (t, phys) = s.paged(linear, Access::Write);
    lemma_watch_frame(t, linear, phys);
    let l = s.trimmed(linear);
    lemma_pages(linear);
    lemma_pages(l);
    if s.tlb_hit(l) {
        lemma_hit(s, l);
    } else {
        lemma_walked(s, l);
    }
    lemma_slot(l);
}

/// A second write to a page leaves the TLB alone.
proof fn lemma_again(s: State, linear: u64)
    requires
        s.paging(),
        !s.diag.no_tlb,
        !s.access(linear, Access::Write).0.faulted(),
        answers(s, linear),
    ensures
        s.access(linear, Access::Write).0.tlb == s.tlb,
{
    reveal(State::access);
    reveal(State::paged);
    let (t, phys) = s.paged(linear, Access::Write);
    lemma_watch_frame(t, linear, phys);
    lemma_slot(s.trimmed(linear));
}

/// An entry outlives a write to the same page or to another TLB slot.
proof fn lemma_outlives(s: State, l: u64, m: u64)
    requires
        s.tlb.len() == TLB_SIZE,
        s.paging(),
        !s.diag.no_tlb,
        answers(s, l),
        !s.access(m, Access::Write).0.faulted(),
        State::tlb_slot(s.trimmed(l)) == State::tlb_slot(s.trimmed(m)) ==> s.trimmed(l) >> 12
            == s.trimmed(m) >> 12,
    ensures
        ({
            let t = s.access(m, Access::Write).0;
            &&& t.tlb[State::tlb_slot(s.trimmed(l))] == s.tlb[State::tlb_slot(s.trimmed(l))]
            &&& answers(t, l)
            &&& only_accessed(s, t)
        }),
{
    law_access_frame(s, m, Access::Write);
    lemma_slot(s.trimmed(l));
    if State::tlb_slot(s.trimmed(l)) == State::tlb_slot(s.trimmed(m)) {
        lemma_again(s, m);
    }
}

/// The second address a slot needs, if it straddles two pages.
spec fn far_end(linear: u64, phys: usize) -> u64 {
    linear.wrapping_add(before_the_end(phys) as u64)
}

/// An entry of a frame's address outlives the claim of one of its slots.
#[verifier::spinoff_prover]
proof fn lemma_claim_keeps(s: State, o: State, w: u32, n: int, j: int, l: u64, d: int)
    requires
        only_accessed(s, o),
        s.tlb.len() == TLB_SIZE,
        !s.diag.no_tlb,
        s.long64() || (s.pe && !s.wide_stack(w)),
        s.paging(),
        0 <= j < n <= 8,
        under_the_line(s, w, n),
        0 < d <= 64,
        s.trimmed(l) == s.trimmed(below(s, d)),
        answers(o, l),
        !o.claim(s.slot_linear(w, j), w).0.faulted(),
    ensures
        o.claim(s.slot_linear(w, j), w).0.tlb[State::tlb_slot(s.trimmed(l))]
            == o.tlb[State::tlb_slot(s.trimmed(l))],
{
    reveal(State::claim);
    crate::bits::lemma_masks();
    let m = s.slot_linear(w, j);
    let k = bytes_of(w) as int;
    let (a, phys) = o.access(m, Access::Write);
    let first = before_the_end(phys);
    law_access_frame(o, m, Access::Write);
    if crosses(phys, bytes_of(w)) {
        lemma_below(s, w, j, n, first as int);
        lemma_near(s, d, (j + 1) * k);
        lemma_near(s, d, (j + 1) * k - first);
        law_access_frame(a, far_end(m, phys), Access::Write);
        lemma_outlives(o, l, m);
        lemma_outlives(a, l, far_end(m, phys));
    } else {
        if bytes_of(w) > 1 {
            lemma_below(s, w, j, n, 1);
        }
        assert(0 < (j + 1) * k <= 64) by (nonlinear_arith)
            requires
                0 <= j < 8,
                0 < k <= 8,
        ;
        lemma_near(s, d, (j + 1) * k);
        lemma_outlives(o, l, m);
    }
}

/// What is known of slot `i` once the first `n` are claimed: where it was
/// translated to, and that the TLB still says so.
spec fn placed(s: State, w: u32, n: int, i: int) -> bool {
    let (c, slots) = s.claimed(w, n);
    let before = s.claimed(w, i).0;
    let linear = s.slot_linear(w, i);
    let (a, phys) = before.access(linear, Access::Write);
    let far = far_end(linear, phys);
    let (b, next) = a.access(far, Access::Write);
    let here = State::tlb_slot(s.trimmed(linear));
    let there = State::tlb_slot(s.trimmed(far));
    &&& only_accessed(s, before)
    &&& only_accessed(s, a)
    &&& !a.faulted()
    &&& slots[i].phys == phys
    &&& c.tlb[here] == a.tlb[here]
    &&& crosses(phys, bytes_of(w)) ==> {
        &&& !b.faulted()
        &&& slots[i].next == next
        &&& c.tlb[there] == b.tlb[there]
    }
}

/// The slot claimed last is where it was just translated to.
proof fn lemma_last(s: State, w: u32, n: int)
    requires
        s.tlb.len() == TLB_SIZE,
        0 < n <= 8,
        !s.claimed(w, n).0.faulted(),
    ensures
        placed(s, w, n, n - 1),
        !s.claimed(w, n - 1).0.faulted(),
        s.claimed(w, n).0 == s.claimed(w, n - 1).0.claim(s.slot_linear(w, n - 1), w).0,
        s.claimed(w, n - 1).1.len() == n - 1,
        s.claimed(w, n).1 == s.claimed(w, n - 1).1.push(
            s.claimed(w, n - 1).0.claim(s.slot_linear(w, n - 1), w).1,
        ),
{
    reveal(State::claim);
    crate::bits::lemma_masks();
    lemma_claimed_frame(s, w, n - 1);
    lemma_claimed_frame(s, w, n);
    let b = s.claimed(w, n - 1).0;
    let linear = s.slot_linear(w, n - 1);
    assert(b.slot_linear(w, n - 1) == linear);
    let (a, phys) = b.access(linear, Access::Write);
    law_access_frame(b, linear, Access::Write);
    let far = far_end(linear, phys);
    law_access_frame(a, far, Access::Write);
    lemma_slot(s.trimmed(linear));
    lemma_slot(s.trimmed(far));
    if !a.faulted() && crosses(phys, bytes_of(w)) {
        lemma_next_slot(linear, phys, !s.long_mode());
    }
}

/// Claims to come leave the ones made in place.
#[verifier::spinoff_prover]
proof fn lemma_slots(s: State, w: u32, n: int, i: int)
    requires
        s.tlb.len() == TLB_SIZE,
        !s.diag.no_tlb || !s.paging(),
        s.long64() || (s.pe && !s.wide_stack(w)),
        0 <= i < n <= 8,
        !s.claimed(w, n).0.faulted(),
        under_the_line(s, w, n),
    ensures
        placed(s, w, n, i),
    decreases n,
{
    lemma_last(s, w, n);
    if i < n - 1 {
        let b = s.claimed(w, n - 1).0;
        assert(under_the_line(s, w, n - 1));
        lemma_slots(s, w, n - 1, i);
        lemma_claimed_frame(s, w, n - 1);
        lemma_claimed_frame(s, w, n);
        let k = bytes_of(w) as int;
        let linear = s.slot_linear(w, i);
        let before = s.claimed(w, i).0;
        let (a, phys) = before.access(linear, Access::Write);
        let far = far_end(linear, phys);
        lemma_slot(s.trimmed(linear));
        lemma_slot(s.trimmed(far));
        crate::bits::lemma_masks();
        if s.paging() {
            lemma_entry(before, linear);
            assert(answers(b, linear));
            assert(0 < (i + 1) * k <= 64) by (nonlinear_arith)
                requires
                    0 <= i < 8,
                    0 < k <= 8,
            ;
            if bytes_of(w) > 1 {
                lemma_below(s, w, i, n, 1);
            }
            lemma_claim_keeps(s, b, w, n, n - 1, linear, (i + 1) * k);
            if crosses(phys, bytes_of(w)) {
                lemma_below(s, w, i, n, before_the_end(phys) as int);
                lemma_entry(a, far);
                law_access_frame(a, far, Access::Write);
                assert(answers(b, far));
                lemma_claim_keeps(
                    s,
                    b,
                    w,
                    n,
                    n - 1,
                    far,
                    (i + 1) * k - before_the_end(phys),
                );
            }
        } else {
            lemma_unpaged(b, s.slot_linear(w, n - 1), w);
        }
    }
}

/// Without paging the TLB is left alone.
proof fn lemma_unpaged(s: State, linear: u64, w: u32)
    requires
        s.tlb.len() == TLB_SIZE,
        !s.paging(),
    ensures
        s.claim(linear, w).0.tlb =~= s.tlb,
{
    reveal(State::claim);
    crate::bits::lemma_masks();
    let (a, phys) = s.access(linear, Access::Write);
    law_access_frame(s, linear, Access::Write);
    law_access_frame(a, far_end(linear, phys), Access::Write);
}

/// A handler reads its frame through its own address space: each word of it is
/// loaded from the linear address it was pushed to, for as long as memory and
/// the TLB stay as the push left them.
#[verifier::spinoff_prover]
pub proof fn law_frames_read_back(s: State, w: u32, vals: Seq<u64>, i: int, later: State)
    requires
        w == 16 || w == 32 || w == 64,
        s.long64() || (s.pe && !s.wide_stack(w)),
        s.regs.len() == 16,
        s.tlb.len() == TLB_SIZE,
        !s.diag.no_tlb || !s.paging(),
        0 <= i < vals.len() <= 8,
        !s.push_all(w, vals).faulted(),
        separate(
            s.claimed(w, vals.len() as int).0.mem,
            s.claimed(w, vals.len() as int).1,
            w,
        ),
        under_the_line(s, w, vals.len() as int),
        later.mem == s.push_all(w, vals).mem,
        later.tlb == s.push_all(w, vals).tlb,
        later.cr0 == s.cr0,
        later.efer == s.efer,
        later.cpl() == s.cpl(),
        !later.diag.no_tlb || !later.paging(),
        !later.faulted(),
    ensures
        later.load(s.slot_linear(w, i), w) == (later, narrow(vals[i], w)),
{
    law_frames_are_pushed_whole(s, w, vals);
    let n = vals.len() as int;
    let (c, slots) = s.claimed(w, n);
    lemma_claimed_frame(s, w, n);
    lemma_slots(s, w, n, i);
    let before = s.claimed(w, i).0;
    let linear = s.slot_linear(w, i);
    reveal(State::load);
    reveal(State::load_at);
    reveal(State::read_split);
    crate::bits::lemma_masks();
    lemma_remembered(before, linear, later);
    let (a, phys) = before.access(linear, Access::Write);
    if crosses(phys, bytes_of(w)) {
        lemma_remembered(a, far_end(linear, phys), later);
    }
    assert(slot_value(later.mem, slots[i], w) == narrow(vals[i], w));
}

// ---- Popping a frame ----

/// A state in which `left` words of a frame are still on the stack.
pub open spec fn stacked(s: State, w: u32, vals: Seq<u64>, h: State, left: int) -> bool {
    let t = s.push_all(w, vals);
    let down = left * bytes_of(w);
    &&& h == (State {
        regs: h.regs,
        rip: h.rip,
        flags: h.flags,
        halted: h.halted,
        fetch: h.fetch,
        ..t
    })
    &&& h.regs.len() == 16
    &&& s.long64() ==> h.reg64(4) == s.reg64(4).wrapping_sub(down as u64)
    &&& !s.long64() ==> h.reg32(4) == s.reg32(4).wrapping_sub(down as u32)
}

/// What a frame needs to be read back.
pub open spec fn sound(s: State, w: u32, vals: Seq<u64>) -> bool {
    &&& s.long64() && w == 64 || (s.pe && !s.long64() && w == 32)
    &&& s.regs.len() == 16
    &&& s.tlb.len() == TLB_SIZE
    &&& !s.diag.no_tlb || !s.paging()
    &&& vals.len() <= 8
    &&& !s.push_all(w, vals).faulted()
    &&& separate(
        s.claimed(w, vals.len() as int).0.mem,
        s.claimed(w, vals.len() as int).1,
        w,
    )
    &&& under_the_line(s, w, vals.len() as int)
}

/// A push leaves the whole frame on the stack.
pub(crate) proof fn lemma_stacked(s: State, w: u32, vals: Seq<u64>)
    requires
        sound(s, w, vals),
    ensures
        stacked(s, w, vals, s.push_all(w, vals), vals.len() as int),
        only_pushed(s, s.push_all(w, vals)),
{
    law_frames_are_pushed_whole(s, w, vals);
    lemma_claimed_frame(s, w, vals.len() as int);
}

/// What a push may change.
pub open spec fn only_pushed(s: State, t: State) -> bool {
    only_accessed(s, State { regs: s.regs, ..t })
}

/// A pop takes the last word of the frame that is left.
proof fn lemma_pop(s: State, w: u32, vals: Seq<u64>, h: State, left: int)
    requires
        sound(s, w, vals),
        0 < left <= vals.len(),
        stacked(s, w, vals, h, left),
    ensures
        ({
            let (g, v) = h.pop(w);
            &&& v == narrow(vals[left - 1], w)
            &&& stacked(s, w, vals, g, left - 1)
            &&& g == (State { regs: g.regs, ..h })
        }),
{
    reveal(State::pop);
    lemma_stacked(s, w, vals);
    law_frames_read_back(s, w, vals, left - 1, h);
    let n = bytes_of(w) as int;
    assert(left * n == (left - 1) * n + n) by (nonlinear_arith);
    assert(0 <= (left - 1) * n <= 64) by (nonlinear_arith)
        requires
            0 < left <= 8,
            0 < n <= 8,
    ;
    crate::bits::lemma_masks();
}

/// Two pops take the last two words that are left.
proof fn lemma_pops(s: State, w: u32, vals: Seq<u64>, h: State, left: int)
    requires
        sound(s, w, vals),
        2 <= left <= vals.len(),
        stacked(s, w, vals, h, left),
    ensures
        ({
            let (a, x) = h.pop(w);
            let (b, y) = a.pop(w);
            &&& x == narrow(vals[left - 1], w)
            &&& y == narrow(vals[left - 2], w)
            &&& stacked(s, w, vals, b, left - 2)
            &&& b == (State { regs: b.regs, ..h })
        }),
{
    lemma_pop(s, w, vals, h, left);
    lemma_pop(s, w, vals, h.pop(w).0, left - 1);
}

/// POPAD undoes PUSHAD: the eight registers are what they were.
pub proof fn law_popad_undoes_pushad(s: State, i: u8)
    requires
        sound(s, 32, Seq::new(8, |k: int| s.reg_w(k as u8, 32))),
        !s.faulted(),
        i < 8,
    ensures
        !s.pusha(32).popa(32).faulted(),
        s.pusha(32).popa(32).reg32(i) == s.reg32(i),
{
    reveal(State::pusha);
    reveal(State::popa);
    reveal(State::set_reg_w);
    reveal(State::with_reg_w);
    let vals = Seq::new(8, |k: int| s.reg_w(k as u8, 32));
    lemma_stacked(s, 32, vals);
    let h = s.push_all(32, vals);
    lemma_pops(s, 32, vals, h, 8);
    let h2 = h.pop(32).0.pop(32).0;
    lemma_pops(s, 32, vals, h2, 6);
    let h4 = h2.pop(32).0.pop(32).0;
    lemma_pops(s, 32, vals, h4, 4);
    let h6 = h4.pop(32).0.pop(32).0;
    lemma_pops(s, 32, vals, h6, 2);
    let h8 = h6.pop(32).0.pop(32).0;
    lemma_small(0, 0, i);
}

/// A word put into a register, and register indices.
proof fn lemma_small(r: u64, x: u16, i: u8)
    by (bit_vector)
    ensures
        ((r & 0xFFFF_FFFF_FFFF_0000) | (x as u64)) as u16 == x,
        i < 16 ==> i & 15 == i,
        0u8 & 15 == 0,
        1u8 & 15 == 1,
        2u8 & 15 == 2,
        3u8 & 15 == 3,
        4u8 & 15 == 4,
        5u8 & 15 == 5,
        6u8 & 15 == 6,
        7u8 & 15 == 7,
{
}

// ---- Gates ----

/// The state and the slots a protected-mode frame goes to.
pub open spec fn sound32(s: State, vector: u8, code: Option<u32>) -> bool {
    let gate = s.gate32(vector);
    &&& s.pe
    &&& !s.long_mode()
    &&& sound(s.gate_entered32(gate), 32, s.gate_frame32(gate, code))
}

/// The state and the slots a long-mode frame goes to.
pub open spec fn sound64(s: State, vector: u8, code: Option<u32>) -> bool {
    let gate = s.gate64(vector);
    &&& s.pe
    &&& s.long_mode()
    &&& sound(s.gate_entered64(gate), 64, s.gate_frame64(code))
}

proof fn lemma_flag_words(word: u32)
    by (bit_vector)
    ensures
        ({
            let a = word & !0x200;
            let b = a & !0x100;
            let c = b & !0x1_0000;
            let d = (word & !0x100) & !0x1_0000;
            &&& c & 0x200 == 0
            &&& c & 0x100 == 0
            &&& d & 0x200 == word & 0x200
            &&& d & 0x100 == 0
            &&& (word & 0x003F_7FD5) | 2 | (c & !0x003F_7FD5 & !2) == word | 2
            &&& (word & 0x003F_7FD5) | 2 | (d & !0x003F_7FD5 & !2) == word | 2
            &&& (word & 0x003F_7FD5) | 2 | (b & !0x003F_7FD5 & !2) == word | 2
            &&& (b & 0xFFFF_0000) | ((word as u16) as u32) == word
            &&& (word as u64) as u32 == word
        }),
{
}

/// Gate types are honoured: an interrupt gate clears IF and a trap gate does
/// not. Both clear TF.
pub proof fn law_gate_types_are_honoured(s: State, vector: u8, code: Option<u32>)
    ensures
        sound32(s, vector, code) ==> ({
            let t = s.gate_int32(vector, code);
            let kind = s.gate32(vector).kind;
            &&& kind == 0x6 || kind == 0xE ==> !t.flag(flags::IF)
            &&& kind == 0x7 || kind == 0xF ==> t.flag(flags::IF) == s.flag(flags::IF)
            &&& !t.flag(flags::TF)
        }),
        sound64(s, vector, code) ==> ({
            let t = s.gate_int64(vector, code);
            let kind = s.gate64(vector).kind;
            &&& kind == 0xE ==> !t.flag(flags::IF)
            &&& kind == 0xF ==> t.flag(flags::IF) == s.flag(flags::IF)
            &&& !t.flag(flags::TF)
        }),
{
    lemma_flag_words(s.flags);
    if sound32(s, vector, code) {
        lemma_gate32(s, vector, code);
    }
    if sound64(s, vector, code) {
        lemma_gate64(s, vector, code);
    }
}

/// What a protected-mode gate leaves: the whole frame on the handler's stack,
/// and the flags its type asks for.
pub(crate) proof fn lemma_gate32(s: State, vector: u8, code: Option<u32>)
    requires
        sound32(s, vector, code),
    ensures
        ({
            let gate = s.gate32(vector);
            let e = s.gate_entered32(gate);
            let vals = s.gate_frame32(gate, code);
            let t = s.gate_int32(vector, code);
            &&& stacked(e, 32, vals, t, vals.len() as int)
            &&& t.flags == s.gated(gate.kind == 0x6 || gate.kind == 0xE).flags
            &&& t.rip == gate.target
            &&& t.cs == gate.selector
            &&& t.pe
            &&& !e.long64()
            &&& !s.switches(gate) ==> e.regs == s.regs && e.ss == s.ss
            &&& t.ss == e.ss
            &&& !t.faulted()
        }),
{
    reveal(State::gate_int32);
    reveal(State::load_seg);
    let gate = s.gate32(vector);
    lemma_stacked(s.gate_entered32(gate), 32, s.gate_frame32(gate, code));
}

/// What a long-mode gate leaves.
pub(crate) proof fn lemma_gate64(s: State, vector: u8, code: Option<u32>)
    requires
        sound64(s, vector, code),
    ensures
        ({
            let gate = s.gate64(vector);
            let e = s.gate_entered64(gate);
            let vals = s.gate_frame64(code);
            let t = s.gate_int64(vector, code);
            &&& stacked(e, 64, vals, t, vals.len() as int)
            &&& t.flags == s.gated(gate.kind == 0xE).flags
            &&& t.rip == gate.target
            &&& t.cs == gate.selector
            &&& t.pe
            &&& e.long64()
            &&& !t.faulted()
        }),
{
    reveal(State::gate_int64);
    reveal(State::load_seg);
    let gate = s.gate64(vector);
    lemma_stacked(s.gate_entered64(gate), 64, s.gate_frame64(code));
}

/// IRETD undoes an interrupt in protected mode: code segment, instruction
/// pointer, flags and stack are those of the interrupted program. Where the
/// interrupt switched to the ring-0 stack of the TSS, the outer stack comes
/// back from the frame.
pub proof fn law_iretd_undoes_an_interrupt(s: State, vector: u8)
    requires
        sound32(s, vector, None),
        s.switches(s.gate32(vector)) <==> ((s.gate32(vector).selector & 3) as u8) < s.cpl(),
    ensures
        ({
            let u = s.gate_int32(vector, None).iret32();
            &&& !u.faulted()
            &&& u.cs == s.cs
            &&& u.rip == s.eip()
            &&& u.flags == s.flags | flags::ALWAYS_SET
            &&& u.ss == s.ss
            &&& u.reg32(4) == s.reg32(4)
        }),
{
    reveal(State::iret32);
    reveal(State::load_seg);
    lemma_flag_words(s.flags);
    lemma_gate32(s, vector, None);
    let gate = s.gate32(vector);
    let e = s.gate_entered32(gate);
    let vals = s.gate_frame32(gate, None);
    let n = vals.len() as int;
    let t = s.gate_int32(vector, None);
    crate::bits::lemma_masks();
    lemma_pop(e, 32, vals, t, n);
    let (a, ip) = t.pop(32);
    lemma_pop(e, 32, vals, a, n - 1);
    let (b, cs) = a.pop(32);
    lemma_pop(e, 32, vals, b, n - 2);
    let (c, f) = b.pop(32);
    assert(ip == s.eip() && cs == s.cs && f == s.flags);
    if s.switches(gate) {
        lemma_pop(e, 32, vals, c, 2);
        let (d, sp) = c.pop(32);
        lemma_pop(e, 32, vals, d, 1);
        let (g, ss) = d.pop(32);
        assert(sp == s.reg32(4) && ss == s.ss);
    }
}

/// IRETQ undoes an interrupt in long mode, where SS:RSP is in every frame.
pub proof fn law_iretq_undoes_an_interrupt(s: State, vector: u8)
    requires
        sound64(s, vector, None),
    ensures
        ({
            let u = s.gate_int64(vector, None).iret64();
            &&& !u.faulted()
            &&& u.cs == s.cs
            &&& u.rip == s.rip
            &&& u.flags == s.flags | flags::ALWAYS_SET
            &&& u.ss == s.ss
            &&& u.reg64(4) == s.reg64(4)
        }),
{
    reveal(State::iret64);
    reveal(State::load_seg);
    lemma_flag_words(s.flags);
    lemma_gate64(s, vector, None);
    let e = s.gate_entered64(s.gate64(vector));
    let vals = s.gate_frame64(None);
    let t = s.gate_int64(vector, None);
    crate::bits::lemma_masks();
    lemma_pop(e, 64, vals, t, 5);
    let (a, rip) = t.pop(64);
    lemma_pop(e, 64, vals, a, 4);
    let (b, cs) = a.pop(64);
    lemma_pop(e, 64, vals, b, 3);
    let (c, f) = b.pop(64);
    lemma_pop(e, 64, vals, c, 2);
    let (d, rsp) = c.pop(64);
    lemma_pop(e, 64, vals, d, 1);
    let (g, ss) = d.pop(64);
    assert(rip == s.rip && cs == s.cs && f == s.flags && rsp == s.reg64(4) && ss == s.ss);
}

/// An interrupt from a less privileged ring runs on the ring-0 stack the TSS
/// records, with the outer SS:ESP below the usual frame: five words, and the
/// error code if there is one.
#[verifier::spinoff_prover]
pub proof fn law_outer_rings_switch_stacks(s: State, vector: u8, code: Option<u32>)
    requires
        sound32(s, vector, code),
        s.switches(s.gate32(vector)),
        s.regs.len() == 16,
    ensures
        ({
            let t = s.gate_int32(vector, code);
            let (ss0, esp0) = s.tss_stack0();
            let bytes: u32 = if code is Some { 24 } else { 20 };
            &&& t.ss == ss0
            &&& t.reg32(4) == esp0.wrapping_sub(bytes)
            &&& t.load(t.linear_addr(SegReg::Ss, esp0.wrapping_sub(4) as u64), 32).1 == s.ss
            &&& t.load(t.linear_addr(SegReg::Ss, esp0.wrapping_sub(8) as u64), 32).1 == s.reg32(4)
        }),
{
    reveal(State::load_seg);
    reveal(State::tss_stack0);
    reveal(State::peek_span);
    reveal(State::peek_phys);
    crate::bits::lemma_masks();
    lemma_gate32(s, vector, code);
    let gate = s.gate32(vector);
    let e = s.gate_entered32(gate);
    let vals = s.gate_frame32(gate, code);
    let t = s.gate_int32(vector, code);
    lemma_stacked(e, 32, vals);
    assert(vals.len() == if code is Some { 6int } else { 5int });
    law_frames_read_back(e, 32, vals, 0, t);
    law_frames_read_back(e, 32, vals, 1, t);
    let bytes: u32 = if code is Some { 24 } else { 20 };
    assert(vals.len() as int * bytes_of(32) == bytes);
    assert(t.reg32(4) == e.reg32(4).wrapping_sub(bytes));
    assert(e.reg32(4) == s.tss_stack0().1);
}

/// In protected mode, too, a fault reports the address of the instruction that
/// faulted, and a trap that of the next one: the handler finds it on top of its
/// stack, under the error code where there is one.
#[verifier::spinoff_prover]
pub proof fn law_protected_faults_report_the_faulting_instruction(
    s: State,
    vector: u8,
    code: Option<u32>,
)
    requires
        sound32(s.reported(vector).exception_logged(vector, code), vector, code),
        s.gate_end(vector) <= s.idt_limit,
    ensures
        ({
            let t = s.exception(vector, code);
            let at = t.reg32(4).wrapping_add(if code is Some { 4 } else { 0 });
            &&& !t.faulted()
            &&& t.load(t.linear_addr(SegReg::Ss, at as u64), 32).1 == if vector == 3 || vector
                == 4 {
                s.eip()
            } else {
                s.rip_start as u32
            }
        }),
{
    reveal(State::exception);
    reveal(State::exception_logged);
    let x = s.reported(vector).exception_logged(vector, code);
    lemma_gate32(x, vector, code);
    let gate = x.gate32(vector);
    let e = x.gate_entered32(gate);
    let vals = x.gate_frame32(gate, code);
    let t = s.exception(vector, code);
    lemma_stacked(e, 32, vals);
    let i = if code is Some { vals.len() - 2 } else { vals.len() - 1 };
    assert(vals[i] == x.eip());
    law_frames_read_back(e, 32, vals, i, t);
    let n = vals.len() as int;
    let at = t.reg32(4).wrapping_add(if code is Some { 4 } else { 0 });
    assert(t.reg32(4) == e.reg32(4).wrapping_sub((n * bytes_of(32)) as u32));
    assert(at == e.reg32(4).wrapping_sub(((i + 1) * bytes_of(32)) as u32));
    assert(t.linear_addr(SegReg::Ss, at as u64) == e.slot_linear(32, i));
}

/// And so in long mode.
#[verifier::spinoff_prover]
pub proof fn law_long_mode_faults_report_the_faulting_instruction(
    s: State,
    vector: u8,
    code: Option<u32>,
)
    requires
        sound64(s.reported(vector).exception_logged(vector, code), vector, code),
        s.gate_end(vector) <= s.idt_limit,
    ensures
        ({
            let t = s.exception(vector, code);
            let at = t.reg64(4).wrapping_add(if code is Some { 8 } else { 0 });
            &&& !t.faulted()
            &&& t.load(at, 64).1 == if vector == 3 || vector == 4 { s.rip } else { s.rip_start }
        }),
{
    reveal(State::exception);
    reveal(State::exception_logged);
    let x = s.reported(vector).exception_logged(vector, code);
    lemma_gate64(x, vector, code);
    let gate = x.gate64(vector);
    let e = x.gate_entered64(gate);
    let vals = x.gate_frame64(code);
    let t = s.exception(vector, code);
    lemma_stacked(e, 64, vals);
    let i = if code is Some { vals.len() - 2 } else { vals.len() - 1 };
    assert(vals[i] == x.rip);
    law_frames_read_back(e, 64, vals, i, t);
    let n = vals.len() as int;
    let at = t.reg64(4).wrapping_add(if code is Some { 8 } else { 0 });
    assert(t.reg64(4) == e.reg64(4).wrapping_sub((n * bytes_of(64)) as u64));
    assert(at == e.reg64(4).wrapping_sub(((i + 1) * bytes_of(64)) as u64));
    assert(at == e.slot_linear(64, i));
}

// ---- Real mode ----

/// Where the word `n` bytes below the real-mode stack pointer is.
pub open spec fn word_slot(s: State, n: u16) -> usize {
    crate::memory::phys_of(s.ss, s.reg16(4).wrapping_sub(n))
}

/// One real-mode push of a word, and a pop.
proof fn lemma_real_words(s: State, v: u16)
    requires
        !s.pe,
        !s.long64(),
        !s.faulted(),
        s.regs.len() == 16,
    ensures
        ({
            let t = s.push(16, v as u64);
            let (u, x) = s.pop(16);
            &&& t == (State { regs: t.regs, mem: t.mem, ..s })
            &&& t.regs.len() == 16
            &&& t.reg16(4) == s.reg16(4).wrapping_sub(2)
            &&& t.mem == s.mem.write16(word_slot(s, 2), v)
            &&& u == (State { regs: u.regs, ..s })
            &&& u.regs.len() == 16
            &&& u.reg16(4) == s.reg16(4).wrapping_add(2)
            &&& x == s.mem.read16(word_slot(s, 0))
        }),
{
    reveal(State::push);
    reveal(State::pop);
    crate::bits::lemma_masks();
    lemma_small(s.reg64(4), s.reg16(4).wrapping_sub(2), 0);
    lemma_small(s.reg64(4), s.reg16(4).wrapping_add(2), 0);
}

/// Two words a little way from each other share no byte, come round as the
/// offset or the address may.
proof fn lemma_two_words(seg: int, a: int, b: int, d: int)
    requires
        0 <= seg <= 0xF_FFF0,
        0 <= a < 0x1_0000,
        0 <= b < 0x1_0000,
        2 <= d <= 4,
        a - b == d || a - b == d - 0x1_0000,
    ensures
        ({
            let p = (seg + a) % 0x10_0000;
            let q = (seg + b) % 0x10_0000;
            p + 2 <= q || q + 2 <= p
        }),
{
    let p = (seg + a) % 0x10_0000;
    let q = (seg + b) % 0x10_0000;
    assert(p == seg + a || p == seg + a - 0x10_0000);
    assert(q == seg + b || q == seg + b - 0x10_0000);
}

/// Three words below a real-mode stack pointer share no byte.
proof fn lemma_word_slots(s: State)
    ensures
        ({
            let (p, q, r) = (word_slot(s, 2), word_slot(s, 4), word_slot(s, 6));
            &&& p + 2 <= q || q + 2 <= p
            &&& p + 2 <= r || r + 2 <= p
            &&& q + 2 <= r || r + 2 <= q
        }),
{
    let sp = s.reg16(4);
    let seg = s.ss * 16;
    let (a, b, c) = (sp.wrapping_sub(2), sp.wrapping_sub(4), sp.wrapping_sub(6));
    lemma_two_words(seg, a as int, b as int, 2);
    lemma_two_words(seg, a as int, c as int, 4);
    lemma_two_words(seg, b as int, c as int, 2);
}

/// Three words stored one after another are all read back.
proof fn lemma_three_words(m: MemView, p: usize, q: usize, r: usize, x: u16, y: u16, z: u16)
    requires
        plain(m, p, 2),
        plain(m, q, 2),
        plain(m, r, 2),
        p + 2 <= q || q + 2 <= p,
        p + 2 <= r || r + 2 <= p,
        q + 2 <= r || r + 2 <= q,
    ensures
        ({
            let n = m.write16(p, x).write16(q, y).write16(r, z);
            n.read16(p) == x && n.read16(q) == y && n.read16(r) == z
        }),
{
    let a = m.write16(p, x);
    let b = a.write16(q, y);
    lemma_own(m, p, 16, x as u64);
    lemma_kept_size(m, p, 16, x as u64);
    lemma_own(a, q, 16, y as u64);
    lemma_other(a, q, 16, y as u64, p);
    lemma_own(b, r, 16, z as u64);
    lemma_other(b, r, 16, z as u64, q);
    lemma_other(b, r, 16, z as u64, p);
}

/// What a real-mode interrupt leaves: the frame, and the flags it clears.
proof fn lemma_real_frame(s: State, vector: u8)
    requires
        !s.pe,
        !s.long64(),
        !s.faulted(),
        s.regs.len() == 16,
    ensures
        ({
            let t = s.real_int(vector);
            &&& t.mem == s.mem.write16(word_slot(s, 2), s.flags as u16).write16(
                word_slot(s, 4),
                s.cs,
            ).write16(word_slot(s, 6), s.ip)
            &&& t.regs.len() == 16
            &&& t.reg16(4) == s.reg16(4).wrapping_sub(6)
            &&& t.flags == s.with_flag(flags::IF, false).with_flag(flags::TF, false).flags
            &&& t.ss == s.ss
            &&& !t.pe && !t.long64() && !t.faulted()
        }),
{
    reveal(State::real_int);
    reveal(State::push_all);
    reveal_with_fuel(State::pushed, 4);
    lemma_real_words(s, s.flags as u16);
    let a = s.push(16, (s.flags as u16) as u64);
    lemma_real_words(a, s.cs);
    let b = a.push(16, s.cs as u64);
    lemma_real_words(b, s.ip);
}

/// In real mode a fault reports the address of the instruction that faulted,
/// and a trap that of the next one: it is what the handler finds on top of its
/// stack, to return to.
pub proof fn law_faults_report_the_faulting_instruction(s: State, vector: u8, code: Option<u32>)
    requires
        !s.pe,
        !s.long64(),
        !s.faulted(),
        s.regs.len() == 16,
        plain(s.mem, word_slot(s, 6), 2),
        plain(s.mem, word_slot(s, 4), 2),
        plain(s.mem, word_slot(s, 2), 2),
    ensures
        ({
            let t = s.exception(vector, code);
            t.mem.read16(word_slot(t, 0)) == if vector == 3 || vector == 4 {
                s.ip
            } else {
                s.ip_start
            }
        }),
{
    reveal(State::exception);
    reveal(State::exception_logged);
    let e = s.reported(vector).exception_logged(vector, code);
    lemma_real_frame(e, vector);
    lemma_word_slots(s);
    lemma_three_words(
        s.mem,
        word_slot(s, 2),
        word_slot(s, 4),
        word_slot(s, 6),
        e.flags as u16,
        e.cs,
        e.ip,
    );
}

/// IRET undoes an interrupt in real mode.
pub proof fn law_iret_undoes_an_interrupt(s: State, vector: u8)
    requires
        !s.pe,
        !s.long64(),
        !s.faulted(),
        s.regs.len() == 16,
        plain(s.mem, word_slot(s, 6), 2),
        plain(s.mem, word_slot(s, 4), 2),
        plain(s.mem, word_slot(s, 2), 2),
    ensures
        ({
            let u = s.real_int(vector).iret16();
            &&& u.cs == s.cs
            &&& u.ip == s.ip
            &&& u.flags == s.flags | flags::ALWAYS_SET
            &&& u.reg16(4) == s.reg16(4)
        }),
{
    reveal(State::iret16);
    lemma_flag_words(s.flags);
    lemma_real_frame(s, vector);
    lemma_word_slots(s);
    lemma_three_words(
        s.mem,
        word_slot(s, 2),
        word_slot(s, 4),
        word_slot(s, 6),
        s.flags as u16,
        s.cs,
        s.ip,
    );
    let t = s.real_int(vector);
    lemma_real_words(t, 0);
    let (a, ip) = t.pop(16);
    let b = State { ip: ip as u16, ..a };
    lemma_real_words(b, 0);
    let (c, cs) = b.pop(16);
    let d = State { cs: cs as u16, ..c };
    lemma_real_words(d, 0);
}

/// A real-mode interrupt pushes FLAGS, CS and IP, clears IF and TF, and goes to
/// the far address at four times its vector: the offset in the first two bytes,
/// the segment in the next two.
pub proof fn law_real_mode_interrupts_use_the_vector_table(s: State, vector: u8)
    requires
        !s.pe,
        !s.long64(),
        !s.faulted(),
        s.regs.len() == 16,
        plain(s.mem, word_slot(s, 6), 2),
        plain(s.mem, word_slot(s, 4), 2),
        plain(s.mem, word_slot(s, 2), 2),
    ensures
        ({
            let t = s.real_int(vector);
            let slot = |n: int|
                ((s.ss * 16 + (s.reg16(4) - n) % 0x1_0000) % 0x10_0000) as usize;
            &&& t.ip == t.mem.read16((4 * vector) as usize)
            &&& t.cs == t.mem.read16((4 * vector + 2) as usize)
            &&& t.mem.read16(slot(2)) == s.flags % 0x1_0000
            &&& t.mem.read16(slot(4)) == s.cs
            &&& t.mem.read16(slot(6)) == s.ip
            &&& t.reg16(4) == (s.reg16(4) - 6) % 0x1_0000
            &&& t.flags == (s.flags & !0x200) & !0x100
        }),
{
    lemma_real_frame(s, vector);
    lemma_word_slots(s);
    lemma_three_words(
        s.mem,
        word_slot(s, 2),
        word_slot(s, 4),
        word_slot(s, 6),
        s.flags as u16,
        s.cs,
        s.ip,
    );
    crate::laws::fields::lemma_fields32(s.flags, 0);
    assert(word_slot(s, 2) == ((s.ss * 16 + (s.reg16(4) - 2) % 0x1_0000) % 0x10_0000) as usize);
    assert(word_slot(s, 4) == ((s.ss * 16 + (s.reg16(4) - 4) % 0x1_0000) % 0x10_0000) as usize);
    assert(word_slot(s, 6) == ((s.ss * 16 + (s.reg16(4) - 6) % 0x1_0000) % 0x10_0000) as usize);
    reveal(State::real_int);
}

} // verus!
