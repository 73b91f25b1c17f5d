//! The law of restartable faults: a faulting instruction commits nothing.
//!
//! The registers are put back by [`State::execute`]. Memory is another matter:
//! nothing undoes a store, so every instruction has to be sure of all its
//! pages before it writes the first byte. What remains of a faulting
//! instruction is what translating its addresses left behind: accessed and
//! dirty bits in the page tables.

use crate::cpu::address::Access;
use crate::cpu::span::Span;
use crate::cpu::SegReg;
use crate::fpu::FpuView;
use crate::instructions::shift::BitOp;
use crate::instructions::{AluOp, BitOffset, Cond, Dir, FpuOp, Inst, LoopCond, ShiftCount, ShiftOp};
use crate::memory::MemView;
use crate::modrm::ModRm;
use crate::paging::PagingMode;
use crate::state::State;
use vstd::prelude::*;

verus! {

// ---- What translation leaves behind ----

/// Memory after the accessed and dirty bits of a series of walks have been
/// set, each walk through the tables as the ones before it left them. `true`
/// stands for a write.
pub open spec fn marks(
    mem: MemView,
    mode: PagingMode,
    cr3: u64,
    steps: Seq<(u64, bool)>,
) -> MemView
    decreases steps.len(),
{
    if steps.len() == 0 {
        mem
    } else {
        let m = marks(mem, mode, cr3, steps.drop_last());
        match crate::paging::walked(m, mode, cr3, steps.last().0) {
            Some(w) => crate::cpu::address::walk_marked(m, w, steps.last().1),
            None => m,
        }
    }
}

/// Memory differs from that of a state by accessed and dirty bits only, and
/// the page tables are the ones of that state.
#[verifier::opaque]
pub open spec fn marked_from(o: State, mem: MemView, cr3: u64, cr4: u32, efer: u64) -> bool {
    &&& cr3 == o.cr3
    &&& cr4 == o.cr4
    &&& efer == o.efer
    &&& exists|steps: Seq<(u64, bool)>|
        mem == #[trigger] marks(o.mem, o.paging_mode(), o.cr3, steps)
}

/// A state has committed nothing to memory since `o`.
#[verifier::inline]
pub open spec fn uncommitted(o: State, s: State) -> bool {
    marked_from(o, s.mem, s.cr3, s.cr4, s.efer)
}

/// If a state has faulted, it has committed nothing to memory since `o`.
#[verifier::inline]
pub open spec fn undone(o: State, s: State) -> bool {
    s.faulted() ==> uncommitted(o, s)
}

pub(crate) proof fn lemma_start(s: State)
    ensures
        uncommitted(s, s),
{
    reveal(marked_from);
    assert(s.mem == marks(s.mem, s.paging_mode(), s.cr3, Seq::empty()));
}

/// One more walk.
proof fn lemma_walk(o: State, s: State, linear: u64, write: bool)
    requires
        uncommitted(o, s),
    ensures
        match crate::paging::walked(s.mem, s.paging_mode(), s.cr3, linear) {
            Some(w) => marked_from(
                o,
                crate::cpu::address::walk_marked(s.mem, w, write),
                s.cr3,
                s.cr4,
                s.efer,
            ),
            None => true,
        },
{
    reveal(marked_from);
    let steps = choose|steps: Seq<(u64, bool)>|
        s.mem == #[trigger] marks(o.mem, o.paging_mode(), o.cr3, steps);
    let more = steps.push((linear, write));
    assert(more.drop_last() =~= steps);
    assert(more.last() == (linear, write));
    assert(s.paging_mode() == o.paging_mode());
    match crate::paging::walked(s.mem, s.paging_mode(), s.cr3, linear) {
        Some(w) => {
            assert(crate::cpu::address::walk_marked(s.mem, w, write) == marks(
                o.mem,
                o.paging_mode(),
                o.cr3,
                more,
            ));
        },
        None => {},
    }
}

// ---- Translation, loads and stores ----

pub(crate) broadcast proof fn quiet_access(o: State, s: State, linear: u64, access: Access)
    requires
        #[trigger] marked_from(o, s.mem, s.cr3, s.cr4, s.efer),
    ensures
        uncommitted(o, (#[trigger] s.access(linear, access)).0),
        s.faulted() ==> s.access(linear, access).0.faulted(),
{
    reveal(State::access);
    reveal(State::paged);
    reveal(State::watched);
    let l = s.trimmed(linear);
    lemma_walk(o, s, l, true);
    lemma_walk(o, s, l, access == Access::Write);
}

broadcast proof fn quiet_load_at(o: State, s: State, phys: usize, linear: u64, w: u32)
    requires
        #[trigger] marked_from(o, s.mem, s.cr3, s.cr4, s.efer),
    ensures
        uncommitted(o, (#[trigger] s.load_at(phys, linear, w)).0),
{
    broadcast use quiet_access;

    reveal(State::load_at);
    reveal(State::read_split);
}

broadcast proof fn quiet_load(o: State, s: State, linear: u64, w: u32)
    requires
        #[trigger] marked_from(o, s.mem, s.cr3, s.cr4, s.efer),
    ensures
        uncommitted(o, (#[trigger] s.load(linear, w)).0),
{
    broadcast use {quiet_access, quiet_load_at};

    reveal(State::load);
}

broadcast proof fn quiet_store_at(o: State, s: State, phys: usize, linear: u64, w: u32, v: u64)
    requires
        #[trigger] marked_from(o, s.mem, s.cr3, s.cr4, s.efer),
    ensures
        undone(o, #[trigger] s.store_at(phys, linear, w, v)),
{
    broadcast use quiet_access;

    reveal(State::store_at);
    reveal(State::write_split);
}

broadcast proof fn quiet_store(o: State, s: State, linear: u64, w: u32, v: u64)
    requires
        #[trigger] marked_from(o, s.mem, s.cr3, s.cr4, s.efer),
    ensures
        undone(o, #[trigger] s.store(linear, w, v)),
{
    broadcast use {quiet_access, quiet_store_at};

    reveal(State::store);
}

broadcast proof fn quiet_reach(o: State, s: State, linear: u64, n: u32, access: Access)
    requires
        #[trigger] marked_from(o, s.mem, s.cr3, s.cr4, s.efer),
    ensures
        uncommitted(o, (#[trigger] s.reach(linear, n, access)).0),
{
    broadcast use quiet_access;

    reveal(State::reach);
}

/// A store to a span keeps its promise whether or not something faulted before
/// it: it raises no fault of its own, and a state that has faulted it leaves
/// alone.
broadcast proof fn quiet_put_span(s: State, sp: Span, off: usize, w: u32, v: u64)
    ensures
        (#[trigger] s.put_span(sp, off, w, v)).pending_exception == s.pending_exception,
        s.faulted() ==> s.put_span(sp, off, w, v) == s,
{
    reveal(State::put_span);
}

broadcast proof fn quiet_read_rm(o: State, s: State, m: ModRm, w: u32)
    requires
        #[trigger] marked_from(o, s.mem, s.cr3, s.cr4, s.efer),
    ensures
        uncommitted(o, (#[trigger] s.read_rm(m, w)).0),
{
    broadcast use quiet_load;

    reveal(State::read_rm);
}

broadcast proof fn quiet_write_rm(o: State, s: State, m: ModRm, w: u32, v: u64)
    requires
        #[trigger] marked_from(o, s.mem, s.cr3, s.cr4, s.efer),
    ensures
        undone(o, #[trigger] s.write_rm(m, w, v)),
{
    broadcast use {quiet_store, still_with};

    reveal(State::write_rm);
}

broadcast proof fn quiet_push(o: State, s: State, w: u32, v: u64)
    requires
        #[trigger] marked_from(o, s.mem, s.cr3, s.cr4, s.efer),
    ensures
        undone(o, #[trigger] s.push(w, v)),
{
    broadcast use quiet_store;

    reveal(State::push);
}

broadcast proof fn quiet_pop(o: State, s: State, w: u32)
    requires
        #[trigger] marked_from(o, s.mem, s.cr3, s.cr4, s.efer),
    ensures
        uncommitted(o, (#[trigger] s.pop(w)).0),
{
    broadcast use quiet_load;

    reveal(State::pop);
}

/// Claiming slots writes nothing.
proof fn lemma_claimed(o: State, s: State, w: u32, n: int)
    requires
        uncommitted(o, s),
    ensures
        uncommitted(o, s.claimed(w, n).0),
    decreases n,
{
    broadcast use quiet_access;

    reveal(State::claim);
    if n > 0 {
        lemma_claimed(o, s, w, n - 1);
    }
}

/// Pushes in real mode raise no fault.
proof fn lemma_pushed(o: State, s: State, w: u32, vals: Seq<u64>, n: int)
    requires
        uncommitted(o, s),
        !s.wide_stack(w),
        !s.pe,
    ensures
        undone(o, s.pushed(w, vals, n)),
        s.pushed(w, vals, n).pending_exception == s.pending_exception,
        !s.pushed(w, vals, n).wide_stack(w),
        !s.pushed(w, vals, n).pe,
    decreases n,
{
    reveal(State::push);
    if n > 0 {
        lemma_pushed(o, s, w, vals, n - 1);
    }
}

broadcast proof fn quiet_push_all(o: State, s: State, w: u32, vals: Seq<u64>)
    requires
        #[trigger] marked_from(o, s.mem, s.cr3, s.cr4, s.efer),
    ensures
        undone(o, #[trigger] s.push_all(w, vals)),
{
    reveal(State::push_all);
    if !s.wide_stack(w) && !s.pe {
        lemma_pushed(o, s, w, vals, vals.len() as int);
    } else {
        lemma_claimed(o, s, w, vals.len() as int);
    }
}

// ---- Register writes ----

/// Nothing that bears on the law has changed: memory, the page tables and the
/// pending exception.
pub open spec fn still(s: State, t: State) -> bool {
    &&& t.mem == s.mem
    &&& t.cr3 == s.cr3
    &&& t.cr4 == s.cr4
    &&& t.efer == s.efer
    &&& t.pending_exception == s.pending_exception
}

broadcast proof fn still_with(s: State, i: u8, w: u32, v: u64)
    ensures
        still(s, #[trigger] s.with_reg_w(i, w, v)),
{
    reveal(State::with_reg_w);
}

broadcast proof fn still_set(s: State, i: u8, w: u32, v: u64)
    ensures
        still(s, #[trigger] s.set_reg_w(i, w, v)),
{
    broadcast use still_with;

    reveal(State::set_reg_w);
}

broadcast proof fn still_set32(s: State, i: u8, v: u32)
    ensures
        still(s, #[trigger] s.set_reg32(i, v)),
{
    reveal(State::set_reg32);
}

broadcast proof fn still_set16(s: State, i: u8, v: u16)
    ensures
        still(s, #[trigger] s.set_reg16(i, v)),
{
    reveal(State::set_reg16);
}

broadcast proof fn still_load_seg(s: State, g: SegReg, v: u16)
    ensures
        still(s, #[trigger] s.load_seg(g, v)),
{
    reveal(State::load_seg);
}

broadcast proof fn still_flushed(s: State)
    ensures
        still(s, #[trigger] s.flushed()),
{
    reveal(State::flushed);
}

broadcast proof fn still_with_flags(s: State, word: u32)
    ensures
        still(s, #[trigger] s.with_flags(word)),
{
}

broadcast proof fn still_with_flag(s: State, f: u32, on: bool)
    ensures
        still(s, #[trigger] s.with_flag(f, on)),
{
}

broadcast proof fn still_with64(s: State, i: u8, v: u64)
    ensures
        still(s, #[trigger] s.with_reg64(i, v)),
{
}

broadcast proof fn still_with32(s: State, i: u8, v: u32)
    ensures
        still(s, #[trigger] s.with_reg32(i, v)),
{
}

broadcast proof fn still_with16(s: State, i: u8, v: u16)
    ensures
        still(s, #[trigger] s.with_reg16(i, v)),
{
}

broadcast proof fn still_unfetched(s: State)
    ensures
        still(s, #[trigger] s.unfetched()),
{
}

broadcast proof fn still_switch(s: State)
    ensures
        still(s, #[trigger] s.counted_switch()),
{
}

broadcast proof fn still_logged(s: State, vector: u8)
    ensures
        still(s, #[trigger] s.call_logged(vector)),
{
}

broadcast group restartable {
    quiet_access,
    quiet_load_at,
    quiet_load,
    quiet_store_at,
    quiet_store,
    quiet_reach,
    quiet_put_span,
    quiet_read_rm,
    quiet_write_rm,
    quiet_push,
    quiet_pop,
    quiet_push_all,
    still_with,
    still_set,
    still_set32,
    still_set16,
    still_load_seg,
    still_flushed,
    still_with_flags,
    still_with_flag,
    still_with64,
    still_with32,
    still_with16,
    still_unfetched,
    still_switch,
    still_logged,
}

// ---- Interrupts ----

/// A BIOS service raises no fault, and a vector that is none changes nothing.
proof fn done_service(s: State, vector: u8)
    requires
        !s.faulted(),
    ensures
        !s.bios_service(vector).0.faulted(),
{
    reveal(State::bios_video);
    reveal(State::teletype);
    reveal(State::bios_memory);
    reveal(State::bios_e820);
    reveal(State::e820_answered);
    reveal(State::bios_keyboard);
    reveal(State::bios_disk);
    reveal(State::set_legacy8);
}

/// Interrupt entry writes its whole frame or nothing.
proof fn done_gate(o: State, s: State, vector: u8)
    requires
        !s.faulted(),
        still(o, s),
    ensures
        undone(o, s.protected_int(vector, None)),
        undone(o, s.real_int(vector)),
{
    broadcast use restartable;

    lemma_start(o);
    assert(uncommitted(o, s));
    reveal(State::gate_int32);
    reveal(State::gate_int64);
    reveal(State::real_int);
}

// ---- The instructions ----

proof fn done_mov_reg_rm(s: State, m: ModRm, dst: u8, w: u32)
    requires
        !s.faulted(),
    ensures
        undone(s, s.mov_reg_rm(m, dst, w)),
{
    broadcast use restartable;

    lemma_start(s);
    reveal(State::mov_reg_rm);
}

proof fn done_pop_reg(s: State, dst: u8, w: u32)
    requires
        !s.faulted(),
    ensures
        undone(s, s.pop_reg(dst, w)),
{
    broadcast use restartable;

    lemma_start(s);
    reveal(State::pop_reg);
}

proof fn done_store_word(s: State, m: ModRm, v: u16)
    requires
        !s.faulted(),
    ensures
        undone(s, s.store_word(m, v)),
{
    broadcast use restartable;

    lemma_start(s);
    reveal(State::store_word);
}

proof fn done_fst(s: State, m: ModRm, w64: bool)
    requires
        !s.faulted(),
    ensures
        undone(s, s.fst(m, w64)),
{
    broadcast use restartable;

    lemma_start(s);
    reveal(State::fst);
}

proof fn done_mov_rm_reg(s: State, m: ModRm, src: u8, w: u32)
    requires
        !s.faulted(),
    ensures
        undone(s, s.mov_rm_reg(m, src, w)),
{
    broadcast use restartable;

    lemma_start(s);
}

proof fn done_mov_acc_mem(s: State, addr: u64, w: u32)
    requires
        !s.faulted(),
    ensures
        undone(s, s.mov_acc_mem(addr, w)),
{
    broadcast use restartable;

    lemma_start(s);
    reveal(State::mov_acc_mem);
}

proof fn done_mov_mem_acc(s: State, addr: u64, w: u32)
    requires
        !s.faulted(),
    ensures
        undone(s, s.mov_mem_acc(addr, w)),
{
    broadcast use restartable;

    lemma_start(s);
    reveal(State::mov_mem_acc);
}

proof fn done_mov_seg_rm(s: State, seg: SegReg, m: ModRm)
    requires
        !s.faulted(),
    ensures
        undone(s, s.mov_seg_rm(seg, m)),
{
    broadcast use restartable;

    lemma_start(s);
    reveal(State::mov_seg_rm);
}

proof fn done_load_far_pointer(s: State, m: ModRm, seg: SegReg)
    requires
        !s.faulted(),
    ensures
        undone(s, s.load_far_pointer(m, seg)),
{
    broadcast use restartable;

    lemma_start(s);
    reveal(State::load_far_pointer);
}

proof fn done_alu_rm_reg(s: State, op: AluOp, m: ModRm, reg: u8, dir: Dir, w: u32)
    requires
        !s.faulted(),
    ensures
        undone(s, s.alu_rm_reg(op, m, reg, dir, w)),
{
    broadcast use restartable;

    lemma_start(s);
    reveal(State::alu_rm_reg);
}

proof fn done_alu_rm_imm(s: State, op: AluOp, m: ModRm, imm: u64, w: u32)
    requires
        !s.faulted(),
    ensures
        undone(s, s.alu_rm_imm(op, m, imm, w)),
{
    broadcast use restartable;

    lemma_start(s);
    reveal(State::alu_rm_imm);
}

proof fn done_alu_acc_imm(s: State, op: AluOp, imm: u64, w: u32)
    requires
        !s.faulted(),
    ensures
        undone(s, s.alu_acc_imm(op, imm, w)),
{
    broadcast use restartable;

    lemma_start(s);
    reveal(State::alu_acc_imm);
}

proof fn done_step_reg(s: State, dst: u8, down: bool, w: u32)
    requires
        !s.faulted(),
    ensures
        undone(s, s.step_reg(dst, down, w)),
{
    broadcast use restartable;

    lemma_start(s);
    reveal(State::step_reg);
}

proof fn done_step_rm(s: State, m: ModRm, down: bool, w: u32)
    requires
        !s.faulted(),
    ensures
        undone(s, s.step_rm(m, down, w)),
{
    broadcast use restartable;

    lemma_start(s);
    reveal(State::step_rm);
}

proof fn done_test_rm(s: State, m: ModRm, b: u64, w: u32)
    requires
        !s.faulted(),
    ensures
        undone(s, s.test_rm(m, b, w)),
{
    broadcast use restartable;

    lemma_start(s);
    reveal(State::test_rm);
}

proof fn done_tested(s: State, a: u64, b: u64, w: u32)
    requires
        !s.faulted(),
    ensures
        undone(s, s.tested(a, b, w)),
{
    broadcast use restartable;

    lemma_start(s);
}

proof fn done_not_rm(s: State, m: ModRm, w: u32)
    requires
        !s.faulted(),
    ensures
        undone(s, s.not_rm(m, w)),
{
    broadcast use restartable;

    lemma_start(s);
    reveal(State::not_rm);
}

proof fn done_neg_rm(s: State, m: ModRm, w: u32)
    requires
        !s.faulted(),
    ensures
        undone(s, s.neg_rm(m, w)),
{
    broadcast use restartable;

    lemma_start(s);
    reveal(State::neg_rm);
}

proof fn done_mul_rm(s: State, m: ModRm, w: u32)
    requires
        !s.faulted(),
    ensures
        undone(s, s.mul_rm(m, w)),
{
    broadcast use restartable;

    lemma_start(s);
    reveal(State::mul_rm);
    reveal(State::with_product);
}

proof fn done_imul_rm(s: State, m: ModRm, w: u32)
    requires
        !s.faulted(),
    ensures
        undone(s, s.imul_rm(m, w)),
{
    broadcast use restartable;

    lemma_start(s);
    reveal(State::imul_rm);
    reveal(State::with_product);
}

proof fn done_div_rm(s: State, m: ModRm, w: u32)
    requires
        !s.faulted(),
    ensures
        undone(s, s.div_rm(m, w)),
{
    broadcast use restartable;

    lemma_start(s);
    reveal(State::div_rm);
    reveal(State::with_division);
    reveal(State::set_reg8_of);
}

proof fn done_idiv_rm(s: State, m: ModRm, w: u32)
    requires
        !s.faulted(),
    ensures
        undone(s, s.idiv_rm(m, w)),
{
    broadcast use restartable;

    lemma_start(s);
    reveal(State::idiv_rm);
    reveal(State::with_division);
    reveal(State::set_reg8_of);
}

proof fn done_imul_reg(s: State, m: ModRm, dst: u8, factor: Option<int>, w: u32, rw: u32)
    requires
        !s.faulted(),
    ensures
        undone(s, s.imul_reg(m, dst, factor, w, rw)),
{
    broadcast use restartable;

    lemma_start(s);
    reveal(State::imul_reg);
    reveal(State::imul_store);
}

proof fn done_shift_rm(s: State, op: ShiftOp, m: ModRm, width: u32, n: u32)
    requires
        !s.faulted(),
    ensures
        undone(s, s.shift_rm(op, m, width, n)),
{
    broadcast use restartable;

    lemma_start(s);
    reveal(State::shift_rm);
}

proof fn done_shift_double(s: State, m: ModRm, reg: u8, count: ShiftCount, w32: bool, left: bool)
    requires
        !s.faulted(),
    ensures
        undone(s, s.shift_double(m, reg, count, w32, left)),
{
    broadcast use restartable;

    lemma_start(s);
    reveal(State::shift_double);
}

proof fn done_bit_scan(s: State, m: ModRm, dst: u8, reverse: bool)
    requires
        !s.faulted(),
    ensures
        undone(s, s.bit_scan(m, dst, reverse)),
{
    broadcast use restartable;

    lemma_start(s);
    reveal(State::bit_scan);
}

proof fn done_bit_op(s: State, m: ModRm, bit: BitOffset, op: BitOp)
    requires
        !s.faulted(),
    ensures
        undone(s, s.bit_op(m, bit, op)),
{
    broadcast use restartable;

    lemma_start(s);
    reveal(State::bit_op);
}

proof fn done_pusha(s: State, w: u32)
    requires
        !s.faulted(),
    ensures
        undone(s, s.pusha(w)),
{
    broadcast use restartable;

    lemma_start(s);
    reveal(State::pusha);
}

proof fn done_popa(s: State, w: u32)
    requires
        !s.faulted(),
    ensures
        undone(s, s.popa(w)),
{
    broadcast use restartable;

    lemma_start(s);
    reveal(State::popa);
}

proof fn done_push_rm(s: State, m: ModRm, w: u32)
    requires
        !s.faulted(),
    ensures
        undone(s, s.push_rm(m, w)),
{
    broadcast use restartable;

    lemma_start(s);
    reveal(State::push_rm);
}

proof fn done_pop_rm(s: State, m: ModRm, w: u32)
    requires
        !s.faulted(),
    ensures
        undone(s, s.pop_rm(m, w)),
{
    broadcast use restartable;

    lemma_start(s);
    reveal(State::pop_rm);
}

proof fn done_pop_seg(s: State, seg: SegReg)
    requires
        !s.faulted(),
    ensures
        undone(s, s.pop_seg(seg)),
{
    broadcast use restartable;

    lemma_start(s);
    reveal(State::pop_seg);
}

proof fn done_leave(s: State, w32: bool)
    requires
        !s.faulted(),
    ensures
        undone(s, s.leave(w32)),
{
    broadcast use restartable;

    lemma_start(s);
    reveal(State::leave);
    reveal(State::pop_reg);
}

proof fn done_pushf(s: State)
    requires
        !s.faulted(),
    ensures
        undone(s, s.pushf()),
{
    broadcast use restartable;

    lemma_start(s);
}

proof fn done_popf(s: State)
    requires
        !s.faulted(),
    ensures
        undone(s, s.popf()),
{
    broadcast use restartable;

    lemma_start(s);
    reveal(State::popf);
}

proof fn done_branch_if(s: State, cond: Cond, rel: i64)
    requires
        !s.faulted(),
    ensures
        undone(s, s.branch_if(cond, rel)),
{
    broadcast use restartable;

    lemma_start(s);
}

proof fn done_call16(s: State, rel: i16)
    requires
        !s.faulted(),
    ensures
        undone(s, s.call16(rel)),
{
    broadcast use restartable;

    lemma_start(s);
}

proof fn done_call32(s: State, rel: i32)
    requires
        !s.faulted(),
    ensures
        undone(s, s.call32(rel)),
{
    broadcast use restartable;

    lemma_start(s);
    reveal(State::call32);
}

proof fn done_ret16(s: State)
    requires
        !s.faulted(),
    ensures
        undone(s, s.ret16()),
{
    broadcast use restartable;

    lemma_start(s);
}

proof fn done_ret32(s: State)
    requires
        !s.faulted(),
    ensures
        undone(s, s.ret32()),
{
    broadcast use restartable;

    lemma_start(s);
    reveal(State::ret32);
}

proof fn done_ret_imm(s: State, imm: u16, w32: bool)
    requires
        !s.faulted(),
    ensures
        undone(s, s.ret_imm(imm, w32)),
{
    broadcast use restartable;

    lemma_start(s);
    reveal(State::ret_imm);
}

proof fn done_call_rm16(s: State, m: ModRm)
    requires
        !s.faulted(),
    ensures
        undone(s, s.call_rm16(m)),
{
    broadcast use restartable;

    lemma_start(s);
    reveal(State::call_rm16);
}

proof fn done_call_rm(s: State, m: ModRm)
    requires
        !s.faulted(),
    ensures
        undone(s, s.call_rm(m)),
{
    broadcast use restartable;

    lemma_start(s);
    reveal(State::call_rm);
}

proof fn done_jmp_rm16(s: State, m: ModRm)
    requires
        !s.faulted(),
    ensures
        undone(s, s.jmp_rm16(m)),
{
    broadcast use restartable;

    lemma_start(s);
}

proof fn done_jmp_rm(s: State, m: ModRm)
    requires
        !s.faulted(),
    ensures
        undone(s, s.jmp_rm(m)),
{
    broadcast use restartable;

    lemma_start(s);
    reveal(State::jmp_rm);
}

proof fn done_looped(s: State, cond: LoopCond, rel: i8)
    requires
        !s.faulted(),
    ensures
        undone(s, s.looped(cond, rel)),
{
    broadcast use restartable;

    lemma_start(s);
    reveal(State::looped);
}

proof fn done_jmp_far16(s: State, off: u16, seg: u16)
    requires
        !s.faulted(),
    ensures
        undone(s, s.jmp_far16(off, seg)),
{
    broadcast use restartable;

    lemma_start(s);
    reveal(State::jmp_far16);
}

proof fn done_call_far16(s: State, off: u16, seg: u16)
    requires
        !s.faulted(),
    ensures
        undone(s, s.call_far16(off, seg)),
{
    broadcast use restartable;

    lemma_start(s);
    reveal(State::call_far16);
    reveal(State::jmp_far16);
}

proof fn done_jmp_far32(s: State, off: u32, seg: u16)
    requires
        !s.faulted(),
    ensures
        undone(s, s.jmp_far32(off, seg)),
{
    broadcast use restartable;

    lemma_start(s);
    reveal(State::jmp_far32);
}

proof fn done_call_far32(s: State, off: u32, seg: u16)
    requires
        !s.faulted(),
    ensures
        undone(s, s.call_far32(off, seg)),
{
    broadcast use restartable;

    lemma_start(s);
    reveal(State::call_far32);
    reveal(State::jmp_far32);
}

proof fn done_retf16(s: State)
    requires
        !s.faulted(),
    ensures
        undone(s, s.retf16()),
{
    broadcast use restartable;

    lemma_start(s);
    reveal(State::retf16);
    let (a, ip) = s.pop(16);
    assert(uncommitted(s, State { ip: ip as u16, ..a }));
}

proof fn done_retf32(s: State)
    requires
        !s.faulted(),
    ensures
        undone(s, s.retf32()),
{
    broadcast use restartable;

    lemma_start(s);
    reveal(State::retf32);
}

proof fn done_int_n(s: State, vector: u8)
    requires
        !s.faulted(),
    ensures
        undone(s, s.int_n(vector)),
{
    broadcast use restartable;

    lemma_start(s);
    reveal(State::int_n);
    done_service(s.call_logged(vector), vector);
    done_gate(s, s.call_logged(vector), vector);
}

proof fn done_iret16(s: State)
    requires
        !s.faulted(),
    ensures
        undone(s, s.iret16()),
{
    broadcast use restartable;

    lemma_start(s);
    reveal(State::iret16);
    let (a, ip) = s.pop(16);
    let at = State { ip: ip as u16, ..a };
    assert(uncommitted(s, at));
    let (b, cs) = at.pop(16);
    assert(uncommitted(s, State { cs: cs as u16, ..b }));
}

proof fn done_movzx(s: State, m: ModRm, dst: u8, from: u32, w: u32)
    requires
        !s.faulted(),
    ensures
        undone(s, s.movzx(m, dst, from, w)),
{
    broadcast use restartable;

    lemma_start(s);
    reveal(State::movzx);
}

proof fn done_movsx(s: State, m: ModRm, dst: u8, from: u32, w: u32)
    requires
        !s.faulted(),
    ensures
        undone(s, s.movsx(m, dst, from, w)),
{
    broadcast use restartable;

    lemma_start(s);
    reveal(State::movsx);
}

proof fn done_lea(s: State, m: ModRm, dst: u8)
    requires
        !s.faulted(),
    ensures
        undone(s, s.lea(m, dst)),
{
    broadcast use restartable;

    lemma_start(s);
}

proof fn done_xchg_acc(s: State, reg: u8, w: u32)
    requires
        !s.faulted(),
    ensures
        undone(s, s.xchg_acc(reg, w)),
{
    broadcast use restartable;

    lemma_start(s);
}

proof fn done_xchg_rm(s: State, m: ModRm, reg: u8, w: u32)
    requires
        !s.faulted(),
    ensures
        undone(s, s.xchg_rm(m, reg, w)),
{
    broadcast use restartable;

    lemma_start(s);
    reveal(State::xchg_rm);
}

proof fn done_compare_exchange(s: State, m: ModRm, reg: u8, w: u32)
    requires
        !s.faulted(),
    ensures
        undone(s, s.compare_exchange(m, reg, w)),
{
    broadcast use restartable;

    lemma_start(s);
    reveal(State::compare_exchange);
}

proof fn done_xadd(s: State, m: ModRm, reg: u8, w: u32)
    requires
        !s.faulted(),
    ensures
        undone(s, s.xadd(m, reg, w)),
{
    broadcast use restartable;

    lemma_start(s);
    reveal(State::xadd);
}

proof fn done_compare_exchange8b(s: State, m: ModRm)
    requires
        !s.faulted(),
    ensures
        undone(s, s.compare_exchange8b(m)),
{
    broadcast use restartable;

    lemma_start(s);
    reveal(State::compare_exchange8b);
}

proof fn done_bswap(s: State, reg: u8)
    requires
        !s.faulted(),
    ensures
        undone(s, s.bswap(reg)),
{
    broadcast use restartable;

    lemma_start(s);
}

proof fn done_cmov(s: State, cond: Cond, m: ModRm, dst: u8)
    requires
        !s.faulted(),
    ensures
        undone(s, s.cmov(cond, m, dst)),
{
    broadcast use restartable;

    lemma_start(s);
    done_mov_reg_rm(s, m, dst, s.osize());
}

proof fn done_setcc(s: State, cond: Cond, m: ModRm)
    requires
        !s.faulted(),
    ensures
        undone(s, s.setcc(cond, m)),
{
    broadcast use restartable;

    lemma_start(s);
}

proof fn done_widen_acc(s: State, w: u32)
    requires
        !s.faulted(),
    ensures
        undone(s, s.widen_acc(w)),
{
    broadcast use restartable;

    lemma_start(s);
}

proof fn done_fill_sign(s: State, w: u32)
    requires
        !s.faulted(),
    ensures
        undone(s, s.fill_sign(w)),
{
    broadcast use restartable;

    lemma_start(s);
}

proof fn done_lgdt(s: State, m: ModRm)
    requires
        !s.faulted(),
    ensures
        undone(s, s.lgdt(m)),
{
    broadcast use restartable;

    lemma_start(s);
    reveal(State::table_operand);
}

proof fn done_lidt(s: State, m: ModRm)
    requires
        !s.faulted(),
    ensures
        undone(s, s.lidt(m)),
{
    broadcast use restartable;

    lemma_start(s);
    reveal(State::table_operand);
}

proof fn done_store_table(s: State, m: ModRm, limit: u16, base: u64)
    requires
        !s.faulted(),
    ensures
        undone(s, s.store_table(m, limit, base)),
{
    broadcast use restartable;

    lemma_start(s);
    reveal(State::store_table);
}

proof fn done_smsw(s: State, m: ModRm)
    requires
        !s.faulted(),
    ensures
        undone(s, s.smsw(m)),
{
    broadcast use restartable;

    lemma_start(s);
}

proof fn done_lmsw(s: State, m: ModRm)
    requires
        !s.faulted(),
    ensures
        undone(s, s.lmsw(m)),
{
    broadcast use restartable;

    lemma_start(s);
    reveal(State::lmsw);
    reveal(State::write_cr0);
}

proof fn done_xgetbv(s: State)
    requires
        !s.faulted(),
    ensures
        undone(s, s.xgetbv()),
{
    broadcast use restartable;

    lemma_start(s);
    reveal(State::xgetbv);
    reveal(State::with_pair);
}

proof fn done_xsetbv(s: State)
    requires
        !s.faulted(),
    ensures
        undone(s, s.xsetbv()),
{
    broadcast use restartable;

    lemma_start(s);
    reveal(State::xsetbv);
}

proof fn done_set_ac(s: State, on: bool)
    requires
        !s.faulted(),
    ensures
        undone(s, s.set_ac(on)),
{
    broadcast use restartable;

    lemma_start(s);
}

proof fn done_invlpg(s: State, linear: u64)
    requires
        !s.faulted(),
    ensures
        undone(s, s.invlpg(linear)),
{
    broadcast use restartable;

    lemma_start(s);
    reveal(State::invlpg);
}

proof fn done_mov_to_cr(s: State, cr: u8, reg: u8)
    requires
        !s.faulted(),
    ensures
        undone(s, s.mov_to_cr(cr, reg)),
{
    broadcast use restartable;

    lemma_start(s);
    reveal(State::mov_to_cr);
    reveal(State::write_cr0);
}

proof fn done_mov_dr(s: State, dr: u8, reg: u8)
    requires
        !s.faulted(),
    ensures
        undone(s, s.mov_dr(dr, reg)),
{
    broadcast use restartable;

    lemma_start(s);
}

proof fn done_mov_to_dr(s: State, dr: u8, reg: u8)
    requires
        !s.faulted(),
    ensures
        undone(s, s.mov_to_dr(dr, reg)),
{
    broadcast use restartable;

    lemma_start(s);
}

proof fn done_syscall(s: State)
    requires
        !s.faulted(),
    ensures
        undone(s, s.syscall()),
{
    broadcast use restartable;

    lemma_start(s);
    reveal(State::syscall);
}

proof fn done_sysret(s: State)
    requires
        !s.faulted(),
    ensures
        undone(s, s.sysret()),
{
    broadcast use restartable;

    lemma_start(s);
    reveal(State::sysret);
}

proof fn done_swapgs(s: State)
    requires
        !s.faulted(),
    ensures
        undone(s, s.swapgs()),
{
    broadcast use restartable;

    lemma_start(s);
}

proof fn done_with_pair(s: State, v: u64)
    requires
        !s.faulted(),
    ensures
        undone(s, s.with_pair(v)),
{
    broadcast use restartable;

    lemma_start(s);
    reveal(State::with_pair);
}

proof fn done_cpuid(s: State)
    requires
        !s.faulted(),
    ensures
        undone(s, s.cpuid()),
{
    broadcast use restartable;

    lemma_start(s);
    reveal(State::cpuid);
}

proof fn done_write_msr(s: State, index: u32, v: u64)
    requires
        !s.faulted(),
    ensures
        undone(s, s.write_msr(index, v)),
{
    broadcast use restartable;

    lemma_start(s);
    reveal(State::write_msr);
}

proof fn done_in8(s: State, port: u16)
    requires
        !s.faulted(),
    ensures
        undone(s, s.in8(port)),
{
    broadcast use restartable;

    lemma_start(s);
    reveal(State::in8);
    reveal(State::port_read);
}

proof fn done_in16(s: State, port: u16)
    requires
        !s.faulted(),
    ensures
        undone(s, s.in16(port)),
{
    broadcast use restartable;

    lemma_start(s);
    reveal(State::in16);
    reveal(State::port_in16);
    reveal(State::port_read);
}

proof fn done_port_out(s: State, port: u16, val: u8)
    requires
        !s.faulted(),
    ensures
        undone(s, s.port_out(port, val)),
{
    broadcast use restartable;

    lemma_start(s);
    reveal(State::port_out);
}

proof fn done_port_out16(s: State, port: u16, val: u16)
    requires
        !s.faulted(),
    ensures
        undone(s, s.port_out16(port, val)),
{
    broadcast use restartable;

    lemma_start(s);
    reveal(State::port_out16);
    reveal(State::port_out);
}

proof fn done_lldt(s: State, m: ModRm)
    requires
        !s.faulted(),
    ensures
        undone(s, s.lldt(m)),
{
    broadcast use restartable;

    lemma_start(s);
    reveal(State::lldt);
    reveal(State::load_ldt);
}

proof fn done_ltr(s: State, m: ModRm)
    requires
        !s.faulted(),
    ensures
        undone(s, s.ltr(m)),
{
    broadcast use restartable;

    lemma_start(s);
    reveal(State::ltr);
    reveal(State::load_tr);
}

proof fn done_with_fpu(s: State, f: FpuView)
    requires
        !s.faulted(),
    ensures
        undone(s, s.with_fpu(f)),
{
    broadcast use restartable;

    lemma_start(s);
}

proof fn done_fstcw(s: State, m: ModRm)
    requires
        !s.faulted(),
    ensures
        undone(s, s.fstcw(m)),
{
    broadcast use restartable;

    lemma_start(s);
    done_store_word(s, m, s.fpu.control);
}

proof fn done_fldcw(s: State, m: ModRm)
    requires
        !s.faulted(),
    ensures
        undone(s, s.fldcw(m)),
{
    broadcast use restartable;

    lemma_start(s);
    reveal(State::fldcw);
}

proof fn done_fstp(s: State, m: ModRm, w64: bool)
    requires
        !s.faulted(),
    ensures
        undone(s, s.fstp(m, w64)),
{
    broadcast use restartable;

    lemma_start(s);
    done_fst(s, m, w64);
}

proof fn done_fld(s: State, m: ModRm, w64: bool)
    requires
        !s.faulted(),
    ensures
        undone(s, s.fld(m, w64)),
{
    broadcast use restartable;

    lemma_start(s);
    reveal(State::fld);
}

proof fn done_fild(s: State, m: ModRm, w: u32)
    requires
        !s.faulted(),
    ensures
        undone(s, s.fild(m, w)),
{
    broadcast use restartable;

    lemma_start(s);
    reveal(State::fild);
}

proof fn done_fistp(s: State, m: ModRm, w: u32)
    requires
        !s.faulted(),
    ensures
        undone(s, s.fistp(m, w)),
{
    broadcast use restartable;

    lemma_start(s);
    reveal(State::fistp);
}

proof fn done_fop(s: State, op: FpuOp, m: ModRm)
    requires
        !s.faulted(),
    ensures
        undone(s, s.fop(op, m)),
{
    broadcast use restartable;

    lemma_start(s);
    reveal(State::fop);
    reveal(State::fpu_operand);
}

proof fn done_fxsave(s: State, m: ModRm)
    requires
        !s.faulted(),
    ensures
        undone(s, s.fxsave(m)),
{
    broadcast use restartable;

    lemma_start(s);
    reveal(State::fxsave);
}

proof fn done_fxrstor(s: State, m: ModRm)
    requires
        !s.faulted(),
    ensures
        undone(s, s.fxrstor(m)),
{
    broadcast use restartable;

    lemma_start(s);
    reveal(State::fxrstor);
}

proof fn done_unknown(s: State, opcode: u16)
    requires
        !s.faulted(),
    ensures
        undone(s, s.unknown(opcode)),
{
    broadcast use restartable;

    lemma_start(s);
    reveal(State::unknown);
}

proof fn done_iret64(s: State)
    requires
        !s.faulted(),
    ensures
        undone(s, s.iret64()),
{
    broadcast use restartable;

    lemma_start(s);
    reveal(State::iret64);
}

proof fn done_iret32(s: State)
    requires
        !s.faulted(),
    ensures
        undone(s, s.iret32()),
{
    broadcast use restartable;

    lemma_start(s);
    reveal(State::iret32);
}

/// An instruction of this group that faults has written nothing.
proof fn done_system_inst(s: State, inst: Inst)
    requires
        !s.faulted(),
        !inst.is_string(),
    ensures
        undone(s, s.system_inst(inst)),
{
    match inst {
        Inst::Lgdt { m } => {
            assert(undone(s, s.system_inst(inst))) by {
                reveal(State::system_inst);
                done_lgdt(s, m);
            }
        },
        Inst::Lidt { m } => {
            assert(undone(s, s.system_inst(inst))) by {
                reveal(State::system_inst);
                done_lidt(s, m);
            }
        },
        Inst::Sgdt { m } => {
            assert(undone(s, s.system_inst(inst))) by {
                reveal(State::system_inst);
                done_store_table(s, m, s.gdt_limit, s.gdt_base);
            }
        },
        Inst::Sidt { m } => {
            assert(undone(s, s.system_inst(inst))) by {
                reveal(State::system_inst);
                done_store_table(s, m, s.idt_limit, s.idt_base);
            }
        },
        Inst::Smsw { m } => {
            assert(undone(s, s.system_inst(inst))) by {
                reveal(State::system_inst);
                done_smsw(s, m);
            }
        },
        Inst::Lmsw { m } => {
            assert(undone(s, s.system_inst(inst))) by {
                reveal(State::system_inst);
                done_lmsw(s, m);
            }
        },
        Inst::Xgetbv => {
            assert(undone(s, s.system_inst(inst))) by {
                reveal(State::system_inst);
                done_xgetbv(s);
            }
        },
        Inst::Xsetbv => {
            assert(undone(s, s.system_inst(inst))) by {
                reveal(State::system_inst);
                done_xsetbv(s);
            }
        },
        Inst::Clac => {
            assert(undone(s, s.system_inst(inst))) by {
                reveal(State::system_inst);
                done_set_ac(s, false);
            }
        },
        Inst::Stac => {
            assert(undone(s, s.system_inst(inst))) by {
                reveal(State::system_inst);
                done_set_ac(s, true);
            }
        },
        Inst::Invlpg { m } => {
            assert(undone(s, s.system_inst(inst))) by {
                reveal(State::system_inst);
                done_invlpg(s, s.rm_linear(m));
            }
        },
        Inst::MovToCr { cr, reg } => {
            assert(undone(s, s.system_inst(inst))) by {
                reveal(State::system_inst);
                done_mov_to_cr(s, cr, reg);
            }
        },
        Inst::MovDr { dr, reg } => {
            assert(undone(s, s.system_inst(inst))) by {
                reveal(State::system_inst);
                done_mov_dr(s, dr, reg);
            }
        },
        Inst::MovToDr { dr, reg } => {
            assert(undone(s, s.system_inst(inst))) by {
                reveal(State::system_inst);
                done_mov_to_dr(s, dr, reg);
            }
        },
        Inst::Syscall => {
            assert(undone(s, s.system_inst(inst))) by {
                reveal(State::system_inst);
                done_syscall(s);
            }
        },
        Inst::Sysret => {
            assert(undone(s, s.system_inst(inst))) by {
                reveal(State::system_inst);
                done_sysret(s);
            }
        },
        Inst::Swapgs => {
            assert(undone(s, s.system_inst(inst))) by {
                reveal(State::system_inst);
                done_swapgs(s);
            }
        },
        Inst::Rdtscp => {
            assert(undone(s, s.system_inst(inst))) by {
                reveal(State::system_inst);
                broadcast use restartable;

                done_with_pair(s, s.tsc);
            }
        },
        Inst::Rdtsc => {
            assert(undone(s, s.system_inst(inst))) by {
                reveal(State::system_inst);
                done_with_pair(s, s.tsc);
            }
        },
        Inst::Cpuid => {
            assert(undone(s, s.system_inst(inst))) by {
                reveal(State::system_inst);
                done_cpuid(s);
            }
        },
        Inst::Rdmsr => {
            assert(undone(s, s.system_inst(inst))) by {
                reveal(State::system_inst);
                done_with_pair(s, s.read_msr(s.reg32(1)));
            }
        },
        Inst::Wrmsr => {
            assert(undone(s, s.system_inst(inst))) by {
                reveal(State::system_inst);
                done_write_msr(s, s.reg32(1), s.pair());
            }
        },
        Inst::InAlImm { port } => {
            assert(undone(s, s.system_inst(inst))) by {
                reveal(State::system_inst);
                done_in8(s, port as u16);
            }
        },
        Inst::InAxImm { port } => {
            assert(undone(s, s.system_inst(inst))) by {
                reveal(State::system_inst);
                done_in16(s, port as u16);
            }
        },
        Inst::InAlDx => {
            assert(undone(s, s.system_inst(inst))) by {
                reveal(State::system_inst);
                done_in8(s, s.reg16(2));
            }
        },
        Inst::InAxDx => {
            assert(undone(s, s.system_inst(inst))) by {
                reveal(State::system_inst);
                done_in16(s, s.reg16(2));
            }
        },
        Inst::OutImmAl { port } => {
            assert(undone(s, s.system_inst(inst))) by {
                reveal(State::system_inst);
                done_port_out(s, port as u16, s.reg64(0) as u8);
            }
        },
        Inst::OutImmAx { port } => {
            assert(undone(s, s.system_inst(inst))) by {
                reveal(State::system_inst);
                done_port_out16(s, port as u16, s.reg16(0));
            }
        },
        Inst::OutDxAl => {
            assert(undone(s, s.system_inst(inst))) by {
                reveal(State::system_inst);
                done_port_out(s, s.reg16(2), s.reg64(0) as u8);
            }
        },
        Inst::OutDxAx => {
            assert(undone(s, s.system_inst(inst))) by {
                reveal(State::system_inst);
                done_port_out16(s, s.reg16(2), s.reg16(0));
            }
        },
        Inst::Lldt { m } => {
            assert(undone(s, s.system_inst(inst))) by {
                reveal(State::system_inst);
                done_lldt(s, m);
            }
        },
        Inst::Ltr { m } => {
            assert(undone(s, s.system_inst(inst))) by {
                reveal(State::system_inst);
                done_ltr(s, m);
            }
        },
        Inst::Fninit => {
            assert(undone(s, s.system_inst(inst))) by {
                reveal(State::system_inst);
                done_with_fpu(s, FpuView::reset());
            }
        },
        Inst::Fstcw { m } => {
            assert(undone(s, s.system_inst(inst))) by {
                reveal(State::system_inst);
                done_fstcw(s, m);
            }
        },
        Inst::Fldcw { m } => {
            assert(undone(s, s.system_inst(inst))) by {
                reveal(State::system_inst);
                done_fldcw(s, m);
            }
        },
        Inst::Fstsw { m } => {
            assert(undone(s, s.system_inst(inst))) by {
                reveal(State::system_inst);
                done_store_word(s, m, s.fpu.status);
            }
        },
        Inst::Fst { m, w64 } => {
            assert(undone(s, s.system_inst(inst))) by {
                reveal(State::system_inst);
                done_fst(s, m, w64);
            }
        },
        Inst::Fstp { m, w64 } => {
            assert(undone(s, s.system_inst(inst))) by {
                reveal(State::system_inst);
                done_fstp(s, m, w64);
            }
        },
        Inst::Fld { m, w64 } => {
            assert(undone(s, s.system_inst(inst))) by {
                reveal(State::system_inst);
                done_fld(s, m, w64);
            }
        },
        Inst::Fild { m } => {
            assert(undone(s, s.system_inst(inst))) by {
                reveal(State::system_inst);
                done_fild(s, m, 32);
            }
        },
        Inst::Fild16 { m } => {
            assert(undone(s, s.system_inst(inst))) by {
                reveal(State::system_inst);
                done_fild(s, m, 16);
            }
        },
        Inst::Fistp { m } => {
            assert(undone(s, s.system_inst(inst))) by {
                reveal(State::system_inst);
                done_fistp(s, m, 32);
            }
        },
        Inst::Fistp16 { m } => {
            assert(undone(s, s.system_inst(inst))) by {
                reveal(State::system_inst);
                done_fistp(s, m, 16);
            }
        },
        Inst::Fop { op, m } => {
            assert(undone(s, s.system_inst(inst))) by {
                reveal(State::system_inst);
                done_fop(s, op, m);
            }
        },
        Inst::Fxsave { m } => {
            assert(undone(s, s.system_inst(inst))) by {
                reveal(State::system_inst);
                done_fxsave(s, m);
            }
        },
        Inst::Fxrstor { m } => {
            assert(undone(s, s.system_inst(inst))) by {
                reveal(State::system_inst);
                done_fxrstor(s, m);
            }
        },
        Inst::Unknown { opcode } => {
            assert(undone(s, s.system_inst(inst))) by {
                reveal(State::system_inst);
                done_unknown(s, opcode);
            }
        },
        _ => {
            assert(undone(s, s.system_inst(inst))) by {
                broadcast use restartable;

                reveal(State::system_inst);
                lemma_start(s);
            }
        },
    }
}

/// An instruction of this group that faults has written nothing.
proof fn done_data_inst(s: State, inst: Inst)
    requires
        !s.faulted(),
        !inst.is_string(),
    ensures
        undone(s, s.data_inst(inst)),
{
    match inst {
        Inst::Movzx8 { m, dst } => {
            assert(undone(s, s.data_inst(inst))) by {
                reveal(State::data_inst);
                done_movzx(s, m, dst, 8, s.osize());
            }
        },
        Inst::Movzx16 { m, dst } => {
            assert(undone(s, s.data_inst(inst))) by {
                reveal(State::data_inst);
                done_movzx(s, m, dst, 16, s.osize());
            }
        },
        Inst::Movsx8 { m, dst } => {
            assert(undone(s, s.data_inst(inst))) by {
                reveal(State::data_inst);
                done_movsx(s, m, dst, 8, s.osize());
            }
        },
        Inst::Movsx16 { m, dst } => {
            assert(undone(s, s.data_inst(inst))) by {
                reveal(State::data_inst);
                done_movsx(s, m, dst, 16, s.osize());
            }
        },
        Inst::Movsxd { m, dst } => {
            assert(undone(s, s.data_inst(inst))) by {
                reveal(State::data_inst);
                done_movsx(s, m, dst, 32, s.osize());
            }
        },
        Inst::Lea { m, dst } => {
            assert(undone(s, s.data_inst(inst))) by {
                reveal(State::data_inst);
                done_lea(s, m, dst);
            }
        },
        Inst::XchgAxReg { reg } => {
            assert(undone(s, s.data_inst(inst))) by {
                reveal(State::data_inst);
                done_xchg_acc(s, reg, 16);
            }
        },
        Inst::XchgEaxReg { reg } => {
            assert(undone(s, s.data_inst(inst))) by {
                reveal(State::data_inst);
                done_xchg_acc(s, reg, s.osize());
            }
        },
        Inst::XchgRmReg { m, reg, width } => {
            assert(undone(s, s.data_inst(inst))) by {
                reveal(State::data_inst);
                done_xchg_rm(s, m, reg, s.operand_width(width));
            }
        },
        Inst::Cmpxchg { m, reg, width } => {
            assert(undone(s, s.data_inst(inst))) by {
                reveal(State::data_inst);
                done_compare_exchange(s, m, reg, s.operand_width(width));
            }
        },
        Inst::Xadd { m, reg, width } => {
            assert(undone(s, s.data_inst(inst))) by {
                reveal(State::data_inst);
                done_xadd(s, m, reg, s.operand_width(width));
            }
        },
        Inst::Cmpxchg8b { m } => {
            assert(undone(s, s.data_inst(inst))) by {
                reveal(State::data_inst);
                done_compare_exchange8b(s, m);
            }
        },
        Inst::Bswap { reg } => {
            assert(undone(s, s.data_inst(inst))) by {
                reveal(State::data_inst);
                done_bswap(s, reg);
            }
        },
        Inst::Cmovcc { cond, m, dst, w32: _ } => {
            assert(undone(s, s.data_inst(inst))) by {
                reveal(State::data_inst);
                done_cmov(s, cond, m, dst);
            }
        },
        Inst::Setcc { cond, m } => {
            assert(undone(s, s.data_inst(inst))) by {
                reveal(State::data_inst);
                done_setcc(s, cond, m);
            }
        },
        Inst::Cbw => {
            assert(undone(s, s.data_inst(inst))) by {
                reveal(State::data_inst);
                done_widen_acc(s, 16);
            }
        },
        Inst::Cwd => {
            assert(undone(s, s.data_inst(inst))) by {
                reveal(State::data_inst);
                done_fill_sign(s, 16);
            }
        },
        Inst::Cwde => {
            assert(undone(s, s.data_inst(inst))) by {
                reveal(State::data_inst);
                done_widen_acc(s, s.osize());
            }
        },
        Inst::Cdq => {
            assert(undone(s, s.data_inst(inst))) by {
                reveal(State::data_inst);
                done_fill_sign(s, s.osize());
            }
        },
        _ => {
            assert(undone(s, s.data_inst(inst))) by {
                broadcast use restartable;

                reveal(State::data_inst);
                lemma_start(s);
                done_system_inst(s, inst);
            }
        },
    }
}

/// An instruction of this group that faults has written nothing.
proof fn done_flow_inst(s: State, inst: Inst)
    requires
        !s.faulted(),
        !inst.is_string(),
    ensures
        undone(s, s.flow_inst(inst)),
{
    match inst {
        Inst::Pusha { w32 } => {
            assert(undone(s, s.flow_inst(inst))) by {
                reveal(State::flow_inst);
                done_pusha(s, if w32 { 32 } else { 16 });
            }
        },
        Inst::Popa { w32 } => {
            assert(undone(s, s.flow_inst(inst))) by {
                reveal(State::flow_inst);
                done_popa(s, if w32 { 32 } else { 16 });
            }
        },
        Inst::PopReg16 { dst } => {
            assert(undone(s, s.flow_inst(inst))) by {
                reveal(State::flow_inst);
                done_pop_reg(s, dst, 16);
            }
        },
        Inst::PopReg32 { dst } => {
            assert(undone(s, s.flow_inst(inst))) by {
                reveal(State::flow_inst);
                done_pop_reg(s, dst, s.stack_width());
            }
        },
        Inst::PushRm16 { m } => {
            assert(undone(s, s.flow_inst(inst))) by {
                reveal(State::flow_inst);
                done_push_rm(s, m, 16);
            }
        },
        Inst::PushRm32 { m } => {
            assert(undone(s, s.flow_inst(inst))) by {
                reveal(State::flow_inst);
                done_push_rm(s, m, s.stack_width());
            }
        },
        Inst::PopRm16 { m } => {
            assert(undone(s, s.flow_inst(inst))) by {
                reveal(State::flow_inst);
                done_pop_rm(s, m, 16);
            }
        },
        Inst::PopRm32 { m } => {
            assert(undone(s, s.flow_inst(inst))) by {
                reveal(State::flow_inst);
                done_pop_rm(s, m, s.stack_width());
            }
        },
        Inst::PopSeg { seg } => {
            assert(undone(s, s.flow_inst(inst))) by {
                reveal(State::flow_inst);
                done_pop_seg(s, seg);
            }
        },
        Inst::Leave { w32 } => {
            assert(undone(s, s.flow_inst(inst))) by {
                reveal(State::flow_inst);
                done_leave(s, w32);
            }
        },
        Inst::Pushf => {
            assert(undone(s, s.flow_inst(inst))) by {
                reveal(State::flow_inst);
                done_pushf(s);
            }
        },
        Inst::Popf => {
            assert(undone(s, s.flow_inst(inst))) by {
                reveal(State::flow_inst);
                done_popf(s);
            }
        },
        Inst::Jcc { cond, rel } => {
            assert(undone(s, s.flow_inst(inst))) by {
                reveal(State::flow_inst);
                done_branch_if(s, cond, rel as i64);
            }
        },
        Inst::Jcc32 { cond, rel } => {
            assert(undone(s, s.flow_inst(inst))) by {
                reveal(State::flow_inst);
                done_branch_if(s, cond, rel as i64);
            }
        },
        Inst::CallRel16 { rel } => {
            assert(undone(s, s.flow_inst(inst))) by {
                reveal(State::flow_inst);
                done_call16(s, rel);
            }
        },
        Inst::CallRel32 { rel } => {
            assert(undone(s, s.flow_inst(inst))) by {
                reveal(State::flow_inst);
                done_call32(s, rel);
            }
        },
        Inst::Ret => {
            assert(undone(s, s.flow_inst(inst))) by {
                reveal(State::flow_inst);
                done_ret16(s);
            }
        },
        Inst::Ret32 => {
            assert(undone(s, s.flow_inst(inst))) by {
                reveal(State::flow_inst);
                done_ret32(s);
            }
        },
        Inst::RetImm { imm, w32 } => {
            assert(undone(s, s.flow_inst(inst))) by {
                reveal(State::flow_inst);
                done_ret_imm(s, imm, w32);
            }
        },
        Inst::CallRm16 { m } => {
            assert(undone(s, s.flow_inst(inst))) by {
                reveal(State::flow_inst);
                done_call_rm16(s, m);
            }
        },
        Inst::CallRm32 { m } => {
            assert(undone(s, s.flow_inst(inst))) by {
                reveal(State::flow_inst);
                done_call_rm(s, m);
            }
        },
        Inst::JmpRm16 { m } => {
            assert(undone(s, s.flow_inst(inst))) by {
                reveal(State::flow_inst);
                done_jmp_rm16(s, m);
            }
        },
        Inst::JmpRm32 { m } => {
            assert(undone(s, s.flow_inst(inst))) by {
                reveal(State::flow_inst);
                done_jmp_rm(s, m);
            }
        },
        Inst::Loop { cond, rel } => {
            assert(undone(s, s.flow_inst(inst))) by {
                reveal(State::flow_inst);
                done_looped(s, cond, rel);
            }
        },
        Inst::JmpFar { off, seg } => {
            assert(undone(s, s.flow_inst(inst))) by {
                reveal(State::flow_inst);
                done_jmp_far16(s, off, seg);
            }
        },
        Inst::CallFar { off, seg } => {
            assert(undone(s, s.flow_inst(inst))) by {
                reveal(State::flow_inst);
                done_call_far16(s, off, seg);
            }
        },
        Inst::JmpFar32 { off, seg } => {
            assert(undone(s, s.flow_inst(inst))) by {
                reveal(State::flow_inst);
                done_jmp_far32(s, off, seg);
            }
        },
        Inst::CallFar32 { off, seg } => {
            assert(undone(s, s.flow_inst(inst))) by {
                reveal(State::flow_inst);
                done_call_far32(s, off, seg);
            }
        },
        Inst::Retf => {
            assert(undone(s, s.flow_inst(inst))) by {
                reveal(State::flow_inst);
                done_retf16(s);
            }
        },
        Inst::Retf32 => {
            assert(undone(s, s.flow_inst(inst))) by {
                reveal(State::flow_inst);
                done_retf32(s);
            }
        },
        Inst::Int { vector } => {
            assert(undone(s, s.flow_inst(inst))) by {
                reveal(State::flow_inst);
                done_int_n(s, vector);
            }
        },
        Inst::Iret => {
            assert(undone(s, s.flow_inst(inst))) by {
                reveal(State::flow_inst);
                done_iret16(s);
            }
        },
        Inst::Iret32 => {
            assert(undone(s, s.flow_inst(inst))) by {
                reveal(State::flow_inst);
                done_iret64(s);
                done_iret32(s);
            }
        },
        _ => {
            assert(undone(s, s.flow_inst(inst))) by {
                broadcast use restartable;

                reveal(State::flow_inst);
                lemma_start(s);
                done_data_inst(s, inst);
            }
        },
    }
}

/// An instruction of this group that faults has written nothing.
proof fn done_arith_inst_4(s: State, inst: Inst)
    requires
        !s.faulted(),
        !inst.is_string(),
        !(inst is AluRm8Reg),
        !(inst is AluRm16Reg),
        !(inst is AluRm32Reg),
        !(inst is AluRm8Imm),
        !(inst is AluRm16Imm),
        !(inst is AluRm32Imm),
        !(inst is AluAccImm8),
        !(inst is AluAccImm16),
        !(inst is AluAccImm32),
        !(inst is IncReg16),
        !(inst is DecReg16),
        !(inst is IncReg32),
        !(inst is DecReg32),
        !(inst is IncRm8),
        !(inst is DecRm8),
        !(inst is IncRm16),
        !(inst is DecRm16),
        !(inst is IncRm32),
        !(inst is DecRm32),
        !(inst is TestRm8Imm),
        !(inst is TestRm16Imm),
        !(inst is TestRm32Imm),
        !(inst is TestRm8Reg),
        !(inst is TestRm16Reg),
        !(inst is TestRm32Reg),
        !(inst is TestAccImm8),
        !(inst is TestAccImm16),
        !(inst is TestAccImm32),
        !(inst is NotRm8),
        !(inst is NotRm16),
        !(inst is NotRm32),
        !(inst is NegRm8),
        !(inst is NegRm16),
        !(inst is NegRm32),
        !(inst is MulRm8),
        !(inst is MulRm16),
        !(inst is MulRm32),
        !(inst is ImulRm8),
        !(inst is ImulRm16),
        !(inst is ImulRm32),
        !(inst is DivRm8),
        !(inst is DivRm16),
        !(inst is DivRm32),
        !(inst is IdivRm8),
        !(inst is IdivRm16),
        !(inst is IdivRm32),
        !(inst is ImulRegRm16),
        !(inst is ImulRegRm32),
    ensures
        undone(s, s.arith_inst(inst)),
{
    match inst {
        Inst::ImulRegRmImm16 { m, dst, imm } => {
            assert(undone(s, s.arith_inst(inst))) by {
                reveal(State::arith_inst);
                done_imul_reg(s, m, dst, Some(imm as int), 16, 16);
            }
        },
        Inst::ImulRegRmImm32 { m, dst, imm } => {
            assert(undone(s, s.arith_inst(inst))) by {
                reveal(State::arith_inst);
                done_imul_reg(s, m, dst, Some(imm as int), s.osize(), s.imul_width());
            }
        },
        Inst::Shift { op, m, width, count } => {
            assert(undone(s, s.arith_inst(inst))) by {
                reveal(State::arith_inst);
                done_shift_rm(s, op, m, width, s.shift_count(count) as u32);
            }
        },
        Inst::ShiftImm { op, m, width, imm } => {
            assert(undone(s, s.arith_inst(inst))) by {
                reveal(State::arith_inst);
                done_shift_rm(s, op, m, width, imm as u32);
            }
        },
        Inst::Shld { m, reg, count, w32 } => {
            assert(undone(s, s.arith_inst(inst))) by {
                reveal(State::arith_inst);
                done_shift_double(s, m, reg, count, w32, true);
            }
        },
        Inst::Shrd { m, reg, count, w32 } => {
            assert(undone(s, s.arith_inst(inst))) by {
                reveal(State::arith_inst);
                done_shift_double(s, m, reg, count, w32, false);
            }
        },
        Inst::Bsf { m, dst, w32: _ } => {
            assert(undone(s, s.arith_inst(inst))) by {
                reveal(State::arith_inst);
                done_bit_scan(s, m, dst, false);
            }
        },
        Inst::Bsr { m, dst, w32: _ } => {
            assert(undone(s, s.arith_inst(inst))) by {
                reveal(State::arith_inst);
                done_bit_scan(s, m, dst, true);
            }
        },
        Inst::Bt { m, bit } => {
            assert(undone(s, s.arith_inst(inst))) by {
                reveal(State::arith_inst);
                done_bit_op(s, m, bit, BitOp::Test);
            }
        },
        Inst::Bts { m, bit } => {
            assert(undone(s, s.arith_inst(inst))) by {
                reveal(State::arith_inst);
                done_bit_op(s, m, bit, BitOp::Raise);
            }
        },
        Inst::Btr { m, bit } => {
            assert(undone(s, s.arith_inst(inst))) by {
                reveal(State::arith_inst);
                done_bit_op(s, m, bit, BitOp::Reset);
            }
        },
        Inst::Btc { m, bit } => {
            assert(undone(s, s.arith_inst(inst))) by {
                reveal(State::arith_inst);
                done_bit_op(s, m, bit, BitOp::Complement);
            }
        },
        _ => {
            assert(undone(s, s.arith_inst(inst))) by {
                broadcast use restartable;

                reveal(State::arith_inst);
                lemma_start(s);
                done_flow_inst(s, inst);
            }
        },
    }
}

/// An instruction of this group that faults has written nothing.
proof fn done_arith_inst_3(s: State, inst: Inst)
    requires
        !s.faulted(),
        !inst.is_string(),
        !(inst is AluRm8Reg),
        !(inst is AluRm16Reg),
        !(inst is AluRm32Reg),
        !(inst is AluRm8Imm),
        !(inst is AluRm16Imm),
        !(inst is AluRm32Imm),
        !(inst is AluAccImm8),
        !(inst is AluAccImm16),
        !(inst is AluAccImm32),
        !(inst is IncReg16),
        !(inst is DecReg16),
        !(inst is IncReg32),
        !(inst is DecReg32),
        !(inst is IncRm8),
        !(inst is DecRm8),
        !(inst is IncRm16),
        !(inst is DecRm16),
        !(inst is IncRm32),
        !(inst is DecRm32),
        !(inst is TestRm8Imm),
        !(inst is TestRm16Imm),
        !(inst is TestRm32Imm),
        !(inst is TestRm8Reg),
        !(inst is TestRm16Reg),
        !(inst is TestRm32Reg),
        !(inst is TestAccImm8),
        !(inst is TestAccImm16),
        !(inst is TestAccImm32),
        !(inst is NotRm8),
        !(inst is NotRm16),
        !(inst is NotRm32),
        !(inst is NegRm8),
    ensures
        undone(s, s.arith_inst(inst)),
{
    match inst {
        Inst::NegRm16 { m } => {
            assert(undone(s, s.arith_inst(inst))) by {
                reveal(State::arith_inst);
                done_neg_rm(s, m, 16);
            }
        },
        Inst::NegRm32 { m } => {
            assert(undone(s, s.arith_inst(inst))) by {
                reveal(State::arith_inst);
                done_neg_rm(s, m, s.osize());
            }
        },
        Inst::MulRm8 { m } => {
            assert(undone(s, s.arith_inst(inst))) by {
                reveal(State::arith_inst);
                done_mul_rm(s, m, 8);
            }
        },
        Inst::MulRm16 { m } => {
            assert(undone(s, s.arith_inst(inst))) by {
                reveal(State::arith_inst);
                done_mul_rm(s, m, 16);
            }
        },
        Inst::MulRm32 { m } => {
            assert(undone(s, s.arith_inst(inst))) by {
                reveal(State::arith_inst);
                done_mul_rm(s, m, s.osize());
            }
        },
        Inst::ImulRm8 { m } => {
            assert(undone(s, s.arith_inst(inst))) by {
                reveal(State::arith_inst);
                done_imul_rm(s, m, 8);
            }
        },
        Inst::ImulRm16 { m } => {
            assert(undone(s, s.arith_inst(inst))) by {
                reveal(State::arith_inst);
                done_imul_rm(s, m, 16);
            }
        },
        Inst::ImulRm32 { m } => {
            assert(undone(s, s.arith_inst(inst))) by {
                reveal(State::arith_inst);
                done_imul_rm(s, m, s.osize());
            }
        },
        Inst::DivRm8 { m } => {
            assert(undone(s, s.arith_inst(inst))) by {
                reveal(State::arith_inst);
                done_div_rm(s, m, 8);
            }
        },
        Inst::DivRm16 { m } => {
            assert(undone(s, s.arith_inst(inst))) by {
                reveal(State::arith_inst);
                done_div_rm(s, m, 16);
            }
        },
        Inst::DivRm32 { m } => {
            assert(undone(s, s.arith_inst(inst))) by {
                reveal(State::arith_inst);
                done_div_rm(s, m, s.osize());
            }
        },
        Inst::IdivRm8 { m } => {
            assert(undone(s, s.arith_inst(inst))) by {
                reveal(State::arith_inst);
                done_idiv_rm(s, m, 8);
            }
        },
        Inst::IdivRm16 { m } => {
            assert(undone(s, s.arith_inst(inst))) by {
                reveal(State::arith_inst);
                done_idiv_rm(s, m, 16);
            }
        },
        Inst::IdivRm32 { m } => {
            assert(undone(s, s.arith_inst(inst))) by {
                reveal(State::arith_inst);
                done_idiv_rm(s, m, s.osize());
            }
        },
        Inst::ImulRegRm16 { m, dst } => {
            assert(undone(s, s.arith_inst(inst))) by {
                reveal(State::arith_inst);
                done_imul_reg(s, m, dst, None, 16, 16);
            }
        },
        Inst::ImulRegRm32 { m, dst } => {
            assert(undone(s, s.arith_inst(inst))) by {
                reveal(State::arith_inst);
                done_imul_reg(s, m, dst, None, s.osize(), s.imul_width());
            }
        },
        _ => {
            done_arith_inst_4(s, inst);
        },
    }
}

/// An instruction of this group that faults has written nothing.
proof fn done_arith_inst_2(s: State, inst: Inst)
    requires
        !s.faulted(),
        !inst.is_string(),
        !(inst is AluRm8Reg),
        !(inst is AluRm16Reg),
        !(inst is AluRm32Reg),
        !(inst is AluRm8Imm),
        !(inst is AluRm16Imm),
        !(inst is AluRm32Imm),
        !(inst is AluAccImm8),
        !(inst is AluAccImm16),
        !(inst is AluAccImm32),
        !(inst is IncReg16),
        !(inst is DecReg16),
        !(inst is IncReg32),
        !(inst is DecReg32),
        !(inst is IncRm8),
        !(inst is DecRm8),
        !(inst is IncRm16),
    ensures
        undone(s, s.arith_inst(inst)),
{
    match inst {
        Inst::DecRm16 { m } => {
            assert(undone(s, s.arith_inst(inst))) by {
                reveal(State::arith_inst);
                done_step_rm(s, m, true, 16);
            }
        },
        Inst::IncRm32 { m } => {
            assert(undone(s, s.arith_inst(inst))) by {
                reveal(State::arith_inst);
                done_step_rm(s, m, false, s.osize());
            }
        },
        Inst::DecRm32 { m } => {
            assert(undone(s, s.arith_inst(inst))) by {
                reveal(State::arith_inst);
                done_step_rm(s, m, true, s.osize());
            }
        },
        Inst::TestRm8Imm { m, imm } => {
            assert(undone(s, s.arith_inst(inst))) by {
                reveal(State::arith_inst);
                done_test_rm(s, m, imm as u64, 8);
            }
        },
        Inst::TestRm16Imm { m, imm } => {
            assert(undone(s, s.arith_inst(inst))) by {
                reveal(State::arith_inst);
                done_test_rm(s, m, imm as u64, 16);
            }
        },
        Inst::TestRm32Imm { m, imm } => {
            assert(undone(s, s.arith_inst(inst))) by {
                reveal(State::arith_inst);
                done_test_rm(s, m, crate::instructions::mov::sext(imm as u64, 32), s.osize());
            }
        },
        Inst::TestRm8Reg { m, reg } => {
            assert(undone(s, s.arith_inst(inst))) by {
                reveal(State::arith_inst);
                done_test_rm(s, m, s.reg_w(reg, 8), 8);
            }
        },
        Inst::TestRm16Reg { m, reg } => {
            assert(undone(s, s.arith_inst(inst))) by {
                reveal(State::arith_inst);
                done_test_rm(s, m, s.reg_w(reg, 16), 16);
            }
        },
        Inst::TestRm32Reg { m, reg } => {
            assert(undone(s, s.arith_inst(inst))) by {
                reveal(State::arith_inst);
                done_test_rm(s, m, s.reg_w(reg, s.osize()), s.osize());
            }
        },
        Inst::TestAccImm8 { imm } => {
            assert(undone(s, s.arith_inst(inst))) by {
                reveal(State::arith_inst);
                done_tested(s, s.reg_w(0, 8), imm as u64, 8);
            }
        },
        Inst::TestAccImm16 { imm } => {
            assert(undone(s, s.arith_inst(inst))) by {
                reveal(State::arith_inst);
                done_tested(s, s.reg_w(0, 16), imm as u64, 16);
            }
        },
        Inst::TestAccImm32 { imm } => {
            assert(undone(s, s.arith_inst(inst))) by {
                reveal(State::arith_inst);
                done_tested(s, s.reg_w(0, s.osize()), crate::instructions::mov::sext(imm as u64, 32), s.osize());
            }
        },
        Inst::NotRm8 { m } => {
            assert(undone(s, s.arith_inst(inst))) by {
                reveal(State::arith_inst);
                done_not_rm(s, m, 8);
            }
        },
        Inst::NotRm16 { m } => {
            assert(undone(s, s.arith_inst(inst))) by {
                reveal(State::arith_inst);
                done_not_rm(s, m, 16);
            }
        },
        Inst::NotRm32 { m } => {
            assert(undone(s, s.arith_inst(inst))) by {
                reveal(State::arith_inst);
                done_not_rm(s, m, s.osize());
            }
        },
        Inst::NegRm8 { m } => {
            assert(undone(s, s.arith_inst(inst))) by {
                reveal(State::arith_inst);
                done_neg_rm(s, m, 8);
            }
        },
        _ => {
            done_arith_inst_3(s, inst);
        },
    }
}

/// An instruction of this group that faults has written nothing.
proof fn done_arith_inst(s: State, inst: Inst)
    requires
        !s.faulted(),
        !inst.is_string(),
    ensures
        undone(s, s.arith_inst(inst)),
{
    match inst {
        Inst::AluRm8Reg { op, m, reg, dir } => {
            assert(undone(s, s.arith_inst(inst))) by {
                reveal(State::arith_inst);
                done_alu_rm_reg(s, op, m, reg, dir, 8);
            }
        },
        Inst::AluRm16Reg { op, m, reg, dir } => {
            assert(undone(s, s.arith_inst(inst))) by {
                reveal(State::arith_inst);
                done_alu_rm_reg(s, op, m, reg, dir, 16);
            }
        },
        Inst::AluRm32Reg { op, m, reg, dir } => {
            assert(undone(s, s.arith_inst(inst))) by {
                reveal(State::arith_inst);
                done_alu_rm_reg(s, op, m, reg, dir, s.osize());
            }
        },
        Inst::AluRm8Imm { op, m, imm } => {
            assert(undone(s, s.arith_inst(inst))) by {
                reveal(State::arith_inst);
                done_alu_rm_imm(s, op, m, imm as u64, 8);
            }
        },
        Inst::AluRm16Imm { op, m, imm, imm_is8: _ } => {
            assert(undone(s, s.arith_inst(inst))) by {
                reveal(State::arith_inst);
                done_alu_rm_imm(s, op, m, imm as u64, 16);
            }
        },
        Inst::AluRm32Imm { op, m, imm, imm_is8: _ } => {
            assert(undone(s, s.arith_inst(inst))) by {
                reveal(State::arith_inst);
                done_alu_rm_imm(s, op, m, crate::instructions::mov::sext(imm as u64, 32), s.osize());
            }
        },
        Inst::AluAccImm8 { op, imm } => {
            assert(undone(s, s.arith_inst(inst))) by {
                reveal(State::arith_inst);
                done_alu_acc_imm(s, op, imm as u64, 8);
            }
        },
        Inst::AluAccImm16 { op, imm } => {
            assert(undone(s, s.arith_inst(inst))) by {
                reveal(State::arith_inst);
                done_alu_acc_imm(s, op, imm as u64, 16);
            }
        },
        Inst::AluAccImm32 { op, imm } => {
            assert(undone(s, s.arith_inst(inst))) by {
                reveal(State::arith_inst);
                done_alu_acc_imm(s, op, crate::instructions::mov::sext(imm as u64, 32), s.osize());
            }
        },
        Inst::IncReg16 { dst } => {
            assert(undone(s, s.arith_inst(inst))) by {
                reveal(State::arith_inst);
                done_step_reg(s, dst, false, 16);
            }
        },
        Inst::DecReg16 { dst } => {
            assert(undone(s, s.arith_inst(inst))) by {
                reveal(State::arith_inst);
                done_step_reg(s, dst, true, 16);
            }
        },
        Inst::IncReg32 { dst } => {
            assert(undone(s, s.arith_inst(inst))) by {
                reveal(State::arith_inst);
                done_step_reg(s, dst, false, 32);
            }
        },
        Inst::DecReg32 { dst } => {
            assert(undone(s, s.arith_inst(inst))) by {
                reveal(State::arith_inst);
                done_step_reg(s, dst, true, 32);
            }
        },
        Inst::IncRm8 { m } => {
            assert(undone(s, s.arith_inst(inst))) by {
                reveal(State::arith_inst);
                done_step_rm(s, m, false, 8);
            }
        },
        Inst::DecRm8 { m } => {
            assert(undone(s, s.arith_inst(inst))) by {
                reveal(State::arith_inst);
                done_step_rm(s, m, true, 8);
            }
        },
        Inst::IncRm16 { m } => {
            assert(undone(s, s.arith_inst(inst))) by {
                reveal(State::arith_inst);
                done_step_rm(s, m, false, 16);
            }
        },
        _ => {
            done_arith_inst_2(s, inst);
        },
    }
}

/// An instruction of this group that faults has written nothing.
proof fn done_move_inst(s: State, inst: Inst)
    requires
        !s.faulted(),
        !inst.is_string(),
    ensures
        undone(s, s.move_inst(inst)),
{
    match inst {
        Inst::MovRm8Reg { m, src } => {
            assert(undone(s, s.move_inst(inst))) by {
                reveal(State::move_inst);
                done_mov_rm_reg(s, m, src, 8);
            }
        },
        Inst::MovRm16Reg { m, src } => {
            assert(undone(s, s.move_inst(inst))) by {
                reveal(State::move_inst);
                done_mov_rm_reg(s, m, src, 16);
            }
        },
        Inst::MovRm32Reg { m, src } => {
            assert(undone(s, s.move_inst(inst))) by {
                reveal(State::move_inst);
                done_mov_rm_reg(s, m, src, s.osize());
            }
        },
        Inst::MovRegRm8 { m, dst } => {
            assert(undone(s, s.move_inst(inst))) by {
                reveal(State::move_inst);
                done_mov_reg_rm(s, m, dst, 8);
            }
        },
        Inst::MovRegRm16 { m, dst } => {
            assert(undone(s, s.move_inst(inst))) by {
                reveal(State::move_inst);
                done_mov_reg_rm(s, m, dst, 16);
            }
        },
        Inst::MovRegRm32 { m, dst } => {
            assert(undone(s, s.move_inst(inst))) by {
                reveal(State::move_inst);
                done_mov_reg_rm(s, m, dst, s.osize());
            }
        },
        Inst::MovAccMem8 { addr } => {
            assert(undone(s, s.move_inst(inst))) by {
                reveal(State::move_inst);
                done_mov_acc_mem(s, addr as u64, 8);
            }
        },
        Inst::MovAccMem8Addr32 { addr } => {
            assert(undone(s, s.move_inst(inst))) by {
                reveal(State::move_inst);
                done_mov_acc_mem(s, addr as u64, 8);
            }
        },
        Inst::MovAccMem8Addr64 { addr } => {
            assert(undone(s, s.move_inst(inst))) by {
                reveal(State::move_inst);
                done_mov_acc_mem(s, addr, 8);
            }
        },
        Inst::MovMem8Acc { addr } => {
            assert(undone(s, s.move_inst(inst))) by {
                reveal(State::move_inst);
                done_mov_mem_acc(s, addr as u64, 8);
            }
        },
        Inst::MovMem8AccAddr32 { addr } => {
            assert(undone(s, s.move_inst(inst))) by {
                reveal(State::move_inst);
                done_mov_mem_acc(s, addr as u64, 8);
            }
        },
        Inst::MovMem8AccAddr64 { addr } => {
            assert(undone(s, s.move_inst(inst))) by {
                reveal(State::move_inst);
                done_mov_mem_acc(s, addr, 8);
            }
        },
        Inst::MovAccMem16 { addr } => {
            assert(undone(s, s.move_inst(inst))) by {
                reveal(State::move_inst);
                done_mov_acc_mem(s, addr as u64, 16);
            }
        },
        Inst::MovAccMem16Addr32 { addr } => {
            assert(undone(s, s.move_inst(inst))) by {
                reveal(State::move_inst);
                done_mov_acc_mem(s, addr as u64, 16);
            }
        },
        Inst::MovMem16Acc { addr } => {
            assert(undone(s, s.move_inst(inst))) by {
                reveal(State::move_inst);
                done_mov_mem_acc(s, addr as u64, 16);
            }
        },
        Inst::MovMem16AccAddr32 { addr } => {
            assert(undone(s, s.move_inst(inst))) by {
                reveal(State::move_inst);
                done_mov_mem_acc(s, addr as u64, 16);
            }
        },
        Inst::MovAccMem32 { addr } => {
            assert(undone(s, s.move_inst(inst))) by {
                reveal(State::move_inst);
                done_mov_acc_mem(s, addr, s.osize());
            }
        },
        Inst::MovMem32Acc { addr } => {
            assert(undone(s, s.move_inst(inst))) by {
                reveal(State::move_inst);
                done_mov_mem_acc(s, addr, s.osize());
            }
        },
        Inst::MovSegRm { seg, m } => {
            assert(undone(s, s.move_inst(inst))) by {
                reveal(State::move_inst);
                done_mov_seg_rm(s, seg, m);
            }
        },
        Inst::Lds { m } => {
            assert(undone(s, s.move_inst(inst))) by {
                reveal(State::move_inst);
                done_load_far_pointer(s, m, SegReg::Ds);
            }
        },
        Inst::Les { m } => {
            assert(undone(s, s.move_inst(inst))) by {
                reveal(State::move_inst);
                done_load_far_pointer(s, m, SegReg::Es);
            }
        },
        Inst::Lss { m } => {
            assert(undone(s, s.move_inst(inst))) by {
                reveal(State::move_inst);
                done_load_far_pointer(s, m, SegReg::Ss);
            }
        },
        Inst::Lfs { m } => {
            assert(undone(s, s.move_inst(inst))) by {
                reveal(State::move_inst);
                done_load_far_pointer(s, m, SegReg::Fs);
            }
        },
        Inst::Lgs { m } => {
            assert(undone(s, s.move_inst(inst))) by {
                reveal(State::move_inst);
                done_load_far_pointer(s, m, SegReg::Gs);
            }
        },
        _ => {
            assert(undone(s, s.move_inst(inst))) by {
                broadcast use restartable;

                reveal(State::move_inst);
                lemma_start(s);
                done_arith_inst(s, inst);
            }
        },
    }
}

// ---- The law ----

/// A faulting instruction commits nothing: no register write, no stack-pointer
/// movement, no store to memory. The general, segment, table and x87
/// registers, the flags and the instruction pointer are those before the
/// instruction, and memory has changed by accessed and dirty bits of the page
/// tables at most. String instructions, which stop at the element that faulted
/// with the ones before it done, are the exception.
pub proof fn law_a_faulting_instruction_commits_nothing(s: State, inst: Inst)
    requires
        !s.faulted(),
        !inst.is_string(),
        s.execute(inst).fault_pending(),
    ensures
        ({
            let t = s.execute(inst);
            &&& t == s.registers_into(t)
            &&& t.regs == s.regs
            &&& t.flags == s.flags
            &&& t.rip == s.rip
            &&& t.ip == s.ip
            &&& uncommitted(s, t)
        }),
{
    reveal(State::execute);
    reveal(State::registers_into);
    reveal(State::move_inst);
    done_move_inst(s, inst);
}

} // verus!
