//! What every instruction keeps: the counters, which only a step advances, and
//! the reserved bits of the flags.

use crate::cpu::address::Access;
use crate::cpu::regs::flag_put;
use crate::cpu::span::Span;
use crate::cpu::{flags, SegReg};
use crate::instructions::alu::{added, logic_flags, operate, subtracted};
use crate::instructions::arith::{shld, shrd};
use crate::instructions::control::flags_written;
use crate::instructions::shift::{rc, rol, ror, sar, shifted, shl, shr, BitOp};
use crate::instructions::strings::{Cursor, Stride};
use crate::instructions::{AluOp, BitOffset, Dir, FpuOp, Inst, LoopCond, Rep, ShiftCount, ShiftOp};
use crate::laws::decode::{law_decoding_changes_no_register, only_fetched, step_start};
use crate::laws::run::law_runs_are_bounded;
use crate::laws::strings::next;
use crate::memory::E820Entry;
use crate::modrm::ModRm;
use crate::state::State;
use vstd::prelude::*;

verus! {

/// The reserved bits of a flags word are as they must always read: bit 1 set,
/// bits 3, 5 and 15 clear.
#[verifier::opaque]
pub open spec fn reserved(word: u32) -> bool {
    word & 0x802A == flags::ALWAYS_SET
}

/// The counters are those of an earlier state, and the reserved bits of the
/// flags are in order if they were.
pub open spec fn steady(s: State, t: State) -> bool {
    &&& t.tsc == s.tsc
    &&& t.instructions_executed == s.instructions_executed
    &&& reserved(s.flags) ==> reserved(t.flags)
}

// ---- Flags ----

/// The flags instructions set and clear one at a time.
pub open spec fn settable(f: u32) -> bool {
    ||| f == flags::CF
    ||| f == flags::PF
    ||| f == flags::AF
    ||| f == flags::ZF
    ||| f == flags::SF
    ||| f == flags::OF
    ||| f == flags::IF
    ||| f == flags::TF
    ||| f == flags::DF
    ||| f == flags::RF
    ||| f == flags::AC
}

proof fn lemma_bits(word: u32, f: u32, new: u32)
    by (bit_vector)
    ensures
        f == 1 || f == 4 || f == 0x10 || f == 0x40 || f == 0x80 || f == 0x100 || f == 0x200 || f
            == 0x400 || f == 0x800 || f == 0x1_0000 || f == 0x4_0000 ==> {
            &&& (word | f) & 0x802A == word & 0x802A
            &&& (word & !f) & 0x802A == word & 0x802A
        },
        2u32 & 0x802A == 2,
        word & 0x802A == 2 ==> {
            &&& ((new & 0x003F_7FD5) | 2 | (word & !0x003F_7FD5 & !2)) & 0x802A == 2
            &&& ((word & !new) | 2) & 0x802A == 2
        },
{
}

broadcast proof fn word_put(word: u32, f: u32, on: bool)
    requires
        settable(f),
        reserved(word),
    ensures
        reserved(#[trigger] flag_put(word, f, on)),
{
    reveal(reserved);
    lemma_bits(word, f, 0);
}

broadcast proof fn word_written(word: u32, new: u32)
    requires
        reserved(word),
    ensures
        reserved(#[trigger] flags_written(word, new)),
{
    reveal(reserved);
    lemma_bits(word, 1, new);
}

broadcast proof fn word_logic(word: u32, r: u64, w: u32)
    requires
        reserved(word),
    ensures
        reserved(#[trigger] logic_flags(word, r, w)),
{
    broadcast use word_put;

    reveal(logic_flags);
}

broadcast proof fn word_operate(op: AluOp, word: u32, a: u64, b: u64, w: u32)
    requires
        reserved(word),
    ensures
        reserved((#[trigger] operate(op, word, a, b, w)).flags),
{
    broadcast use {word_put, word_logic};

    reveal(operate);
    reveal(added);
    reveal(subtracted);
}

broadcast proof fn word_shifted(op: ShiftOp, word: u32, v: u64, count: u32, width: u32)
    requires
        reserved(word),
    ensures
        reserved((#[trigger] shifted(op, word, v, count, width)).flags),
{
    broadcast use {word_put, word_logic};

    reveal(shifted);
    reveal(shl);
    reveal(shr);
    reveal(sar);
    reveal(rol);
    reveal(ror);
    reveal(rc);
}

broadcast proof fn word_shld(word: u32, d: u64, src: u64, n: u32, w: u32)
    requires
        reserved(word),
    ensures
        reserved((#[trigger] shld(word, d, src, n, w)).flags),
{
    broadcast use {word_put, word_logic};

    reveal(shld);
}

broadcast proof fn word_shrd(word: u32, d: u64, src: u64, n: u32, w: u32)
    requires
        reserved(word),
    ensures
        reserved((#[trigger] shrd(word, d, src, n, w)).flags),
{
    broadcast use {word_put, word_logic};

    reveal(shrd);
}

broadcast group words {
    word_put,
    word_written,
    word_logic,
    word_operate,
    word_shifted,
}

// ---- The parts of an instruction ----

broadcast proof fn keeps_with_reg_w(s: State, i: u8, w: u32, v: u64)
    ensures
        steady(s, #[trigger] s.with_reg_w(i, w, v)),
{
    reveal(State::with_reg_w);
}

broadcast proof fn keeps_paged(s: State, linear: u64, access: Access)
    ensures
        steady(s, (#[trigger] s.paged(linear, access)).0),
{
    reveal(State::paged);
}

broadcast proof fn keeps_watched(s: State, linear: u64, phys: usize)
    ensures
        steady(s, #[trigger] s.watched(linear, phys)),
{
    reveal(State::watched);
}

broadcast proof fn keeps_access(s: State, linear: u64, access: Access)
    ensures
        steady(s, (#[trigger] s.access(linear, access)).0),
{
    broadcast use {keeps_paged, keeps_watched};

    reveal(State::access);
}

broadcast proof fn keeps_write_split(s: State, phys: usize, linear: u64, bytes: u32, v: u64)
    ensures
        steady(s, #[trigger] s.write_split(phys, linear, bytes, v)),
{
    broadcast use keeps_access;

    reveal(State::write_split);
}

broadcast proof fn keeps_store_at(s: State, phys: usize, linear: u64, w: u32, v: u64)
    ensures
        steady(s, #[trigger] s.store_at(phys, linear, w, v)),
{
    broadcast use keeps_write_split;

    reveal(State::store_at);
}

broadcast proof fn keeps_store(s: State, linear: u64, w: u32, v: u64)
    ensures
        steady(s, #[trigger] s.store(linear, w, v)),
{
    broadcast use {keeps_access, keeps_store_at};

    reveal(State::store);
}

broadcast proof fn keeps_write_rm(s: State, m: ModRm, w: u32, v: u64)
    ensures
        steady(s, #[trigger] s.write_rm(m, w, v)),
{
    broadcast use {keeps_with_reg_w, keeps_store};

    reveal(State::write_rm);
}

broadcast proof fn keeps_read_split(s: State, phys: usize, linear: u64, bytes: u32)
    ensures
        steady(s, (#[trigger] s.read_split(phys, linear, bytes)).0),
{
    broadcast use keeps_access;

    reveal(State::read_split);
}

broadcast proof fn keeps_load_at(s: State, phys: usize, linear: u64, w: u32)
    ensures
        steady(s, (#[trigger] s.load_at(phys, linear, w)).0),
{
    broadcast use keeps_read_split;

    reveal(State::load_at);
}

broadcast proof fn keeps_load(s: State, linear: u64, w: u32)
    ensures
        steady(s, (#[trigger] s.load(linear, w)).0),
{
    broadcast use {keeps_access, keeps_load_at};

    reveal(State::load);
}

broadcast proof fn keeps_read_rm(s: State, m: ModRm, w: u32)
    ensures
        steady(s, (#[trigger] s.read_rm(m, w)).0),
{
    broadcast use keeps_load;

    reveal(State::read_rm);
}

broadcast proof fn keeps_set_reg_w(s: State, i: u8, w: u32, v: u64)
    ensures
        steady(s, #[trigger] s.set_reg_w(i, w, v)),
{
    broadcast use keeps_with_reg_w;

    reveal(State::set_reg_w);
}

broadcast proof fn keeps_mov_reg_rm(s: State, m: ModRm, dst: u8, w: u32)
    ensures
        steady(s, #[trigger] s.mov_reg_rm(m, dst, w)),
{
    broadcast use {keeps_read_rm, keeps_set_reg_w};

    reveal(State::mov_reg_rm);
}

broadcast proof fn keeps_mov_acc_mem(s: State, addr: u64, w: u32)
    ensures
        steady(s, #[trigger] s.mov_acc_mem(addr, w)),
{
    broadcast use {keeps_load, keeps_set_reg_w};

    reveal(State::mov_acc_mem);
}

broadcast proof fn keeps_mov_mem_acc(s: State, addr: u64, w: u32)
    ensures
        steady(s, #[trigger] s.mov_mem_acc(addr, w)),
{
    broadcast use keeps_store;

    reveal(State::mov_mem_acc);
}

broadcast proof fn keeps_load_seg(s: State, g: SegReg, selector: u16)
    ensures
        steady(s, #[trigger] s.load_seg(g, selector)),
{
    reveal(State::load_seg);
}

broadcast proof fn keeps_mov_seg_rm(s: State, seg: SegReg, m: ModRm)
    ensures
        steady(s, #[trigger] s.mov_seg_rm(seg, m)),
{
    broadcast use {keeps_read_rm, keeps_load_seg};

    reveal(State::mov_seg_rm);
}

broadcast proof fn keeps_reach(s: State, linear: u64, n: u32, access: Access)
    ensures
        steady(s, (#[trigger] s.reach(linear, n, access)).0),
{
    broadcast use keeps_access;

    reveal(State::reach);
}

broadcast proof fn keeps_load_far_pointer(s: State, m: ModRm, seg: SegReg)
    ensures
        steady(s, #[trigger] s.load_far_pointer(m, seg)),
{
    broadcast use {keeps_reach, keeps_set_reg_w, keeps_load_seg};

    reveal(State::load_far_pointer);
}

broadcast proof fn keeps_alu_rm_reg(s: State, op: AluOp, m: ModRm, reg: u8, dir: Dir, w: u32)
    ensures
        steady(s, #[trigger] s.alu_rm_reg(op, m, reg, dir, w)),
{
    broadcast use {keeps_read_rm, keeps_write_rm, keeps_set_reg_w, words};

    reveal(State::alu_rm_reg);
}

broadcast proof fn keeps_alu_rm_imm(s: State, op: AluOp, m: ModRm, imm: u64, w: u32)
    ensures
        steady(s, #[trigger] s.alu_rm_imm(op, m, imm, w)),
{
    broadcast use {keeps_read_rm, keeps_write_rm, words};

    reveal(State::alu_rm_imm);
}

broadcast proof fn keeps_alu_acc_imm(s: State, op: AluOp, imm: u64, w: u32)
    ensures
        steady(s, #[trigger] s.alu_acc_imm(op, imm, w)),
{
    broadcast use {keeps_set_reg_w, words};

    reveal(State::alu_acc_imm);
}

broadcast proof fn keeps_step_reg(s: State, dst: u8, down: bool, w: u32)
    ensures
        steady(s, #[trigger] s.step_reg(dst, down, w)),
{
    broadcast use {keeps_set_reg_w, words};

    reveal(State::step_reg);
}

broadcast proof fn keeps_step_rm(s: State, m: ModRm, down: bool, w: u32)
    ensures
        steady(s, #[trigger] s.step_rm(m, down, w)),
{
    broadcast use {keeps_read_rm, keeps_write_rm, words};

    reveal(State::step_rm);
}

broadcast proof fn keeps_test_rm(s: State, m: ModRm, b: u64, w: u32)
    ensures
        steady(s, #[trigger] s.test_rm(m, b, w)),
{
    broadcast use {keeps_read_rm, words};

    reveal(State::test_rm);
}

broadcast proof fn keeps_not_rm(s: State, m: ModRm, w: u32)
    ensures
        steady(s, #[trigger] s.not_rm(m, w)),
{
    broadcast use {keeps_read_rm, keeps_write_rm};

    reveal(State::not_rm);
}

broadcast proof fn keeps_neg_rm(s: State, m: ModRm, w: u32)
    ensures
        steady(s, #[trigger] s.neg_rm(m, w)),
{
    broadcast use {keeps_read_rm, keeps_write_rm, words};

    reveal(State::neg_rm);
}

broadcast proof fn keeps_with_product(s: State, p: int, w: u32)
    ensures
        steady(s, #[trigger] s.with_product(p, w)),
{
    broadcast use keeps_set_reg_w;

    reveal(State::with_product);
}

broadcast proof fn keeps_mul_rm(s: State, m: ModRm, w: u32)
    ensures
        steady(s, #[trigger] s.mul_rm(m, w)),
{
    broadcast use {keeps_read_rm, keeps_with_product, words};

    reveal(State::mul_rm);
}

broadcast proof fn keeps_imul_rm(s: State, m: ModRm, w: u32)
    ensures
        steady(s, #[trigger] s.imul_rm(m, w)),
{
    broadcast use {keeps_read_rm, keeps_with_product, words};

    reveal(State::imul_rm);
}

broadcast proof fn keeps_set_reg8_of(s: State, i: u8, high: bool, v: u8)
    ensures
        steady(s, #[trigger] s.set_reg8_of(i, high, v)),
{
    reveal(State::set_reg8_of);
}

broadcast proof fn keeps_with_division(s: State, q: int, r: int, w: u32)
    ensures
        steady(s, #[trigger] s.with_division(q, r, w)),
{
    broadcast use {keeps_set_reg8_of, keeps_set_reg_w};

    reveal(State::with_division);
}

broadcast proof fn keeps_div_rm(s: State, m: ModRm, w: u32)
    ensures
        steady(s, #[trigger] s.div_rm(m, w)),
{
    broadcast use {keeps_read_rm, keeps_with_division};

    reveal(State::div_rm);
}

broadcast proof fn keeps_idiv_rm(s: State, m: ModRm, w: u32)
    ensures
        steady(s, #[trigger] s.idiv_rm(m, w)),
{
    broadcast use {keeps_read_rm, keeps_with_division};

    reveal(State::idiv_rm);
}

broadcast proof fn keeps_imul_store(s: State, dst: u8, p: int, w: u32)
    ensures
        steady(s, #[trigger] s.imul_store(dst, p, w)),
{
    broadcast use {keeps_set_reg_w, words};

    reveal(State::imul_store);
}

broadcast proof fn keeps_imul_reg(s: State, m: ModRm, dst: u8, factor: Option<int>, w: u32, rw: u32)
    ensures
        steady(s, #[trigger] s.imul_reg(m, dst, factor, w, rw)),
{
    broadcast use {keeps_read_rm, keeps_imul_store};

    reveal(State::imul_reg);
}

broadcast proof fn keeps_shift_rm(s: State, op: ShiftOp, m: ModRm, width: u32, n: u32)
    ensures
        steady(s, #[trigger] s.shift_rm(op, m, width, n)),
{
    broadcast use {keeps_read_rm, keeps_write_rm, words};

    reveal(State::shift_rm);
}

broadcast proof fn keeps_shift_double(
    s: State,
    m: ModRm,
    reg: u8,
    count: ShiftCount,
    w32: bool,
    left: bool,
)
    ensures
        steady(s, #[trigger] s.shift_double(m, reg, count, w32, left)),
{
    broadcast use {keeps_read_rm, keeps_write_rm, words, word_shld, word_shrd};

    reveal(State::shift_double);
}

broadcast proof fn keeps_bit_scan(s: State, m: ModRm, dst: u8, reverse: bool)
    ensures
        steady(s, #[trigger] s.bit_scan(m, dst, reverse)),
{
    broadcast use {keeps_read_rm, keeps_set_reg_w, words};

    reveal(State::bit_scan);
}

broadcast proof fn keeps_put_span(s: State, sp: Span, off: usize, w: u32, v: u64)
    ensures
        steady(s, #[trigger] s.put_span(sp, off, w, v)),
{
    reveal(State::put_span);
}

broadcast proof fn keeps_bit_op(s: State, m: ModRm, bit: BitOffset, op: BitOp)
    ensures
        steady(s, #[trigger] s.bit_op(m, bit, op)),
{
    broadcast use {keeps_set_reg_w, keeps_reach, keeps_put_span, words};

    reveal(State::bit_op);
}

broadcast proof fn keeps_push(s: State, w: u32, v: u64)
    ensures
        steady(s, #[trigger] s.push(w, v)),
{
    broadcast use keeps_store;

    reveal(State::push);
}

broadcast proof fn keeps_pushed(s: State, w: u32, vals: Seq<u64>, n: int)
    ensures
        steady(s, #[trigger] s.pushed(w, vals, n)),
    decreases n,
{
    broadcast use keeps_push;

    if n > 0 {
        keeps_pushed(s, w, vals, n - 1);
    }
}

broadcast proof fn keeps_claim(s: State, linear: u64, w: u32)
    ensures
        steady(s, (#[trigger] s.claim(linear, w)).0),
{
    broadcast use keeps_access;

    reveal(State::claim);
}

broadcast proof fn keeps_claimed(s: State, w: u32, n: int)
    ensures
        steady(s, (#[trigger] s.claimed(w, n)).0),
    decreases n,
{
    broadcast use keeps_claim;

    if n > 0 {
        keeps_claimed(s, w, n - 1);
    }
}

broadcast proof fn keeps_push_all(s: State, w: u32, vals: Seq<u64>)
    ensures
        steady(s, #[trigger] s.push_all(w, vals)),
{
    broadcast use {keeps_pushed, keeps_claimed};

    reveal(State::push_all);
}

broadcast proof fn keeps_pusha(s: State, w: u32)
    ensures
        steady(s, #[trigger] s.pusha(w)),
{
    broadcast use keeps_push_all;

    reveal(State::pusha);
}

broadcast proof fn keeps_pop(s: State, w: u32)
    ensures
        steady(s, (#[trigger] s.pop(w)).0),
{
    broadcast use keeps_load;

    reveal(State::pop);
}

broadcast proof fn keeps_popa(s: State, w: u32)
    ensures
        steady(s, #[trigger] s.popa(w)),
{
    broadcast use {keeps_pop, keeps_set_reg_w};

    reveal(State::popa);
}

broadcast proof fn keeps_pop_reg(s: State, dst: u8, w: u32)
    ensures
        steady(s, #[trigger] s.pop_reg(dst, w)),
{
    broadcast use {keeps_pop, keeps_set_reg_w};

    reveal(State::pop_reg);
}

broadcast proof fn keeps_push_rm(s: State, m: ModRm, w: u32)
    ensures
        steady(s, #[trigger] s.push_rm(m, w)),
{
    broadcast use {keeps_read_rm, keeps_push};

    reveal(State::push_rm);
}

broadcast proof fn keeps_pop_rm(s: State, m: ModRm, w: u32)
    ensures
        steady(s, #[trigger] s.pop_rm(m, w)),
{
    broadcast use {keeps_pop, keeps_write_rm};

    reveal(State::pop_rm);
}

broadcast proof fn keeps_pop_seg(s: State, seg: SegReg)
    ensures
        steady(s, #[trigger] s.pop_seg(seg)),
{
    broadcast use {keeps_pop, keeps_load_seg};

    reveal(State::pop_seg);
}

broadcast proof fn keeps_leave(s: State, w32: bool)
    ensures
        steady(s, #[trigger] s.leave(w32)),
{
    broadcast use keeps_pop_reg;

    reveal(State::leave);
}

broadcast proof fn keeps_popf(s: State)
    ensures
        steady(s, #[trigger] s.popf()),
{
    broadcast use {keeps_pop, words};

    reveal(State::popf);
}

broadcast proof fn keeps_call32(s: State, rel: i32)
    ensures
        steady(s, #[trigger] s.call32(rel)),
{
    broadcast use keeps_push;

    reveal(State::call32);
}

broadcast proof fn keeps_ret32(s: State)
    ensures
        steady(s, #[trigger] s.ret32()),
{
    broadcast use keeps_pop;

    reveal(State::ret32);
}

broadcast proof fn keeps_ret_imm(s: State, imm: u16, w32: bool)
    ensures
        steady(s, #[trigger] s.ret_imm(imm, w32)),
{
    broadcast use keeps_pop;

    reveal(State::ret_imm);
}

broadcast proof fn keeps_call_rm16(s: State, m: ModRm)
    ensures
        steady(s, #[trigger] s.call_rm16(m)),
{
    broadcast use {keeps_read_rm, keeps_push};

    reveal(State::call_rm16);
}

broadcast proof fn keeps_call_rm(s: State, m: ModRm)
    ensures
        steady(s, #[trigger] s.call_rm(m)),
{
    broadcast use {keeps_read_rm, keeps_push};

    reveal(State::call_rm);
}

broadcast proof fn keeps_jmp_rm(s: State, m: ModRm)
    ensures
        steady(s, #[trigger] s.jmp_rm(m)),
{
    broadcast use keeps_read_rm;

    reveal(State::jmp_rm);
}

broadcast proof fn keeps_looped(s: State, cond: LoopCond, rel: i8)
    ensures
        steady(s, #[trigger] s.looped(cond, rel)),
{
    broadcast use {keeps_with_reg_w, words};

    reveal(State::looped);
}

broadcast proof fn keeps_jmp_far16(s: State, off: u16, seg: u16)
    ensures
        steady(s, #[trigger] s.jmp_far16(off, seg)),
{
    broadcast use keeps_load_seg;

    reveal(State::jmp_far16);
}

broadcast proof fn keeps_call_far16(s: State, off: u16, seg: u16)
    ensures
        steady(s, #[trigger] s.call_far16(off, seg)),
{
    broadcast use {keeps_push_all, keeps_jmp_far16};

    reveal(State::call_far16);
}

broadcast proof fn keeps_jmp_far32(s: State, off: u32, seg: u16)
    ensures
        steady(s, #[trigger] s.jmp_far32(off, seg)),
{
    broadcast use keeps_load_seg;

    reveal(State::jmp_far32);
}

broadcast proof fn keeps_call_far32(s: State, off: u32, seg: u16)
    ensures
        steady(s, #[trigger] s.call_far32(off, seg)),
{
    broadcast use {keeps_push_all, keeps_jmp_far32};

    reveal(State::call_far32);
}

broadcast proof fn keeps_retf16(s: State)
    ensures
        steady(s, #[trigger] s.retf16()),
{
    broadcast use {keeps_pop, keeps_load_seg};

    reveal(State::retf16);
}

broadcast proof fn keeps_retf32(s: State)
    ensures
        steady(s, #[trigger] s.retf32()),
{
    broadcast use {keeps_pop, keeps_load_seg};

    reveal(State::retf32);
}

broadcast proof fn keeps_teletype(s: State, ch: u8)
    ensures
        steady(s, #[trigger] s.teletype(ch)),
{
    reveal(State::teletype);
}

broadcast proof fn keeps_bios_video(s: State)
    ensures
        steady(s, #[trigger] s.bios_video()),
{
    broadcast use keeps_teletype;

    reveal(State::bios_video);
}

broadcast proof fn keeps_e820_answered(s: State, e: E820Entry, next: u32)
    ensures
        steady(s, #[trigger] s.e820_answered(e, next)),
{
    broadcast use words;

    reveal(State::e820_answered);
}

broadcast proof fn keeps_bios_e820(s: State)
    ensures
        steady(s, #[trigger] s.bios_e820()),
{
    broadcast use {keeps_e820_answered, words};

    reveal(State::bios_e820);
}

broadcast proof fn keeps_bios_memory(s: State)
    ensures
        steady(s, #[trigger] s.bios_memory()),
{
    broadcast use {keeps_bios_e820, words};

    reveal(State::bios_memory);
}

broadcast proof fn keeps_bios_keyboard(s: State)
    ensures
        steady(s, #[trigger] s.bios_keyboard()),
{
    broadcast use words;

    reveal(State::bios_keyboard);
}

broadcast proof fn keeps_bios_disk(s: State)
    ensures
        steady(s, #[trigger] s.bios_disk()),
{
    broadcast use words;

    reveal(State::bios_disk);
}

broadcast proof fn keeps_gate_int64(s: State, vector: u8, code: Option<u32>)
    ensures
        steady(s, #[trigger] s.gate_int64(vector, code)),
{
    broadcast use {keeps_load_seg, keeps_push_all, words};

    reveal(State::gate_int64);
}

broadcast proof fn keeps_gate_int32(s: State, vector: u8, code: Option<u32>)
    ensures
        steady(s, #[trigger] s.gate_int32(vector, code)),
{
    broadcast use {keeps_load_seg, keeps_push_all, words};

    reveal(State::gate_int32);
}

broadcast proof fn keeps_real_int(s: State, vector: u8)
    ensures
        steady(s, #[trigger] s.real_int(vector)),
{
    broadcast use {keeps_push_all, words};

    reveal(State::real_int);
}

broadcast proof fn keeps_int_n(s: State, vector: u8)
    ensures
        steady(s, #[trigger] s.int_n(vector)),
{
    broadcast use {
        keeps_bios_video,
        keeps_bios_memory,
        keeps_bios_keyboard,
        keeps_bios_disk,
        keeps_gate_int64,
        keeps_gate_int32,
        keeps_real_int,
    };

    reveal(State::int_n);
}

broadcast proof fn keeps_iret16(s: State)
    ensures
        steady(s, #[trigger] s.iret16()),
{
    broadcast use {keeps_pop, words};

    reveal(State::iret16);
}

broadcast proof fn keeps_iret64(s: State)
    ensures
        steady(s, #[trigger] s.iret64()),
{
    broadcast use {keeps_pop, keeps_load_seg, words};

    reveal(State::iret64);
}

broadcast proof fn keeps_iret32(s: State)
    ensures
        steady(s, #[trigger] s.iret32()),
{
    broadcast use {keeps_pop, keeps_load_seg, words};

    reveal(State::iret32);
}

broadcast proof fn keeps_movzx(s: State, m: ModRm, dst: u8, from: u32, w: u32)
    ensures
        steady(s, #[trigger] s.movzx(m, dst, from, w)),
{
    broadcast use {keeps_read_rm, keeps_set_reg_w};

    reveal(State::movzx);
}

broadcast proof fn keeps_movsx(s: State, m: ModRm, dst: u8, from: u32, w: u32)
    ensures
        steady(s, #[trigger] s.movsx(m, dst, from, w)),
{
    broadcast use {keeps_read_rm, keeps_set_reg_w};

    reveal(State::movsx);
}

broadcast proof fn keeps_xchg_rm(s: State, m: ModRm, reg: u8, w: u32)
    ensures
        steady(s, #[trigger] s.xchg_rm(m, reg, w)),
{
    broadcast use {keeps_read_rm, keeps_write_rm, keeps_set_reg_w};

    reveal(State::xchg_rm);
}

broadcast proof fn keeps_compare_exchange(s: State, m: ModRm, reg: u8, w: u32)
    ensures
        steady(s, #[trigger] s.compare_exchange(m, reg, w)),
{
    broadcast use {keeps_read_rm, keeps_write_rm, keeps_set_reg_w, words};

    reveal(State::compare_exchange);
}

broadcast proof fn keeps_xadd(s: State, m: ModRm, reg: u8, w: u32)
    ensures
        steady(s, #[trigger] s.xadd(m, reg, w)),
{
    broadcast use {keeps_read_rm, keeps_set_reg_w, keeps_write_rm, words};

    reveal(State::xadd);
}

broadcast proof fn keeps_set_reg32(s: State, i: u8, v: u32)
    ensures
        steady(s, #[trigger] s.set_reg32(i, v)),
{
    reveal(State::set_reg32);
}

broadcast proof fn keeps_compare_exchange8b(s: State, m: ModRm)
    ensures
        steady(s, #[trigger] s.compare_exchange8b(m)),
{
    broadcast use {keeps_reach, keeps_put_span, keeps_set_reg32, words};

    reveal(State::compare_exchange8b);
}

broadcast proof fn keeps_movs_one(s: State, si: u64, di: u64, bits: u32)
    ensures
        steady(s, #[trigger] s.movs_one(si, di, bits)),
{
    broadcast use {keeps_access, keeps_load_at, keeps_store_at};

    reveal(State::movs_one);
}

broadcast proof fn keeps_movs_run(s: State, c: Cursor, t: Stride)
    ensures
        steady(s, (#[trigger] s.movs_run(c, t)).0),
    decreases c.count,
{
    broadcast use keeps_movs_one;

    if c.count > 0 {
        keeps_movs_run(s.movs_one(c.si, c.di, t.bits), next(c, t, true, true), t);
    }
}

broadcast proof fn keeps_string_done(s: State, t: Stride, c: Cursor, si: bool, di: bool)
    ensures
        steady(s, #[trigger] s.string_done(t, c, si, di)),
{
    broadcast use keeps_with_reg_w;

    reveal(State::string_done);
}

broadcast proof fn keeps_movs(s: State, rep: Rep, wide: bool)
    ensures
        steady(s, #[trigger] s.movs(rep, wide)),
{
    broadcast use {keeps_movs_run, keeps_string_done};

    reveal(State::movs);
}

broadcast proof fn keeps_stos_one(s: State, di: u64, bits: u32)
    ensures
        steady(s, #[trigger] s.stos_one(di, bits)),
{
    broadcast use {keeps_access, keeps_store_at};

    reveal(State::stos_one);
}

broadcast proof fn keeps_stos_run(s: State, c: Cursor, t: Stride)
    ensures
        steady(s, (#[trigger] s.stos_run(c, t)).0),
    decreases c.count,
{
    broadcast use keeps_stos_one;

    if c.count > 0 {
        keeps_stos_run(s.stos_one(c.di, t.bits), next(c, t, false, true), t);
    }
}

broadcast proof fn keeps_stos(s: State, rep: Rep, wide: bool)
    ensures
        steady(s, #[trigger] s.stos(rep, wide)),
{
    broadcast use {keeps_stos_run, keeps_string_done};

    reveal(State::stos);
}

broadcast proof fn keeps_lods_one(s: State, si: u64, bits: u32)
    ensures
        steady(s, #[trigger] s.lods_one(si, bits)),
{
    broadcast use {keeps_access, keeps_load_at, keeps_set_reg_w};

    reveal(State::lods_one);
}

broadcast proof fn keeps_lods_run(s: State, c: Cursor, t: Stride)
    ensures
        steady(s, (#[trigger] s.lods_run(c, t)).0),
    decreases c.count,
{
    broadcast use keeps_lods_one;

    if c.count > 0 {
        keeps_lods_run(s.lods_one(c.si, t.bits), next(c, t, true, false), t);
    }
}

broadcast proof fn keeps_lods(s: State, rep: Rep, wide: bool)
    ensures
        steady(s, #[trigger] s.lods(rep, wide)),
{
    broadcast use {keeps_lods_run, keeps_string_done};

    reveal(State::lods);
}

broadcast proof fn keeps_compare_one(s: State, si: u64, di: u64, bits: u32)
    ensures
        steady(s, #[trigger] s.compare_one(si, di, bits)),
{
    broadcast use {keeps_load, words};

    reveal(State::compare_one);
}

broadcast proof fn keeps_compare_run(s: State, c: Cursor, t: Stride)
    ensures
        steady(s, (#[trigger] s.compare_run(c, t)).0),
    decreases c.count,
{
    broadcast use keeps_compare_one;

    if c.count > 0 {
        keeps_compare_run(s.compare_one(c.si, c.di, t.bits), next(c, t, true, true), t);
    }
}

broadcast proof fn keeps_compare(s: State, rep: Rep, wide: bool)
    ensures
        steady(s, #[trigger] s.compare(rep, wide)),
{
    broadcast use {keeps_compare_run, keeps_string_done};

    reveal(State::compare);
}

broadcast proof fn keeps_scas_one(s: State, di: u64, bits: u32)
    ensures
        steady(s, #[trigger] s.scas_one(di, bits)),
{
    broadcast use {keeps_load, words};

    reveal(State::scas_one);
}

broadcast proof fn keeps_scas_run(s: State, c: Cursor, t: Stride)
    ensures
        steady(s, (#[trigger] s.scas_run(c, t)).0),
    decreases c.count,
{
    broadcast use keeps_scas_one;

    if c.count > 0 {
        keeps_scas_run(s.scas_one(c.di, t.bits), next(c, t, false, true), t);
    }
}

broadcast proof fn keeps_scas(s: State, rep: Rep, wide: bool)
    ensures
        steady(s, #[trigger] s.scas(rep, wide)),
{
    broadcast use {keeps_scas_run, keeps_string_done};

    reveal(State::scas);
}

broadcast proof fn keeps_table_operand(s: State, m: ModRm)
    ensures
        steady(s, (#[trigger] s.table_operand(m)).0),
{
    broadcast use keeps_reach;

    reveal(State::table_operand);
}

broadcast proof fn keeps_store_table(s: State, m: ModRm, limit: u16, base: u64)
    ensures
        steady(s, #[trigger] s.store_table(m, limit, base)),
{
    broadcast use {keeps_reach, keeps_put_span};

    reveal(State::store_table);
}

broadcast proof fn keeps_flushed(s: State)
    ensures
        steady(s, #[trigger] s.flushed()),
{
    reveal(State::flushed);
}

broadcast proof fn keeps_write_cr0(s: State, v: u32)
    ensures
        steady(s, #[trigger] s.write_cr0(v)),
{
    broadcast use keeps_flushed;

    reveal(State::write_cr0);
}

broadcast proof fn keeps_lmsw(s: State, m: ModRm)
    ensures
        steady(s, #[trigger] s.lmsw(m)),
{
    broadcast use {keeps_read_rm, keeps_write_cr0};

    reveal(State::lmsw);
}

broadcast proof fn keeps_with_pair(s: State, v: u64)
    ensures
        steady(s, #[trigger] s.with_pair(v)),
{
    broadcast use keeps_set_reg32;

    reveal(State::with_pair);
}

broadcast proof fn keeps_xgetbv(s: State)
    ensures
        steady(s, #[trigger] s.xgetbv()),
{
    broadcast use keeps_with_pair;

    reveal(State::xgetbv);
}

broadcast proof fn keeps_xsetbv(s: State)
    ensures
        steady(s, #[trigger] s.xsetbv()),
{
    reveal(State::xsetbv);
}

broadcast proof fn keeps_invlpg(s: State, linear: u64)
    ensures
        steady(s, #[trigger] s.invlpg(linear)),
{
    reveal(State::invlpg);
}

broadcast proof fn keeps_mov_to_cr(s: State, cr: u8, reg: u8)
    ensures
        steady(s, #[trigger] s.mov_to_cr(cr, reg)),
{
    broadcast use {keeps_write_cr0, keeps_flushed};

    reveal(State::mov_to_cr);
}

broadcast proof fn keeps_syscall(s: State)
    ensures
        steady(s, #[trigger] s.syscall()),
{
    broadcast use {keeps_load_seg, words};

    reveal(State::syscall);
    reveal(reserved);
    lemma_bits(s.flags, 1, s.sfmask as u32);
}

broadcast proof fn keeps_sysret(s: State)
    ensures
        steady(s, #[trigger] s.sysret()),
{
    broadcast use {keeps_load_seg, words};

    reveal(State::sysret);
}

broadcast proof fn keeps_cpuid(s: State)
    ensures
        steady(s, #[trigger] s.cpuid()),
{
    broadcast use keeps_set_reg32;

    reveal(State::cpuid);
}

broadcast proof fn keeps_write_msr(s: State, index: u32, v: u64)
    ensures
        steady(s, #[trigger] s.write_msr(index, v)),
{
    reveal(State::write_msr);
}

broadcast proof fn keeps_port_read(s: State, port: u16)
    ensures
        steady(s, #[trigger] s.port_read(port)),
{
    reveal(State::port_read);
}

broadcast proof fn keeps_in8(s: State, port: u16)
    ensures
        steady(s, #[trigger] s.in8(port)),
{
    broadcast use {keeps_port_read, keeps_set_reg_w};

    reveal(State::in8);
}

broadcast proof fn keeps_port_in16(s: State, port: u16)
    ensures
        steady(s, (#[trigger] s.port_in16(port)).0),
{
    broadcast use keeps_port_read;

    reveal(State::port_in16);
}

broadcast proof fn keeps_in16(s: State, port: u16)
    ensures
        steady(s, #[trigger] s.in16(port)),
{
    broadcast use {keeps_port_in16, keeps_set_reg_w};

    reveal(State::in16);
}

broadcast proof fn keeps_port_out(s: State, port: u16, val: u8)
    ensures
        steady(s, #[trigger] s.port_out(port, val)),
{
    reveal(State::port_out);
}

broadcast proof fn keeps_port_out16(s: State, port: u16, val: u16)
    ensures
        steady(s, #[trigger] s.port_out16(port, val)),
{
    broadcast use keeps_port_out;

    reveal(State::port_out16);
}

broadcast proof fn keeps_load_ldt(s: State, selector: u16)
    ensures
        steady(s, #[trigger] s.load_ldt(selector)),
{
    reveal(State::load_ldt);
}

broadcast proof fn keeps_lldt(s: State, m: ModRm)
    ensures
        steady(s, #[trigger] s.lldt(m)),
{
    broadcast use {keeps_read_rm, keeps_load_ldt};

    reveal(State::lldt);
}

broadcast proof fn keeps_load_tr(s: State, selector: u16)
    ensures
        steady(s, #[trigger] s.load_tr(selector)),
{
    reveal(State::load_tr);
}

broadcast proof fn keeps_ltr(s: State, m: ModRm)
    ensures
        steady(s, #[trigger] s.ltr(m)),
{
    broadcast use {keeps_read_rm, keeps_load_tr};

    reveal(State::ltr);
}

broadcast proof fn keeps_store_word(s: State, m: ModRm, v: u16)
    ensures
        steady(s, #[trigger] s.store_word(m, v)),
{
    broadcast use keeps_store;

    reveal(State::store_word);
}

broadcast proof fn keeps_fldcw(s: State, m: ModRm)
    ensures
        steady(s, #[trigger] s.fldcw(m)),
{
    broadcast use keeps_load;

    reveal(State::fldcw);
}

broadcast proof fn keeps_set_reg16(s: State, i: u8, v: u16)
    ensures
        steady(s, #[trigger] s.set_reg16(i, v)),
{
    reveal(State::set_reg16);
}

broadcast proof fn keeps_fst(s: State, m: ModRm, w64: bool)
    ensures
        steady(s, #[trigger] s.fst(m, w64)),
{
    broadcast use keeps_store;

    reveal(State::fst);
}

broadcast proof fn keeps_fld(s: State, m: ModRm, w64: bool)
    ensures
        steady(s, #[trigger] s.fld(m, w64)),
{
    broadcast use keeps_load;

    reveal(State::fld);
}

broadcast proof fn keeps_fild(s: State, m: ModRm, w: u32)
    ensures
        steady(s, #[trigger] s.fild(m, w)),
{
    broadcast use keeps_load;

    reveal(State::fild);
}

broadcast proof fn keeps_fistp(s: State, m: ModRm, w: u32)
    ensures
        steady(s, #[trigger] s.fistp(m, w)),
{
    broadcast use keeps_store;

    reveal(State::fistp);
}

broadcast proof fn keeps_fpu_operand(s: State, m: ModRm)
    ensures
        steady(s, (#[trigger] s.fpu_operand(m)).0),
{
    broadcast use keeps_load;

    reveal(State::fpu_operand);
}

broadcast proof fn keeps_fop(s: State, op: FpuOp, m: ModRm)
    ensures
        steady(s, #[trigger] s.fop(op, m)),
{
    broadcast use keeps_fpu_operand;

    reveal(State::fop);
}

broadcast proof fn keeps_fxsave(s: State, m: ModRm)
    ensures
        steady(s, #[trigger] s.fxsave(m)),
{
    broadcast use keeps_reach;

    reveal(State::fxsave);
}

broadcast proof fn keeps_fxrstor(s: State, m: ModRm)
    ensures
        steady(s, #[trigger] s.fxrstor(m)),
{
    broadcast use keeps_reach;

    reveal(State::fxrstor);
}

broadcast proof fn keeps_unknown(s: State, opcode: u16)
    ensures
        steady(s, #[trigger] s.unknown(opcode)),
{
    reveal(State::unknown);
}

broadcast proof fn keeps_system_inst(s: State, inst: Inst)
    ensures
        steady(s, #[trigger] s.system_inst(inst)),
{
    broadcast use {
        keeps_table_operand,
        keeps_store_table,
        keeps_write_rm,
        keeps_lmsw,
        keeps_xgetbv,
        keeps_xsetbv,
        keeps_invlpg,
        keeps_set_reg_w,
        keeps_mov_to_cr,
        keeps_syscall,
        keeps_sysret,
        keeps_with_pair,
        keeps_set_reg32,
        keeps_cpuid,
        keeps_write_msr,
        keeps_in8,
        keeps_in16,
        keeps_port_out,
        keeps_port_out16,
        keeps_lldt,
        keeps_ltr,
        keeps_store_word,
        keeps_fldcw,
        keeps_set_reg16,
        keeps_fst,
        keeps_fld,
        keeps_fild,
        keeps_fistp,
        keeps_fop,
        keeps_fxsave,
        keeps_fxrstor,
        keeps_unknown,
        words,
    };

    reveal(State::system_inst);
}

broadcast proof fn keeps_data_inst(s: State, inst: Inst)
    ensures
        steady(s, #[trigger] s.data_inst(inst)),
{
    broadcast use {
        keeps_movzx,
        keeps_movsx,
        keeps_set_reg_w,
        keeps_xchg_rm,
        keeps_compare_exchange,
        keeps_xadd,
        keeps_compare_exchange8b,
        keeps_mov_reg_rm,
        keeps_write_rm,
        keeps_movs,
        keeps_stos,
        keeps_lods,
        keeps_compare,
        keeps_scas,
        keeps_system_inst,
        words,
    };

    reveal(State::data_inst);
}

broadcast proof fn keeps_flow_inst(s: State, inst: Inst)
    ensures
        steady(s, #[trigger] s.flow_inst(inst)),
{
    broadcast use {
        keeps_pusha,
        keeps_popa,
        keeps_push,
        keeps_pop_reg,
        keeps_push_rm,
        keeps_pop_rm,
        keeps_pop_seg,
        keeps_leave,
        keeps_popf,
        keeps_call32,
        keeps_pop,
        keeps_ret32,
        keeps_ret_imm,
        keeps_call_rm16,
        keeps_call_rm,
        keeps_read_rm,
        keeps_jmp_rm,
        keeps_looped,
        keeps_jmp_far16,
        keeps_call_far16,
        keeps_jmp_far32,
        keeps_call_far32,
        keeps_retf16,
        keeps_retf32,
        keeps_int_n,
        keeps_iret16,
        keeps_iret64,
        keeps_iret32,
        keeps_data_inst,
        words,
    };

    reveal(State::flow_inst);
}

broadcast proof fn keeps_arith_inst(s: State, inst: Inst)
    ensures
        steady(s, #[trigger] s.arith_inst(inst)),
{
    broadcast use {
        keeps_alu_rm_reg,
        keeps_alu_rm_imm,
        keeps_alu_acc_imm,
        keeps_step_reg,
        keeps_step_rm,
        keeps_test_rm,
        keeps_not_rm,
        keeps_neg_rm,
        keeps_mul_rm,
        keeps_imul_rm,
        keeps_div_rm,
        keeps_idiv_rm,
        keeps_imul_reg,
        keeps_shift_rm,
        keeps_shift_double,
        keeps_bit_scan,
        keeps_bit_op,
        keeps_flow_inst,
        words,
    };

    reveal(State::arith_inst);
}

broadcast proof fn keeps_move_inst(s: State, inst: Inst)
    ensures
        steady(s, #[trigger] s.move_inst(inst)),
{
    broadcast use {
        keeps_write_rm,
        keeps_mov_reg_rm,
        keeps_set_reg_w,
        keeps_mov_acc_mem,
        keeps_mov_mem_acc,
        keeps_mov_seg_rm,
        keeps_load_far_pointer,
        keeps_arith_inst,
    };

    reveal(State::move_inst);
}

broadcast proof fn keeps_clocked(s: State)
    ensures
        steady(s, #[trigger] s.clocked()),
{
    reveal(State::clocked);
}

broadcast proof fn keeps_timer_latched(s: State)
    ensures
        steady(s, #[trigger] s.timer_latched()),
{
    reveal(State::timer_latched);
}

broadcast proof fn keeps_key_latched(s: State)
    ensures
        steady(s, #[trigger] s.key_latched()),
{
    reveal(State::key_latched);
}

broadcast proof fn keeps_disk_latched(s: State)
    ensures
        steady(s, #[trigger] s.disk_latched()),
{
    reveal(State::disk_latched);
}

broadcast proof fn keeps_vectored(s: State, irq: u8)
    ensures
        steady(s, #[trigger] s.vectored(irq)),
{
    broadcast use {keeps_gate_int64, keeps_gate_int32, keeps_real_int};

    reveal(State::vectored);
}

broadcast proof fn keeps_hardware(s: State)
    ensures
        steady(s, (#[trigger] s.hardware()).0),
{
    broadcast use {
        keeps_clocked,
        keeps_timer_latched,
        keeps_key_latched,
        keeps_disk_latched,
        keeps_vectored,
        words,
    };

    reveal(State::hardware);
}

broadcast proof fn keeps_exception_logged(s: State, vector: u8, code: Option<u32>)
    ensures
        steady(s, #[trigger] s.exception_logged(vector, code)),
{
    reveal(State::exception_logged);
}

broadcast proof fn keeps_exception(s: State, vector: u8, code: Option<u32>)
    ensures
        steady(s, #[trigger] s.exception(vector, code)),
{
    broadcast use {keeps_exception_logged, keeps_gate_int64, keeps_gate_int32, keeps_real_int};

    reveal(State::exception);
}

// ---- The law ----

/// No instruction touches the counters, and none disturbs the reserved bits of
/// the flags.
pub proof fn law_instructions_keep_the_counters(s: State, inst: Inst)
    ensures
        steady(s, s.execute(inst)),
{
    broadcast use keeps_move_inst;

    reveal(State::execute);
    reveal(State::registers_into);
}

/// Every step counts: the time-stamp counter and the number of instructions
/// executed go up by one, and the reserved bits of the flags stay in order.
pub proof fn law_every_step_counts(s: State)
    ensures
        ({
            let t = s.step().0;
            &&& t.tsc == s.tsc.wrapping_add(1)
            &&& t.instructions_executed == s.instructions_executed.wrapping_add(1)
            &&& reserved(s.flags) ==> reserved(t.flags)
        }),
{
    broadcast use {keeps_exception, keeps_hardware};

    reveal(State::step);
    reveal(State::events_taken);
    reveal(State::instruction_started);
    reveal(State::user_counted);
    reveal(State::ring_noted);
    reveal(State::trap_sprung);
    reveal(only_fetched);
    let o = step_start(s);
    assert(steady(s, o));
    let (d, inst) = o.decode();
    law_decoding_changes_no_register(o);
    law_instructions_keep_the_counters(d, inst);
}

/// The time-stamp counter tells the steps of a run, halted ones included, and
/// the reserved bits of the flags stay in order all the way.
pub proof fn law_runs_are_timed(s: State, max: u64)
    ensures
        ({
            let (t, n) = s.run(max);
            &&& t.tsc == s.tsc.wrapping_add(n)
            &&& t.instructions_executed == s.instructions_executed.wrapping_add(n)
            &&& reserved(s.flags) ==> reserved(t.flags)
        }),
    decreases max,
{
    broadcast use keeps_hardware;

    if max == 0 || s.fpu.request is Some || (s.halted && s.stuck()) {
    } else {
        reveal(State::idle);
        law_every_step_counts(s);
        let t = if s.halted { s.idle() } else { s.step().0 };
        law_runs_are_timed(t, (max - 1) as u64);
        law_runs_are_bounded(t, (max - 1) as u64);
    }
}

/// A machine starts with its reserved flags in order.
pub proof fn law_reset_flags_are_in_order(ram: int)
    ensures
        reserved(State::reset(ram).flags),
{
    reveal(reserved);
    lemma_bits(2, 1, 0);
}

} // verus!
