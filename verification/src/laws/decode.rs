//! The law of decoding: fetching an instruction changes no register, and what
//! a whole step leaves when its instruction faults.

use crate::cpu::address::Access;
use crate::cpu::Prefixes;
use crate::instructions::Rep;
use crate::laws::faults::{
    law_a_faulting_instruction_commits_nothing, lemma_start, marked_from, quiet_access,
};
use crate::state::State;
use vstd::prelude::*;

verus! {

/// The state differs from `o` by what fetching instruction bytes may change:
/// the instruction pointer, the prefixes and the fetch cache, and what address
/// translation leaves behind.
#[verifier::opaque]
pub open spec fn only_fetched(o: State, s: State) -> bool {
    &&& s == (State {
        ip: s.ip,
        rip: s.rip,
        pfx: s.pfx,
        fetch: s.fetch,
        mem: s.mem,
        tlb: s.tlb,
        pending_exception: s.pending_exception,
        cr2: s.cr2,
        diag: s.diag,
        ..o
    })
    &&& marked_from(o, s.mem, s.cr3, s.cr4, s.efer)
}

/// Translation changes nothing else.
proof fn lemma_access(o: State, s: State, linear: u64)
    requires
        only_fetched(o, s),
    ensures
        only_fetched(o, s.access(linear, Access::Fetch).0),
{
    broadcast use quiet_access;

    reveal(only_fetched);
    reveal(State::access);
    reveal(State::paged);
    let t = s.access(linear, Access::Fetch).0;
    assert(marked_from(o, t.mem, t.cr3, t.cr4, t.efer));
}

broadcast proof fn fetched_peek(o: State, s: State)
    requires
        #[trigger] only_fetched(o, s),
    ensures
        only_fetched(o, (#[trigger] s.peek8()).0),
{
    lemma_access(o, s, s.ip_linear());
    reveal(only_fetched);
    reveal(State::peek8);
}

broadcast proof fn fetched8(o: State, s: State)
    requires
        #[trigger] only_fetched(o, s),
    ensures
        only_fetched(o, (#[trigger] s.fetch8()).0),
{
    lemma_access(o, s, s.ip_linear());
    reveal(only_fetched);
    reveal(State::fetch8);
}

broadcast proof fn fetched16(o: State, s: State)
    requires
        #[trigger] only_fetched(o, s),
    ensures
        only_fetched(o, (#[trigger] s.fetch16()).0),
{
    broadcast use fetched8;

    reveal(State::fetch16);
}

broadcast proof fn fetched32(o: State, s: State)
    requires
        #[trigger] only_fetched(o, s),
    ensures
        only_fetched(o, (#[trigger] s.fetch32()).0),
{
    broadcast use fetched16;

    reveal(State::fetch32);
}

broadcast proof fn fetched64(o: State, s: State)
    requires
        #[trigger] only_fetched(o, s),
    ensures
        only_fetched(o, (#[trigger] s.fetch64()).0),
{
    broadcast use fetched32;

    reveal(State::fetch64);
}

broadcast proof fn fetched_modrm(o: State, s: State)
    requires
        #[trigger] only_fetched(o, s),
    ensures
        only_fetched(o, (#[trigger] s.fetch_modrm()).0),
{
    broadcast use {fetched8, fetched16, fetched32};

    reveal(State::fetch_modrm);
}

broadcast group fetching {
    fetched8,
    fetched16,
    fetched32,
    fetched64,
    fetched_modrm,
}

/// Setting the prefixes changes nothing else.
proof fn lemma_prefix(o: State, s: State, p: Prefixes)
    requires
        only_fetched(o, s),
    ensures
        only_fetched(o, s.with_prefixes(p)),
{
    reveal(only_fetched);
}

proof fn lemma_prefixed(o: State, s: State, rep: Rep, limit: u64)
    requires
        only_fetched(o, s),
    ensures
        only_fetched(o, s.prefixed(rep, limit).0),
    decreases limit,
{
    broadcast use {fetched8, fetched_peek};

    let (t, b) = s.peek8();
    if limit > 0 && (crate::instructions::decode::is_rex(b, t.long64())
        || crate::instructions::decode::is_legacy_prefix(b)) {
        let p = crate::instructions::decode::prefix_applied(t.pfx, b, t.long64());
        lemma_prefix(o, t, p);
        lemma_prefixed(
            o,
            t.with_prefixes(p).fetch8().0,
            crate::instructions::decode::rep_applied(rep, b),
            (limit - 1) as u64,
        );
    }
}

proof fn lemma_prefixes(o: State, s: State)
    requires
        only_fetched(o, s),
    ensures
        only_fetched(o, s.prefixes().0),
{
    reveal(State::prefixes);
    let p = crate::instructions::decode::initial_prefixes(
        s.long64(),
        s.pe && s.seg_desc[1].d_b,
    );
    lemma_prefix(o, s, p);
    let start = s.with_prefixes(p);
    lemma_prefixed(o, start, Rep::No, u64::MAX);
    let t = start.prefixed(Rep::No, u64::MAX).0;
    lemma_prefix(o, t, crate::instructions::decode::settled(t.pfx));
}

proof fn lemma_decode_alu(o: State, s: State, op: u8, w32: bool)
    requires
        only_fetched(o, s),
    ensures
        only_fetched(o, s.decode_alu(op, w32).0),
{
    broadcast use fetching;

    reveal(State::decode_alu);
}

proof fn lemma_decode_seg(o: State, s: State, op: u8, rep: Rep, w32: bool)
    requires
        only_fetched(o, s),
    ensures
        only_fetched(o, s.decode_seg(op, rep, w32).0),
{
    broadcast use fetching;

    reveal(State::decode_seg);
}

proof fn lemma_decode_4x(o: State, s: State, op: u8, rep: Rep, w32: bool)
    requires
        only_fetched(o, s),
    ensures
        only_fetched(o, s.decode_4x(op, rep, w32).0),
{
    broadcast use fetching;

    reveal(State::decode_4x);
}

proof fn lemma_decode_8x(o: State, s: State, op: u8, rep: Rep, w32: bool)
    requires
        only_fetched(o, s),
    ensures
        only_fetched(o, s.decode_8x(op, rep, w32).0),
{
    broadcast use fetching;

    reveal(State::decode_8x);
}

proof fn lemma_decode_ax(o: State, s: State, op: u8, rep: Rep, w32: bool)
    requires
        only_fetched(o, s),
    ensures
        only_fetched(o, s.decode_ax(op, rep, w32).0),
{
    broadcast use fetching;

    reveal(State::decode_ax);
}

proof fn lemma_decode_dx(o: State, s: State, op: u8, rep: Rep, w32: bool)
    requires
        only_fetched(o, s),
    ensures
        only_fetched(o, s.decode_dx(op, rep, w32).0),
{
    broadcast use fetching;

    reveal(State::decode_dx);
}

proof fn lemma_decode_ex(o: State, s: State, op: u8, rep: Rep, w32: bool)
    requires
        only_fetched(o, s),
    ensures
        only_fetched(o, s.decode_ex(op, rep, w32).0),
{
    broadcast use fetching;

    reveal(State::decode_ex);
}

proof fn lemma_decode_0f_low(o: State, s: State, op: u8, rep: Rep, w32: bool)
    requires
        only_fetched(o, s),
    ensures
        only_fetched(o, s.decode_0f_low(op, rep, w32).0),
{
    broadcast use fetching;

    reveal(State::decode_0f_low);
}

proof fn lemma_decode_0f_high(o: State, s: State, op: u8, rep: Rep, w32: bool)
    requires
        only_fetched(o, s),
    ensures
        only_fetched(o, s.decode_0f_high(op, rep, w32).0),
{
    broadcast use fetching;

    reveal(State::decode_0f_high);
}

proof fn lemma_decode_op(o: State, s: State, op: u8, rep: Rep)
    requires
        only_fetched(o, s),
    ensures
        only_fetched(o, s.decode_op(op, rep).0),
{
    broadcast use fetched8;

    reveal(State::decode_op);
    let w32 = s.pfx.opsize;
    let (t, op2) = s.fetch8();
    lemma_decode_0f_low(o, t, op2, rep, w32);
    lemma_decode_0f_high(o, t, op2, rep, w32);
    lemma_decode_alu(o, s, op, w32);
    lemma_decode_seg(o, s, op, rep, w32);
    lemma_decode_4x(o, s, op, rep, w32);
    lemma_decode_8x(o, s, op, rep, w32);
    lemma_decode_ax(o, s, op, rep, w32);
    lemma_decode_dx(o, s, op, rep, w32);
    lemma_decode_ex(o, s, op, rep, w32);
}

/// Decoding an instruction changes no register but the instruction pointer,
/// and stores nothing.
pub proof fn law_decoding_changes_no_register(s: State)
    ensures
        only_fetched(s, s.decode().0),
{
    broadcast use fetched8;

    reveal(State::decode);
    lemma_start(s);
    assert(only_fetched(s, s)) by {
        reveal(only_fetched);
    }
    lemma_prefixes(s, s);
    let (t, rep) = s.prefixes();
    let (u, op) = t.fetch8();
    lemma_decode_op(s, u, op, rep);
}

/// The state a step starts its instruction in: pending events taken, and the
/// place noted.
pub open spec fn step_start(s: State) -> State {
    s.events_taken().instruction_started().user_counted()
}

/// A step whose instruction faults, in its decoding or in its execution, leaves
/// every register but the instruction pointer as it was and memory as address
/// translation left it, with the exception pending and the place to restart
/// from at hand. String instructions, which can be interrupted between
/// elements, are the exception.
pub proof fn law_a_faulting_step_can_be_restarted(s: State)
    requires
        !step_start(s).faulted(),
        s.step().0.fault_pending(),
        !s.step().1.is_string(),
    ensures
        ({
            let o = step_start(s);
            let t = s.step().0;
            &&& t.regs == o.regs
            &&& t.flags == o.flags
            &&& (t.es, t.cs, t.ss, t.ds, t.fs, t.gs) == (o.es, o.cs, o.ss, o.ds, o.fs, o.gs)
            &&& t.seg_desc == o.seg_desc
            &&& t.fpu == o.fpu
            &&& t.rip_start == s.events_taken().rip
            &&& t.ip_start == s.events_taken().ip
            &&& exists|m: State|
                #![trigger only_fetched(o, m)]
                only_fetched(o, m) && marked_from(m, t.mem, m.cr3, m.cr4, m.efer)
        }),
{
    reveal(State::step);
    reveal(marked_from);
    let o = step_start(s);
    let (d, inst) = o.decode();
    law_decoding_changes_no_register(o);
    reveal(only_fetched);
    reveal(State::instruction_started);
    reveal(State::user_counted);
    reveal(State::ring_noted);
    reveal(State::trap_sprung);
    if d.faulted() {
        lemma_start(d);
    } else {
        law_a_faulting_instruction_commits_nothing(d, inst);
        reveal(State::registers_into);
    }
    assert(only_fetched(o, d));
}

} // verus!
