//! What memory accesses leave alone.

use crate::cpu::address::Access;
use crate::cpu::{DiagView, TLB_SIZE};
use crate::laws::paging::{law_translation_keeps_the_offset, lemma_slot};
use crate::state::State;
use vstd::prelude::*;

verus! {

/// The state differs from an earlier one at most in memory, the TLB, the
/// pending exception and CR2, and the log of watched writes: what address
/// translation and memory accesses may change.
pub open spec fn only_accessed(s: State, t: State) -> bool {
    &&& t == (State {
        mem: t.mem,
        tlb: t.tlb,
        pending_exception: t.pending_exception,
        cr2: t.cr2,
        diag: t.diag,
        ..s
    })
    &&& t.diag == (DiagView { watch_log: t.diag.watch_log, ..s.diag })
    &&& t.tlb.len() == s.tlb.len()
}

proof fn lemma_low(p: u64, l: u64)
    by (bit_vector)
    ensures
        ((((p << 12) | (l & 0xFFF)) as usize) as u64) & 0xFFF == l & 0xFFF,
        (((l as u32) as usize) as u64) & 0xFFF == l & 0xFFF,
        (l & 0xFFFF_FFFF) & 0xFFF == l & 0xFFF,
{
}

/// Translation through the TLB changes one of its slots at most.
proof fn lemma_tlb_frame(s: State, l: u64, access: Access)
    requires
        s.tlb.len() == TLB_SIZE,
    ensures
        ({
            let (t, phys) = s.tlb_access(l, access);
            &&& only_accessed(s, t)
            &&& t.diag == s.diag
            &&& forall|k: int| 0 <= k < TLB_SIZE && k != State::tlb_slot(l) ==> t.tlb[k] == s.tlb[k]
            &&& s.faulted() ==> t.faulted()
            &&& !t.faulted() ==> (phys as u64) & 0xFFF == l & 0xFFF
        }),
{
    lemma_slot(l);
    lemma_low(s.tlb[State::tlb_slot(l)].ppage, l);
}

/// A walk fills one TLB slot at most.
proof fn lemma_walk_frame(s: State, l: u64, access: Access)
    requires
        s.tlb.len() == TLB_SIZE,
    ensures
        ({
            let (t, phys) = s.walk_access(l, access);
            &&& only_accessed(s, t)
            &&& t.diag == s.diag
            &&& forall|k: int| 0 <= k < TLB_SIZE && k != State::tlb_slot(l) ==> t.tlb[k] == s.tlb[k]
            &&& s.faulted() ==> t.faulted()
            &&& !t.faulted() ==> (phys as u64) & 0xFFF == l & 0xFFF
        }),
{
    lemma_slot(l);
    law_translation_keeps_the_offset(s.mem, s.paging_mode(), s.cr3, l);
}

/// The watches see a write and change nothing but their log.
pub(crate) proof fn lemma_watch_frame(s: State, linear: u64, phys: usize)
    ensures
        ({
            let t = s.watched(linear, phys);
            t == (State { diag: DiagView { watch_log: t.diag.watch_log, ..s.diag }, ..s })
        }),
{
    reveal(State::watched);
}

/// Translation changes nothing but memory, the TLB and the pending exception.
proof fn lemma_paged_frame(s: State, linear: u64, access: Access)
    requires
        s.tlb.len() == TLB_SIZE,
    ensures
        ({
            let (t, phys) = s.paged(linear, access);
            &&& only_accessed(s, t)
            &&& t.diag == s.diag
            &&& forall|k: int|
                0 <= k < TLB_SIZE && (s.paging() ==> k != State::tlb_slot(s.trimmed(linear)))
                    ==> t.tlb[k] == s.tlb[k]
            &&& s.faulted() ==> t.faulted()
            &&& !t.faulted() ==> (phys as u64) & 0xFFF == linear & 0xFFF
        }),
{
    reveal(State::paged);
    let l = s.trimmed(linear);
    lemma_low(0, linear);
    lemma_tlb_frame(s, l, access);
    lemma_walk_frame(s, l, access);
}

/// Address translation changes nothing but memory, the TLB, the pending
/// exception and the log of watched writes; in the TLB it changes one slot,
/// and it keeps the offset within the page.
pub proof fn law_access_frame(s: State, linear: u64, access: Access)
    requires
        s.tlb.len() == TLB_SIZE,
    ensures
        ({
            let (t, phys) = s.access(linear, access);
            &&& only_accessed(s, t)
            &&& forall|k: int|
                0 <= k < TLB_SIZE && (s.paging() ==> k != State::tlb_slot(s.trimmed(linear)))
                    ==> t.tlb[k] == s.tlb[k]
            &&& s.faulted() ==> t.faulted()
            &&& !t.faulted() ==> (phys as u64) & 0xFFF == linear & 0xFFF
        }),
{
    reveal(State::access);
    lemma_paged_frame(s, linear, access);
    let (t, phys) = s.paged(linear, access);
    lemma_watch_frame(t, linear, phys);
}

/// A store changes nothing but what address translation may change.
pub proof fn law_store_frame(s: State, linear: u64, w: u32, v: u64)
    requires
        s.tlb.len() == TLB_SIZE,
    ensures
        only_accessed(s, s.store(linear, w, v)),
        s.faulted() ==> s.store(linear, w, v).faulted(),
{
    reveal(State::store);
    reveal(State::store_at);
    reveal(State::write_split);
    let (a, phys) = s.access(linear, Access::Write);
    law_access_frame(s, linear, Access::Write);
    law_access_frame(
        a,
        linear.wrapping_add((0x1000 - (phys & 0xFFF)) as u64),
        Access::Write,
    );
}

/// A load changes nothing but what address translation may change.
pub proof fn law_load_frame(s: State, linear: u64, w: u32)
    requires
        s.tlb.len() == TLB_SIZE,
    ensures
        only_accessed(s, s.load(linear, w).0),
        s.faulted() ==> s.load(linear, w).0.faulted(),
{
    reveal(State::load);
    reveal(State::load_at);
    reveal(State::read_split);
    let (a, phys) = s.access(linear, Access::Read);
    law_access_frame(s, linear, Access::Read);
    law_access_frame(a, linear.wrapping_add((0x1000 - (phys & 0xFFF)) as u64), Access::Read);
}

} // verus!
