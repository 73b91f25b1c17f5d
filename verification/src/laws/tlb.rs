//! Laws of the TLB: it is coherent with the page tables from a flush on, and
//! while it is, it changes nothing but speed.

use crate::cpu::address::{marked, walk_marked, Access};
use crate::cpu::{DiagView, TlbEntry, TLB_SIZE};
use crate::laws::memory::{lemma_aligned32, lemma_aligned64, regular};
use crate::laws::paging::{law_translation_keeps_the_offset, lemma_offsets, lemma_slot};
use crate::memory::MemView;
use crate::paging::{pte, walked, PagingMode, Walk, FRAME_MASK};
use crate::state::State;
use vstd::prelude::*;

verus! {

/// Two addresses of one page, two entries that differ in the accessed and
/// dirty bits at most, and the alignment of entries.
proof fn lemma_entries(a: u64, b: u64, e: u32, entry: u64, f: u32, other: u64, q: u64)
    by (bit_vector)
    ensures
        a >> 12 == b >> 12 ==> {
            &&& a >> 21 == b >> 21
            &&& a >> 30 == b >> 30
            &&& a >> 39 == b >> 39
            &&& (a as u32) >> 12 == (b as u32) >> 12
            &&& (a as u32) >> 22 == (b as u32) >> 22
            &&& (a & 0xFFFF_FFFF) >> 12 == (b & 0xFFFF_FFFF) >> 12
            &&& ((((e & 0xFFC0_0000) | ((a as u32) & 0x3F_FFFF)) as usize) as u64) >> 12 == ((((e
                & 0xFFC0_0000) | ((b as u32) & 0x3F_FFFF)) as usize) as u64) >> 12
            &&& ((((e & 0xFFFF_F000) | ((a as u32) & 0xFFF)) as usize) as u64) >> 12 == ((((e
                & 0xFFFF_F000) | ((b as u32) & 0xFFF)) as usize) as u64) >> 12
            &&& ((((entry & !0xFFFu64) | (a & 0xFFF)) as usize) as u64) >> 12 == ((((entry
                & !0xFFFu64) | (b & 0xFFF)) as usize) as u64) >> 12
            &&& ((((entry & !0x1F_FFFFu64) | (a & 0x1F_FFFF)) as usize) as u64) >> 12 == ((((entry
                & !0x1F_FFFFu64) | (b & 0x1F_FFFF)) as usize) as u64) >> 12
            &&& ((((entry & !0x3FFF_FFFFu64) | (a & 0x3FFF_FFFF)) as usize) as u64) >> 12 == ((((
            entry & !0x3FFF_FFFFu64) | (b & 0x3FFF_FFFF)) as usize) as u64) >> 12
        },
        e & !0x60u32 == f & !0x60u32 ==> {
            &&& e & 1 == f & 1
            &&& e & 2 == f & 2
            &&& e & 4 == f & 4
            &&& e & 0x80 == f & 0x80
            &&& e & 0xFFFF_F000 == f & 0xFFFF_F000
            &&& e & 0xFFC0_0000 == f & 0xFFC0_0000
        },
        entry & !0x60u64 == other & !0x60u64 ==> {
            &&& entry & 1 == other & 1
            &&& entry & 2 == other & 2
            &&& entry & 4 == other & 4
            &&& entry & 0x80 == other & 0x80
            &&& entry & 0x8000_0000_0000_0000 == other & 0x8000_0000_0000_0000
            &&& entry & 0x000F_FFFF_FFFF_F000 == other & 0x000F_FFFF_FFFF_F000
        },
        (entry | 0x20) & !0x60u64 == entry & !0x60u64,
        (entry | (0x20u64 | 0x40u64)) & !0x60u64 == entry & !0x60u64,
        (e | (0x20u64 as u32)) & !0x60u32 == e & !0x60u32,
        (e | ((0x20u64 | 0x40u64) as u32)) & !0x60u32 == e & !0x60u32,
        e & 0xFFFF_F000 == (e >> 12) * 4096,
        entry & 0x000F_FFFF_FFFF_F000 == ((entry >> 12) & 0xFF_FFFF_FFFF) * 4096,
        entry & 0x000F_FFFF_FFFF_F000 <= 0x000F_FFFF_FFFF_F000,
        entry & 0xFFFF_FFE0 <= 0xFFFF_FFE0,
        entry & 0xFFFF_FFE0 == ((entry >> 5) & 0x7FF_FFFF) * 32,
        q < 0x1000_0000_0000_0000 ==> (((q * 8) as u64) as usize) % 8 == 0,
        ((a >> 12) << 12) >> 12 == a >> 12,
        (a >> 12) & 0x1FF < 0x200,
        (a >> 21) & 0x1FF < 0x200,
        (a >> 30) & 0x1FF < 0x200,
        (a >> 39) & 0x1FF < 0x200,
        ((a as u32) >> 12) & 0x3FF < 0x400,
        ((a as u32) >> 22) & 0x3FF < 0x400,
        1u64 << 12u64 == 0x1000,
        1u64 << 21u64 == 0x20_0000,
        1u64 << 30u64 == 0x4000_0000,
{
}

// ---- Pages ----

/// Two answers of the page tables for addresses of one page.
pub open spec fn same_page(x: Option<Walk>, y: Option<Walk>) -> bool {
    match (x, y) {
        (Some(p), Some(q)) => p == (Walk { phys: p.phys, ..q }) && (p.phys as u64) >> 12 == (
        q.phys as u64) >> 12,
        (None, None) => true,
        _ => false,
    }
}

/// A walk of 8-byte tables treats the addresses of a page alike.
proof fn lemma_wide_page(
    mem: MemView,
    table: u64,
    level: u64,
    a: u64,
    b: u64,
    long: bool,
    sofar: Walk,
)
    requires
        1 <= level <= 4,
        a >> 12 == b >> 12,
    ensures
        same_page(
            crate::paging::walked_from(mem, table, level, a, long, sofar),
            crate::paging::walked_from(mem, table, level, b, long, sofar),
        ),
    decreases level,
{
    let at = crate::paging::entry_addr(table, level, a);
    let entry = mem.read64(at);
    lemma_entries(a, b, 0, entry & FRAME_MASK, 0, 0, 0);
    assert(at == crate::paging::entry_addr(table, level, b));
    if !crate::laws::paging::ends(entry, level, long) {
        let here = Walk {
            writable: sofar.writable && entry & pte::RW != 0,
            user: sofar.user && entry & pte::US != 0,
            no_exec: sofar.no_exec || entry & pte::NX != 0,
            ..sofar
        };
        let next = if level == 4 {
            Walk { upper4: Some(at), ..here }
        } else if level == 3 {
            Walk { upper3: Some(at), ..here }
        } else {
            Walk { upper2: Some(at), ..here }
        };
        lemma_wide_page(mem, entry & FRAME_MASK, (level - 1) as u64, a, b, long, next);
    }
}

/// Addresses of one page are translated alike: all of them or none, to one
/// physical page, with the same permissions.
pub proof fn law_pages_translate_whole(
    mem: MemView,
    mode: PagingMode,
    cr3: u64,
    a: u64,
    b: u64,
)
    requires
        a >> 12 == b >> 12,
    ensures
        same_page(walked(mem, mode, cr3, a), walked(mem, mode, cr3, b)),
{
    reveal(walked);
    reveal(crate::paging::translated);
    lemma_entries(a, b, 0, 0, 0, 0, 0);
    match mode {
        PagingMode::Legacy => {
            let pde = mem.read32(crate::paging::pde_addr(cr3 as u32, a as u32));
            let entry = mem.read32(crate::paging::pte_addr(pde, a as u32));
            lemma_entries(a, b, pde, 0, 0, 0, 0);
            lemma_entries(a, b, entry, 0, 0, 0, 0);
        },
        PagingMode::Pae => lemma_wide_page(
            mem,
            cr3 & 0xFFFF_FFE0,
            3,
            a & 0xFFFF_FFFF,
            b & 0xFFFF_FFFF,
            false,
            crate::paging::fresh(true),
        ),
        PagingMode::Long => lemma_wide_page(
            mem,
            cr3 & FRAME_MASK,
            4,
            a,
            b,
            true,
            crate::paging::fresh(true),
        ),
    }
}

// ---- Accessed and dirty bits ----

/// Memories whose aligned entries differ in the accessed and dirty bits at
/// most.
pub open spec fn same_tables(x: MemView, y: MemView, wide: bool) -> bool {
    if wide {
        forall|b: usize|
            b % 8 == 0 ==> #[trigger] x.read64(b) & !0x60u64 == y.read64(b) & !0x60u64
    } else {
        forall|b: usize|
            b % 4 == 0 ==> #[trigger] x.read32(b) & !0x60u32 == y.read32(b) & !0x60u32
    }
}

/// Is an entry aligned?
pub open spec fn aligned(at: usize, wide: bool) -> bool {
    if wide { at % 8 == 0 } else { at % 4 == 0 }
}

/// Are the entries a walk went through aligned?
pub open spec fn aligned_walk(w: Walk) -> bool {
    &&& aligned(w.leaf, w.wide)
    &&& w.upper4 matches Some(at) ==> aligned(at, w.wide)
    &&& w.upper3 matches Some(at) ==> aligned(at, w.wide)
    &&& w.upper2 matches Some(at) ==> aligned(at, w.wide)
}

/// Marking one entry changes the accessed and dirty bits at most.
proof fn lemma_mark(m: MemView, at: usize, wide: bool, bits: u64)
    requires
        regular(m),
        aligned(at, wide),
        bits == pte::A || bits == pte::A | pte::D,
    ensures
        regular(marked(m, at, wide, bits)),
        same_tables(marked(m, at, wide, bits), m, wide),
{
    let x = marked(m, at, wide, bits);
    if wide {
        let v = m.read64(at);
        lemma_aligned64(m, at, v | bits, at);
        assert forall|b: usize| b % 8 == 0 implies #[trigger] x.read64(b) & !0x60u64 == m.read64(b)
            & !0x60u64 by {
            lemma_aligned64(m, at, v | bits, b);
            lemma_entries(0, 0, 0, v, 0, 0, 0);
        }
    } else {
        let v = m.read32(at);
        lemma_aligned32(m, at, v | (bits as u32), at);
        assert forall|b: usize| b % 4 == 0 implies #[trigger] x.read32(b) & !0x60u32 == m.read32(b)
            & !0x60u32 by {
            lemma_aligned32(m, at, v | (bits as u32), b);
            lemma_entries(0, 0, v, 0, 0, 0, 0);
        }
    }
}

/// Marking a whole walk changes the accessed and dirty bits at most.
proof fn lemma_walk_mark(m: MemView, w: Walk, write: bool)
    requires
        regular(m),
        aligned_walk(w),
    ensures
        regular(walk_marked(m, w, write)),
        same_tables(walk_marked(m, w, write), m, w.wide),
{
    reveal(walk_marked);
    let m4 = crate::cpu::address::marked_upper(m, w.upper4, w.wide);
    let m3 = crate::cpu::address::marked_upper(m4, w.upper3, w.wide);
    let m2 = crate::cpu::address::marked_upper(m3, w.upper2, w.wide);
    if let Some(at) = w.upper4 {
        lemma_mark(m, at, w.wide, pte::A);
    }
    if let Some(at) = w.upper3 {
        lemma_mark(m4, at, w.wide, pte::A);
    }
    if let Some(at) = w.upper2 {
        lemma_mark(m3, at, w.wide, pte::A);
    }
    lemma_mark(m2, w.leaf, w.wide, if write { pte::A | pte::D } else { pte::A });
}

/// The tables of the paging structure are aligned. The 8-byte structures mask
/// CR3; the legacy one takes it as it is.
pub open spec fn rooted(mode: PagingMode, cr3: u64) -> bool {
    mode == PagingMode::Legacy ==> (cr3 as u32) % 4 == 0
}

/// Entries of 8-byte tables are aligned.
proof fn lemma_entry_aligned(table: u64, level: u64, linear: u64)
    requires
        1 <= level <= 4,
        table % 8 == 0,
        table <= FRAME_MASK,
    ensures
        crate::paging::entry_addr(table, level, linear) % 8 == 0,
{
    let k = (linear >> crate::paging::level_shift(level)) & 0x1FF;
    lemma_entries(linear, 0, 0, 0, 0, 0, (table / 8 + k) as u64);
    assert(table.wrapping_add((k * 8) as u64) == ((table / 8 + k) * 8) as u64);
}

/// A walk of 8-byte tables goes through aligned entries, and sees nothing of
/// their accessed and dirty bits.
proof fn lemma_wide_alike(
    x: MemView,
    y: MemView,
    table: u64,
    level: u64,
    linear: u64,
    long: bool,
    sofar: Walk,
)
    requires
        1 <= level <= 4,
        table % 8 == 0,
        table <= FRAME_MASK,
        same_tables(x, y, true),
        sofar.wide,
        sofar.upper4 matches Some(at) ==> at % 8 == 0,
        sofar.upper3 matches Some(at) ==> at % 8 == 0,
        sofar.upper2 matches Some(at) ==> at % 8 == 0,
    ensures
        crate::paging::walked_from(x, table, level, linear, long, sofar)
            == crate::paging::walked_from(y, table, level, linear, long, sofar),
        crate::paging::walked_from(x, table, level, linear, long, sofar) matches Some(w)
            ==> w.wide && aligned_walk(w),
    decreases level,
{
    let at = crate::paging::entry_addr(table, level, linear);
    lemma_entry_aligned(table, level, linear);
    let entry = x.read64(at);
    let other = y.read64(at);
    lemma_entries(0, 0, 0, entry, 0, other, 0);
    if !crate::laws::paging::ends(entry, level, long) {
        let here = Walk {
            writable: sofar.writable && entry & pte::RW != 0,
            user: sofar.user && entry & pte::US != 0,
            no_exec: sofar.no_exec || entry & pte::NX != 0,
            ..sofar
        };
        let next = if level == 4 {
            Walk { upper4: Some(at), ..here }
        } else if level == 3 {
            Walk { upper3: Some(at), ..here }
        } else {
            Walk { upper2: Some(at), ..here }
        };
        lemma_wide_alike(x, y, entry & FRAME_MASK, (level - 1) as u64, linear, long, next);
    }
}

/// A translation sees nothing of the accessed and dirty bits, and goes
/// through aligned entries.
proof fn lemma_alike(x: MemView, y: MemView, mode: PagingMode, cr3: u64, linear: u64)
    requires
        rooted(mode, cr3),
        same_tables(x, y, mode != PagingMode::Legacy),
    ensures
        walked(x, mode, cr3, linear) == walked(y, mode, cr3, linear),
        walked(x, mode, cr3, linear) matches Some(w) ==> w.wide == (mode != PagingMode::Legacy)
            && aligned_walk(w),
{
    reveal(walked);
    reveal(crate::paging::translated);
    match mode {
        PagingMode::Legacy => {
            let l = linear as u32;
            let at = crate::paging::pde_addr(cr3 as u32, l);
            lemma_entries(linear, 0, 0, 0, 0, 0, 0);
            assert(at % 4 == 0);
            let pde = x.read32(at);
            lemma_entries(0, 0, pde, 0, y.read32(at), 0, 0);
            let next = crate::paging::pte_addr(pde, l);
            assert(next % 4 == 0);
            lemma_entries(0, 0, x.read32(next), 0, y.read32(next), 0, 0);
        },
        PagingMode::Pae => {
            lemma_entries(0, 0, 0, cr3, 0, 0, 0);
            lemma_wide_alike(
                x,
                y,
                cr3 & 0xFFFF_FFE0,
                3,
                linear & 0xFFFF_FFFF,
                false,
                crate::paging::fresh(true),
            );
        },
        PagingMode::Long => {
            lemma_entries(0, 0, 0, cr3, 0, 0, 0);
            lemma_wide_alike(
                x,
                y,
                cr3 & FRAME_MASK,
                4,
                linear,
                true,
                crate::paging::fresh(true),
            );
        },
    }
}

/// Setting accessed and dirty bits changes no translation, of any address.
pub proof fn law_marks_change_no_translation(
    mem: MemView,
    mode: PagingMode,
    cr3: u64,
    linear: u64,
    write: bool,
    other: u64,
)
    requires
        regular(mem),
        rooted(mode, cr3),
        walked(mem, mode, cr3, linear) is Some,
    ensures
        walked(
            walk_marked(mem, walked(mem, mode, cr3, linear)->0, write),
            mode,
            cr3,
            other,
        ) == walked(mem, mode, cr3, other),
{
    let w = walked(mem, mode, cr3, linear)->0;
    lemma_alike(mem, mem, mode, cr3, linear);
    lemma_walk_mark(mem, w, write);
    lemma_alike(walk_marked(mem, w, write), mem, mode, cr3, other);
}

// ---- Coherence ----

/// A TLB entry says of its page what the page tables say.
pub open spec fn faithful(mem: MemView, mode: PagingMode, cr3: u64, e: TlbEntry) -> bool {
    match walked(mem, mode, cr3, e.vpage << 12) {
        Some(w) => {
            &&& (w.phys as u64) >> 12 == e.ppage
            &&& w.writable == e.writable
            &&& w.user == e.user
            &&& w.no_exec == e.no_exec
        },
        None => false,
    }
}

/// Every entry of the TLB says what the page tables say.
pub open spec fn coherent(s: State) -> bool {
    &&& s.tlb.len() == TLB_SIZE
    &&& forall|i: int|
        0 <= i < TLB_SIZE && (#[trigger] s.tlb[i]).valid ==> faithful(
            s.mem,
            s.paging_mode(),
            s.cr3,
            s.tlb[i],
        )
}

/// The machine with its TLB switched off.
pub open spec fn without_tlb(s: State) -> State {
    State { diag: DiagView { no_tlb: true, ..s.diag }, ..s }
}

/// A flushed TLB is coherent.
pub proof fn law_a_flushed_tlb_is_coherent(s: State)
    requires
        s.tlb.len() == TLB_SIZE,
    ensures
        coherent(s.flushed()),
{
    reveal(State::flushed);
}

/// The TLB is coherent once new tables are in force: after a load of CR3 or
/// CR4, and once paging has been switched on or off.
pub proof fn law_new_tables_start_coherent(s: State, cr: u8, reg: u8)
    requires
        s.tlb.len() == TLB_SIZE,
        cr == 3 || cr == 4 || (cr == 0 && s.mov_to_cr(0, reg).paging() != s.paging()),
    ensures
        coherent(s.mov_to_cr(cr, reg)),
{
    reveal(State::mov_to_cr);
    reveal(State::write_cr0);
    reveal(State::flushed);
}

/// INVLPG keeps a coherent TLB coherent.
pub proof fn law_invlpg_keeps_the_tlb_coherent(s: State, linear: u64)
    requires
        coherent(s),
    ensures
        coherent(s.invlpg(linear)),
{
    reveal(State::invlpg);
    lemma_slot(s.trimmed(linear));
}

/// An address rounded down to its page lies in it.
proof fn lemma_page(linear: u64)
    ensures
        ((linear >> 12) << 12) >> 12 == linear >> 12,
{
    lemma_entries(linear, 0, 0, 0, 0, 0, 0);
}

/// Translating an address keeps a coherent TLB coherent, whatever the access
/// and however it ends.
pub proof fn law_translation_keeps_the_tlb_coherent(s: State, linear: u64, access: Access)
    requires
        coherent(s),
        regular(s.mem),
        rooted(s.paging_mode(), s.cr3),
    ensures
        coherent(s.paged(linear, access).0),
{
    reveal(State::paged);
    let l = s.trimmed(linear);
    let t = s.paged(linear, access).0;
    lemma_slot(l);
    lemma_page(l);
    let mode = s.paging_mode();
    if let Some(w) = walked(s.mem, mode, s.cr3, l) {
        law_pages_translate_whole(s.mem, mode, s.cr3, l, (l >> 12) << 12);
        assert forall|i: int| 0 <= i < TLB_SIZE && (#[trigger] t.tlb[i]).valid implies faithful(
            t.mem,
            t.paging_mode(),
            t.cr3,
            t.tlb[i],
        ) by {
            let page = t.tlb[i].vpage << 12;
            law_marks_change_no_translation(s.mem, mode, s.cr3, l, true, page);
            law_marks_change_no_translation(s.mem, mode, s.cr3, l, false, page);
        }
    }
}

/// What a coherent TLB answers with, a walk answers with as well.
proof fn lemma_answer(s: State, l: u64)
    requires
        coherent(s),
        s.tlb_hit(l),
    ensures
        walked(s.mem, s.paging_mode(), s.cr3, l) matches Some(w) && {
            let e = s.tlb[State::tlb_slot(l)];
            &&& w.phys == ((e.ppage << 12) | (l & 0xFFF)) as usize
            &&& w.writable == e.writable
            &&& w.user == e.user
            &&& w.no_exec == e.no_exec
        },
{
    let mode = s.paging_mode();
    lemma_slot(l);
    lemma_page(l);
    law_pages_translate_whole(s.mem, mode, s.cr3, l, (l >> 12) << 12);
    law_translation_keeps_the_offset(s.mem, mode, s.cr3, l);
    assert(faithful(s.mem, mode, s.cr3, s.tlb[State::tlb_slot(l)]));
    lemma_offsets(0, 0, l, walked(s.mem, mode, s.cr3, l)->0.phys);
}

/// A coherent TLB changes nothing but speed: an access goes to the same
/// physical address, or ends in the same fault, as one that walks the page
/// tables.
pub proof fn law_a_coherent_tlb_is_transparent(s: State, linear: u64, access: Access)
    requires
        coherent(s),
    ensures
        s.paged(linear, access).1 == without_tlb(s).paged(linear, access).1,
        s.paged(linear, access).0.pending_exception == without_tlb(s).paged(
            linear,
            access,
        ).0.pending_exception,
        s.paged(linear, access).0.cr2 == without_tlb(s).paged(linear, access).0.cr2,
{
    reveal(State::paged);
    let l = s.trimmed(linear);
    if s.tlb_hit(l) {
        lemma_answer(s, l);
    }
}

} // verus!
