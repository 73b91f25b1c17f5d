//! Laws of address translation: permissions, the TLB, the shape of 64-bit
//! addresses, and the switch into long mode.

use crate::boot::{PDPT_ADDR, PD_ADDR, PML4_ADDR};
use crate::cpu::address::Access;
use crate::cpu::{efer, CR0_PG, CR4_PAE, TLB_SIZE};
use crate::laws::memory::{lemma_other64, lemma_own64};
use crate::memory::{MemView, UNBACKED};
use crate::paging::{pte, PagingMode, Walk, FRAME_MASK};
use crate::state::State;
use vstd::prelude::*;

verus! {

// ---- Permissions ----

/// Does the walk of an 8-byte table end at an entry of this level?
pub open spec fn ends(entry: u64, level: u64, long: bool) -> bool {
    level == 1 || (crate::paging::can_map(level, long) && entry & pte::PS != 0)
}

/// A flag is set in every entry a walk passes through.
pub open spec fn all_levels(
    mem: MemView,
    table: u64,
    level: u64,
    linear: u64,
    long: bool,
    flag: u64,
) -> bool
    decreases level,
{
    let entry = mem.read64(crate::paging::entry_addr(table, level, linear));
    entry & flag != 0 && (level == 0 || ends(entry, level, long) || all_levels(
        mem,
        entry & FRAME_MASK,
        (level - 1) as u64,
        linear,
        long,
        flag,
    ))
}

/// A flag is set in some entry a walk passes through.
pub open spec fn some_level(
    mem: MemView,
    table: u64,
    level: u64,
    linear: u64,
    long: bool,
    flag: u64,
) -> bool
    decreases level,
{
    let entry = mem.read64(crate::paging::entry_addr(table, level, linear));
    entry & flag != 0 || (level != 0 && !ends(entry, level, long) && some_level(
        mem,
        entry & FRAME_MASK,
        (level - 1) as u64,
        linear,
        long,
        flag,
    ))
}

/// The effective permission is the combination of every level's: a page can be
/// written or reached from user mode only where every entry on the way allows
/// it, and cannot be executed where any entry forbids it.
pub proof fn law_permissions_combine(
    mem: MemView,
    table: u64,
    level: u64,
    linear: u64,
    long: bool,
    sofar: Walk,
)
    requires
        1 <= level <= 4,
        crate::paging::walked_from(mem, table, level, linear, long, sofar) is Some,
    ensures
        ({
            let w = crate::paging::walked_from(mem, table, level, linear, long, sofar)->0;
            &&& w.writable <==> sofar.writable && all_levels(
                mem,
                table,
                level,
                linear,
                long,
                pte::RW,
            )
            &&& w.user <==> sofar.user && all_levels(mem, table, level, linear, long, pte::US)
            &&& w.no_exec <==> sofar.no_exec || some_level(
                mem,
                table,
                level,
                linear,
                long,
                pte::NX,
            )
        }),
    decreases level,
{
    let at = crate::paging::entry_addr(table, level, linear);
    let entry = mem.read64(at);
    if !ends(entry, level, long) {
        let here = Walk {
            writable: sofar.writable && entry & pte::RW != 0,
            user: sofar.user && entry & pte::US != 0,
            no_exec: sofar.no_exec || entry & pte::NX != 0,
            ..sofar
        };
        let marked = if level == 4 {
            Walk { upper4: Some(at), ..here }
        } else if level == 3 {
            Walk { upper3: Some(at), ..here }
        } else {
            Walk { upper2: Some(at), ..here }
        };
        law_permissions_combine(
            mem,
            entry & FRAME_MASK,
            (level - 1) as u64,
            linear,
            long,
            marked,
        );
    }
}

/// User code reaches user pages only, whatever the access.
pub proof fn law_user_code_is_confined(s: State, writable: bool, no_exec: bool, access: Access)
    requires
        s.cpl() == 3,
    ensures
        !s.access_allowed(writable, false, no_exec, access),
        !s.access_allowed(false, true, no_exec, Access::Write),
{
}

/// No-execute refuses fetches only: a read of a no-execute page is permitted
/// wherever the page is reachable.
pub proof fn law_no_execute_stops_fetches_only(s: State, writable: bool, user: bool)
    ensures
        s.efer & efer::NXE != 0 ==> !s.access_allowed(writable, user, true, Access::Fetch),
        s.access_allowed(writable, user, true, Access::Read) == s.access_allowed(
            writable,
            user,
            false,
            Access::Read,
        ),
{
}

// ---- The TLB ----

/// A TLB slot is one of 256.
pub(crate) proof fn lemma_slot(linear: u64)
    ensures
        (linear >> 12) & 0xFF < 0x100,
{
    crate::bits::lemma_masks();
}

/// A flushed TLB answers for no address.
pub proof fn law_flush_forgets_everything(s: State, linear: u64)
    requires
        s.tlb.len() == TLB_SIZE,
    ensures
        !s.flushed().tlb_hit(linear),
{
    reveal(State::flushed);
    lemma_slot(linear);
}

/// INVLPG makes the TLB forget the page of the address it names, and leaves
/// the entries of other slots alone.
pub proof fn law_invlpg_forgets_the_page(s: State, linear: u64, other: u64)
    requires
        s.tlb.len() == TLB_SIZE,
    ensures
        !s.invlpg(linear).tlb_hit(s.trimmed(linear)),
        State::tlb_slot(other) != State::tlb_slot(s.trimmed(linear)) ==> s.invlpg(linear).tlb_hit(
            other,
        ) == s.tlb_hit(other),
{
    reveal(State::invlpg);
    lemma_slot(s.trimmed(linear));
    lemma_slot(other);
}

/// The low bits of translated addresses, and a page put together with an
/// offset.
pub(crate) proof fn lemma_offsets(e: u32, entry: u64, linear: u64, p: usize)
    by (bit_vector)
    ensures
        ((((e & 0xFFC0_0000) | ((linear as u32) & 0x3F_FFFF)) as usize) as u64) & 0xFFF == linear
            & 0xFFF,
        ((((e & 0xFFFF_F000) | ((linear as u32) & 0xFFF)) as usize) as u64) & 0xFFF == linear
            & 0xFFF,
        ((((entry & 0x000F_FFFF_FFFF_F000 & !0xFFFu64) | (linear & 0xFFF)) as usize) as u64) & 0xFFF
            == linear & 0xFFF,
        ((((entry & 0x000F_FFFF_FFFF_F000 & !0x1F_FFFFu64) | (linear & 0x1F_FFFF)) as usize) as u64)
            & 0xFFF == linear & 0xFFF,
        ((((entry & 0x000F_FFFF_FFFF_F000 & !0x3FFF_FFFFu64) | (linear & 0x3FFF_FFFF)) as usize)
            as u64) & 0xFFF == linear & 0xFFF,
        (p as u64) & 0xFFF == linear & 0xFFF ==> ((((p as u64) >> 12) << 12) | (linear & 0xFFF))
            as usize == p,
        (linear & 0xFFFF_FFFF) & 0xFFF == linear & 0xFFF,
        1u64 << 12u64 == 0x1000,
        1u64 << 21u64 == 0x20_0000,
        1u64 << 30u64 == 0x4000_0000,
{
}

/// A walk of 8-byte tables keeps the offset within the page.
proof fn lemma_wide_offset(
    mem: MemView,
    table: u64,
    level: u64,
    linear: u64,
    long: bool,
    sofar: Walk,
)
    requires
        1 <= level <= 4,
    ensures
        match crate::paging::walked_from(mem, table, level, linear, long, sofar) {
            Some(w) => (w.phys as u64) & 0xFFF == linear & 0xFFF,
            None => true,
        },
    decreases level,
{
    let at = crate::paging::entry_addr(table, level, linear);
    let entry = mem.read64(at);
    if ends(entry, level, long) {
        lemma_offsets(0, entry, linear, 0);
    } else {
        let here = Walk {
            writable: sofar.writable && entry & pte::RW != 0,
            user: sofar.user && entry & pte::US != 0,
            no_exec: sofar.no_exec || entry & pte::NX != 0,
            ..sofar
        };
        let marked = if level == 4 {
            Walk { upper4: Some(at), ..here }
        } else if level == 3 {
            Walk { upper3: Some(at), ..here }
        } else {
            Walk { upper2: Some(at), ..here }
        };
        lemma_wide_offset(mem, entry & FRAME_MASK, (level - 1) as u64, linear, long, marked);
    }
}

/// Translation works on whole pages: the offset within the page comes through
/// unchanged, whatever the structure and the page size.
pub proof fn law_translation_keeps_the_offset(
    mem: MemView,
    mode: PagingMode,
    cr3: u64,
    linear: u64,
)
    ensures
        match crate::paging::walked(mem, mode, cr3, linear) {
            Some(w) => (w.phys as u64) & 0xFFF == linear & 0xFFF,
            None => true,
        },
{
    reveal(crate::paging::walked);
    reveal(crate::paging::translated);
    let low = linear & 0xFFFF_FFFF;
    match mode {
        PagingMode::Legacy => {
            let pde = mem.read32(crate::paging::pde_addr(cr3 as u32, linear as u32));
            let entry = mem.read32(crate::paging::pte_addr(pde, linear as u32));
            lemma_offsets(pde, 0, linear, 0);
            lemma_offsets(entry, 0, linear, 0);
        },
        PagingMode::Pae => {
            lemma_wide_offset(
                mem,
                cr3 & 0xFFFF_FFE0,
                3,
                low,
                false,
                crate::paging::fresh(true),
            );
            lemma_offsets(0, 0, linear, 0);
        },
        PagingMode::Long => {
            lemma_wide_offset(mem, cr3 & FRAME_MASK, 4, linear, true, crate::paging::fresh(true));
        },
    }
}

/// A write that was permitted implies that a read is.
pub proof fn law_writers_may_read(s: State, writable: bool, user: bool, no_exec: bool)
    requires
        s.access_allowed(writable, user, no_exec, Access::Write),
    ensures
        s.access_allowed(writable, user, no_exec, Access::Read),
{
}

/// The TLB does not change what an address translates to: once an access has
/// gone through, a read of the same address goes through at once, to the same
/// physical address, for as long as its TLB entry stays and whatever becomes
/// of memory meanwhile.
pub proof fn law_translation_is_remembered(s: State, linear: u64, access: Access, later: State)
    requires
        s.tlb.len() == TLB_SIZE,
        access != Access::Fetch,
        !s.paged(linear, access).0.faulted(),
        later.cr0 == s.cr0,
        later.efer == s.efer,
        later.cpl() == s.cpl(),
        !later.diag.no_tlb || !later.paging(),
        later.tlb[State::tlb_slot(s.trimmed(linear))] == s.paged(
            linear,
            access,
        ).0.tlb[State::tlb_slot(s.trimmed(linear))],
    ensures
        later.paged(linear, Access::Read) == (later, s.paged(linear, access).1),
{
    reveal(State::paged);
    let l = s.trimmed(linear);
    let (t, phys) = s.paged(linear, access);
    lemma_slot(l);
    law_translation_keeps_the_offset(s.mem, s.paging_mode(), s.cr3, l);
    lemma_offsets(0, 0, l, phys);
}

// ---- Long mode ----

/// In long mode a non-canonical address is a general protection fault, and the
/// page tables are not consulted at all: memory and the TLB stay as they are.
pub proof fn law_non_canonical_is_refused(s: State, linear: u64, access: Access)
    requires
        s.paging(),
        s.long_mode(),
        !crate::cpu::address::canonical(linear),
        !s.faulted(),
    ensures
        ({
            let (t, phys) = s.paged(linear, access);
            &&& t == (State { pending_exception: Some((0x0Du8, Some(0u32))), ..s })
            &&& phys == UNBACKED
        }),
{
    reveal(State::paged);
}

/// The long-mode-active bit set, cleared, and kept.
proof fn lemma_lma(e: u64, v: u64)
    by (bit_vector)
    ensures
        (e | 0x400) & 0x400 != 0,
        (e & !0x400) & 0x400 == 0,
        ((v & !0x400) | (e & 0x400)) & 0x400 == e & 0x400,
        ((v & !0x400) | (e & 0x400)) & !0x400 == v & !0x400,
{
}

/// LMA is the CPU's to set: after a CR0 write long mode is active exactly when
/// it has been asked for, PAE is on and paging is on.
pub proof fn law_long_mode_follows_paging(s: State, v: u32)
    ensures
        s.write_cr0(v).long_mode() <==> s.efer & efer::LME != 0 && v & CR0_PG != 0 && s.cr4
            & CR4_PAE != 0,
{
    reveal(State::write_cr0);
    reveal(State::flushed);
    lemma_lma(s.efer, 0);
}

/// Software cannot write LMA through the EFER register; every other bit takes
/// the value written.
pub proof fn law_software_cannot_set_lma(s: State, v: u64)
    ensures
        s.write_msr(crate::cpu::msr::EFER, v).efer & efer::LMA == s.efer & efer::LMA,
        s.write_msr(crate::cpu::msr::EFER, v).efer & !efer::LMA == v & !efer::LMA,
{
    reveal(State::write_msr);
    lemma_lma(s.efer, v);
}

// ---- The identity map ----

/// A table of quad words is where it was written, and nothing else moved.
proof fn lemma_table(m: MemView, base: usize, s: Seq<u64>, i: int, b: usize)
    requires
        base + s.len() * 8 <= 0x9_0000,
        m.data.len() >= 0x10_0000,
        b + 8 <= 0x9_0000,
    ensures
        m.qwords(base, s).data.len() == m.data.len(),
        0 <= i < s.len() ==> m.qwords(base, s).read64((base + i * 8) as usize) == s[i],
        b + 8 <= base || base + s.len() * 8 <= b ==> m.qwords(base, s).read64(b) == m.read64(b),
    decreases s.len(),
{
    if s.len() > 0 {
        let n = s.len() - 1;
        lemma_table(m, base, s.take(n), i, b);
        let before = m.qwords(base, s.take(n));
        let at = (base + n * 8) as usize;
        lemma_own64(before, at, s[n]);
        if 0 <= i < n {
            lemma_other64(before, at, s[n], (base + i * 8) as usize);
        }
        if b + 8 <= base || base + s.len() * 8 <= b {
            lemma_other64(before, at, s[n], b);
        }
    }
}

/// The page directories of the identity map are where they were written.
proof fn lemma_directories(m: MemView, n: int, g: int, i: int, b: usize)
    requires
        0 <= n <= 4,
        m.data.len() >= 0x10_0000,
        b + 8 <= PD_ADDR,
    ensures
        m.directories(n).data.len() == m.data.len(),
        0 <= g < n && 0 <= i < 512 ==> m.directories(n).read64(
            (PD_ADDR + g * 0x1000 + i * 8) as usize,
        ) == crate::boot::directory(g)[i],
        m.directories(n).read64(b) == m.read64(b),
    decreases n,
{
    if n > 0 {
        lemma_directories(m, n - 1, g, i, b);
        let before = m.directories(n - 1);
        let base = (PD_ADDR + (n - 1) * 0x1000) as usize;
        lemma_table(before, base, crate::boot::directory(n - 1), i, b);
        if 0 <= g < n - 1 && 0 <= i < 512 {
            lemma_table(
                before,
                base,
                crate::boot::directory(n - 1),
                i,
                (PD_ADDR + g * 0x1000 + i * 8) as usize,
            );
        }
    }
}

/// Building the identity map leaves memory below its tables alone.
pub(crate) proof fn lemma_map_elsewhere(m: MemView, b: usize)
    requires
        m.data.len() >= 0x10_0000,
        b + 8 <= PML4_ADDR,
    ensures
        m.identity_mapped().read64(b) == m.read64(b),
        m.identity_mapped().data.len() == m.data.len(),
{
    reveal(MemView::identity_mapped);
    let root = PML4_ADDR as usize;
    let zeros = crate::state::zeros(512);
    let cleared = m.qwords(root, zeros);
    lemma_table(m, root, zeros, 0, b);
    let rooted = cleared.write64(root, 0x3003);
    lemma_other64(cleared, root, 0x3003, b);
    let pointed = rooted.qwords(PDPT_ADDR as usize, crate::boot::pointer_table());
    lemma_table(rooted, PDPT_ADDR as usize, crate::boot::pointer_table(), 0, b);
    lemma_directories(pointed, 4, 0, 0, b);
}

/// The indices of a low address in the identity map, and what its entries say.
proof fn lemma_identity_bits(linear: u64, g: u64, i: u64)
    by (bit_vector)
    requires
        linear < 0x1_0000_0000,
        g == (linear >> 30) & 0x1FF,
        i == (linear >> 21) & 0x1FF,
    ensures
        (linear >> 39) & 0x1FF == 0,
        g < 4,
        i < 512,
        0x3003u64 & 0x000F_FFFF_FFFF_F000 == 0x3000,
        0x3003u64 & 1 != 0,
        0x3003u64 & 2 != 0,
        0x3003u64 & 0x8000_0000_0000_0000 == 0,
        0x2000u64 & 0x000F_FFFF_FFFF_F000 == 0x2000,
        ({
            let e = ((0x4000 + g * 0x1000) as u64) | 3;
            &&& e & 0x000F_FFFF_FFFF_F000 == 0x4000 + g * 0x1000
            &&& e & 1 != 0
            &&& e & 2 != 0
            &&& e & 0x80 == 0
            &&& e & 0x8000_0000_0000_0000 == 0
        }),
        ({
            let e = ((g * 0x4000_0000 + i * 0x20_0000) as u64) | 3 | 0x80;
            &&& e & 1 != 0
            &&& e & 2 != 0
            &&& e & 0x80 != 0
            &&& e & 0x8000_0000_0000_0000 == 0
            &&& (e & 0x000F_FFFF_FFFF_F000 & !0x1F_FFFFu64) | (linear & 0x1F_FFFF) == linear
        }),
        1u64 << 21u64 == 0x20_0000,
{
}

/// The tables long mode is entered with map every address of the low 4 GiB to
/// itself, present, writable and executable.
pub proof fn law_low_memory_is_mapped_to_itself(m: MemView, linear: u64)
    requires
        m.data.len() >= 0x10_0000,
        linear < crate::boot::IDENTITY_MAP_BYTES,
    ensures
        match crate::paging::walked(
            m.identity_mapped(),
            PagingMode::Long,
            PML4_ADDR as u64,
            linear,
        ) {
            Some(w) => w.phys == linear && w.writable && !w.no_exec,
            None => false,
        },
{
    reveal(MemView::identity_mapped);
    reveal(crate::paging::walked);
    reveal_with_fuel(crate::paging::walked_from, 3);
    let g = (linear >> 30) & 0x1FF;
    let i = (linear >> 21) & 0x1FF;
    lemma_identity_bits(linear, g, i);
    let root = PML4_ADDR as usize;
    let table = PDPT_ADDR as usize;
    let zeros = crate::state::zeros(512);
    let cleared = m.qwords(root, zeros);
    lemma_table(m, root, zeros, 0, root);
    let rooted = cleared.write64(root, 0x3003);
    lemma_own64(cleared, root, 0x3003);
    let pointed = rooted.qwords(table, crate::boot::pointer_table());
    lemma_table(rooted, table, crate::boot::pointer_table(), g as int, root);
    let pointer = (table + g * 8) as usize;
    lemma_directories(pointed, 4, g as int, i as int, root);
    lemma_directories(pointed, 4, g as int, i as int, pointer);
    let mem = m.identity_mapped();
    assert(mem.read64(root) == 0x3003);
    assert(mem.read64(pointer) == ((PD_ADDR + g * 0x1000) as u64) | 3);
    assert(crate::paging::entry_addr(PML4_ADDR as u64, 4, linear) == root);
    assert(crate::paging::entry_addr(PDPT_ADDR as u64, 3, linear) == pointer);
    let dir = (PD_ADDR + g * 0x1000) as u64;
    let leaf = (dir + i * 8) as usize;
    assert(crate::paging::entry_addr(dir, 2, linear) == leaf);
    assert(mem.read64(leaf) == ((g * 0x4000_0000 + i * 0x20_0000) as u64) | 3 | pte::PS);
}

} // verus!
