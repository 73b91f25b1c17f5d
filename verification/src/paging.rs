//! Paging: the three page-table structures and their walks.
//!
//! When CR0.PG is set, the linear address produced by segment translation is
//! translated through page tables rooted at CR3. Which structure they have
//! depends on CR4.PAE and EFER.LMA:
//!
//! | PAE | LMA | structure | levels | entry | largest page |
//! |-----|-----|-----------|--------|-------|--------------|
//! | 0   | 0   | legacy    | 2      | 4 B   | 4 MiB        |
//! | 1   | 0   | PAE       | 3      | 8 B   | 2 MiB        |
//! | 1   | 1   | long      | 4      | 8 B   | 1 GiB        |
//!
//! The walk also reports the *permissions* of the mapping: a page's effective
//! R/W and U/S bits are the AND, and its no-execute bit the OR, of the bits at
//! every level, so a read-only directory makes every page under it read-only
//! however the page itself is marked.

use crate::memory::{MemView, Memory};
use vstd::prelude::*;

pub mod pte;

verus! {

/// The bits of an 8-byte entry (and of CR3) that name a physical page.
pub const FRAME_MASK: u64 = 0x000F_FFFF_FFFF_F000;

/// Which page-table structure translates linear addresses.
#[derive(Clone, Copy, Debug, PartialEq, Eq, Structural)]
pub enum PagingMode {
    /// Two levels of 4-byte entries.
    Legacy,
    /// Three levels of 8-byte entries under a 32-bit linear address.
    Pae,
    /// Four levels of 8-byte entries under a 48-bit linear address.
    Long,
}

/// The result of a successful walk of the legacy two-level tables.
#[derive(Clone, Copy, Debug, PartialEq, Eq, Structural)]
pub struct Mapping {
    /// Physical address the linear address maps to.
    pub phys: usize,
    /// True when the mapping permits writes (PDE.RW & PTE.RW).
    pub writable: bool,
    /// True when the mapping is reachable from user mode (PDE.US & PTE.US).
    pub user: bool,
    /// Physical address of the PDE, so the CPU can set its accessed bit.
    pub pde_addr: usize,
    /// Physical address of the PTE, or `None` for a 4 MiB page (where the
    /// PDE itself carries the accessed/dirty bits).
    pub pte_addr: Option<usize>,
}

/// The result of a successful walk of any of the structures.
#[derive(Clone, Copy, Debug, PartialEq, Eq, Structural)]
pub struct Walk {
    /// Physical address the linear address maps to.
    pub phys: usize,
    /// True when every level permits writes.
    pub writable: bool,
    /// True when every level is reachable from user mode.
    pub user: bool,
    /// True when some level forbids instruction fetches.
    pub no_exec: bool,
    /// True when entries are 8 bytes wide.
    pub wide: bool,
    /// Physical addresses of the entries above the last one, by level.
    pub upper4: Option<usize>,
    pub upper3: Option<usize>,
    pub upper2: Option<usize>,
    /// Physical address of the entry that maps the page.
    pub leaf: usize,
}

/// The page-directory entry of a linear address.
pub open spec fn pde_addr(cr3: u32, linear: u32) -> usize {
    cr3.wrapping_add((((linear >> 22) & 0x3FF) * 4) as u32) as usize
}

/// The page-table entry of a linear address, under a page-directory entry.
pub open spec fn pte_addr(pde: u32, linear: u32) -> usize {
    (pde & 0xFFFFF000).wrapping_add((((linear >> 12) & 0x3FF) * 4) as u32) as usize
}

/// Is a flag set in a 4-byte entry?
pub open spec fn has32(entry: u32, flag: u64) -> bool {
    entry & (flag as u32) != 0
}

/// What the legacy tables map a linear address to. The directory entry maps a
/// 4 MiB page itself when its PS bit is set.
#[verifier::opaque]
pub open spec fn translated(mem: MemView, cr3: u32, linear: u32) -> Option<Mapping> {
    let pde = mem.read32(pde_addr(cr3, linear));
    let entry = mem.read32(pte_addr(pde, linear));
    if !has32(pde, pte::P) {
        None
    } else if has32(pde, pte::PS) {
        Some(
            Mapping {
                phys: ((pde & 0xFFC0_0000) | (linear & 0x3F_FFFF)) as usize,
                writable: has32(pde, pte::RW),
                user: has32(pde, pte::US),
                pde_addr: pde_addr(cr3, linear),
                pte_addr: None,
            },
        )
    } else if !has32(entry, pte::P) {
        None
    } else {
        Some(
            Mapping {
                phys: ((entry & 0xFFFFF000) | (linear & 0xFFF)) as usize,
                writable: has32(pde, pte::RW) && has32(entry, pte::RW),
                user: has32(pde, pte::US) && has32(entry, pte::US),
                pde_addr: pde_addr(cr3, linear),
                pte_addr: Some(pte_addr(pde, linear)),
            },
        )
    }
}

/// The number of low address bits a level's entries each cover.
pub open spec fn level_shift(level: u64) -> u64 {
    (3 + 9 * level) as u64
}

/// The entry of a linear address in the table at `table`.
pub open spec fn entry_addr(table: u64, level: u64, linear: u64) -> usize {
    table.wrapping_add((((linear >> level_shift(level)) & 0x1FF) * 8) as u64) as usize
}

/// May an entry at this level map a large page? In PAE paging the top level
/// may not.
pub open spec fn can_map(level: u64, long: bool) -> bool {
    level == 1 || level == 2 || (level == 3 && long)
}

/// A walk of 8-byte tables from `level` down. `sofar` holds what the levels
/// above have contributed.
pub open spec fn walked_from(
    mem: MemView,
    table: u64,
    level: u64,
    linear: u64,
    long: bool,
    sofar: Walk,
) -> Option<Walk>
    decreases level,
{
    let at = entry_addr(table, level, linear);
    let entry = mem.read64(at);
    let here = Walk {
        writable: sofar.writable && entry & pte::RW != 0,
        user: sofar.user && entry & pte::US != 0,
        no_exec: sofar.no_exec || entry & pte::NX != 0,
        ..sofar
    };
    let low = ((1u64 << level_shift(level)) - 1) as u64;
    if level == 0 || level > 4 || entry & pte::P == 0 {
        None
    } else if level == 1 || (can_map(level, long) && entry & pte::PS != 0) {
        Some(
            Walk {
                phys: ((entry & FRAME_MASK & !low) | (linear & low)) as usize,
                leaf: at,
                ..here
            },
        )
    } else {
        let marked = if level == 4 {
            Walk { upper4: Some(at), ..here }
        } else if level == 3 {
            Walk { upper3: Some(at), ..here }
        } else {
            Walk { upper2: Some(at), ..here }
        };
        walked_from(mem, entry & FRAME_MASK, (level - 1) as u64, linear, long, marked)
    }
}

/// A walk that has not looked at any entry yet.
pub open spec fn fresh(wide: bool) -> Walk {
    Walk {
        phys: 0,
        writable: true,
        user: true,
        no_exec: false,
        wide,
        upper4: None,
        upper3: None,
        upper2: None,
        leaf: 0,
    }
}

/// A legacy mapping as a walk.
pub open spec fn walk_of(map: Mapping) -> Walk {
    let w = Walk { phys: map.phys, writable: map.writable, user: map.user, ..fresh(false) };
    match map.pte_addr {
        Some(a) => Walk { upper2: Some(map.pde_addr), leaf: a, ..w },
        None => Walk { leaf: map.pde_addr, ..w },
    }
}

/// What the tables rooted at `cr3` map a linear address to.
#[verifier::opaque]
pub open spec fn walked(mem: MemView, mode: PagingMode, cr3: u64, linear: u64) -> Option<Walk> {
    match mode {
        PagingMode::Legacy => match translated(mem, cr3 as u32, linear as u32) {
            Some(map) => Some(walk_of(map)),
            None => None,
        },
        PagingMode::Pae => walked_from(
            mem,
            cr3 & 0xFFFF_FFE0,
            3,
            linear & 0xFFFF_FFFF,
            false,
            fresh(true),
        ),
        PagingMode::Long => walked_from(mem, cr3 & FRAME_MASK, 4, linear, true, fresh(true)),
    }
}

/// An index into a page table stays inside it.
proof fn lemma_index(linear: u32)
    ensures
        (linear >> 22) & 0x3FF < 0x400,
        (linear >> 12) & 0x3FF < 0x400,
{
    lemma_indices(linear, 0, 0);
}

proof fn lemma_index_wide(linear: u64, shift: u64)
    requires
        shift < 64,
    ensures
        (linear >> shift) & 0x1FF < 0x200,
        (1u64 << shift) >= 1,
{
    lemma_indices(0, linear, shift);
}

proof fn lemma_indices(linear: u32, wide: u64, shift: u64)
    by (bit_vector)
    requires
        shift < 64,
    ensures
        (linear >> 22) & 0x3FF < 0x400,
        (linear >> 12) & 0x3FF < 0x400,
        (wide >> shift) & 0x1FF < 0x200,
        (1u64 << shift) >= 1,
{
}

/// Is a flag set in a 4-byte entry?
fn test32(entry: u32, flag: u64) -> (b: bool)
    ensures
        b == has32(entry, flag),
{
    entry & (flag as u32) != 0
}

/// Translate a linear address through the legacy page tables rooted at `cr3`,
/// reporting the mapping's permissions. Returns `None` if the page is not
/// present: the caller decides what kind of fault that is.
pub fn translate(mem: &Memory, cr3: u32, linear: u32) -> (r: Option<Mapping>)
    ensures
        r == translated(mem@, cr3, linear),
{
    proof {
        reveal(translated);
        lemma_index(linear);
    }
    let pd_index: u32 = (linear >> 22) & 0x3FF;
    let pt_index: u32 = (linear >> 12) & 0x3FF;
    let pde_addr: usize = Memory::phys32(cr3.wrapping_add(pd_index * 4));
    let pde: u32 = mem.read_u32(pde_addr);
    if !test32(pde, pte::P) {
        return None;
    }
    if test32(pde, pte::PS) {
        // 4 MiB page: base is PDE bits 31-22, offset is linear bits 21-0.
        return Some(
            Mapping {
                phys: Memory::phys32((pde & 0xFFC0_0000) | (linear & 0x3F_FFFF)),
                writable: test32(pde, pte::RW),
                user: test32(pde, pte::US),
                pde_addr,
                pte_addr: None,
            },
        );
    }
    let pte_addr: usize = Memory::phys32((pde & 0xFFFFF000).wrapping_add(pt_index * 4));
    let entry: u32 = mem.read_u32(pte_addr);
    if !test32(entry, pte::P) {
        return None;
    }
    Some(
        Mapping {
            // The effective permission is the AND of both levels: a read-only
            // PDE makes every page under it read-only however the PTE is
            // marked.
            phys: Memory::phys32((entry & 0xFFFFF000) | (linear & 0xFFF)),
            writable: test32(pde, pte::RW) && test32(entry, pte::RW),
            user: test32(pde, pte::US) && test32(entry, pte::US),
            pde_addr,
            pte_addr: Some(pte_addr),
        },
    )
}

/// Walk 8-byte tables from `level` down.
fn walk_from(mem: &Memory, table: u64, level: u64, linear: u64, long: bool, sofar: Walk) -> (r:
    Option<Walk>)
    requires
        1 <= level <= 4,
    ensures
        r == walked_from(mem@, table, level, linear, long, sofar),
    decreases level,
{
    let shift: u64 = 3 + 9 * level;
    proof {
        lemma_index_wide(linear, shift);
    }
    let at: usize = table.wrapping_add(((linear >> shift) & 0x1FF) * 8) as usize;
    let entry: u64 = mem.read_u64(at);
    if entry & pte::P == 0 {
        return None;
    }
    let mut here = sofar;
    here.writable = sofar.writable && entry & pte::RW != 0;
    here.user = sofar.user && entry & pte::US != 0;
    here.no_exec = sofar.no_exec || entry & pte::NX != 0;
    let maps = level == 1 || ((level == 2 || (level == 3 && long)) && entry & pte::PS != 0);
    if maps {
        let low: u64 = (1u64 << shift) - 1;
        here.phys = ((entry & FRAME_MASK & !low) | (linear & low)) as usize;
        here.leaf = at;
        return Some(here);
    }
    if level == 4 {
        here.upper4 = Some(at);
    } else if level == 3 {
        here.upper3 = Some(at);
    } else {
        here.upper2 = Some(at);
    }
    walk_from(mem, entry & FRAME_MASK, level - 1, linear, long, here)
}

/// Translate a linear address through whichever structure is in force.
/// Returns `None` if the page is not present at some level.
pub fn walk(mem: &Memory, mode: PagingMode, cr3: u64, linear: u64) -> (r: Option<Walk>)
    ensures
        r == walked(mem@, mode, cr3, linear),
{
    proof {
        reveal(walked);
    }
    let start = Walk {
        phys: 0,
        writable: true,
        user: true,
        no_exec: false,
        wide: true,
        upper4: None,
        upper3: None,
        upper2: None,
        leaf: 0,
    };
    match mode {
        PagingMode::Legacy => match translate(mem, cr3 as u32, linear as u32) {
            Some(map) => {
                let mut w = start;
                w.wide = false;
                w.phys = map.phys;
                w.writable = map.writable;
                w.user = map.user;
                match map.pte_addr {
                    Some(a) => {
                        w.upper2 = Some(map.pde_addr);
                        w.leaf = a;
                    },
                    None => {
                        w.leaf = map.pde_addr;
                    },
                }
                Some(w)
            },
            None => None,
        },
        PagingMode::Pae => walk_from(
            mem,
            cr3 & 0xFFFF_FFE0,
            3,
            linear & 0xFFFF_FFFF,
            false,
            start,
        ),
        PagingMode::Long => walk_from(mem, cr3 & FRAME_MASK, 4, linear, true, start),
    }
}

} // verus!
