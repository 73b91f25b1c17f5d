//! Laws of page-table walks: which entries a linear address goes through, and
//! where it ends, in arithmetic on the address.

use crate::laws::fields::{lemma_fields32, lemma_fields64};
use crate::memory::MemView;
use crate::paging::{translated, walked, walked_from, PagingMode, Walk};
use vstd::prelude::*;

verus! {

/// The 4-byte entry `i` of a table.
pub open spec fn entry4(mem: MemView, table: int, i: int) -> int {
    mem.read32(((table + 4 * i) % 0x1_0000_0000) as usize) as int
}

/// The two-level walk: directory entry `L / 4 MiB` of the table at CR3, then
/// table entry `L / 4 KiB mod 1024`, then the byte `L mod 4 KiB` of the page. A
/// directory entry with bit 7 set maps 4 MiB by itself. Where an entry on the
/// way lacks bit 0 there is no translation, and a page is writable (bit 1) or
/// open to user code (bit 2) where every entry on the way says so.
#[verifier::spinoff_prover]
pub proof fn law_two_level_walks(mem: MemView, cr3: u32, linear: u32)
    ensures
        ({
            let d = entry4(mem, cr3 as int, linear as int / 0x40_0000);
            let t = entry4(mem, d / 0x1000 * 0x1000, linear as int / 0x1000 % 1024);
            match translated(mem, cr3, linear) {
                Some(m) => {
                    &&& d % 2 == 1
                    &&& m.pde_addr == (cr3 + 4 * (linear as int / 0x40_0000)) % 0x1_0000_0000
                    &&& if d / 0x80 % 2 == 1 {
                        &&& m.phys == d / 0x40_0000 * 0x40_0000 + linear as int % 0x40_0000
                        &&& m.writable <==> d / 2 % 2 == 1
                        &&& m.user <==> d / 4 % 2 == 1
                        &&& m.pte_addr is None
                    } else {
                        &&& t % 2 == 1
                        &&& m.phys == t / 0x1000 * 0x1000 + linear as int % 0x1000
                        &&& m.writable <==> d / 2 % 2 == 1 && t / 2 % 2 == 1
                        &&& m.user <==> d / 4 % 2 == 1 && t / 4 % 2 == 1
                        &&& m.pte_addr == Some(
                            ((d / 0x1000 * 0x1000 + 4 * (linear as int / 0x1000 % 1024))
                                % 0x1_0000_0000) as usize,
                        )
                    }
                },
                None => d % 2 == 0 || (d / 0x80 % 2 == 0 && t % 2 == 0),
            }
        }),
{
    reveal(translated);
    lemma_fields32(0, linear);
    let at = crate::paging::pde_addr(cr3, linear);
    assert(at == (cr3 + 4 * (linear as int / 0x40_0000)) % 0x1_0000_0000);
    let pde = mem.read32(at);
    lemma_fields32(pde, linear);
    let at2 = crate::paging::pte_addr(pde, linear);
    assert(at2 == (pde as int / 0x1000 * 0x1000 + 4 * (linear as int / 0x1000 % 1024))
        % 0x1_0000_0000);
    lemma_fields32(mem.read32(at2), linear);
}

/// Distinct 4 MiB regions have distinct directory entries, and distinct pages
/// under one table have distinct table entries.
pub proof fn law_regions_have_their_own_entries(cr3: u32, pde: u32, a: u32, b: u32)
    ensures
        crate::paging::pde_addr(cr3, a) == crate::paging::pde_addr(cr3, b) <==> a / 0x40_0000 == b
            / 0x40_0000,
        crate::paging::pte_addr(pde, a) == crate::paging::pte_addr(pde, b) <==> a / 0x1000 % 1024
            == b / 0x1000 % 1024,
{
    lemma_fields32(0, a);
    lemma_fields32(0, b);
}

/// The 8-byte entry `i` of a table.
pub open spec fn entry8(mem: MemView, table: int, i: int) -> int {
    mem.read64((((table + 8 * i) % 0x1_0000_0000_0000_0000) as u64) as usize) as int
}

/// The page frame an 8-byte entry names: bits 12 to 51.
pub open spec fn frame8(entry: int) -> int {
    entry % 0x10_0000_0000_0000 / 0x1000 * 0x1000
}

/// The bytes that one entry of a level covers: 4 KiB, 2 MiB, 1 GiB, 512 GiB.
pub open spec fn reach_of(level: u64) -> int {
    if level == 1 {
        0x1000
    } else if level == 2 {
        0x20_0000
    } else if level == 3 {
        0x4000_0000
    } else {
        0x80_0000_0000
    }
}

/// The entry a linear address uses at a level of 8-byte tables.
pub open spec fn step8(mem: MemView, table: int, level: u64, linear: u64) -> int {
    entry8(mem, table, linear as int / reach_of(level) % 512)
}

/// One level of a walk of 8-byte tables: the entry is number `L / reach mod
/// 512` of the table; without bit 0 the walk fails; at the last level, or with
/// bit 7 at a level that may map a large page, the walk ends in the page the
/// entry names, at the offset of `L` in it; otherwise it goes on in the table
/// the entry names.
#[verifier::spinoff_prover]
pub proof fn law_each_level_is_a_step(
    mem: MemView,
    table: u64,
    level: u64,
    linear: u64,
    long: bool,
    sofar: Walk,
)
    requires
        1 <= level <= 4,
    ensures
        ({
            let e = step8(mem, table as int, level, linear);
            let r = walked_from(mem, table, level, linear, long, sofar);
            let large = e / 0x80 % 2 == 1 && (level == 2 || (level == 3 && long));
            if e % 2 == 0 {
                r is None
            } else if level == 1 || large {
                &&& r is Some
                &&& r->0.phys == ((e % 0x10_0000_0000_0000 / reach_of(level) * reach_of(level)
                    + linear as int % reach_of(level)) as u64) as usize
                &&& r->0.writable <==> sofar.writable && e / 2 % 2 == 1
                &&& r->0.user <==> sofar.user && e / 4 % 2 == 1
                &&& r->0.no_exec <==> sofar.no_exec || e >= 0x8000_0000_0000_0000
            } else {
                exists|on: Walk|
                    {
                        &&& #[trigger] walked_from(
                            mem,
                            frame8(e) as u64,
                            (level - 1) as u64,
                            linear,
                            long,
                            on,
                        ) == r
                        &&& on.writable <==> sofar.writable && e / 2 % 2 == 1
                        &&& on.user <==> sofar.user && e / 4 % 2 == 1
                        &&& on.no_exec <==> sofar.no_exec || e >= 0x8000_0000_0000_0000
                    }
            }
        }),
{
    lemma_fields64(0, linear);
    let at = crate::paging::entry_addr(table, level, linear);
    let i = linear as int / reach_of(level) % 512;
    assert((linear >> crate::paging::level_shift(level)) & 0x1FF == i);
    assert(table.wrapping_add((i * 8) as u64) == (table + 8 * i) % 0x1_0000_0000_0000_0000);
    let entry = mem.read64(at);
    assert(entry == step8(mem, table as int, level, linear));
    lemma_fields64(entry, linear);
    let here = Walk {
        writable: sofar.writable && entry & 2 != 0,
        user: sofar.user && entry & 4 != 0,
        no_exec: sofar.no_exec || entry & 0x8000_0000_0000_0000 != 0,
        ..sofar
    };
    let on = if level == 4 {
        Walk { upper4: Some(at), ..here }
    } else if level == 3 {
        Walk { upper3: Some(at), ..here }
    } else {
        Walk { upper2: Some(at), ..here }
    };
    let r = walked_from(mem, table, level, linear, long, sofar);
    if level != 1 && entry as int % 2 == 1 && !(entry as int / 0x80 % 2 == 1 && (level == 2 || (
    level == 3 && long))) {
        assert(walked_from(
            mem,
            frame8(entry as int) as u64,
            (level - 1) as u64,
            linear,
            long,
            on,
        ) == r);
    }
}

/// Three-level walks of 32-bit addresses start with entry `L / 1 GiB` of the
/// table at CR3, rounded down to 32 bytes; four-level walks with entry
/// `L / 512 GiB mod 512` of the page CR3 names. Every page is writable, open to
/// user code and executable as far as no entry has spoken.
pub proof fn law_walks_start_at_cr3(mem: MemView, cr3: u64, linear: u64)
    ensures
        exists|on: Walk|
            {
                &&& #[trigger] walked_from(
                    mem,
                    (cr3 as int % 0x1_0000_0000 / 32 * 32) as u64,
                    3,
                    (linear as int % 0x1_0000_0000) as u64,
                    false,
                    on,
                ) == walked(mem, PagingMode::Pae, cr3, linear)
                &&& on.writable && on.user && !on.no_exec
            },
        exists|on: Walk|
            {
                &&& #[trigger] walked_from(mem, frame8(cr3 as int) as u64, 4, linear, true, on)
                    == walked(mem, PagingMode::Long, cr3, linear)
                &&& on.writable && on.user && !on.no_exec
            },
{
    reveal(walked);
    lemma_fields64(cr3, 0);
    lemma_fields64(linear, 0);
    let on = crate::paging::fresh(true);
    assert(walked_from(
        mem,
        (cr3 as int % 0x1_0000_0000 / 32 * 32) as u64,
        3,
        (linear as int % 0x1_0000_0000) as u64,
        false,
        on,
    ) == walked(mem, PagingMode::Pae, cr3, linear));
    assert(walked_from(mem, frame8(cr3 as int) as u64, 4, linear, true, on) == walked(
        mem,
        PagingMode::Long,
        cr3,
        linear,
    ));
}

/// A four-level walk through present entries, none of them a large page's,
/// ends at byte `L mod 4 KiB` of the page that the fourth entry names.
pub proof fn law_four_level_walks(mem: MemView, cr3: u64, linear: u64)
    ensures
        ({
            let a = step8(mem, frame8(cr3 as int), 4, linear);
            let b = step8(mem, frame8(a), 3, linear);
            let c = step8(mem, frame8(b), 2, linear);
            let d = step8(mem, frame8(c), 1, linear);
            let r = walked(mem, PagingMode::Long, cr3, linear);
            &&& a % 2 == 1 && b % 2 == 1 && b / 0x80 % 2 == 0 && c % 2 == 1 && c / 0x80 % 2 == 0
                && d % 2 == 1 ==> {
                &&& r is Some
                &&& r->0.phys == ((frame8(d) + linear as int % 0x1000) as u64) as usize
                &&& r->0.writable <==> a / 2 % 2 == 1 && b / 2 % 2 == 1 && c / 2 % 2 == 1 && d / 2
                    % 2 == 1
                &&& r->0.user <==> a / 4 % 2 == 1 && b / 4 % 2 == 1 && c / 4 % 2 == 1 && d / 4 % 2
                    == 1
            }
            &&& a % 2 == 1 && b % 2 == 1 && b / 0x80 % 2 == 0 && c % 2 == 1 && c / 0x80 % 2 == 1
                ==> r is Some && r->0.phys == ((c % 0x10_0000_0000_0000 / 0x20_0000 * 0x20_0000
                + linear as int % 0x20_0000) as u64) as usize
            &&& a % 2 == 1 && b % 2 == 1 && b / 0x80 % 2 == 1 ==> r is Some && r->0.phys == ((b
                % 0x10_0000_0000_0000 / 0x4000_0000 * 0x4000_0000 + linear as int % 0x4000_0000)
                as u64) as usize
            &&& r is Some ==> a % 2 == 1 && b % 2 == 1 && (b / 0x80 % 2 == 1 || (c % 2 == 1 && (c
                / 0x80 % 2 == 1 || d % 2 == 1)))
        }),
{
    law_walks_start_at_cr3(mem, cr3, linear);
    let r = walked(mem, PagingMode::Long, cr3, linear);
    let t4 = frame8(cr3 as int) as u64;
    let w4 = choose|on: Walk|
        {
            &&& #[trigger] walked_from(mem, t4, 4, linear, true, on) == r
            &&& on.writable && on.user && !on.no_exec
        };
    lemma_descend(mem, t4, 4, linear, true, w4);
    let a = step8(mem, t4 as int, 4, linear);
    let b = step8(mem, frame8(a), 3, linear);
    let c = step8(mem, frame8(b), 2, linear);
    let d = step8(mem, frame8(c), 1, linear);
    if a % 2 == 1 {
        let w3 = below(mem, t4, 4, linear, true, w4);
        lemma_descend(mem, frame8(a) as u64, 3, linear, true, w3);
        if b % 2 == 1 && b / 0x80 % 2 == 0 {
            let w2 = below(mem, frame8(a) as u64, 3, linear, true, w3);
            lemma_descend(mem, frame8(b) as u64, 2, linear, true, w2);
            if c % 2 == 1 && c / 0x80 % 2 == 0 {
                let w1 = below(mem, frame8(b) as u64, 2, linear, true, w2);
                law_each_level_is_a_step(mem, frame8(c) as u64, 1, linear, true, w1);
            }
        }
    }
}

/// A three-level walk through present entries, the second of them not a large
/// page's, ends at byte `L mod 4 KiB` of the page that the third entry names.
pub proof fn law_three_level_walks(mem: MemView, cr3: u64, linear: u64)
    ensures
        ({
            let l = (linear as int % 0x1_0000_0000) as u64;
            let b = step8(mem, cr3 as int % 0x1_0000_0000 / 32 * 32, 3, l);
            let c = step8(mem, frame8(b), 2, l);
            let d = step8(mem, frame8(c), 1, l);
            let r = walked(mem, PagingMode::Pae, cr3, linear);
            &&& b % 2 == 1 && c % 2 == 1 && c / 0x80 % 2 == 0 && d % 2 == 1 ==> {
                &&& r is Some
                &&& r->0.phys == ((frame8(d) + l as int % 0x1000) as u64) as usize
                &&& r->0.writable <==> b / 2 % 2 == 1 && c / 2 % 2 == 1 && d / 2 % 2 == 1
                &&& r->0.user <==> b / 4 % 2 == 1 && c / 4 % 2 == 1 && d / 4 % 2 == 1
            }
            &&& b % 2 == 1 && c % 2 == 1 && c / 0x80 % 2 == 1 ==> r is Some && r->0.phys == ((c
                % 0x10_0000_0000_0000 / 0x20_0000 * 0x20_0000 + l as int % 0x20_0000) as u64)
                as usize
            &&& r is Some ==> b % 2 == 1 && c % 2 == 1 && (c / 0x80 % 2 == 1 || d % 2 == 1)
        }),
{
    law_walks_start_at_cr3(mem, cr3, linear);
    let l = (linear as int % 0x1_0000_0000) as u64;
    let r = walked(mem, PagingMode::Pae, cr3, linear);
    let t3 = (cr3 as int % 0x1_0000_0000 / 32 * 32) as u64;
    let w3 = choose|on: Walk|
        {
            &&& #[trigger] walked_from(mem, t3, 3, l, false, on) == r
            &&& on.writable && on.user && !on.no_exec
        };
    lemma_descend(mem, t3, 3, l, false, w3);
    let b = step8(mem, t3 as int, 3, l);
    let c = step8(mem, frame8(b), 2, l);
    if b % 2 == 1 {
        let w2 = below(mem, t3, 3, l, false, w3);
        lemma_descend(mem, frame8(b) as u64, 2, l, false, w2);
        if c % 2 == 1 && c / 0x80 % 2 == 0 {
            let w1 = below(mem, frame8(b) as u64, 2, l, false, w2);
            law_each_level_is_a_step(mem, frame8(c) as u64, 1, l, false, w1);
        }
    }
}

/// The state of a walk one level further down.
spec fn below(mem: MemView, table: u64, level: u64, linear: u64, long: bool, sofar: Walk) -> Walk {
    let e = step8(mem, table as int, level, linear);
    choose|on: Walk|
        {
            &&& #[trigger] walked_from(
                mem,
                frame8(e) as u64,
                (level - 1) as u64,
                linear,
                long,
                on,
            ) == walked_from(mem, table, level, linear, long, sofar)
            &&& on.writable <==> sofar.writable && e / 2 % 2 == 1
            &&& on.user <==> sofar.user && e / 4 % 2 == 1
            &&& on.no_exec <==> sofar.no_exec || e >= 0x8000_0000_0000_0000
        }
}

/// A walk that goes on goes on in the table its entry names.
proof fn lemma_descend(
    mem: MemView,
    table: u64,
    level: u64,
    linear: u64,
    long: bool,
    sofar: Walk,
)
    requires
        2 <= level <= 4,
    ensures
        ({
            let e = step8(mem, table as int, level, linear);
            let r = walked_from(mem, table, level, linear, long, sofar);
            let on = below(mem, table, level, linear, long, sofar);
            let large = e / 0x80 % 2 == 1 && (level == 2 || (level == 3 && long));
            &&& 0 <= frame8(e) <= u64::MAX
            &&& e % 2 == 0 ==> r is None
            &&& e % 2 == 1 && large ==> r is Some && r->0.phys == ((e % 0x10_0000_0000_0000
                / reach_of(level) * reach_of(level) + linear as int % reach_of(level)) as u64)
                as usize
            &&& e % 2 == 1 && !large ==> {
                &&& walked_from(mem, frame8(e) as u64, (level - 1) as u64, linear, long, on) == r
                &&& on.writable <==> sofar.writable && e / 2 % 2 == 1
                &&& on.user <==> sofar.user && e / 4 % 2 == 1
            }
        }),
{
    law_each_level_is_a_step(mem, table, level, linear, long, sofar);
}

} // verus!
