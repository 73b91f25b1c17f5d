//! Laws of the handover: what a kernel finds in memory when it starts.

use crate::boot::{clipped, ramdisk_addr, segments_loaded};
use crate::cpu::operand::bytes_of;
use crate::laws::boot::lemma_flat;
use crate::laws::images::{
    addressable, covers, field, header, header_count, law_file_fields_are_little_endian,
    law_segments_are_in_memory, lemma_load_within, lemma_outside, lemma_store_within,
    lemma_within, table_of, within,
};
use crate::laws::memory::{claimed, law_a_loaded_block_is_read_back, law_read_back, narrow};
use crate::memory::{e820_spec, E820Entry, MemView};
use crate::state::State;
use vstd::prelude::*;

verus! {

// ---- The parts of memory that a loader fills ----

proof fn lemma_three_stores(
    m: MemView,
    a: usize,
    b: usize,
    c: usize,
    x: u64,
    y: u64,
    z: u64,
    lo: int,
    hi: int,
)
    requires
        lo <= a && a + 8 <= hi,
        lo <= b && b + 8 <= hi,
        lo <= c && c + 8 <= hi,
        hi <= usize::MAX,
    ensures
        within(m, m.write64(a, x).write64(b, y).write64(c, z), lo, hi),
{
    let p = m.write64(a, x);
    let q = p.write64(b, y);
    lemma_store_within(m, a, 64, x, lo, hi);
    lemma_store_within(p, b, 64, y, lo, hi);
    lemma_store_within(q, c, 64, z, lo, hi);
    lemma_within(m, p, q, lo, hi);
    lemma_within(m, q, q.write64(c, z), lo, hi);
}

proof fn lemma_gdt(m: MemView)
    ensures
        within(m, m.gdt_written(), 0x1000, 0x1800),
        within(m, m.gdt64_written(), 0x1800, 0x2000),
{
    reveal(MemView::gdt_written);
    reveal(MemView::gdt64_written);
    lemma_three_stores(
        m,
        0x1000,
        0x1008,
        0x1010,
        0,
        0x00CF_9A00_0000_FFFF,
        0x00CF_9200_0000_FFFF,
        0x1000,
        0x1800,
    );
    lemma_three_stores(
        m,
        0x1800,
        0x1808,
        0x1810,
        0,
        0x00AF_9A00_0000_FFFF,
        0x00CF_9200_0000_FFFF,
        0x1800,
        0x2000,
    );
}

proof fn lemma_qwords(m: MemView, base: usize, s: Seq<u64>, lo: int, hi: int)
    requires
        lo <= base,
        base + s.len() * 8 <= hi,
        hi <= 0x10_0000,
    ensures
        within(m, m.qwords(base, s), lo, hi),
    decreases s.len(),
{
    if s.len() > 0 {
        let n = s.len() - 1;
        lemma_qwords(m, base, s.take(n), lo, hi);
        let before = m.qwords(base, s.take(n));
        lemma_store_within(before, (base + n * 8) as usize, 64, s[n], lo, hi);
        lemma_within(m, before, m.qwords(base, s), lo, hi);
    }
}

proof fn lemma_directories(m: MemView, g: int)
    requires
        0 <= g <= 4,
    ensures
        within(m, m.directories(g), 0x2000, 0x8000),
    decreases g,
{
    if g > 0 {
        lemma_directories(m, g - 1);
        let before = m.directories(g - 1);
        let base = (0x4000 + (g - 1) * 0x1000) as usize;
        lemma_qwords(before, base, crate::boot::directory(g - 1), 0x2000, 0x8000);
        lemma_within(m, before, m.directories(g), 0x2000, 0x8000);
    }
}

proof fn lemma_identity(m: MemView)
    ensures
        within(m, m.identity_mapped(), 0x2000, 0x8000),
{
    reveal(MemView::identity_mapped);
    let a = m.qwords(0x2000, crate::state::zeros(512));
    lemma_qwords(m, 0x2000, crate::state::zeros(512), 0x2000, 0x8000);
    let b = a.write64(0x2000, 0x3003);
    lemma_store_within(a, 0x2000, 64, 0x3003, 0x2000, 0x8000);
    lemma_within(m, a, b, 0x2000, 0x8000);
    let c = b.qwords(0x3000, crate::boot::pointer_table());
    lemma_qwords(b, 0x3000, crate::boot::pointer_table(), 0x2000, 0x8000);
    lemma_within(m, b, c, 0x2000, 0x8000);
    lemma_directories(c, 4);
    lemma_within(m, c, c.directories(4), 0x2000, 0x8000);
}

/// A store in low memory: read back, and nothing else between two addresses
/// touched.
proof fn lemma_low_store(m: MemView, a: usize, w: u32, v: u64, lo: int, hi: int)
    requires
        m.data.len() >= 0x10_0000,
        lo <= a,
        a + bytes_of(w) <= hi,
        hi <= 0xA_0000,
    ensures
        within(m, m.write_w(a, w, v), lo, hi),
        m.write_w(a, w, v).read_w(a, w) == narrow(v, w),
{
    lemma_store_within(m, a, w, v, lo, hi);
    law_read_back(m, a, w, v);
}

/// The console description: 80 columns and 25 lines of colour text.
proof fn lemma_screen(m: MemView)
    requires
        m.data.len() >= 0x10_0000,
    ensures
        within(m, m.screen_info_written(), 0x9_0000, 0x9_0040),
        m.screen_info_written().read8(0x9_0006) == 3,
        m.screen_info_written().read8(0x9_0007) == 80,
        m.screen_info_written().read8(0x9_000E) == 25,
        m.screen_info_written().read8(0x9_000F) == 0x22,
{
    reveal(MemView::screen_info_written);
    let (lo, hi) = (0x9_0000int, 0x9_0040int);
    let a = m.write8(0x9_0000, 0);
    lemma_low_store(m, 0x9_0000, 8, 0, lo, hi);
    let b = a.write8(0x9_0001, 0);
    lemma_low_store(a, 0x9_0001, 8, 0, lo, hi);
    lemma_within(m, a, b, lo, hi);
    let c = b.write16(0x9_0004, 0);
    lemma_low_store(b, 0x9_0004, 16, 0, lo, hi);
    lemma_within(m, b, c, lo, hi);
    let d = c.write8(0x9_0006, 3);
    lemma_low_store(c, 0x9_0006, 8, 3, lo, hi);
    lemma_within(m, c, d, lo, hi);
    let e = d.write8(0x9_0007, 80);
    lemma_low_store(d, 0x9_0007, 8, 80, lo, hi);
    lemma_low_store(d, 0x9_0007, 8, 80, 0x9_0007, 0x9_0008);
    lemma_within(m, d, e, lo, hi);
    let f = e.write16(0x9_000A, 3);
    lemma_low_store(e, 0x9_000A, 16, 3, lo, hi);
    lemma_low_store(e, 0x9_000A, 16, 3, 0x9_000A, 0x9_000C);
    lemma_within(m, e, f, lo, hi);
    let g = f.write8(0x9_000E, 25);
    lemma_low_store(f, 0x9_000E, 8, 25, lo, hi);
    lemma_low_store(f, 0x9_000E, 8, 25, 0x9_000E, 0x9_000F);
    lemma_within(m, f, g, lo, hi);
    let h = g.write8(0x9_000F, 0x22);
    lemma_low_store(g, 0x9_000F, 8, 0x22, lo, hi);
    lemma_low_store(g, 0x9_000F, 8, 0x22, 0x9_000F, 0x9_0010);
    lemma_within(m, g, h, lo, hi);
    let i = h.write16(0x9_0010, 16);
    lemma_low_store(h, 0x9_0010, 16, 16, lo, hi);
    lemma_low_store(h, 0x9_0010, 16, 16, 0x9_0010, 0x9_0012);
    lemma_within(m, h, i, lo, hi);
}

/// Where entry `i` of the memory map in `boot_params` is.
pub open spec fn map_entry(i: int) -> usize {
    (0x9_02D0 + 20 * i) as usize
}

/// Entry `i` of the memory map in `boot_params`: start, size and kind.
pub open spec fn entry_read(m: MemView, i: int) -> E820Entry {
    (
        m.read64(map_entry(i)),
        m.read64((map_entry(i) + 8) as usize),
        m.read32((map_entry(i) + 16) as usize),
    )
}

/// An entry is not touched by a change elsewhere.
proof fn lemma_entry_kept(x: MemView, y: MemView, lo: int, hi: int, i: int)
    requires
        0 <= i <= 6,
        within(x, y, lo, hi),
        map_entry(i) + 20 <= lo || hi <= map_entry(i),
    ensures
        entry_read(y, i) == entry_read(x, i),
{
    lemma_outside(x, y, lo, hi, map_entry(i), 64);
    lemma_outside(x, y, lo, hi, (map_entry(i) + 8) as usize, 64);
    lemma_outside(x, y, lo, hi, (map_entry(i) + 16) as usize, 32);
}

proof fn lemma_entries(m: MemView, map: Seq<E820Entry>, n: int, i: int)
    requires
        m.data.len() >= 0x10_0000,
        0 <= n <= 6,
    ensures
        within(m, m.e820_table(map, n), 0x9_02D0, 0x9_0350),
        0 <= i < n ==> entry_read(m.e820_table(map, n), i) == map[i],
    decreases n,
{
    if n > 0 {
        lemma_entries(m, map, n - 1, i);
        let before = m.e820_table(map, n - 1);
        let e = map_entry(n - 1);
        let (lo, hi) = (0x9_02D0int, 0x9_0350int);
        let a = before.write64(e, map[n - 1].0);
        let b = a.write64((e + 8) as usize, map[n - 1].1);
        let c = b.write32((e + 16) as usize, map[n - 1].2);
        lemma_low_store(before, e, 64, map[n - 1].0, lo, hi);
        lemma_low_store(a, (e + 8) as usize, 64, map[n - 1].1, lo, hi);
        lemma_low_store(b, (e + 16) as usize, 32, map[n - 1].2 as u64, lo, hi);
        lemma_low_store(before, e, 64, map[n - 1].0, e as int, e + 20);
        lemma_low_store(a, (e + 8) as usize, 64, map[n - 1].1, e + 8, e + 20);
        lemma_low_store(b, (e + 16) as usize, 32, map[n - 1].2 as u64, e + 16, e + 20);
        lemma_within(m, before, a, lo, hi);
        lemma_within(m, a, b, lo, hi);
        lemma_within(m, b, c, lo, hi);
        lemma_outside(a, b, e + 8, e + 20, e, 64);
        lemma_outside(b, c, e + 16, e + 20, e, 64);
        lemma_outside(b, c, e + 16, e + 20, (e + 8) as usize, 64);
        if 0 <= i < n - 1 {
            lemma_low_store(a, (e + 8) as usize, 64, map[n - 1].1, e as int, e + 20);
            lemma_low_store(b, (e + 16) as usize, 32, map[n - 1].2 as u64, e as int, e + 20);
            lemma_within(before, a, b, e as int, e + 20);
            lemma_within(before, b, c, e as int, e + 20);
            lemma_entry_kept(before, c, e as int, e + 20, i);
        }
    }
}

/// The memory map of the machine, in `boot_params`.
proof fn lemma_map(m: MemView, i: int)
    requires
        m.data.len() >= 0x10_0000,
        m.data.len() <= u64::MAX,
    ensures
        within(m, m.e820_written(), 0x9_01E0, 0x9_0350),
        ({
            let map = e820_spec(m.data.len() as u64);
            let t = m.e820_written();
            &&& t.read8(0x9_01E8) == map.len()
            &&& 0 <= i < map.len() ==> entry_read(t, i) == map[i]
        }),
{
    reveal(MemView::e820_written);
    let map = e820_spec(m.data.len() as u64);
    let n = map.len() as int;
    assert(n <= 6);
    lemma_entries(m, map, n, i);
    let a = m.e820_table(map, n);
    let (lo, hi) = (0x9_01E0int, 0x9_0350int);
    assert(within(m, a, lo, hi));
    let b = a.write8(0x9_01E8, n as u8);
    lemma_low_store(a, 0x9_01E8, 8, n as u64, 0x9_01E8, 0x9_01E9);
    assert(within(a, b, lo, hi));
    let v = crate::bios::extended_kb(b.data.len() as u64) as u32;
    let c = b.write32(0x9_01E0, v);
    lemma_low_store(b, 0x9_01E0, 32, v as u64, 0x9_01E0, 0x9_01E4);
    assert(within(b, c, lo, hi));
    lemma_within(m, a, b, lo, hi);
    lemma_within(m, b, c, lo, hi);
    lemma_outside(b, c, 0x9_01E0, 0x9_01E4, 0x9_01E8, 8);
    if 0 <= i < n {
        lemma_entry_kept(a, b, 0x9_01E8, 0x9_01E9, i);
        lemma_entry_kept(b, c, 0x9_01E0, 0x9_01E4, i);
    }
}

/// The command line, NUL-terminated.
pub open spec fn line_in(m: MemView, line: Seq<u8>) -> bool {
    let n = if line.len() < 1023 { line.len() as int } else { 1023 };
    &&& forall|j: int| 0 <= j < n ==> #[trigger] m.read8((0x2_0000 + j) as usize) == line[j]
    &&& m.read8((0x2_0000 + n) as usize) == 0
}

proof fn lemma_line(m: MemView, line: Seq<u8>)
    requires
        m.data.len() >= 0x10_0000,
    ensures
        within(m, m.cmdline_written(line), 0x2_0000, 0x2_0400),
        line_in(m.cmdline_written(line), line),
{
    reveal(MemView::cmdline_written);
    let c = clipped(line);
    let n = c.len() as int;
    let a = m.load(0x2_0000, c);
    let at = (0x2_0000 + n) as usize;
    let b = a.write8(at, 0);
    lemma_load_within(m, 0x2_0000, c, 0x2_0000, 0x2_0400);
    lemma_low_store(a, at, 8, 0, 0x2_0000, 0x2_0400);
    lemma_low_store(a, at, 8, 0, at as int, at + 1);
    lemma_within(m, a, b, 0x2_0000, 0x2_0400);
    assert forall|j: int| 0 <= j < n implies #[trigger] b.read8((0x2_0000 + j) as usize)
        == line[j] by {
        law_a_loaded_block_is_read_back(m, 0x2_0000, c, (0x2_0000 + j) as usize);
        assert(a.read8((0x2_0000 + j) as usize) == c[j]);
    }
}

/// A command line is not touched by a change elsewhere.
proof fn lemma_line_kept(x: MemView, y: MemView, lo: int, hi: int, line: Seq<u8>)
    requires
        within(x, y, lo, hi),
        line_in(x, line),
        hi <= 0x2_0000 || 0x2_0400 <= lo,
    ensures
        line_in(y, line),
{
    let n = if line.len() < 1023 { line.len() as int } else { 1023 };
    assert forall|j: int| 0 <= j < n implies #[trigger] y.read8((0x2_0000 + j) as usize)
        == line[j] by {
        assert(x.read8((0x2_0000 + j) as usize) == line[j]);
    }
}

/// What `boot_params` says about the command line and the loader.
proof fn lemma_loader(m: MemView)
    requires
        m.data.len() >= 0x10_0000,
    ensures
        within(m, m.loader_written(), 0x9_0210, 0x9_022C),
        within(m.write32(0x9_0228, 0x2_0000), m.loader_written(), 0x9_0210, 0x9_0211),
        within(m, m.write32(0x9_0228, 0x2_0000), 0x9_0228, 0x9_022C),
        m.loader_written().read32(0x9_0228) == 0x2_0000,
        m.loader_written().read8(0x9_0210) == 0xFF,
{
    reveal(MemView::loader_written);
    let a = m.write32(0x9_0228, 0x2_0000);
    lemma_low_store(m, 0x9_0228, 32, 0x2_0000, 0x9_0210, 0x9_022C);
    lemma_low_store(m, 0x9_0228, 32, 0x2_0000, 0x9_0228, 0x9_022C);
    lemma_low_store(a, 0x9_0210, 8, 0xFF, 0x9_0210, 0x9_022C);
    lemma_low_store(a, 0x9_0210, 8, 0xFF, 0x9_0210, 0x9_0211);
    lemma_within(m, a, m.loader_written(), 0x9_0210, 0x9_022C);
    lemma_outside(a, m.loader_written(), 0x9_0210, 0x9_0211, 0x9_0228, 32);
}

// ---- The handover of an ELF kernel ----

/// What an ELF kernel finds in `boot_params` and at the command line: the text
/// console, the machine's memory map, the command line and its address, and a
/// loader of no assigned number.
pub open spec fn params_in(m: MemView, ram: u64, line: Seq<u8>) -> bool {
    &&& m.read8(0x9_0006) == 3
    &&& m.read8(0x9_0007) == 80
    &&& m.read8(0x9_000E) == 25
    &&& m.read8(0x9_000F) == 0x22
    &&& m.read8(0x9_01E8) == e820_spec(ram).len()
    &&& forall|i: int| 0 <= i < e820_spec(ram).len() ==> #[trigger] entry_read(m, i) == e820_spec(ram)[i]
    &&& m.read8(0x9_0210) == 0xFF
    &&& m.read32(0x9_0228) == 0x2_0000
    &&& line_in(m, line)
}

/// They are not touched by a change elsewhere.
proof fn lemma_params_kept(x: MemView, y: MemView, lo: int, hi: int, ram: u64, line: Seq<u8>)
    requires
        within(x, y, lo, hi),
        params_in(x, ram, line),
        hi <= 0x2_0000 || 0x9_0350 <= lo || (0x9_0218 <= lo && hi <= 0x9_0220),
    ensures
        params_in(y, ram, line),
{
    lemma_line_kept(x, y, lo, hi, line);
    lemma_outside(x, y, lo, hi, 0x9_0228, 32);
    assert forall|i: int| 0 <= i < e820_spec(ram).len() implies #[trigger] entry_read(y, i)
        == e820_spec(ram)[i] by {
        assert(entry_read(x, i) == e820_spec(ram)[i]);
        lemma_entry_kept(x, y, lo, hi, i);
    }
}

#[verifier::spinoff_prover]
proof fn lemma_params(s: State, line: Seq<u8>)
    requires
        s.mem.data.len() >= 0x10_0000,
        s.mem.data.len() <= u64::MAX,
    ensures
        params_in(s.params_written(line).mem, s.mem.data.len() as u64, line),
        within(s.mem, s.params_written(line).mem, 0x2_0000, 0x9_0350),
        s.params_written(line) == (State { mem: s.params_written(line).mem, ..s }),
{
    reveal(State::params_written);
    let m = s.mem;
    let ram = m.data.len() as u64;
    let map = e820_spec(ram);
    let a = m.screen_info_written();
    let b = a.e820_written();
    let c = b.cmdline_written(line);
    let d = c.loader_written();
    lemma_screen(m);
    lemma_map(a, 0);
    lemma_line(b, line);
    lemma_loader(c);
    let (lo, hi) = (0x2_0000int, 0x9_0350int);
    assert(within(m, a, lo, hi) && within(a, b, lo, hi) && within(b, c, lo, hi) && within(
        c,
        d,
        lo,
        hi,
    ));
    lemma_within(m, a, b, lo, hi);
    lemma_within(m, b, c, lo, hi);
    lemma_within(m, c, d, lo, hi);
    lemma_line_kept(c, d, 0x9_0210, 0x9_022C, line);
    assert forall|i: int| 0 <= i < map.len() implies #[trigger] entry_read(d, i) == map[i] by {
        lemma_map(a, i);
        lemma_entry_kept(b, c, 0x2_0000, 0x2_0400, i);
        lemma_entry_kept(c, d, 0x9_0210, 0x9_022C, i);
    }
}

/// A ramdisk in memory: as high below the end of low RAM as a page boundary
/// allows, with its address and size in `boot_params`.
pub open spec fn ramdisk_in(m: MemView, disk: Seq<u8>) -> bool {
    let low = if m.data.len() < 0xC000_0000 { m.data.len() as int } else { 0xC000_0000 };
    let at = m.read32(0x9_0218) as int;
    &&& at % 0x1000 == 0
    &&& at + disk.len() <= low < at + disk.len() + 0x1000
    &&& m.read32(0x9_021C) == disk.len()
    &&& forall|j: int| 0 <= j < disk.len() ==> #[trigger] m.read8((at + j) as usize) == disk[j]
}

#[verifier::spinoff_prover]
proof fn lemma_ramdisk(s: State, disk: Seq<u8>)
    requires
        s.mem.data.len() >= 0x10_0000,
        s.ramdisk_placed(Some(disk)).1 is None,
        ramdisk_addr(s.mem.data.len() as int, disk.len() as int) >= 0x10_0000,
    ensures
        ({
            let t = s.ramdisk_placed(Some(disk)).0;
            let at = ramdisk_addr(s.mem.data.len() as int, disk.len() as int);
            let body = s.mem.load(at as usize, disk);
            &&& t == (State { mem: t.mem, ..s })
            &&& ramdisk_in(t.mem, disk)
            &&& t.mem.read32(0x9_0218) == at
            &&& within(s.mem, body, at, at + disk.len())
            &&& within(body, t.mem, 0x9_0218, 0x9_0220)
            &&& at + disk.len() <= 0xC000_0000
        }),
{
    reveal(State::ramdisk_placed);
    reveal(MemView::ramdisk_written);
    let m = s.mem;
    let len = disk.len() as int;
    let low = if m.data.len() < 0xC000_0000 { m.data.len() as int } else { 0xC000_0000 };
    let at = ramdisk_addr(m.data.len() as int, len);
    assert(at == (low - len) / 4096 * 4096);
    assert(at + len <= low < at + len + 0x1000);
    let a = m.load(at as usize, disk);
    lemma_load_within(m, at as usize, disk, at, at + len);
    let b = a.write32(0x9_0218, at as u32);
    lemma_low_store(a, 0x9_0218, 32, at as u64, 0x9_0218, 0x9_0220);
    let c = b.write32(0x9_021C, len as u32);
    lemma_low_store(b, 0x9_021C, 32, len as u64, 0x9_0218, 0x9_0220);
    lemma_low_store(b, 0x9_021C, 32, len as u64, 0x9_021C, 0x9_0220);
    lemma_within(a, b, c, 0x9_0218, 0x9_0220);
    lemma_outside(b, c, 0x9_021C, 0x9_0220, 0x9_0218, 32);
    assert forall|j: int| 0 <= j < len implies #[trigger] c.read8((at + j) as usize) == disk[j] by {
        law_a_loaded_block_is_read_back(m, at as usize, disk, (at + j) as usize);
        assert(a.read8((at + j) as usize) == disk[j]);
    }
}

/// A ramdisk is not touched by a change below 1 MiB that keeps its description.
proof fn lemma_ramdisk_kept(x: MemView, y: MemView, lo: int, hi: int, disk: Seq<u8>)
    requires
        within(x, y, lo, hi),
        ramdisk_in(x, disk),
        x.read32(0x9_0218) >= 0x10_0000,
        hi <= 0x9_0218 || (0x9_0220 <= lo && hi <= 0x10_0000),
        x.data.len() <= usize::MAX,
    ensures
        ramdisk_in(y, disk),
        y.read32(0x9_0218) == x.read32(0x9_0218),
{
    lemma_outside(x, y, lo, hi, 0x9_0218, 32);
    lemma_outside(x, y, lo, hi, 0x9_021C, 32);
    let at = x.read32(0x9_0218) as int;
    assert forall|j: int| 0 <= j < disk.len() implies #[trigger] y.read8((at + j) as usize)
        == disk[j] by {
        assert(x.read8((at + j) as usize) == disk[j]);
    }
}

/// Entering a mode writes the tables the mode needs and nothing else.
proof fn lemma_entered(s: State, entry: u64, stack: u64)
    requires
        s.seg_desc.len() == 6,
    ensures
        s.protected_entered().mem == s.mem.gdt_written(),
        s.long_entered(entry, stack).mem == s.mem.gdt64_written().identity_mapped(),
        s.long_entered(entry, stack).rip == entry,
{
    reveal(State::protected_entered);
    reveal(State::long_entered);
    reveal(State::long_enabled);
    reveal(State::flushed);
    let p = State {
        mem: s.mem.gdt_written(),
        gdt_base: crate::boot::GDT_ADDR as u64,
        gdt_limit: 24,
        pe: true,
        cr0: s.cr0 | 1,
        ..s
    };
    lemma_flat(p, crate::boot::KERNEL_CS, crate::boot::KERNEL_DS);
    lemma_flat(s.long_enabled(), crate::boot::KERNEL_CS64, crate::boot::KERNEL_DS64);
}

/// The ramdisk of a boot lies above 1 MiB.
pub open spec fn disk_fits(ram: int, disk: Option<Seq<u8>>) -> bool {
    match disk {
        Some(d) => ramdisk_addr(ram, d.len() as int) >= 0x10_0000,
        None => true,
    }
}

/// Is an address in the ramdisk?
pub open spec fn in_disk(ram: int, disk: Option<Seq<u8>>, b: int) -> bool {
    match disk {
        Some(d) => ramdisk_addr(ram, d.len() as int) <= b < ramdisk_addr(ram, d.len() as int)
            + d.len(),
        None => false,
    }
}

/// What placing a ramdisk, or none, changes.
proof fn lemma_disk(s: State, disk: Option<Seq<u8>>, b: usize)
    requires
        s.mem.data.len() >= 0x10_0000,
        s.ramdisk_placed(disk).1 is None,
        disk_fits(s.mem.data.len() as int, disk),
        b >= 0x10_0000,
        !in_disk(s.mem.data.len() as int, disk, b as int),
    ensures
        s.ramdisk_placed(disk).0.mem.read8(b) == s.mem.read8(b),
        s.ramdisk_placed(disk).0 == (State { mem: s.ramdisk_placed(disk).0.mem, ..s }),
        s.ramdisk_placed(disk).0.mem.data.len() == s.mem.data.len(),
{
    match disk {
        Some(d) => {
            lemma_ramdisk(s, d);
        },
        None => {
            reveal(State::ramdisk_placed);
        },
    }
}

/// A 64-bit ELF kernel finds itself in memory: of every loadable program header
/// of the file its bytes, and zeros up to its size, at the physical address the
/// header names, wherever neither a later segment nor the ramdisk lies. It starts
/// at the entry point of the file with RSI on `boot_params`.
#[verifier::spinoff_prover]
pub proof fn law_an_elf64_kernel_is_in_memory(
    s: State,
    elf: Seq<u8>,
    line: Seq<u8>,
    disk: Option<Seq<u8>>,
    i: int,
    b: usize,
)
    requires
        s.boot_elf64(elf, line, disk).1 is Ok,
        s.seg_desc.len() == 6,
        s.regs.len() == 16,
        0x10_0000 <= s.mem.data.len() <= u64::MAX,
        disk_fits(s.mem.data.len() as int, disk),
        0 <= i < header_count(elf, true),
        header(elf, true, i) is Some,
        covers(header(elf, true, i)->0, b as int),
        claimed(s.mem, b),
        b >= 0x10_0000,
        !in_disk(s.mem.data.len() as int, disk, b as int),
        forall|k: int|
            0 <= k < header_count(elf, true) ==> match #[trigger] header(elf, true, k) {
                Some(g) => addressable(g) && (k > i ==> !covers(g, b as int)),
                None => true,
            },
    ensures
        ({
            let (t, r) = s.boot_elf64(elf, line, disk);
            let g = header(elf, true, i)->0;
            &&& t.mem.read8(b) == if b < g.addr + g.in_file {
                elf[g.offset + (b - g.addr)]
            } else {
                0
            }
            &&& t.rip == field(elf, 24, 8)
            &&& r->Ok_0 == field(elf, 24, 8)
            &&& t.regs[6] == 0x9_0000
        }),
{
    reveal(State::boot_elf64);
    law_file_fields_are_little_endian(elf, 24);
    let (m, top, stop) = segments_loaded(s.mem, elf, table_of(elf, true)->Ok_0, 0, 0);
    law_segments_are_in_memory(s.mem, elf, true, 0, 0, i, b);
    let a = State { mem: m, ..s };
    lemma_params(a, line);
    let c = a.params_written(line);
    lemma_disk(c, disk, b);
    let d = c.ramdisk_placed(disk).0;
    let floor = if top > 0x10_0000 { top } else { 0x10_0000 };
    lemma_entered(d, crate::boot::le64_at(elf, 24), crate::boot::stack_above(floor, 0x10_0000));
    lemma_gdt(d.mem);
    lemma_identity(d.mem.gdt64_written());
    crate::laws::fields::lemma_fields8(6);
    lemma_regs_kept(d, crate::boot::le64_at(elf, 24), crate::boot::stack_above(floor, 0x10_0000));
}

proof fn lemma_regs_kept(s: State, entry: u64, stack: u64)
    requires
        s.seg_desc.len() == 6,
        s.regs.len() == 16,
    ensures
        s.long_entered(entry, stack).regs.len() == 16,
{
    reveal(State::long_entered);
    reveal(State::long_enabled);
    reveal(State::flushed);
    crate::laws::fields::lemma_fields8(4);
    lemma_flat(s.long_enabled(), crate::boot::KERNEL_CS64, crate::boot::KERNEL_DS64);
}

/// A 64-bit ELF kernel finds the console, the memory map, the command line and
/// the ramdisk described in `boot_params`, and the ramdisk where it says.
#[verifier::spinoff_prover]
pub proof fn law_an_elf64_kernel_finds_its_parameters(
    s: State,
    elf: Seq<u8>,
    line: Seq<u8>,
    disk: Option<Seq<u8>>,
)
    requires
        s.boot_elf64(elf, line, disk).1 is Ok,
        s.seg_desc.len() == 6,
        0x10_0000 <= s.mem.data.len() <= u64::MAX,
        s.mem.data.len() <= usize::MAX,
        disk_fits(s.mem.data.len() as int, disk),
        sizes_kept(s.mem, elf, true),
    ensures
        ({
            let t = s.boot_elf64(elf, line, disk).0;
            &&& params_in(t.mem, s.mem.data.len() as u64, line)
            &&& disk is Some ==> ramdisk_in(t.mem, disk->0)
        }),
{
    reveal(State::boot_elf64);
    let (m, top, stop) = segments_loaded(s.mem, elf, table_of(elf, true)->Ok_0, 0, 0);
    let ram = s.mem.data.len() as u64;
    let a = State { mem: m, ..s };
    crate::laws::images::lemma_sizes(s.mem, elf, true, 0, 0);
    lemma_params(a, line);
    let c = a.params_written(line);
    let d = c.ramdisk_placed(disk).0;
    match disk {
        Some(x) => {
            lemma_ramdisk(c, x);
            let at = ramdisk_addr(c.mem.data.len() as int, x.len() as int);
            let body = c.mem.load(at as usize, x);
            lemma_params_kept(c.mem, body, at, at + x.len(), ram, line);
            lemma_params_kept(body, d.mem, 0x9_0218, 0x9_0220, ram, line);
        },
        None => {
            reveal(State::ramdisk_placed);
        },
    }
    let floor = if top > 0x10_0000 { top } else { 0x10_0000 };
    lemma_entered(d, crate::boot::le64_at(elf, 24), crate::boot::stack_above(floor, 0x10_0000));
    let g = d.mem.gdt64_written();
    lemma_gdt(d.mem);
    lemma_identity(g);
    lemma_params_kept(d.mem, g, 0x1800, 0x2000, ram, line);
    lemma_params_kept(g, g.identity_mapped(), 0x2000, 0x8000, ram, line);
    if disk is Some {
        lemma_ramdisk_kept(d.mem, g, 0x1800, 0x2000, disk->0);
        lemma_ramdisk_kept(g, g.identity_mapped(), 0x2000, 0x8000, disk->0);
    }
}

/// Loading the segments keeps the size of memory: no segment's end is beyond
/// the last address.
pub open spec fn sizes_kept(m: MemView, elf: Seq<u8>, wide: bool) -> bool {
    forall|k: int|
        0 <= k < header_count(elf, wide) ==> match #[trigger] header(elf, wide, k) {
            Some(g) => addressable(g),
            None => true,
        }
}

/// A 32-bit ELF kernel finds itself in memory, in the same way, and starts at
/// the entry point of the file.
#[verifier::spinoff_prover]
pub proof fn law_an_elf32_kernel_is_in_memory(
    s: State,
    elf: Seq<u8>,
    line: Seq<u8>,
    disk: Option<Seq<u8>>,
    i: int,
    b: usize,
)
    requires
        s.boot_elf32(elf, line, disk).1 is Ok,
        s.seg_desc.len() == 6,
        0x10_0000 <= s.mem.data.len() <= u64::MAX,
        disk_fits(s.mem.data.len() as int, disk),
        0 <= i < header_count(elf, false),
        header(elf, false, i) is Some,
        covers(header(elf, false, i)->0, b as int),
        claimed(s.mem, b),
        b >= 0x10_0000,
        !in_disk(s.mem.data.len() as int, disk, b as int),
        forall|k: int|
            0 <= k < header_count(elf, false) ==> match #[trigger] header(elf, false, k) {
                Some(g) => addressable(g) && (k > i ==> !covers(g, b as int)),
                None => true,
            },
    ensures
        ({
            let (t, r) = s.boot_elf32(elf, line, disk);
            let g = header(elf, false, i)->0;
            &&& t.mem.read8(b) == if b < g.addr + g.in_file {
                elf[g.offset + (b - g.addr)]
            } else {
                0
            }
            &&& t.rip == field(elf, 24, 4)
            &&& r->Ok_0 == field(elf, 24, 4)
        }),
{
    reveal(State::boot_elf32);
    law_file_fields_are_little_endian(elf, 24);
    let m = segments_loaded(s.mem, elf, table_of(elf, false)->Ok_0, 0, 0).0;
    law_segments_are_in_memory(s.mem, elf, false, 0, 0, i, b);
    let a = State { mem: m, ..s };
    lemma_disk(a, disk, b);
    let c = a.ramdisk_placed(disk).0;
    lemma_params(c, line);
    lemma_entered(c.params_written(line), 0, 0);
    lemma_gdt(c.params_written(line).mem);
}

/// A 32-bit ELF kernel finds its parameters and its ramdisk, in the same way.
#[verifier::spinoff_prover]
pub proof fn law_an_elf32_kernel_finds_its_parameters(
    s: State,
    elf: Seq<u8>,
    line: Seq<u8>,
    disk: Option<Seq<u8>>,
)
    requires
        s.boot_elf32(elf, line, disk).1 is Ok,
        s.seg_desc.len() == 6,
        0x10_0000 <= s.mem.data.len() <= u64::MAX,
        s.mem.data.len() <= usize::MAX,
        disk_fits(s.mem.data.len() as int, disk),
        sizes_kept(s.mem, elf, false),
    ensures
        ({
            let t = s.boot_elf32(elf, line, disk).0;
            &&& params_in(t.mem, s.mem.data.len() as u64, line)
            &&& disk is Some ==> ramdisk_in(t.mem, disk->0)
        }),
{
    reveal(State::boot_elf32);
    let m = segments_loaded(s.mem, elf, table_of(elf, false)->Ok_0, 0, 0).0;
    let ram = s.mem.data.len() as u64;
    let a = State { mem: m, ..s };
    crate::laws::images::lemma_sizes(s.mem, elf, false, 0, 0);
    let c = a.ramdisk_placed(disk).0;
    match disk {
        Some(x) => {
            lemma_ramdisk(a, x);
        },
        None => {
            reveal(State::ramdisk_placed);
        },
    }
    lemma_params(c, line);
    let p = c.params_written(line);
    let g = p.mem.gdt_written();
    lemma_entered(p, 0, 0);
    lemma_gdt(p.mem);
    lemma_params_kept(p.mem, g, 0x1000, 0x1800, ram, line);
    if disk is Some {
        lemma_described(c, line, disk->0);
        lemma_ramdisk_kept(p.mem, g, 0x1000, 0x1800, disk->0);
    }
}

/// Filling in the other parameters keeps a ramdisk and its description.
#[verifier::spinoff_prover]
proof fn lemma_described(s: State, line: Seq<u8>, disk: Seq<u8>)
    requires
        0x10_0000 <= s.mem.data.len() <= u64::MAX,
        s.mem.data.len() <= usize::MAX,
        ramdisk_in(s.mem, disk),
        s.mem.read32(0x9_0218) >= 0x10_0000,
    ensures
        ramdisk_in(s.params_written(line).mem, disk),
        s.params_written(line).mem.read32(0x9_0218) == s.mem.read32(0x9_0218),
{
    reveal(State::params_written);
    reveal(MemView::e820_written);
    let m = s.mem;
    let a = m.screen_info_written();
    lemma_screen(m);
    lemma_ramdisk_kept(m, a, 0x9_0000, 0x9_0040, disk);
    let map = e820_spec(a.data.len() as u64);
    let n = map.len() as int;
    lemma_entries(a, map, n, 0);
    let t = a.e820_table(map, n);
    lemma_ramdisk_kept(a, t, 0x9_02D0, 0x9_0350, disk);
    let u = t.write8(0x9_01E8, n as u8);
    lemma_low_store(t, 0x9_01E8, 8, n as u64, 0x9_01E8, 0x9_01E9);
    lemma_ramdisk_kept(t, u, 0x9_01E8, 0x9_01E9, disk);
    let v = crate::bios::extended_kb(u.data.len() as u64) as u32;
    let b = u.write32(0x9_01E0, v);
    lemma_low_store(u, 0x9_01E0, 32, v as u64, 0x9_01E0, 0x9_01E4);
    lemma_ramdisk_kept(u, b, 0x9_01E0, 0x9_01E4, disk);
    assert(b == a.e820_written());
    let c = b.cmdline_written(line);
    lemma_line(b, line);
    lemma_ramdisk_kept(b, c, 0x2_0000, 0x2_0400, disk);
    lemma_loader(c);
    let d = c.write32(0x9_0228, 0x2_0000);
    lemma_ramdisk_kept(c, d, 0x9_0228, 0x9_022C, disk);
    lemma_ramdisk_kept(d, c.loader_written(), 0x9_0210, 0x9_0211, disk);
}

// ---- The handover of a bzImage ----

/// A bzImage's kernel is in memory at the address its header names: the bytes
/// that follow the setup sectors, as many as the header says in units of 16. The
/// rest of low memory holds the command line and the memory map, `boot_params`
/// a copy of the header, and the kernel starts at its address with ESI on
/// `boot_params`.
#[verifier::spinoff_prover]
pub proof fn law_a_bzimage_is_in_memory(
    s: State,
    image: Seq<u8>,
    line: Seq<u8>,
    b: usize,
    k: int,
)
    requires
        s.boot_bzimage(image, line).1 is Ok,
        s.seg_desc.len() == 6,
        0x10_0000 <= s.mem.data.len() <= u64::MAX,
        field(image, 0x214, 4) >= 0x10_0000,
        field(image, 0x214, 4) + field(image, 0x1F4, 4) * 16 <= usize::MAX,
        0x1F1 <= k < 0x2DD,
    ensures
        ({
            let t = s.boot_bzimage(image, line).0;
            let at = field(image, 0x214, 4);
            let skipped = (image[0x1F1] + 1) * 512;
            let n = field(image, 0x1F4, 4) * 16;
            let ram = s.mem.data.len() as u64;
            &&& at <= b < at + n && claimed(s.mem, b) ==> t.mem.read8(b) == image[skipped + (b
                - at)]
            &&& (k < 0x210 || 0x212 <= k < 0x214 || 0x218 <= k < 0x228 || 0x22C <= k < 0x2D0)
                ==> t.mem.read8((0x9_0000 + k) as usize) == image[k]
            &&& t.mem.read8(0x9_0210) == 0xFF
            &&& t.mem.read32(0x9_0228) == 0x2_0000
            &&& t.mem.read32(0x9_0214) == at
            &&& t.mem.read8(0x9_0211) == image[0x211] | 1
            &&& line_in(t.mem, line)
            &&& t.mem.read8(0x9_01E8) == e820_spec(ram).len()
            &&& forall|i: int| 0 <= i < e820_spec(ram).len() ==> #[trigger] entry_read(t.mem, i) == e820_spec(ram)[i]
            &&& t.rip == at
        }),
{
    reveal(State::kernel_loaded);
    law_file_fields_are_little_endian(image, 0x214);
    law_file_fields_are_little_endian(image, 0x1F4);
    let info = crate::boot::header_info(image);
    let at = field(image, 0x214, 4);
    let n = field(image, 0x1F4, 4) * 16;
    let off = info.kernel_offset as int;
    assert(off == (image[0x1F1] + 1) * 512);
    let body = image.subrange(off, off + info.kernel_len);
    let head = image.subrange(0x1F1, 0x2DD);
    let m = s.mem;
    let ram = m.data.len() as u64;
    let a = m.load(at as usize, body);
    lemma_load_within(m, at as usize, body, at, at + n);
    law_a_loaded_block_is_read_back(m, at as usize, body, b);
    let c = a.load(0x9_01F1, head);
    let kk = (0x9_0000 + k) as usize;
    lemma_load_within(a, 0x9_01F1, head, 0x9_01F1, 0x9_02DD);
    law_a_loaded_block_is_read_back(a, 0x9_01F1, head, kk);
    law_a_loaded_block_is_read_back(a, 0x9_01F1, head, 0x9_0211);
    let d = c.write8(0x9_0210, 0xFF);
    lemma_low_store(c, 0x9_0210, 8, 0xFF, 0x9_0210, 0x9_0211);
    let v = d.read8(0x9_0211) | 0x01;
    let e = d.write8(0x9_0211, v);
    lemma_low_store(d, 0x9_0211, 8, v as u64, 0x9_0211, 0x9_0212);
    let f = e.write32(0x9_0214, at as u32);
    lemma_low_store(e, 0x9_0214, 32, at as u64, 0x9_0214, 0x9_0218);
    let g = f.write32(0x9_0228, 0x2_0000);
    lemma_low_store(f, 0x9_0228, 32, 0x2_0000, 0x9_0228, 0x9_022C);
    lemma_outside(f, g, 0x9_0228, 0x9_022C, 0x9_0214, 32);
    let h = g.cmdline_written(line);
    lemma_line(g, line);
    lemma_outside(g, h, 0x2_0000, 0x2_0400, 0x9_0214, 32);
    lemma_outside(g, h, 0x2_0000, 0x2_0400, 0x9_0228, 32);
    let p = h.e820_written();
    lemma_map(h, 0);
    lemma_map_parts(h, line);
    assert(p == m.kernel_written(image, line));
    let q = p.gdt_written();
    lemma_gdt(p);
    lemma_outside(p, q, 0x1000, 0x1800, 0x9_0214, 32);
    lemma_outside(p, q, 0x1000, 0x1800, 0x9_0228, 32);
    lemma_line_kept(p, q, 0x1000, 0x1800, line);
    lemma_entered(State { mem: p, ..s }, 0, 0);
    assert forall|i: int| 0 <= i < e820_spec(ram).len() implies #[trigger] entry_read(q, i)
        == e820_spec(ram)[i] by {
        lemma_map(h, i);
        lemma_entry_kept(p, q, 0x1000, 0x1800, i);
    }
}

/// What writing the memory map leaves in place.
proof fn lemma_map_parts(m: MemView, line: Seq<u8>)
    requires
        0x10_0000 <= m.data.len() <= u64::MAX,
        line_in(m, line),
    ensures
        ({
            let t = m.e820_written();
            &&& line_in(t, line)
            &&& forall|b: usize|
                0x9_01E9 <= b < 0x9_02D0 ==> #[trigger] t.read8(b) == m.read8(b)
            &&& t.read32(0x9_0214) == m.read32(0x9_0214)
            &&& t.read32(0x9_0228) == m.read32(0x9_0228)
        }),
{
    reveal(MemView::e820_written);
    let map = e820_spec(m.data.len() as u64);
    let n = map.len() as int;
    lemma_entries(m, map, n, 0);
    let a = m.e820_table(map, n);
    let b = a.write8(0x9_01E8, n as u8);
    lemma_low_store(a, 0x9_01E8, 8, n as u64, 0x9_01E8, 0x9_01E9);
    let v = crate::bios::extended_kb(b.data.len() as u64) as u32;
    let c = b.write32(0x9_01E0, v);
    lemma_low_store(b, 0x9_01E0, 32, v as u64, 0x9_01E0, 0x9_01E4);
    lemma_line_kept(m, a, 0x9_02D0, 0x9_0350, line);
    lemma_line_kept(a, b, 0x9_01E8, 0x9_01E9, line);
    lemma_line_kept(b, c, 0x9_01E0, 0x9_01E4, line);
    assert forall|x: usize| 0x9_01E9 <= x < 0x9_02D0 implies #[trigger] c.read8(x) == m.read8(
        x,
    ) by {
        assert(a.read8(x) == m.read8(x));
        assert(b.read8(x) == a.read8(x));
    }
    lemma_outside(m, a, 0x9_02D0, 0x9_0350, 0x9_0214, 32);
    lemma_outside(a, b, 0x9_01E8, 0x9_01E9, 0x9_0214, 32);
    lemma_outside(b, c, 0x9_01E0, 0x9_01E4, 0x9_0214, 32);
    lemma_outside(m, a, 0x9_02D0, 0x9_0350, 0x9_0228, 32);
    lemma_outside(a, b, 0x9_01E8, 0x9_01E9, 0x9_0228, 32);
    lemma_outside(b, c, 0x9_01E0, 0x9_01E4, 0x9_0228, 32);
}

} // verus!
