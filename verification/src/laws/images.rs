//! Laws of loading: what is in memory when a kernel starts, byte for byte, from
//! the bytes of the files it was loaded from.

use crate::boot::{elf32_table, elf64_table, segments_loaded, BootError, HeaderTable, Segment};
use crate::cpu::operand::bytes_of;
use crate::laws::fields::lemma_joined;
use crate::laws::memory::{claimed, law_a_loaded_block_is_read_back, lemma_alike, lemma_kept};
use crate::memory::MemView;
use vstd::prelude::*;

verus! {

/// The little-endian number of the `n` bytes at an offset of a file, for `n` up
/// to eight.
pub open spec fn field(file: Seq<u8>, off: int, n: int) -> int {
    let b = |i: int| if i < n { file[off + i] as int } else { 0 };
    b(0) + 0x100 * b(1) + 0x1_0000 * b(2) + 0x100_0000 * b(3) + 0x1_0000_0000 * b(4)
        + 0x100_0000_0000 * b(5) + 0x1_0000_0000_0000 * b(6) + 0x100_0000_0000_0000 * b(7)
}

/// The numbers in a file are little-endian.
pub proof fn law_file_fields_are_little_endian(file: Seq<u8>, off: int)
    ensures
        crate::boot::le16_at(file, off) == field(file, off, 2),
        crate::boot::le32_at(file, off) == field(file, off, 4),
        crate::boot::le64_at(file, off) == field(file, off, 8),
{
    let f = |i: int| file[off + i];
    lemma_joined(
        f(0),
        f(1),
        f(2),
        f(3),
        crate::boot::le32_at(file, off),
        crate::boot::le32_at(file, off + 4),
        0,
        0,
    );
    lemma_joined(f(4), f(5), f(6), f(7), 0, 0, 0, 0);
}

// ---- Which bytes a change of memory touches ----

/// Memory changed at most between two addresses.
pub open spec fn within(x: MemView, y: MemView, lo: int, hi: int) -> bool {
    &&& y.data.len() == x.data.len()
    &&& y.vga.len() == x.vga.len()
    &&& forall|b: usize| b < lo || b >= hi ==> #[trigger] y.read8(b) == x.read8(b)
}

/// One change after another.
pub(crate) proof fn lemma_within(x: MemView, y: MemView, z: MemView, lo: int, hi: int)
    requires
        within(x, y, lo, hi),
        within(y, z, lo, hi),
    ensures
        within(x, z, lo, hi),
{
    assert forall|b: usize| b < lo || b >= hi implies #[trigger] z.read8(b) == x.read8(b) by {
        assert(y.read8(b) == x.read8(b));
    }
}

/// A store changes its own bytes.
pub(crate) proof fn lemma_store_within(m: MemView, a: usize, w: u32, v: u64, lo: int, hi: int)
    requires
        lo <= a,
        a + bytes_of(w) <= hi,
        hi <= usize::MAX,
    ensures
        within(m, m.write_w(a, w, v), lo, hi),
{
    lemma_kept(m, a, w, v, a);
    assert forall|b: usize| b < lo || b >= hi implies #[trigger] m.write_w(a, w, v).read8(b)
        == m.read8(b) by {
        lemma_kept(m, a, w, v, b);
    }
}

/// A loaded block changes its own bytes.
pub(crate) proof fn lemma_load_within(m: MemView, a: usize, bytes: Seq<u8>, lo: int, hi: int)
    requires
        lo <= a,
        a + bytes.len() <= hi,
        hi <= usize::MAX,
    ensures
        within(m, m.load(a, bytes), lo, hi),
{
    law_a_loaded_block_is_read_back(m, a, bytes, a);
    assert forall|b: usize| b < lo || b >= hi implies #[trigger] m.load(a, bytes).read8(b)
        == m.read8(b) by {
        law_a_loaded_block_is_read_back(m, a, bytes, b);
    }
}

/// A value outside a change is as it was.
pub(crate) proof fn lemma_outside(x: MemView, y: MemView, lo: int, hi: int, a: usize, w: u32)
    requires
        within(x, y, lo, hi),
        a + bytes_of(w) <= lo || hi <= a,
        a + bytes_of(w) <= usize::MAX,
    ensures
        y.read_w(a, w) == x.read_w(a, w),
{
    lemma_alike(y, x, a, w);
}

/// Cleared bytes are zero, and nothing else has changed.
proof fn lemma_cleared(m: MemView, addr: usize, from: int, n: int, b: usize)
    requires
        0 <= from,
        addr + n <= usize::MAX,
    ensures
        ({
            let t = m.cleared(addr, from, n);
            &&& t.data.len() == m.data.len()
            &&& t.vga.len() == m.vga.len()
            &&& t.read8(b) == if addr + from <= b < addr + n && claimed(m, b) {
                0
            } else {
                m.read8(b)
            }
        }),
    decreases n - from,
{
    if n > from {
        lemma_cleared(m, addr, from, n - 1, b);
        let before = m.cleared(addr, from, n - 1);
        let at = addr.wrapping_add((n - 1) as usize);
        assert(at == addr + n - 1);
        crate::laws::memory::lemma_write8(before, at, 0, b);
    }
}

// ---- The segments of an ELF ----

/// A loadable segment: where it is in the file and in memory.
pub struct Placed {
    pub offset: int,
    pub addr: int,
    pub in_file: int,
    pub in_memory: int,
}

/// The segment that program header `i` of an ELF describes, if it is loadable:
/// the header is the one at byte `e_phoff + i * e_phentsize` of the file.
pub open spec fn header(elf: Seq<u8>, wide: bool, i: int) -> Option<Placed> {
    if wide {
        let at = field(elf, 32, 8) + i * field(elf, 54, 2);
        if field(elf, at, 4) == 1 {
            Some(
                Placed {
                    offset: field(elf, at + 8, 8),
                    addr: field(elf, at + 24, 8),
                    in_file: field(elf, at + 32, 8),
                    in_memory: field(elf, at + 40, 8),
                },
            )
        } else {
            None
        }
    } else {
        let at = field(elf, 28, 4) + i * field(elf, 42, 2);
        if field(elf, at, 4) == 1 {
            Some(
                Placed {
                    offset: field(elf, at + 4, 4),
                    addr: field(elf, at + 12, 4),
                    in_file: field(elf, at + 16, 4),
                    in_memory: field(elf, at + 20, 4),
                },
            )
        } else {
            None
        }
    }
}

/// How many program headers an ELF has.
pub open spec fn header_count(elf: Seq<u8>, wide: bool) -> int {
    if wide { field(elf, 56, 2) } else { field(elf, 44, 2) }
}

/// The table of program headers, of either class of ELF.
pub open spec fn table_of(elf: Seq<u8>, wide: bool) -> Result<HeaderTable, BootError> {
    if wide { elf64_table(elf) } else { elf32_table(elf) }
}

/// Is an address in the memory of a segment?
pub open spec fn covers(g: Placed, b: int) -> bool {
    g.addr <= b < g.addr + g.in_file || g.addr <= b < g.addr + g.in_memory
}

/// The end of a segment is an address.
pub open spec fn addressable(g: Placed) -> bool {
    g.addr + g.in_file <= usize::MAX && g.addr + g.in_memory <= usize::MAX
}

/// A header as the loader reads it.
#[verifier::spinoff_prover]
proof fn lemma_header(elf: Seq<u8>, wide: bool, i: int)
    requires
        table_of(elf, wide) is Ok,
    ensures
        ({
            let t = table_of(elf, wide)->Ok_0;
            let g = t.segment(elf, i);
            &&& t.count == header_count(elf, wide)
            &&& g.kind == 1 <==> header(elf, wide, i) is Some
            &&& g.kind == 1 ==> header(elf, wide, i) == Some(
                Placed {
                    offset: g.offset as int,
                    addr: g.paddr as int,
                    in_file: g.filesz as int,
                    in_memory: g.memsz as int,
                },
            )
        }),
{
    let t = table_of(elf, wide)->Ok_0;
    law_file_fields_are_little_endian(elf, 32);
    law_file_fields_are_little_endian(elf, 54);
    law_file_fields_are_little_endian(elf, 56);
    law_file_fields_are_little_endian(elf, 28);
    law_file_fields_are_little_endian(elf, 42);
    law_file_fields_are_little_endian(elf, 44);
    let at = t.offset(i);
    law_file_fields_are_little_endian(elf, at);
    law_file_fields_are_little_endian(elf, at + 4);
    law_file_fields_are_little_endian(elf, at + 8);
    law_file_fields_are_little_endian(elf, at + 12);
    law_file_fields_are_little_endian(elf, at + 16);
    law_file_fields_are_little_endian(elf, at + 20);
    law_file_fields_are_little_endian(elf, at + 24);
    law_file_fields_are_little_endian(elf, at + 32);
    law_file_fields_are_little_endian(elf, at + 40);
}

/// One segment in memory.
proof fn lemma_segment(m: MemView, elf: Seq<u8>, g: Segment, b: usize)
    requires
        g.offset + g.filesz <= elf.len(),
        g.paddr + g.filesz <= usize::MAX,
        g.paddr + g.memsz <= usize::MAX,
    ensures
        ({
            let t = crate::boot::segment_loaded(m, elf, g);
            &&& t.data.len() == m.data.len()
            &&& t.vga.len() == m.vga.len()
            &&& t.read8(b) == if !claimed(m, b) {
                m.read8(b)
            } else if g.paddr + g.filesz <= b < g.paddr + g.memsz {
                0
            } else if g.paddr <= b < g.paddr + g.filesz {
                elf[g.offset + (b - g.paddr)]
            } else {
                m.read8(b)
            }
        }),
{
    let part = elf.subrange(g.offset as int, g.offset + g.filesz);
    let a = g.paddr as usize;
    law_a_loaded_block_is_read_back(m, a, part, b);
    lemma_cleared(m.load(a, part), a, g.filesz as int, g.memsz as int, b);
}

/// Segments loaded from header `j` on leave a byte none of them covers.
proof fn lemma_uncovered(m: MemView, elf: Seq<u8>, wide: bool, j: int, top: u64, b: usize)
    requires
        table_of(elf, wide) is Ok,
        0 <= j,
        segments_loaded(m, elf, table_of(elf, wide)->Ok_0, j, top).2 is None,
        forall|k: int|
            j <= k < header_count(elf, wide) ==> match #[trigger] header(elf, wide, k) {
                Some(g) => addressable(g) && !covers(g, b as int),
                None => true,
            },
    ensures
        ({
            let t = segments_loaded(m, elf, table_of(elf, wide)->Ok_0, j, top).0;
            &&& t.data.len() == m.data.len()
            &&& t.vga.len() == m.vga.len()
            &&& t.read8(b) == m.read8(b)
        }),
    decreases table_of(elf, wide)->Ok_0.count - j,
{
    let t = table_of(elf, wide)->Ok_0;
    lemma_header(elf, wide, j);
    if j < t.count {
        let g = t.segment(elf, j);
        assert(header(elf, wide, j) is Some <==> g.kind == 1);
        if g.kind != 1 {
            lemma_uncovered(m, elf, wide, j + 1, top, b);
        } else {
            let end = g.paddr.wrapping_add(g.memsz);
            let on = if end > top { end } else { top };
            lemma_segment(m, elf, g, b);
            lemma_uncovered(crate::boot::segment_loaded(m, elf, g), elf, wide, j + 1, on, b);
        }
    }
}

/// Loading segments keeps the size of memory.
pub(crate) proof fn lemma_sizes(m: MemView, elf: Seq<u8>, wide: bool, j: int, top: u64)
    requires
        table_of(elf, wide) is Ok,
        0 <= j,
        forall|k: int|
            j <= k < header_count(elf, wide) ==> match #[trigger] header(elf, wide, k) {
                Some(g) => addressable(g),
                None => true,
            },
    ensures
        ({
            let t = segments_loaded(m, elf, table_of(elf, wide)->Ok_0, j, top).0;
            t.data.len() == m.data.len() && t.vga.len() == m.vga.len()
        }),
    decreases table_of(elf, wide)->Ok_0.count - j,
{
    let t = table_of(elf, wide)->Ok_0;
    lemma_header(elf, wide, j);
    if j < t.count {
        let g = t.segment(elf, j);
        assert(header(elf, wide, j) is Some <==> g.kind == 1);
        let end = g.paddr.wrapping_add(g.memsz);
        let on = if end > top { end } else { top };
        if g.kind != 1 {
            lemma_sizes(m, elf, wide, j + 1, top);
        } else if g.offset + g.filesz <= elf.len() {
            lemma_segment(m, elf, g, 0);
            lemma_sizes(crate::boot::segment_loaded(m, elf, g), elf, wide, j + 1, on);
        }
    }
}

/// The segments of an ELF are in memory: of every loadable program header the
/// bytes of the file, and zeros from there to the segment's size in memory,
/// wherever no later segment lies over them.
pub proof fn law_segments_are_in_memory(
    m: MemView,
    elf: Seq<u8>,
    wide: bool,
    from: int,
    top: u64,
    i: int,
    b: usize,
)
    requires
        table_of(elf, wide) is Ok,
        0 <= from <= i < header_count(elf, wide),
        segments_loaded(m, elf, table_of(elf, wide)->Ok_0, from, top).2 is None,
        header(elf, wide, i) is Some,
        covers(header(elf, wide, i)->0, b as int),
        claimed(m, b),
        forall|k: int|
            from <= k < header_count(elf, wide) ==> match #[trigger] header(elf, wide, k) {
                Some(g) => addressable(g) && (k > i ==> !covers(g, b as int)),
                None => true,
            },
    ensures
        ({
            let g = header(elf, wide, i)->0;
            let t = segments_loaded(m, elf, table_of(elf, wide)->Ok_0, from, top).0;
            &&& t.read8(b) == if b < g.addr + g.in_file {
                elf[g.offset + (b - g.addr)]
            } else {
                0
            }
            &&& t.data.len() == m.data.len()
            &&& t.vga.len() == m.vga.len()
        }),
    decreases i - from,
{
    let t = table_of(elf, wide)->Ok_0;
    lemma_header(elf, wide, from);
    let g = t.segment(elf, from);
    assert(header(elf, wide, from) is Some <==> g.kind == 1);
    let end = g.paddr.wrapping_add(g.memsz);
    let on = if end > top { end } else { top };
    if g.kind == 1 {
        lemma_segment(m, elf, g, b);
    }
    if from < i {
        if g.kind == 1 {
            law_segments_are_in_memory(
                crate::boot::segment_loaded(m, elf, g),
                elf,
                wide,
                from + 1,
                on,
                i,
                b,
            );
        } else {
            law_segments_are_in_memory(m, elf, wide, from + 1, top, i, b);
        }
    } else {
        lemma_uncovered(crate::boot::segment_loaded(m, elf, g), elf, wide, from + 1, on, b);
    }
}

} // verus!
