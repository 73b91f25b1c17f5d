//! Laws of memory: a load gives back what a store wrote, a store touches
//! nothing else, and an address without RAM is an open bus.

use crate::memory::{E820Entry, MemView, HIGH_RAM_BASE, VGA_TEXT_BASE, VGA_TEXT_CELLS, VGA_TEXT_SIZE};
use vstd::prelude::*;

verus! {

/// The low `w` bits of `v`, for the operand widths. Widths other than 64, 32
/// and 16 stand for a byte.
pub open spec fn narrow(v: u64, w: u32) -> u64 {
    if w == 64 {
        v
    } else if w == 32 {
        (v as u32) as u64
    } else if w == 16 {
        (v as u16) as u64
    } else {
        (v as u8) as u64
    }
}

/// The `n` bytes from `addr` are RAM of one region, none of them in the text
/// window.
pub open spec fn plain(m: MemView, addr: usize, n: int) -> bool {
    &&& addr + n <= usize::MAX
    &&& addr + n <= m.low_size() || (addr >= HIGH_RAM_BASE && addr - HIGH_RAM_BASE + m.low_size()
        + n <= m.data.len())
    &&& addr + n <= VGA_TEXT_BASE || VGA_TEXT_BASE + VGA_TEXT_SIZE <= addr
}

/// Does something answer at a physical address, the text window or RAM?
pub open spec fn claimed(m: MemView, addr: usize) -> bool {
    if MemView::in_vga(addr as int) {
        (addr - VGA_TEXT_BASE) / 2 < m.vga.len()
    } else {
        m.slot(addr) is Some
    }
}

/// A physical address that nothing answers for.
pub open spec fn unclaimed(m: MemView, addr: usize) -> bool {
    !claimed(m, addr)
}

/// Taking a value apart into bytes and putting it together again.
proof fn lemma_bytes(v8: u8, v16: u16, v32: u32, v64: u64, cell: u16)
    by (bit_vector)
    ensures
        (((cell & 0xFF00) | (v8 as u16)) & 0xFF) as u8 == v8,
        (((cell & 0xFF00) | (v8 as u16)) >> 8) as u8 == (cell >> 8) as u8,
        (((cell & 0x00FF) | ((v8 as u16) << 8)) >> 8) as u8 == v8,
        (((cell & 0x00FF) | ((v8 as u16) << 8)) & 0xFF) as u8 == (cell & 0xFF) as u8,
        (((v16 & 0xFF) as u8) as u16) | ((((v16 >> 8) as u8) as u16) << 8) == v16,
        (((cell & 0xFF00) | (((v16 & 0xFF) as u8) as u16)) & 0x00FF) | ((((v16 >> 8) as u8) as u16)
            << 8) == v16,
        ((((v32 & 0xFF) as u8) as u32) | (((((v32 >> 8) & 0xFF) as u8) as u32) << 8) | (((((v32
            >> 16) & 0xFF) as u8) as u32) << 16) | (((((v32 >> 24) & 0xFF) as u8) as u32) << 24))
            == v32,
        ((v64 as u32) as u64) | ((((v64 >> 32) as u32) as u64) << 32) == v64,
        ((((v64 >> 0) as u8) as u32) | ((((v64 >> 8) as u8) as u32) << 8) | ((((v64 >> 16) as u8) as u32)
            << 16) | ((((v64 >> 24) as u8) as u32) << 24)) == v64 as u32,
        ((((v64 >> 32) as u8) as u32) | ((((v64 >> 40) as u8) as u32) << 8) | ((((v64 >> 48) as u8) as u32)
            << 16) | ((((v64 >> 56) as u8) as u32) << 24)) == (v64 >> 32) as u32,
{
}

/// Logging a store changes no memory.
broadcast proof fn noted(m: MemView, addr: usize, v: u64, width: u8)
    ensures
        (#[trigger] m.note_store(addr, v, width)).data == m.data,
        m.note_store(addr, v, width).vga == m.vga,
{
    reveal(MemView::note_store);
}

proof fn lemma_noted16(m: MemView, addr: usize, v: u16)
    ensures
        m.noted16(addr, v).data == m.data,
        m.noted16(addr, v).vga == m.vga,
{
    broadcast use noted;
}

proof fn lemma_noted32(m: MemView, addr: usize, v: u32)
    ensures
        m.noted32(addr, v).data == m.data,
        m.noted32(addr, v).vga == m.vga,
{
    broadcast use noted;
    let n = m.note_store(addr, v as u64, 4);
    let lo = (v & 0xFFFF) as u16;
    lemma_noted16(n, addr, lo);
    lemma_noted16(n.noted16(addr, lo), addr.wrapping_add(2), (v >> 16) as u16);
}

proof fn lemma_noted64(m: MemView, addr: usize, v: u64)
    ensures
        m.noted64(addr, v).data == m.data,
        m.noted64(addr, v).vga == m.vga,
{
    broadcast use noted;
    let n = m.note_store(addr, v, 8);
    lemma_noted32(n, addr, v as u32);
    lemma_noted32(n.noted32(addr, v as u32), addr.wrapping_add(4), (v >> 32) as u32);
}

/// One byte replaced: read back where something answers, and seen nowhere
/// else.
proof fn lemma_put(m: MemView, a: usize, v: u8, b: usize)
    ensures
        m.put8(a, v).data.len() == m.data.len(),
        m.put8(a, v).vga.len() == m.vga.len(),
        m.put8(a, v).read8(b) == if a == b && claimed(m, b) { v } else { m.read8(b) },
{
    reveal(MemView::put8);
    reveal(MemView::read8);
    lemma_bytes(v, 0, 0, 0, m.cell(a));
}

/// What a byte store leaves at an address.
pub(crate) proof fn lemma_write8(m: MemView, a: usize, v: u8, b: usize)
    ensures
        m.write8(a, v).data.len() == m.data.len(),
        m.write8(a, v).vga.len() == m.vga.len(),
        m.write8(a, v).read8(b) == if a == b && claimed(m, b) { v } else { m.read8(b) },
{
    reveal(MemView::write8);
    reveal(MemView::read8);
    broadcast use noted;
    lemma_put(m.note_store(a, v as u64, 1), a, v, b);
}

/// What a 16-bit store leaves at an address.
proof fn lemma_write16(m: MemView, a: usize, v: u16, b: usize)
    ensures
        m.write16(a, v).data.len() == m.data.len(),
        m.write16(a, v).vga.len() == m.vga.len(),
        m.write16(a, v).read8(b) == if !claimed(m, b) {
            m.read8(b)
        } else if b == a {
            (v & 0xFF) as u8
        } else if b == a.wrapping_add(1) {
            (v >> 8) as u8
        } else {
            m.read8(b)
        },
{
    reveal(MemView::write16);
    reveal(MemView::read8);
    lemma_noted16(m, a, v);
    let n0 = m.noted16(a, v);
    lemma_put(n0, a, (v & 0xFF) as u8, b);
    let n1 = n0.put8(a, (v & 0xFF) as u8);
    lemma_put(n1, a.wrapping_add(1), (v >> 8) as u8, b);
}

/// What a 32-bit store leaves at an address.
proof fn lemma_write32(m: MemView, a: usize, v: u32, b: usize)
    ensures
        m.write32(a, v).data.len() == m.data.len(),
        m.write32(a, v).vga.len() == m.vga.len(),
        m.write32(a, v).read8(b) == if !claimed(m, b) {
            m.read8(b)
        } else if b == a {
            (v & 0xFF) as u8
        } else if b == a.wrapping_add(1) {
            ((v >> 8) & 0xFF) as u8
        } else if b == a.wrapping_add(2) {
            ((v >> 16) & 0xFF) as u8
        } else if b == a.wrapping_add(3) {
            ((v >> 24) & 0xFF) as u8
        } else {
            m.read8(b)
        },
{
    reveal(MemView::write32);
    reveal(MemView::read8);
    lemma_noted32(m, a, v);
    let n0 = m.noted32(a, v);
    lemma_put(n0, a, (v & 0xFF) as u8, b);
    let n1 = n0.put8(a, (v & 0xFF) as u8);
    lemma_put(n1, a.wrapping_add(1), ((v >> 8) & 0xFF) as u8, b);
    let n2 = n1.put8(a.wrapping_add(1), ((v >> 8) & 0xFF) as u8);
    lemma_put(n2, a.wrapping_add(2), ((v >> 16) & 0xFF) as u8, b);
    let n3 = n2.put8(a.wrapping_add(2), ((v >> 16) & 0xFF) as u8);
    lemma_put(n3, a.wrapping_add(3), ((v >> 24) & 0xFF) as u8, b);
}

/// What a 64-bit store leaves at an address.
proof fn lemma_write64(m: MemView, a: usize, v: u64, b: usize)
    ensures
        m.write64(a, v).data.len() == m.data.len(),
        m.write64(a, v).vga.len() == m.vga.len(),
        m.write64(a, v).read8(b) == if !claimed(m, b) {
            m.read8(b)
        } else if b == a {
            crate::memory::byte_of(v, 0)
        } else if b == a.wrapping_add(1) {
            crate::memory::byte_of(v, 1)
        } else if b == a.wrapping_add(2) {
            crate::memory::byte_of(v, 2)
        } else if b == a.wrapping_add(3) {
            crate::memory::byte_of(v, 3)
        } else if b == a.wrapping_add(4) {
            crate::memory::byte_of(v, 4)
        } else if b == a.wrapping_add(5) {
            crate::memory::byte_of(v, 5)
        } else if b == a.wrapping_add(6) {
            crate::memory::byte_of(v, 6)
        } else if b == a.wrapping_add(7) {
            crate::memory::byte_of(v, 7)
        } else {
            m.read8(b)
        },
{
    reveal(MemView::write64);
    reveal(MemView::read8);
    lemma_noted64(m, a, v);
    let n0 = m.noted64(a, v);
    lemma_put(n0, a, crate::memory::byte_of(v, 0), b);
    let n1 = n0.put8(a, crate::memory::byte_of(v, 0));
    lemma_put(n1, a.wrapping_add(1), crate::memory::byte_of(v, 1), b);
    let n2 = n1.put8(a.wrapping_add(1), crate::memory::byte_of(v, 1));
    lemma_put(n2, a.wrapping_add(2), crate::memory::byte_of(v, 2), b);
    let n3 = n2.put8(a.wrapping_add(2), crate::memory::byte_of(v, 2));
    lemma_put(n3, a.wrapping_add(3), crate::memory::byte_of(v, 3), b);
    let n4 = n3.put8(a.wrapping_add(3), crate::memory::byte_of(v, 3));
    lemma_put(n4, a.wrapping_add(4), crate::memory::byte_of(v, 4), b);
    let n5 = n4.put8(a.wrapping_add(4), crate::memory::byte_of(v, 4));
    lemma_put(n5, a.wrapping_add(5), crate::memory::byte_of(v, 5), b);
    let n6 = n5.put8(a.wrapping_add(5), crate::memory::byte_of(v, 5));
    lemma_put(n6, a.wrapping_add(6), crate::memory::byte_of(v, 6), b);
    let n7 = n6.put8(a.wrapping_add(6), crate::memory::byte_of(v, 6));
    lemma_put(n7, a.wrapping_add(7), crate::memory::byte_of(v, 7), b);
}

/// A store keeps the layout of memory, and the bytes it does not name.
pub(crate) proof fn lemma_kept(m: MemView, a: usize, w: u32, v: u64, b: usize)
    ensures
        m.write_w(a, w, v).data.len() == m.data.len(),
        m.write_w(a, w, v).vga.len() == m.vga.len(),
        (forall|k: usize|
            #![trigger a.wrapping_add(k)]
            k < crate::cpu::operand::bytes_of(w) ==> b != a.wrapping_add(k)) ==> m.write_w(
            a,
            w,
            v,
        ).read8(b) == m.read8(b),
{
    assert(a.wrapping_add(0) == a);
    if w == 64 {
        lemma_write64(m, a, v, b);
    } else if w == 32 {
        lemma_write32(m, a, v as u32, b);
    } else if w == 16 {
        lemma_write16(m, a, v as u16, b);
    } else {
        lemma_write8(m, a, v as u8, b);
    }
}

/// A store touches its own bytes and no other byte of the address space.
pub proof fn law_store_touches_only_its_bytes(
    m: MemView,
    addr: usize,
    w: u32,
    v: u64,
    other: usize,
)
    requires
        forall|k: usize|
            #![trigger addr.wrapping_add(k)]
            k < crate::cpu::operand::bytes_of(w) ==> other != addr.wrapping_add(k),
    ensures
        m.write_w(addr, w, v).read8(other) == m.read8(other),
{
    lemma_kept(m, addr, w, v, other);
}

/// A store is read back: a load at the address and width of a store answers
/// the value stored, wherever RAM or the text window lies behind each of its
/// bytes.
pub proof fn law_read_back(m: MemView, addr: usize, w: u32, v: u64)
    requires
        forall|k: usize|
            #![trigger addr.wrapping_add(k)]
            k < crate::cpu::operand::bytes_of(w) ==> claimed(m, addr.wrapping_add(k)),
    ensures
        m.write_w(addr, w, v).read_w(addr, w) == narrow(v, w),
{
    let a = addr;
    assert(claimed(m, a.wrapping_add(0)));
    lemma_bytes(0, v as u16, v as u32, v, 0);
    if w == 64 {
        reveal(MemView::read64);
        reveal(MemView::read32);
        lemma_halves(a);
        lemma_write64(m, a, v, a);
        assert(claimed(m, a.wrapping_add(0)));
        lemma_write64(m, a, v, a.wrapping_add(1));
        assert(claimed(m, a.wrapping_add(1)));
        lemma_write64(m, a, v, a.wrapping_add(2));
        assert(claimed(m, a.wrapping_add(2)));
        lemma_write64(m, a, v, a.wrapping_add(3));
        assert(claimed(m, a.wrapping_add(3)));
        lemma_write64(m, a, v, a.wrapping_add(4));
        assert(claimed(m, a.wrapping_add(4)));
        lemma_write64(m, a, v, a.wrapping_add(5));
        assert(claimed(m, a.wrapping_add(5)));
        lemma_write64(m, a, v, a.wrapping_add(6));
        assert(claimed(m, a.wrapping_add(6)));
        lemma_write64(m, a, v, a.wrapping_add(7));
        assert(claimed(m, a.wrapping_add(7)));
    } else if w == 32 {
        reveal(MemView::read32);
        lemma_write32(m, a, v as u32, a);
        assert(claimed(m, a.wrapping_add(0)));
        lemma_write32(m, a, v as u32, a.wrapping_add(1));
        assert(claimed(m, a.wrapping_add(1)));
        lemma_write32(m, a, v as u32, a.wrapping_add(2));
        assert(claimed(m, a.wrapping_add(2)));
        lemma_write32(m, a, v as u32, a.wrapping_add(3));
        assert(claimed(m, a.wrapping_add(3)));
    } else if w == 16 {
        reveal(MemView::read16);
        lemma_write16(m, a, v as u16, a);
        lemma_write16(m, a, v as u16, a.wrapping_add(1));
        assert(claimed(m, a.wrapping_add(1)));
    } else {
        lemma_write8(m, a, v as u8, a);
    }
}

/// The upper half of a quad word.
proof fn lemma_halves(a: usize)
    ensures
        a.wrapping_add(4).wrapping_add(1) == a.wrapping_add(5),
        a.wrapping_add(4).wrapping_add(2) == a.wrapping_add(6),
        a.wrapping_add(4).wrapping_add(3) == a.wrapping_add(7),
{
}

/// Loads of memories that agree on the bytes loaded.
pub(crate) proof fn lemma_alike(x: MemView, y: MemView, b: usize, w: u32)
    requires
        forall|k: usize|
            #![trigger b.wrapping_add(k)]
            k < crate::cpu::operand::bytes_of(w) ==> x.read8(b.wrapping_add(k)) == y.read8(
                b.wrapping_add(k),
            ),
    ensures
        x.read_w(b, w) == y.read_w(b, w),
{
    reveal(MemView::read64);
    reveal(MemView::read32);
    reveal(MemView::read16);
    lemma_halves(b);
    assert(b.wrapping_add(0) == b);
    assert(forall|k: usize|
        #![trigger b.wrapping_add(k)]
        k < crate::cpu::operand::bytes_of(w) ==> x.read8(b.wrapping_add(k)) == y.read8(
            b.wrapping_add(k),
        ));
}

/// A byte stored in plain RAM is read back.
pub(crate) proof fn lemma_own8(m: MemView, a: usize, v: u8)
    requires
        plain(m, a, 1),
    ensures
        m.write8(a, v).read8(a) == v,
        m.write8(a, v).data.len() == m.data.len(),
{
    lemma_write8(m, a, v, a);
}

/// A block of bytes that has been loaded is found where it was put, byte for
/// byte, and nothing else has changed.
pub proof fn law_a_loaded_block_is_read_back(m: MemView, addr: usize, bytes: Seq<u8>, b: usize)
    requires
        bytes.len() <= usize::MAX,
    ensures
        ({
            let t = m.load(addr, bytes);
            let i = b.wrapping_sub(addr) as int;
            &&& t.data.len() == m.data.len()
            &&& t.vga.len() == m.vga.len()
            &&& t.read8(b) == if i < bytes.len() && claimed(m, b) { bytes[i] } else { m.read8(b) }
        }),
    decreases bytes.len(),
{
    if bytes.len() > 0 {
        let n = bytes.len() - 1;
        law_a_loaded_block_is_read_back(m, addr, bytes.take(n), b);
        lemma_write8(m.load(addr, bytes.take(n)), addr.wrapping_add(n as usize), bytes[n], b);
    }
}

/// A value stored in plain RAM is read back.
pub(crate) proof fn lemma_own(m: MemView, a: usize, w: u32, v: u64)
    requires
        plain(m, a, crate::cpu::operand::bytes_of(w) as int),
    ensures
        m.write_w(a, w, v).read_w(a, w) == narrow(v, w),
{
    law_read_back(m, a, w, v);
}

/// A store to plain RAM keeps the size of memory.
pub(crate) proof fn lemma_kept_size(m: MemView, a: usize, w: u32, v: u64)
    requires
        plain(m, a, crate::cpu::operand::bytes_of(w) as int),
    ensures
        m.write_w(a, w, v).data.len() == m.data.len(),
{
    lemma_kept(m, a, w, v, a);
}

/// A value elsewhere is not touched, whatever the two widths.
pub(crate) proof fn lemma_apart(m: MemView, a: usize, wa: u32, v: u64, b: usize, wb: u32)
    requires
        a + crate::cpu::operand::bytes_of(wa) <= usize::MAX,
        b + crate::cpu::operand::bytes_of(wb) <= usize::MAX,
        b + crate::cpu::operand::bytes_of(wb) <= a || a + crate::cpu::operand::bytes_of(wa) <= b,
    ensures
        m.write_w(a, wa, v).read_w(b, wb) == m.read_w(b, wb),
        m.write_w(a, wa, v).data.len() == m.data.len(),
{
    let x = m.write_w(a, wa, v);
    lemma_kept(m, a, wa, v, b);
    assert forall|k: usize|
        #![trigger b.wrapping_add(k)]
        k < crate::cpu::operand::bytes_of(wb) implies x.read8(b.wrapping_add(k)) == m.read8(
        b.wrapping_add(k),
    ) by {
        lemma_kept(m, a, wa, v, b.wrapping_add(k));
    }
    lemma_alike(x, m, b, wb);
}

/// A value elsewhere in plain RAM is not touched.
pub(crate) proof fn lemma_other(m: MemView, a: usize, w: u32, v: u64, b: usize)
    requires
        plain(m, a, crate::cpu::operand::bytes_of(w) as int),
        plain(m, b, crate::cpu::operand::bytes_of(w) as int),
        b + crate::cpu::operand::bytes_of(w) <= a || a + crate::cpu::operand::bytes_of(w) <= b,
    ensures
        m.write_w(a, w, v).read_w(b, w) == m.read_w(b, w),
        m.write_w(a, w, v).data.len() == m.data.len(),
{
    lemma_apart(m, a, w, v, b, w);
}

/// A quad word elsewhere in plain RAM is not touched either.
pub(crate) proof fn lemma_other64(m: MemView, a: usize, v: u64, b: usize)
    requires
        plain(m, a, 8),
        plain(m, b, 8),
        b + 8 <= a || a + 8 <= b,
    ensures
        m.write64(a, v).read64(b) == m.read64(b),
        m.write64(a, v).data.len() == m.data.len(),
{
    lemma_other(m, a, 64, v, b);
}

/// A quad word stored in plain RAM is read back.
pub(crate) proof fn lemma_own64(m: MemView, a: usize, v: u64)
    requires
        plain(m, a, 8),
    ensures
        m.write64(a, v).read64(a) == v,
        m.write64(a, v).data.len() == m.data.len(),
{
    lemma_own(m, a, 64, v);
    lemma_kept_size(m, a, 64, v);
}

/// Wide loads are little-endian at every address, in RAM, in the text window
/// and where nothing answers: the byte at the lowest address is the least
/// significant one.
pub proof fn law_loads_are_little_endian(m: MemView, addr: usize)
    ensures
        m.read16(addr) == crate::memory::le16(m.read8(addr), m.read8(addr.wrapping_add(1))),
        m.read32(addr) == crate::memory::le32(
            m.read8(addr),
            m.read8(addr.wrapping_add(1)),
            m.read8(addr.wrapping_add(2)),
            m.read8(addr.wrapping_add(3)),
        ),
        m.read64(addr) == crate::memory::halves64(m.read32(addr), m.read32(addr.wrapping_add(4))),
{
    reveal(MemView::read16);
    reveal(MemView::read32);
    reveal(MemView::read64);
}

/// A 16-bit access at an even address of the text window is one of its cells.
pub proof fn law_cells_are_words(m: MemView, i: int, v: u16)
    requires
        0 <= i < VGA_TEXT_CELLS,
        m.vga.len() == VGA_TEXT_CELLS,
    ensures
        m.read16((VGA_TEXT_BASE + 2 * i) as usize) == m.vga[i],
        m.write16((VGA_TEXT_BASE + 2 * i) as usize, v).vga == m.vga.update(i, v),
{
    let a = (VGA_TEXT_BASE + 2 * i) as usize;
    reveal(MemView::read16);
    reveal(MemView::read8);
    reveal(MemView::write16);
    reveal(MemView::put8);
    lemma_noted16(m, a, v);
    lemma_bytes(0, m.vga[i], 0, 0, 0);
    lemma_bytes(0, v, 0, 0, m.vga[i]);
    let lo = (m.vga[i] & 0xFF00) | (((v & 0xFF) as u8) as u16);
    let x = m.noted16(a, v).put8(a, (v & 0xFF) as u8);
    assert(x.vga =~= m.vga.update(i, lo));
    assert(m.write16(a, v).vga =~= m.vga.update(i, v));
}

/// All-ones values are made of all-ones parts.
proof fn lemma_ones()
    by (bit_vector)
    ensures
        (0xFFu8 as u16) | ((0xFFu8 as u16) << 8) == 0xFFFFu16,
        (0xFFu8 as u32) | ((0xFFu8 as u32) << 8) | ((0xFFu8 as u32) << 16) | ((0xFFu8 as u32) << 24)
            == 0xFFFF_FFFFu32,
        (0xFFFF_FFFFu32 as u64) | ((0xFFFF_FFFFu32 as u64) << 32) == 0xFFFF_FFFF_FFFF_FFFFu64,
        (0xFFFFu16 & 0xFF) as u8 == 0xFFu8,
        (0xFFFFu16 >> 8) as u8 == 0xFFu8,
{
}

/// An address with no RAM behind it is an open bus: it reads as all ones at
/// every width.
pub proof fn law_open_bus_reads_ones(m: MemView, addr: usize)
    requires
        forall|i: usize| #![trigger addr.wrapping_add(i)] i < 8 ==> unclaimed(m, addr.wrapping_add(i)),
    ensures
        m.read8(addr) == 0xFF,
        m.read16(addr) == 0xFFFF,
        m.read32(addr) == 0xFFFF_FFFF,
        m.read64(addr) == 0xFFFF_FFFF_FFFF_FFFF,
{
    reveal(MemView::read8);
    reveal(MemView::read16);
    reveal(MemView::read32);
    reveal(MemView::read64);
    lemma_ones();
    lemma_halves(addr);
    assert(addr.wrapping_add(0) == addr);
    assert(unclaimed(m, addr.wrapping_add(1)));
    assert(unclaimed(m, addr.wrapping_add(2)));
    assert(unclaimed(m, addr.wrapping_add(3)));
    assert(unclaimed(m, addr.wrapping_add(4)));
    assert(unclaimed(m, addr.wrapping_add(5)));
    assert(unclaimed(m, addr.wrapping_add(6)));
    assert(unclaimed(m, addr.wrapping_add(7)));
}

/// An address with no RAM behind it swallows writes: nothing aliases back into
/// low memory.
pub proof fn law_open_bus_swallows_writes(m: MemView, addr: usize, v: u8)
    requires
        unclaimed(m, addr),
    ensures
        m.write8(addr, v).data == m.data,
        m.write8(addr, v).vga == m.vga,
{
    reveal(MemView::write8);
    reveal(MemView::put8);
    broadcast use noted;
}

/// The text window hides the RAM behind it: a byte store there changes the
/// screen and no RAM, and is read back.
pub proof fn law_text_window(m: MemView, addr: usize, v: u8)
    requires
        MemView::in_vga(addr as int),
        m.vga.len() == VGA_TEXT_CELLS,
    ensures
        m.write8(addr, v).data == m.data,
        m.write8(addr, v).read8(addr) == v,
{
    lemma_write8(m, addr, v, addr);
    reveal(MemView::write8);
    reveal(MemView::put8);
    broadcast use noted;
}

/// RAM in whole quad words, and a text window of its full size.
pub open spec fn regular(m: MemView) -> bool {
    m.data.len() % 8 == 0 && m.vga.len() == VGA_TEXT_CELLS
}

/// An aligned word lies on one side of an aligned limit.
proof fn lemma_one_side(a: int, k: int, n: int, limit: int)
    requires
        n == 4 || n == 8,
        a % n == 0,
        limit % n == 0,
        0 <= k < n,
    ensures
        a + k < limit <==> a < limit,
{
}

/// Something answers for an aligned quad word as a whole, or nothing does.
proof fn lemma_whole64(m: MemView, a: usize, k: usize)
    requires
        regular(m),
        a % 8 == 0,
        k < 8,
    ensures
        a + k <= usize::MAX,
        claimed(m, a.wrapping_add(k)) == claimed(m, a),
{
    lemma_one_side(a as int, k as int, 8, usize::MAX + 1);
    lemma_one_side(a as int, k as int, 8, VGA_TEXT_BASE as int);
    lemma_one_side(a as int, k as int, 8, VGA_TEXT_BASE + VGA_TEXT_SIZE);
    lemma_one_side(a as int, k as int, 8, m.low_size());
    lemma_one_side(a as int, k as int, 8, HIGH_RAM_BASE as int);
    lemma_one_side(a as int, k as int, 8, HIGH_RAM_BASE - m.low_size() + m.data.len());
    assert(a.wrapping_add(k) == a + k);
}

/// Something answers for an aligned double word as a whole, or nothing does.
proof fn lemma_whole32(m: MemView, a: usize, k: usize)
    requires
        regular(m),
        a % 4 == 0,
        k < 4,
    ensures
        a + k <= usize::MAX,
        claimed(m, a.wrapping_add(k)) == claimed(m, a),
{
    lemma_one_side(a as int, k as int, 4, usize::MAX + 1);
    lemma_one_side(a as int, k as int, 4, VGA_TEXT_BASE as int);
    lemma_one_side(a as int, k as int, 4, VGA_TEXT_BASE + VGA_TEXT_SIZE);
    lemma_one_side(a as int, k as int, 4, m.low_size());
    lemma_one_side(a as int, k as int, 4, HIGH_RAM_BASE as int);
    lemma_one_side(a as int, k as int, 4, HIGH_RAM_BASE - m.low_size() + m.data.len());
    assert(a.wrapping_add(k) == a + k);
}

/// Aligned quad words are independent of one another: a store to one is read
/// back from it, or lost where nothing answers, and shows in no other.
pub(crate) proof fn lemma_aligned64(m: MemView, a: usize, v: u64, b: usize)
    requires
        regular(m),
        a % 8 == 0,
        b % 8 == 0,
    ensures
        regular(m.write64(a, v)),
        m.write64(a, v).read64(b) == m.read64(b) || (a == b && m.write64(a, v).read64(b) == v),
{
    let x = m.write64(a, v);
    lemma_write64(m, a, v, b);
    lemma_whole64(m, a, 7);
    if a == b && claimed(m, a) {
        assert forall|k: usize| #![trigger a.wrapping_add(k)] k < 8 implies claimed(
            m,
            a.wrapping_add(k),
        ) by {
            lemma_whole64(m, a, k);
        }
        law_read_back(m, a, 64, v as u64);
    } else {
        assert forall|k: usize| #![trigger b.wrapping_add(k)] k < 8 implies x.read8(
            b.wrapping_add(k),
        ) == m.read8(b.wrapping_add(k)) by {
            lemma_whole64(m, b, k);
            lemma_write64(m, a, v, b.wrapping_add(k));
        }
        lemma_alike(x, m, b, 64);
    }
}

/// Aligned double words are independent of one another: a store to one is read
/// back from it, or lost where nothing answers, and shows in no other.
pub(crate) proof fn lemma_aligned32(m: MemView, a: usize, v: u32, b: usize)
    requires
        regular(m),
        a % 4 == 0,
        b % 4 == 0,
    ensures
        regular(m.write32(a, v)),
        m.write32(a, v).read32(b) == m.read32(b) || (a == b && m.write32(a, v).read32(b) == v),
{
    let x = m.write32(a, v);
    lemma_write32(m, a, v, b);
    lemma_whole32(m, a, 3);
    if a == b && claimed(m, a) {
        assert forall|k: usize| #![trigger a.wrapping_add(k)] k < 4 implies claimed(
            m,
            a.wrapping_add(k),
        ) by {
            lemma_whole32(m, a, k);
        }
        law_read_back(m, a, 32, v as u64);
    } else {
        assert forall|k: usize| #![trigger b.wrapping_add(k)] k < 4 implies x.read8(
            b.wrapping_add(k),
        ) == m.read8(b.wrapping_add(k)) by {
            lemma_whole32(m, b, k);
            lemma_write32(m, a, v, b.wrapping_add(k));
        }
        lemma_alike(x, m, b, 32);
    }
}

/// The usable bytes a memory map describes.
pub open spec fn usable(map: Seq<E820Entry>) -> int
    decreases map.len(),
{
    if map.len() == 0 {
        0
    } else {
        usable(map.drop_last()) + if map.last().2 == 1 { map.last().1 as int } else { 0 }
    }
}

/// A memory map accounts for all the RAM of the machine but the 1 KiB of the
/// extended BIOS data area and the 384 KiB below 1 MiB that belong to video
/// and ROM.
pub proof fn law_map_accounts_for_the_ram(ram: u64)
    requires
        ram >= 0x10_0000,
    ensures
        usable(crate::memory::e820_spec(ram)) == ram - 0x400 - 0x6_0000,
{
    let map = crate::memory::e820_spec(ram);
    reveal_with_fuel(usable, 7);
}

/// The entries of a memory map follow one another without overlap.
pub proof fn law_map_is_ordered(ram: u64, i: int, j: int)
    requires
        0 <= i < j < crate::memory::e820_spec(ram).len(),
    ensures
        crate::memory::e820_spec(ram)[i].0 + crate::memory::e820_spec(ram)[i].1
            <= crate::memory::e820_spec(ram)[j].0,
{
}

/// Every byte a memory map calls usable has RAM behind it, on a machine with
/// that much RAM.
pub proof fn law_usable_memory_is_backed(m: MemView, i: int, addr: usize)
    requires
        0x10_0000 <= m.data.len() <= usize::MAX,
        0 <= i < crate::memory::e820_spec(m.data.len() as u64).len(),
        crate::memory::e820_spec(m.data.len() as u64)[i].2 == 1,
        crate::memory::e820_spec(m.data.len() as u64)[i].0 <= addr
            < crate::memory::e820_spec(m.data.len() as u64)[i].0
            + crate::memory::e820_spec(m.data.len() as u64)[i].1,
    ensures
        m.slot(addr) is Some,
{
}

} // verus!
