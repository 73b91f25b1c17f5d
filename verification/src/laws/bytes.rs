//! Laws of bytes: every value in memory is a little-endian number, whether it
//! lies in one page or in two.

use crate::cpu::operand::{bytes_of, split_addr};
use crate::laws::fields::{lemma_fields64, lemma_joined};
use crate::laws::paging::law_translation_keeps_the_offset;
use crate::laws::tlb::law_pages_translate_whole;
use crate::memory::MemView;
use crate::state::State;
use vstd::prelude::*;

verus! {

/// The little-endian number of the `n` bytes at a physical address, for `n` up
/// to eight.
pub open spec fn stored(m: MemView, addr: usize, n: int) -> int {
    let b = |i: int| if i < n { m.read8(addr.wrapping_add(i as usize)) as int } else { 0 };
    b(0) + 0x100 * b(1) + 0x1_0000 * b(2) + 0x100_0000 * b(3) + 0x1_0000_0000 * b(4)
        + 0x100_0000_0000 * b(5) + 0x1_0000_0000_0000 * b(6) + 0x100_0000_0000_0000 * b(7)
}

/// The byte at a linear address, as the page tables have it.
pub open spec fn byte_at(s: State, linear: u64) -> u8 {
    s.mem.read8(s.peek_phys(linear))
}

/// The little-endian number of the `n` bytes at a linear address, for `n` up to
/// eight.
pub open spec fn number_at(s: State, linear: u64, n: int) -> int {
    let b = |i: int| if i < n { byte_at(s, linear.wrapping_add(i as u64)) as int } else { 0 };
    b(0) + 0x100 * b(1) + 0x1_0000 * b(2) + 0x100_0000 * b(3) + 0x1_0000_0000 * b(4)
        + 0x100_0000_0000 * b(5) + 0x1_0000_0000_0000 * b(6) + 0x100_0000_0000_0000 * b(7)
}

/// The page tables have an answer for a linear address, or there are none.
pub open spec fn mapped(s: State, linear: u64) -> bool {
    s.paging() ==> crate::paging::walked(s.mem, s.paging_mode(), s.cr3, linear) is Some
}

/// Values are little-endian at every width.
pub proof fn law_values_are_little_endian(m: MemView, addr: usize)
    ensures
        m.read16(addr) == stored(m, addr, 2),
        m.read32(addr) == stored(m, addr, 4),
        m.read64(addr) == stored(m, addr, 8),
{
    reveal(MemView::read16);
    reveal(MemView::read32);
    reveal(MemView::read64);
    let r = |i: usize| m.read8(addr.wrapping_add(i));
    assert(addr.wrapping_add(0) == addr);
    let far = addr.wrapping_add(4);
    assert(far.wrapping_add(0) == far);
    assert(far.wrapping_add(1) == addr.wrapping_add(5));
    assert(far.wrapping_add(2) == addr.wrapping_add(6));
    assert(far.wrapping_add(3) == addr.wrapping_add(7));
    lemma_joined(r(0), r(1), r(2), r(3), m.read32(addr), m.read32(far), 0, 0);
    lemma_joined(r(4), r(5), r(6), r(7), 0, 0, 0, 0);
}

/// The value at a physical address, at a width, is a little-endian number.
pub(crate) proof fn lemma_stored(m: MemView, addr: usize, w: u32)
    ensures
        m.read_w(addr, w) == stored(m, addr, bytes_of(w) as int),
{
    law_values_are_little_endian(m, addr);
    assert(addr.wrapping_add(0) == addr);
}

/// Bytes gathered one by one make a little-endian number.
pub(crate) proof fn lemma_gathered(m: MemView, phys: usize, first: usize, next: usize, n: int)
    requires
        n == 1 || n == 2 || n == 4 || n == 8,
    ensures
        ({
            let b = |i: int|
                if i < n { m.read8(split_addr(phys, first, next, i as usize)) as int } else { 0 };
            m.gathered(phys, first, next, n) == b(0) + 0x100 * b(1) + 0x1_0000 * b(2) + 0x100_0000
                * b(3) + 0x1_0000_0000 * b(4) + 0x100_0000_0000 * b(5) + 0x1_0000_0000_0000 * b(6)
                + 0x100_0000_0000_0000 * b(7)
        }),
{
    reveal_with_fuel(MemView::gathered, 9);
    let r = |i: int| m.read8(split_addr(phys, first, next, i as usize));
    crate::laws::fields::lemma_eight(r(0), r(1), r(2), r(3), r(4), r(5), r(6), r(7));
}

/// Where the bytes of a page are, as the page tables have it.
proof fn lemma_in_page(s: State, linear: u64, i: u64)
    requires
        mapped(s, linear),
        (linear & 0xFFF) + i < 0x1000,
    ensures
        s.peek_phys(linear) & 0xFFF == linear & 0xFFF,
        s.peek_phys(linear.wrapping_add(i)) == s.peek_phys(linear) + i,
        s.peek_phys(linear) + i <= usize::MAX,
{
    reveal(State::peek_phys);
    let far = linear.wrapping_add(i);
    crate::laws::fields::lemma_same_page(linear, 0, 0, 0);
    assert(far == linear + i);
    assert((linear & 0xFFF) + (far - linear) < 0x1000);
    crate::laws::fields::lemma_same_page(linear, far, s.peek_phys(linear), s.peek_phys(far));
    crate::laws::fields::lemma_same_page(0, 0, s.peek_phys(far), 0);
    if s.paging() {
        law_pages_translate_whole(s.mem, s.paging_mode(), s.cr3, linear, far);
        law_translation_keeps_the_offset(s.mem, s.paging_mode(), s.cr3, linear);
        law_translation_keeps_the_offset(s.mem, s.paging_mode(), s.cr3, far);
    }
}

/// What is read at an offset from a linear address without faults is the
/// little-endian number of the bytes there, each where the page tables have it.
#[verifier::spinoff_prover]
pub proof fn law_tables_are_read_through_the_page_tables(
    s: State,
    linear: u64,
    n: u32,
    off: usize,
    w: u32,
)
    requires
        1 <= n <= 16,
        w == 8 || w == 16 || w == 32 || w == 64,
        off + bytes_of(w) <= n,
        mapped(s, linear),
        mapped(s, linear.wrapping_add((n - 1) as u64)),
    ensures
        s.peek(linear, n, off, w) == number_at(
            s,
            linear.wrapping_add(off as u64),
            bytes_of(w) as int,
        ),
{
    reveal(State::peek_span);
    reveal(MemView::span_read);
    let phys = s.peek_phys(linear);
    let k = bytes_of(w) as int;
    lemma_fields64(linear, 0);
    lemma_in_page(s, linear, 0);
    let first = (0x1000 - (phys & 0xFFF)) as usize;
    let sp = s.peek_span(linear, n);
    assert(first == 0x1000 - (linear & 0xFFF));
    let edge = linear.wrapping_add(first as u64);
    if first < n {
        lemma_edge(linear, first as u64);
        lemma_edge_mapped(s, edge, linear.wrapping_add((n - 1) as u64));
    }
    assert forall|i: u64| i < n implies #[trigger] s.peek_phys(linear.wrapping_add(i)) == (if i
        < first {
        phys.wrapping_add(i as usize)
    } else {
        sp.next.wrapping_add((i - first) as usize)
    }) by {
        if i < first {
            lemma_in_page(s, linear, i);
        } else {
            assert(edge.wrapping_add((i - first) as u64) == linear.wrapping_add(i));
            lemma_in_page(s, edge, (i - first) as u64);
        }
    }
    let base = linear.wrapping_add(off as u64);
    assert forall|i: u64| i < k implies #[trigger] base.wrapping_add(i) == linear.wrapping_add(
        (off + i) as u64,
    ) by {}
    if off + k <= first {
        let at = phys.wrapping_add(off);
        lemma_stored(s.mem, at, w);
        assert forall|i: u64| i < k implies s.peek_phys(#[trigger] base.wrapping_add(i)) == at.wrapping_add(i as usize) by {
            assert(s.peek_phys(linear.wrapping_add((off + i) as u64)) == phys.wrapping_add(
                (off + i) as usize,
            ));
        }
        lemma_alike_numbers(s, base, at, k);
    } else if off >= first {
        let at = sp.next.wrapping_add((off - first) as usize);
        lemma_stored(s.mem, at, w);
        assert forall|i: u64| i < k implies s.peek_phys(#[trigger] base.wrapping_add(i)) == at.wrapping_add(i as usize) by {
            assert(s.peek_phys(linear.wrapping_add((off + i) as u64)) == sp.next.wrapping_add(
                (off + i - first) as usize,
            ));
        }
        lemma_alike_numbers(s, base, at, k);
    } else {
        let at = phys.wrapping_add(off);
        let before = (first - off) as usize;
        lemma_gathered(s.mem, at, before, sp.next, k);
        assert forall|i: u64| i < k implies s.peek_phys(#[trigger] base.wrapping_add(i)) == split_addr(at, before, sp.next, i as usize) by {
            assert(s.peek_phys(linear.wrapping_add((off + i) as u64)) == if off + i < first {
                phys.wrapping_add((off + i) as usize)
            } else {
                sp.next.wrapping_add((off + i - first) as usize)
            });
        }
        lemma_eight_bytes(s, base, k);
        assert(s.peek_phys(base.wrapping_add(0)) == split_addr(at, before, sp.next, 0));
        assert(k > 1 ==> s.peek_phys(base.wrapping_add(1)) == split_addr(at, before, sp.next, 1));
        assert(k > 2 ==> s.peek_phys(base.wrapping_add(2)) == split_addr(at, before, sp.next, 2));
        assert(k > 3 ==> s.peek_phys(base.wrapping_add(3)) == split_addr(at, before, sp.next, 3));
        assert(k > 4 ==> s.peek_phys(base.wrapping_add(4)) == split_addr(at, before, sp.next, 4));
        assert(k > 5 ==> s.peek_phys(base.wrapping_add(5)) == split_addr(at, before, sp.next, 5));
        assert(k > 6 ==> s.peek_phys(base.wrapping_add(6)) == split_addr(at, before, sp.next, 6));
        assert(k > 7 ==> s.peek_phys(base.wrapping_add(7)) == split_addr(at, before, sp.next, 7));
    }
}

/// A number in bytes.
proof fn lemma_eight_bytes(s: State, linear: u64, n: int)
    ensures
        ({
            let b = |i: int|
                if i < n { byte_at(s, linear.wrapping_add(i as u64)) as int } else { 0 };
            number_at(s, linear, n) == b(0) + 0x100 * b(1) + 0x1_0000 * b(2) + 0x100_0000 * b(3)
                + 0x1_0000_0000 * b(4) + 0x100_0000_0000 * b(5) + 0x1_0000_0000_0000 * b(6)
                + 0x100_0000_0000_0000 * b(7)
        }),
{
}

/// A linear number whose bytes follow one another in physical memory.
proof fn lemma_alike_numbers(s: State, linear: u64, at: usize, n: int)
    requires
        n <= 8,
        forall|i: u64|
            i < n ==> s.peek_phys(#[trigger] linear.wrapping_add(i)) == at.wrapping_add(i as usize),
    ensures
        number_at(s, linear, n) == stored(s.mem, at, n),
{
    assert(n > 0 ==> s.peek_phys(linear.wrapping_add(0)) == at.wrapping_add(0));
    assert(n > 1 ==> s.peek_phys(linear.wrapping_add(1)) == at.wrapping_add(1));
    assert(n > 2 ==> s.peek_phys(linear.wrapping_add(2)) == at.wrapping_add(2));
    assert(n > 3 ==> s.peek_phys(linear.wrapping_add(3)) == at.wrapping_add(3));
    assert(n > 4 ==> s.peek_phys(linear.wrapping_add(4)) == at.wrapping_add(4));
    assert(n > 5 ==> s.peek_phys(linear.wrapping_add(5)) == at.wrapping_add(5));
    assert(n > 6 ==> s.peek_phys(linear.wrapping_add(6)) == at.wrapping_add(6));
    assert(n > 7 ==> s.peek_phys(linear.wrapping_add(7)) == at.wrapping_add(7));
}

/// The end of a page is the start of the next one.
proof fn lemma_edge(linear: u64, first: u64)
    requires
        first == 0x1000 - (linear & 0xFFF),
    ensures
        linear.wrapping_add(first) & 0xFFF == 0,
{
    let edge = linear.wrapping_add(first);
    crate::laws::fields::lemma_same_page(linear, 0, 0, 0);
    crate::laws::fields::lemma_same_page(edge, 0, 0, 0);
    assert(linear + first == (linear / 0x1000 + 1) * 0x1000);
    assert(edge as int % 0x1000 == 0);
}

/// A page is mapped or not as a whole.
proof fn lemma_edge_mapped(s: State, edge: u64, last: u64)
    requires
        edge & 0xFFF == 0,
        edge <= last < edge + 0x1000,
        mapped(s, last),
    ensures
        mapped(s, edge),
{
    lemma_fields64(edge, 0);
    crate::laws::fields::lemma_same_page(edge, last, 0, 0);
    if s.paging() {
        law_pages_translate_whole(s.mem, s.paging_mode(), s.cr3, edge, last);
    }
}

} // verus!
