//! The slots of a frame in memory: where their bytes are, split over two pages
//! or not, and what they hold.

use crate::cpu::operand::{bytes_of, crosses, split_addr};
use crate::cpu::stack::Slot;
use crate::laws::memory::{
    law_read_back, law_store_touches_only_its_bytes, lemma_alike, lemma_kept, narrow, plain,
};
use crate::laws::stack::lemma_split_back;
use crate::memory::MemView;
use vstd::prelude::*;

verus! {

/// How many bytes of a value come before the end of the page.
pub open spec fn before_the_end(phys: usize) -> usize {
    (0x1000 - (phys & 0xFFF)) as usize
}

/// Where byte `k` of a slot is.
pub open spec fn slot_byte(slot: Slot, w: u32, k: usize) -> usize {
    if crosses(slot.phys, bytes_of(w)) {
        split_addr(slot.phys, before_the_end(slot.phys), slot.next, k)
    } else {
        slot.phys.wrapping_add(k)
    }
}

/// The value in a slot.
pub open spec fn slot_value(m: MemView, slot: Slot, w: u32) -> u64 {
    if crosses(slot.phys, bytes_of(w)) {
        m.gathered(slot.phys, before_the_end(slot.phys), slot.next, bytes_of(w) as int)
    } else {
        m.read_w(slot.phys, w)
    }
}

/// The bytes of a slot lie in plain RAM, at different places.
pub open spec fn slot_plain(m: MemView, slot: Slot, w: u32) -> bool {
    &&& forall|k: usize| k < bytes_of(w) ==> plain(m, #[trigger] slot_byte(slot, w, k), 1)
    &&& forall|k: usize, l: usize|
        k < l < bytes_of(w) ==> #[trigger] slot_byte(slot, w, k) != #[trigger] slot_byte(slot, w, l)
}

/// Two slots share no byte.
pub open spec fn apart(a: Slot, b: Slot, w: u32) -> bool {
    forall|k: usize, l: usize|
        k < bytes_of(w) && l < bytes_of(w) ==> #[trigger] slot_byte(a, w, k)
            != #[trigger] slot_byte(b, w, l)
}

/// The slots of a frame lie in plain RAM, and no two of their bytes are the
/// same. A slot may straddle two pages.
pub open spec fn separate(m: MemView, slots: Seq<Slot>, w: u32) -> bool {
    &&& forall|i: int| 0 <= i < slots.len() ==> slot_plain(m, #[trigger] slots[i], w)
    &&& forall|i: int, j: int|
        0 <= i < j < slots.len() ==> apart(#[trigger] slots[i], #[trigger] slots[j], w)
}

/// A split store keeps the bytes it does not name.
proof fn lemma_scatter_kept(
    m: MemView,
    phys: usize,
    first: usize,
    next: usize,
    v: u64,
    n: int,
    x: usize,
)
    requires
        0 <= n <= 8,
        forall|k: usize| k < n ==> x != #[trigger] split_addr(phys, first, next, k),
    ensures
        m.scattered(phys, first, next, v, n).read8(x) == m.read8(x),
        m.scattered(phys, first, next, v, n).data.len() == m.data.len(),
    decreases n,
{
    if n > 0 {
        lemma_scatter_kept(m, phys, first, next, v, n - 1, x);
        let before = m.scattered(phys, first, next, v, n - 1);
        let at = split_addr(phys, first, next, (n - 1) as usize);
        let b = (v >> ((n - 1) * 8) as u64) as u8;
        assert(at.wrapping_add(0) == at);
        law_store_touches_only_its_bytes(before, at, 8, b as u64, x);
        lemma_kept(before, at, 8, b as u64, x);
    }
}

/// A split load looks at its own bytes only.
proof fn lemma_gather_alike(
    x: MemView,
    y: MemView,
    phys: usize,
    first: usize,
    next: usize,
    n: int,
)
    requires
        0 <= n <= 8,
        forall|k: usize|
            k < n ==> x.read8(#[trigger] split_addr(phys, first, next, k)) == y.read8(
                split_addr(phys, first, next, k),
            ),
    ensures
        x.gathered(phys, first, next, n) == y.gathered(phys, first, next, n),
    decreases n,
{
    if n > 0 {
        lemma_gather_alike(x, y, phys, first, next, n - 1);
        let k = (n - 1) as usize;
        assert(x.read8(split_addr(phys, first, next, k)) == y.read8(
            split_addr(phys, first, next, k),
        ));
    }
}

/// A store to a slot keeps the bytes outside it.
proof fn lemma_slot_kept(m: MemView, slot: Slot, w: u32, v: u64, x: usize)
    ensures
        (forall|k: usize| k < bytes_of(w) ==> x != #[trigger] slot_byte(slot, w, k))
            ==> m.slot_written(slot, w, v).read8(x) == m.read8(x),
        m.slot_written(slot, w, v).data.len() == m.data.len(),
{
    reveal(MemView::slot_written);
    let n = bytes_of(w) as int;
    let first = before_the_end(slot.phys);
    if crosses(slot.phys, bytes_of(w)) {
        lemma_scatter_size(m, slot.phys, first, slot.next, v, n);
        if forall|k: usize| k < bytes_of(w) ==> x != #[trigger] slot_byte(slot, w, k) {
            assert forall|k: usize| k < n implies x != #[trigger] split_addr(
                slot.phys,
                first,
                slot.next,
                k,
            ) by {
                assert(x != slot_byte(slot, w, k));
            }
            lemma_scatter_kept(m, slot.phys, first, slot.next, v, n, x);
        }
    } else {
        lemma_kept(m, slot.phys, w, v, x);
        if forall|k: usize| k < bytes_of(w) ==> x != #[trigger] slot_byte(slot, w, k) {
            assert forall|k: usize|
                #![trigger slot.phys.wrapping_add(k)]
                k < bytes_of(w) implies x != slot.phys.wrapping_add(k) by {
                assert(x != slot_byte(slot, w, k));
            }
        }
    }
}

/// A split store keeps the size of memory.
proof fn lemma_scatter_size(m: MemView, phys: usize, first: usize, next: usize, v: u64, n: int)
    ensures
        m.scattered(phys, first, next, v, n).data.len() == m.data.len(),
    decreases n,
{
    if n > 0 {
        lemma_scatter_size(m, phys, first, next, v, n - 1);
        let before = m.scattered(phys, first, next, v, n - 1);
        let at = split_addr(phys, first, next, (n - 1) as usize);
        lemma_kept(before, at, 8, ((v >> ((n - 1) * 8) as u64) as u8) as u64, at);
    }
}

/// A value stored in a slot is read back from it.
proof fn lemma_slot_own(m: MemView, slot: Slot, w: u32, v: u64)
    requires
        slot_plain(m, slot, w),
    ensures
        slot_value(m.slot_written(slot, w, v), slot, w) == narrow(v, w),
{
    reveal(MemView::slot_written);
    let n = bytes_of(w) as int;
    let first = before_the_end(slot.phys);
    if crosses(slot.phys, bytes_of(w)) {
        assert forall|k: usize| k < n implies plain(
            m,
            #[trigger] split_addr(slot.phys, first, slot.next, k),
            1,
        ) by {
            assert(plain(m, slot_byte(slot, w, k), 1));
        }
        assert forall|k: usize, l: usize|
            #![trigger split_addr(slot.phys, first, slot.next, k), split_addr(slot.phys, first, slot.next, l)]
            k < l < n implies split_addr(slot.phys, first, slot.next, k) != split_addr(
            slot.phys,
            first,
            slot.next,
            l,
        ) by {
            assert(slot_byte(slot, w, k) != slot_byte(slot, w, l));
        }
        lemma_split_back(m, slot.phys, first, slot.next, v, w);
    } else {
        assert forall|k: usize|
            #![trigger slot.phys.wrapping_add(k)]
            k < bytes_of(w) implies crate::laws::memory::claimed(m, slot.phys.wrapping_add(k)) by {
            assert(plain(m, slot_byte(slot, w, k), 1));
        }
        law_read_back(m, slot.phys, w, v);
    }
}

/// A store to one slot leaves another alone.
proof fn lemma_slot_other(m: MemView, slot: Slot, w: u32, v: u64, other: Slot)
    requires
        apart(slot, other, w) || apart(other, slot, w),
    ensures
        slot_value(m.slot_written(slot, w, v), other, w) == slot_value(m, other, w),
{
    let x = m.slot_written(slot, w, v);
    assert forall|l: usize| l < bytes_of(w) implies x.read8(#[trigger] slot_byte(other, w, l))
        == m.read8(slot_byte(other, w, l)) by {
        lemma_slot_kept(m, slot, w, v, slot_byte(other, w, l));
    }
    let first = before_the_end(other.phys);
    if crosses(other.phys, bytes_of(w)) {
        assert forall|k: usize| k < bytes_of(w) implies x.read8(
            #[trigger] split_addr(other.phys, first, other.next, k),
        ) == m.read8(split_addr(other.phys, first, other.next, k)) by {
            assert(x.read8(slot_byte(other, w, k)) == m.read8(slot_byte(other, w, k)));
        }
        lemma_gather_alike(x, m, other.phys, first, other.next, bytes_of(w) as int);
    } else {
        assert forall|k: usize|
            #![trigger other.phys.wrapping_add(k)]
            k < bytes_of(w) implies x.read8(other.phys.wrapping_add(k)) == m.read8(
            other.phys.wrapping_add(k),
        ) by {
            assert(x.read8(slot_byte(other, w, k)) == m.read8(slot_byte(other, w, k)));
        }
        lemma_alike(x, m, other.phys, w);
    }
}

/// Every value written so far is in its slot.
pub(crate) proof fn lemma_frame(
    m: MemView,
    w: u32,
    slots: Seq<Slot>,
    vals: Seq<u64>,
    n: int,
    i: int,
)
    requires
        0 <= n <= slots.len(),
        separate(m, slots, w),
    ensures
        m.frame_written(w, slots, vals, n).data.len() == m.data.len(),
        0 <= i < n ==> slot_value(m.frame_written(w, slots, vals, n), slots[i], w) == narrow(
            vals[i],
            w,
        ),
    decreases n,
{
    if n > 0 {
        lemma_frame(m, w, slots, vals, n - 1, i);
        let before = m.frame_written(w, slots, vals, n - 1);
        let slot = slots[n - 1];
        lemma_slot_kept(before, slot, w, vals[n - 1], slot.phys);
        if i == n - 1 {
            assert(slot_plain(m, slot, w));
            assert forall|k: usize| k < bytes_of(w) implies plain(
                before,
                #[trigger] slot_byte(slot, w, k),
                1,
            ) by {
                assert(plain(m, slot_byte(slot, w, k), 1));
            }
            lemma_slot_own(before, slot, w, vals[n - 1]);
        } else if 0 <= i < n - 1 {
            assert(apart(slots[i], slot, w));
            lemma_slot_other(before, slot, w, vals[n - 1], slots[i]);
        }
    }
}

} // verus!
