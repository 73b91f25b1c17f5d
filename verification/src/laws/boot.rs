//! Laws of booting: what a kernel finds when it starts.

use crate::boot::{BOOT_PARAMS_ADDR, PML4_ADDR, REAL_STACK, SECTOR_ADDR, SECTOR_BYTES};
use crate::cpu::{flags, SegReg};
use crate::laws::memory::{law_a_loaded_block_is_read_back, lemma_other64, lemma_own64};
use crate::laws::paging::{law_low_memory_is_mapped_to_itself, lemma_map_elsewhere};
use crate::laws::registers::law_word_write_preserves_the_rest;
use crate::memory::MemView;
use crate::state::State;
use vstd::prelude::*;

verus! {

/// An image that is not a kernel changes nothing.
pub proof fn law_a_bad_image_changes_nothing(s: State, image: Seq<u8>, line: Seq<u8>)
    requires
        s.boot_bzimage(image, line).1 is Err,
    ensures
        s.boot_bzimage(image, line).0 == s,
{
}

/// A boot sector starts in segment 0 at 0x7C00, where its 512 bytes are, with
/// the stack at the top of the segment; of what follows them in the image
/// nothing is loaded.
pub proof fn law_a_boot_sector_is_found_where_it_starts(s: State, image: Seq<u8>, b: usize)
    requires
        image.len() >= SECTOR_BYTES,
        s.mem.data.len() >= 0x8000,
        s.regs.len() == 16,
    ensures
        ({
            let (t, r) = s.boot_sector(image);
            &&& r is Ok
            &&& t.cs == 0 && t.ip == SECTOR_ADDR
            &&& t.ds == 0 && t.es == 0 && t.ss == 0
            &&& t.reg16(4) == REAL_STACK
            &&& t.mem.read8(b) == if SECTOR_ADDR <= b < SECTOR_ADDR + SECTOR_BYTES {
                image[b - SECTOR_ADDR]
            } else {
                s.mem.read8(b)
            }
        }),
{
    reveal(State::boot_sector);
    law_a_loaded_block_is_read_back(
        s.mem,
        SECTOR_ADDR as usize,
        image.take(SECTOR_BYTES as int),
        b,
    );
    law_word_write_preserves_the_rest(s, 4, REAL_STACK);
}

/// An image shorter than a boot sector changes nothing.
pub proof fn law_a_short_sector_changes_nothing(s: State, image: Seq<u8>)
    requires
        s.boot_sector(image).1 is Err,
    ensures
        s.boot_sector(image).0 == s,
{
    reveal(State::boot_sector);
}

/// Loading a segment register touches that register, its cached descriptor and
/// the fetch cache.
proof fn lemma_segment(s: State, g: SegReg, v: u16)
    requires
        s.seg_desc.len() == 6,
    ensures
        ({
            let t = s.load_seg(g, v);
            &&& t.regs == s.regs
            &&& t.mem == s.mem
            &&& t.pe == s.pe
            &&& t.cr0 == s.cr0
            &&& t.cr3 == s.cr3
            &&& t.cr4 == s.cr4
            &&& t.efer == s.efer
            &&& t.flags == s.flags
            &&& t.gdt_base == s.gdt_base
            &&& t.seg_desc.len() == s.seg_desc.len()
            &&& g != SegReg::Cs ==> t.seg_desc[1] == s.seg_desc[1]
            &&& g == SegReg::Cs && s.pe ==> t.seg_desc[1]
                == s.descriptor_for(v)
        }),
{
    reveal(State::load_seg);
}

/// What loading all six segment registers leaves alone.
pub(crate) proof fn lemma_flat(s: State, cs: u16, ds: u16)
    requires
        s.seg_desc.len() == 6,
    ensures
        ({
            let t = s.flat_segments(cs, ds);
            &&& t.regs == s.regs
            &&& t.mem == s.mem
            &&& t.pe == s.pe
            &&& t.cr0 == s.cr0
            &&& t.cr3 == s.cr3
            &&& t.cr4 == s.cr4
            &&& t.efer == s.efer
            &&& t.flags == s.flags
            &&& s.pe ==> t.seg_desc[1] == s.descriptor_for(cs)
        }),
{
    reveal(State::flat_segments);
    let a = s.load_seg(SegReg::Cs, cs);
    lemma_segment(s, SegReg::Cs, cs);
    let b = a.load_seg(SegReg::Ds, ds);
    lemma_segment(a, SegReg::Ds, ds);
    let c = b.load_seg(SegReg::Es, ds);
    lemma_segment(b, SegReg::Es, ds);
    let d = c.load_seg(SegReg::Ss, ds);
    lemma_segment(c, SegReg::Ss, ds);
    let e = d.load_seg(SegReg::Fs, ds);
    lemma_segment(d, SegReg::Fs, ds);
    lemma_segment(e, SegReg::Gs, ds);
}

proof fn lemma_boot_bits(f: u32, c0: u32, c4: u32, e: u64)
    by (bit_vector)
    ensures
        (f & !0x200u32) & 0x200 == 0,
        (c0 | 1) & 1 != 0,
        (c0 | (1u32 | 0x8000_0000u32 | 0x1_0000u32)) & 0x8000_0000 != 0,
        (c4 | 0x20) & 0x20 != 0,
        (e | (0x100u64 | 0x800u64 | 1u64)) & 0x100 != 0,
        ((e | (0x100u64 | 0x800u64 | 1u64)) | 0x400) & 0x400 != 0,
        (0x00AF_9A00_0000_FFFFu64 >> 53) & 1 == 1,
        (0x00CF_9A00_0000_FFFFu64 >> 53) & 1 == 0,
        (8u16 >> 3) & 0x1FFF == 1,
        8u16 & 4 == 0,
        0x1808usize & 0xFFF == 0x808,
        6u8 & 15 == 6,
        4u8 & 15 == 4,
{
}

/// What protected mode is entered with.
proof fn lemma_protected(s: State)
    requires
        s.regs.len() == 16,
        s.seg_desc.len() == 6,
    ensures
        ({
            let t = s.protected_entered();
            &&& t.pe
            &&& t.reg32(6) == BOOT_PARAMS_ADDR
            &&& !t.flag(flags::IF)
        }),
{
    reveal(State::protected_entered);
    let p = State {
        mem: s.mem.gdt_written(),
        gdt_base: crate::boot::GDT_ADDR as u64,
        gdt_limit: 24,
        pe: true,
        cr0: s.cr0 | 1,
        ..s
    };
    lemma_flat(p, crate::boot::KERNEL_CS, crate::boot::KERNEL_DS);
    lemma_boot_bits(p.flags, 0, 0, 0);
}

/// A bzImage is entered in protected mode at its entry point, with interrupts
/// off and ESI on `boot_params`.
pub proof fn law_a_kernel_starts_in_protected_mode(s: State, image: Seq<u8>, line: Seq<u8>)
    requires
        s.regs.len() == 16,
        s.seg_desc.len() == 6,
        s.boot_bzimage(image, line).1 is Ok,
    ensures
        ({
            let (t, r) = s.boot_bzimage(image, line);
            &&& t.rip == r->Ok_0.code32_start
            &&& t.pe
            &&& t.reg32(6) == BOOT_PARAMS_ADDR
            &&& !t.flag(flags::IF)
            &&& !t.halted
        }),
{
    reveal(State::kernel_loaded);
    lemma_protected(State { mem: s.mem.kernel_written(image, line), ..s });
}

/// What long mode is turned on over.
proof fn lemma_long_enabled(s: State)
    requires
        s.mem.data.len() >= 0x10_0000,
    ensures
        ({
            let t = s.long_enabled();
            &&& t.regs == s.regs
            &&& t.seg_desc == s.seg_desc
            &&& t.pe
            &&& t.paging()
            &&& t.long_mode()
            &&& t.cr3 == PML4_ADDR
            &&& t.descriptor_for(crate::boot::KERNEL_CS64).l
        }),
{
    reveal(State::long_enabled);
    reveal(State::flushed);
    reveal(State::descriptor_for);
    reveal(State::peek_phys);
    reveal(State::peek_span);
    reveal(MemView::span_read);
    reveal(MemView::gdt64_written);
    reveal(crate::protected::parsed);
    lemma_boot_bits(0, s.cr0, s.cr4, s.efer);
    let a = s.mem.write64(0x1800, 0);
    lemma_own64(s.mem, 0x1800, 0);
    let b = a.write64(0x1808, 0x00AF_9A00_0000_FFFF);
    lemma_own64(a, 0x1808, 0x00AF_9A00_0000_FFFF);
    lemma_other64(b, 0x1810, 0x00CF_9200_0000_FFFF, 0x1808);
    let g = s.mem.gdt64_written();
    lemma_map_elsewhere(g, 0x1808);
    law_low_memory_is_mapped_to_itself(g, 0x1808);
}

/// A 64-bit program is entered in 64-bit long mode: PAE and paging on over a
/// table that maps the low 4 GiB to itself, a code segment with the L bit, the
/// entry point in RIP, the stack in RSP and interrupts off.
pub proof fn law_a_program_starts_in_long_mode(s: State, entry: u64, stack: u64)
    requires
        s.mem.data.len() >= 0x10_0000,
        s.regs.len() == 16,
        s.seg_desc.len() == 6,
    ensures
        ({
            let t = s.long_entered(entry, stack);
            &&& t.long64()
            &&& t.mode() == crate::cpu::Mode::Long
            &&& t.paging()
            &&& t.rip == entry
            &&& t.reg64(4) == stack
            &&& !t.flag(flags::IF)
            &&& !t.halted
        }),
{
    reveal(State::long_entered);
    lemma_long_enabled(s);
    let e = s.long_enabled();
    lemma_flat(e, crate::boot::KERNEL_CS64, crate::boot::KERNEL_DS64);
    lemma_boot_bits(e.flat_segments(crate::boot::KERNEL_CS64, crate::boot::KERNEL_DS64).flags, 0, 0, 0);
}

/// The memory map in `boot_params` and the one the BIOS reports are the same
/// list, but for the entry that ends the BIOS's.
pub proof fn law_one_memory_map(ram: u64, i: int)
    requires
        0 <= i < crate::memory::e820_spec(ram).len(),
    ensures
        crate::bios::bios_map(ram)[i] == crate::memory::e820_spec(ram)[i],
{
}

} // verus!
