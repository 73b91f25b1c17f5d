//! Linux boot-protocol loader.
//!
//! Loads a bzImage (the Linux boot protocol) into the emulator and enters the
//! 32-bit protected-mode kernel entry point directly, bypassing the real-mode
//! setup code. It parses the setup header, loads the protected-mode kernel at
//! `code32_start`, builds a `boot_params` structure at 0x90000 (with the E820
//! memory map and command line), sets up a flat GDT, enables protected mode,
//! and jumps to the kernel with ESI pointing at `boot_params` -- exactly what
//! the kernel's `startup_32` expects.
//!
//! The same structures serve uncompressed ELF kernels, 32- and 64-bit, and the
//! long-mode entry serves flat 64-bit binaries too. Boot sectors and flat
//! 16-bit binaries are started in real mode.

use crate::cpu::{efer, flags, Cpu, SegReg, CR0_PE, CR0_PG, CR0_WP, CR4_PAE};
use crate::memory::{E820Entry, MemView, Memory, MMIO_HOLE_START};
use crate::paging::pte;
use crate::state::State;
use crate::text::{decimal, hex4, push_decimal, push_hex4};
use vstd::prelude::*;
use vstd::string::{StringExecFns, StringSliceAdditionalSpecFns};

verus! {

/// Physical address where the `boot_params` structure is built.
pub const BOOT_PARAMS_ADDR: u32 = 0x90000;

/// Physical address of the flat GDT.
pub const GDT_ADDR: u32 = 0x1000;

/// Physical address of the command line.
pub const CMDLINE_ADDR: u32 = 0x20000;

/// Flat code selector (GDT index 1).
pub const KERNEL_CS: u16 = 0x08;

/// Flat data selector (GDT index 2).
pub const KERNEL_DS: u16 = 0x10;

// Offsets of the setup-header fields, relative to the start of the boot
// sector (file offset 0 of the bzImage).
pub const SETUP_SECTS: usize = 0x1F1;
pub const SYSSIZE: usize = 0x1F4;
pub const BOOT_FLAG: usize = 0x1FE;
pub const HDR_MAGIC: usize = 0x202;
pub const TYPE_OF_LOADER: usize = 0x210;
pub const LOADFLAGS: usize = 0x211;
pub const CODE32_START: usize = 0x214;
pub const RAMDISK_IMAGE: usize = 0x218;
pub const RAMDISK_SIZE: usize = 0x21C;
pub const CMD_LINE_PTR: usize = 0x228;
pub const KERNEL_ALIGNMENT: usize = 0x22E;
pub const RELOCATABLE: usize = 0x232;
pub const PREF_ADDRESS: usize = 0x250;
pub const INIT_SIZE: usize = 0x258;

/// Bytes of setup header copied into `boot_params`.
pub const HDR_BYTES: usize = 0xEC;

// Offsets within `struct boot_params` (relative to `BOOT_PARAMS_ADDR`).
//
// `struct screen_info` occupies the first 0x40 bytes. It is what tells Linux
// there is a text console to write on: `vgacon_startup()` treats zero rows or
// columns as "screen_info was never filled in" and falls back to the dummy
// console, which silently discards every message.
pub const BP_ORIG_X: usize = 0x00;
pub const BP_ORIG_Y: usize = 0x01;
pub const BP_ORIG_VIDEO_PAGE: usize = 0x04;
pub const BP_ORIG_VIDEO_MODE: usize = 0x06;
pub const BP_ORIG_VIDEO_COLS: usize = 0x07;
pub const BP_ORIG_VIDEO_EGA_BX: usize = 0x0A;
pub const BP_ORIG_VIDEO_LINES: usize = 0x0E;
pub const BP_ORIG_VIDEO_ISVGA: usize = 0x0F;
pub const BP_ORIG_VIDEO_POINTS: usize = 0x10;

/// `orig_video_isVGA` value for a colour VGA text console (VIDEO_TYPE_VGAC).
pub const VIDEO_TYPE_VGAC: u8 = 0x22;

/// BIOS video mode 3: 80x25 colour text.
pub const VIDEO_MODE_COLOR_TEXT: u8 = 0x03;

/// `struct setup_header hdr`.
pub const BP_HDR: usize = 0x1F1;
pub const BP_ALT_MEM_K: usize = 0x1E0;
pub const BP_E820_ENTRIES: usize = 0x1E8;
pub const BP_E820_TABLE: usize = 0x2D0;

/// The `boot_params` structure as a memory address.
pub const BP: usize = 0x90000;

/// Longest command line handed to a kernel.
pub const CMDLINE_MAX: usize = 1023;

/// Physical address of the long-mode GDT, kept clear of the 32-bit one so a
/// 64-bit boot does not have to disturb it.
pub const GDT64_ADDR: u32 = 0x1800;

/// Physical address of the PML4. The levels sit in consecutive pages.
pub const PML4_ADDR: u32 = 0x2000;
pub const PDPT_ADDR: u32 = 0x3000;

/// Page directories for the identity map: one per GiB covered.
pub const PD_ADDR: u32 = 0x4000;

/// 64-bit code selector (GDT index 1) and data selector (index 2).
pub const KERNEL_CS64: u16 = 0x08;
pub const KERNEL_DS64: u16 = 0x10;

/// Bytes of a boot sector.
pub const SECTOR_BYTES: usize = 512;

/// Where a PC loads its boot sector, in segment 0.
pub const SECTOR_ADDR: u16 = 0x7C00;

/// Where the stack of a real-mode program starts: it grows down from the top
/// of segment 0.
pub const REAL_STACK: u16 = 0xFFFE;

/// How much physical memory the firmware identity-maps before handing over.
/// Four gigabytes, in 2 MiB pages -- enough for any payload to reach its own
/// image, the boot structures and the framebuffer without building its own
/// tables first.
pub const IDENTITY_MAP_BYTES: u64 = 0x1_0000_0000;

/// Why an image cannot be booted.
#[derive(Clone, Copy, Debug, PartialEq, Eq, Structural)]
pub enum BootError {
    /// The file is shorter than a boot sector.
    SectorTooSmall { have: u64 },
    /// The image cannot hold a setup header.
    NoSetupHeader,
    /// The boot flag is not 0xAA55.
    BadBootFlag { found: u16 },
    /// The setup header does not start with "HdrS".
    BadMagic,
    /// The image ends before the kernel does.
    Truncated { need: u64, offset: u64, have: u64 },
    /// The file is not an ELF.
    NotElf,
    /// The file is an ELF, but of the 32-bit class.
    NotElf64,
    /// The ELF has no usable program headers.
    NoProgramHeaders,
    /// The program header table runs past the end of the file.
    HeadersPastEnd,
    /// A loadable segment runs past the end of the file.
    SegmentPastEnd,
    /// The ramdisk does not fit in low memory.
    RamdiskTooLarge,
}

impl BootError {
    /// The error in words, with the numbers it is about.
    pub open spec fn text(self) -> Seq<char> {
        match self {
            BootError::SectorTooSmall { have } => "boot sector must be at least 512 bytes (got "@
                + decimal(have as nat) + ")"@,
            BootError::NoSetupHeader => "image too small to contain a setup header"@,
            BootError::BadBootFlag { found } => "bad boot flag 0x"@ + hex4(found)
                + " (not a bzImage?)"@,
            BootError::BadMagic => "bad setup header magic (not 'HdrS')"@,
            BootError::Truncated { need, offset, have } => "image too small for kernel (need "@
                + decimal(need as nat) + " bytes at offset "@ + decimal(offset as nat) + ", have "@
                + decimal(have as nat) + ")"@,
            BootError::NotElf => "not an ELF file"@,
            BootError::NotElf64 => "not a 64-bit ELF (class is ELF32)"@,
            BootError::NoProgramHeaders => "ELF has no program headers"@,
            BootError::HeadersPastEnd => "program header table runs past the end of the file"@,
            BootError::SegmentPastEnd => "PT_LOAD segment runs past the end of the file"@,
            BootError::RamdiskTooLarge => "ramdisk does not fit in low memory"@,
        }
    }

    /// The error in words.
    pub fn message(&self) -> (text: String)
        ensures
            text@ == self.text(),
    {
        match *self {
            BootError::SectorTooSmall { have } => {
                let mut text = String::from_str("boot sector must be at least 512 bytes (got ");
                push_decimal(&mut text, have);
                text.append(")");
                text
            },
            BootError::NoSetupHeader => String::from_str("image too small to contain a setup header"),
            BootError::BadBootFlag { found } => {
                let mut text = String::from_str("bad boot flag 0x");
                push_hex4(&mut text, found);
                text.append(" (not a bzImage?)");
                text
            },
            BootError::BadMagic => String::from_str("bad setup header magic (not 'HdrS')"),
            BootError::Truncated { need, offset, have } => {
                let mut text = String::from_str("image too small for kernel (need ");
                push_decimal(&mut text, need);
                text.append(" bytes at offset ");
                push_decimal(&mut text, offset);
                text.append(", have ");
                push_decimal(&mut text, have);
                text.append(")");
                text
            },
            BootError::NotElf => String::from_str("not an ELF file"),
            BootError::NotElf64 => String::from_str("not a 64-bit ELF (class is ELF32)"),
            BootError::NoProgramHeaders => String::from_str("ELF has no program headers"),
            BootError::HeadersPastEnd => String::from_str("program header table runs past the end of the file"),
            BootError::SegmentPastEnd => String::from_str("PT_LOAD segment runs past the end of the file"),
            BootError::RamdiskTooLarge => String::from_str("ramdisk does not fit in low memory"),
        }
    }
}

/// Info parsed from the bzImage setup header.
#[derive(Clone, Copy, Debug, PartialEq, Eq, Structural)]
pub struct KernelInfo {
    pub setup_sects: usize,
    pub syssize: u32,
    pub code32_start: u32,
    pub loadflags: u8,
    pub relocatable: bool,
    pub kernel_alignment: u32,
    pub pref_address: u64,
    pub init_size: u32,
    pub kernel_offset: usize,
    pub kernel_len: usize,
}

/// The little-endian 16-bit value at an offset of a file.
pub open spec fn le16_at(b: Seq<u8>, off: int) -> u16 {
    crate::memory::le16(b[off], b[off + 1])
}

/// The little-endian 32-bit value at an offset of a file.
pub open spec fn le32_at(b: Seq<u8>, off: int) -> u32 {
    crate::memory::le32(b[off], b[off + 1], b[off + 2], b[off + 3])
}

/// The little-endian 64-bit value at an offset of a file.
pub open spec fn le64_at(b: Seq<u8>, off: int) -> u64 {
    crate::memory::halves64(le32_at(b, off), le32_at(b, off + 4))
}

/// What a setup header says.
pub open spec fn header_info(image: Seq<u8>) -> KernelInfo {
    let setup_sects = image[SETUP_SECTS as int] as usize;
    let syssize = le32_at(image, SYSSIZE as int);
    KernelInfo {
        setup_sects,
        syssize,
        code32_start: le32_at(image, CODE32_START as int),
        loadflags: image[LOADFLAGS as int],
        relocatable: image[RELOCATABLE as int] != 0,
        kernel_alignment: le32_at(image, KERNEL_ALIGNMENT as int),
        pref_address: le64_at(image, PREF_ADDRESS as int),
        init_size: le32_at(image, INIT_SIZE as int),
        kernel_offset: ((setup_sects + 1) * 512) as usize,
        kernel_len: (syssize * 16) as usize,
    }
}

/// The parse of a bzImage: its setup header, or what is wrong with it.
pub open spec fn bzimage(image: Seq<u8>) -> Result<KernelInfo, BootError> {
    let flag = le16_at(image, BOOT_FLAG as int);
    let offset = (image[SETUP_SECTS as int] + 1) * 512;
    let need = le32_at(image, SYSSIZE as int) * 16;
    if image.len() < 0x260 {
        Err(BootError::NoSetupHeader)
    } else if flag != 0xAA55 {
        Err(BootError::BadBootFlag { found: flag })
    } else if le32_at(image, HDR_MAGIC as int) != 0x5372_6448 {
        Err(BootError::BadMagic)
    } else if image.len() < offset + need {
        Err(
            BootError::Truncated {
                need: need as u64,
                offset: offset as u64,
                have: image.len() as u64,
            },
        )
    } else {
        Ok(header_info(image))
    }
}

/// The address of a setup-header field inside `boot_params`.
pub open spec fn hdr_field(field: usize) -> usize {
    (BP + BP_HDR + (field - SETUP_SECTS)) as usize
}

/// The part of a command line that is handed over.
pub open spec fn clipped(line: Seq<u8>) -> Seq<u8> {
    if line.len() < CMDLINE_MAX { line } else { line.take(CMDLINE_MAX as int) }
}

/// Where a ramdisk of a size goes: as high in low memory as it will, on a page
/// boundary. Kept below the 32-bit MMIO hole, since `ramdisk_image` is a u32.
pub open spec fn ramdisk_addr(ram: int, size: int) -> int {
    let top = if ram < MMIO_HOLE_START { ram } else { MMIO_HOLE_START as int };
    (top - size) / 4096 * 4096
}

impl MemView {
    /// Memory with a flat GDT: null, flat code, flat data.
    #[verifier::opaque]
    pub open spec fn gdt_written(self) -> MemView {
        self.write64(0x1000, 0).write64(0x1008, 0x00CF_9A00_0000_FFFF).write64(
            0x1010,
            0x00CF_9200_0000_FFFF,
        )
    }

    /// Memory with a GDT for long mode: null, 64-bit code, data.
    #[verifier::opaque]
    pub open spec fn gdt64_written(self) -> MemView {
        self.write64(0x1800, 0).write64(0x1808, 0x00AF_9A00_0000_FFFF).write64(
            0x1810,
            0x00CF_9200_0000_FFFF,
        )
    }

    /// Memory with `boot_params.screen_info` describing the text console:
    /// mode 3, 80x25, colour VGA.
    #[verifier::opaque]
    pub open spec fn screen_info_written(self) -> MemView {
        self.write8((BP + BP_ORIG_X) as usize, 0).write8((BP + BP_ORIG_Y) as usize, 0).write16(
            (BP + BP_ORIG_VIDEO_PAGE) as usize,
            0,
        ).write8((BP + BP_ORIG_VIDEO_MODE) as usize, VIDEO_MODE_COLOR_TEXT).write8(
            (BP + BP_ORIG_VIDEO_COLS) as usize,
            80,
        ).write16((BP + BP_ORIG_VIDEO_EGA_BX) as usize, 3).write8(
            (BP + BP_ORIG_VIDEO_LINES) as usize,
            25,
        ).write8((BP + BP_ORIG_VIDEO_ISVGA) as usize, VIDEO_TYPE_VGAC).write16(
            (BP + BP_ORIG_VIDEO_POINTS) as usize,
            16,
        )
    }

    /// Memory with the first `n` entries of a memory map in `boot_params`.
    pub open spec fn e820_table(self, map: Seq<E820Entry>, n: int) -> MemView
        decreases n,
    {
        if n <= 0 {
            self
        } else {
            let e = (BP + BP_E820_TABLE + (n - 1) * 20) as usize;
            self.e820_table(map, n - 1).write64(e, map[n - 1].0).write64(
                (e + 8) as usize,
                map[n - 1].1,
            ).write32((e + 16) as usize, map[n - 1].2)
        }
    }

    /// Memory with the machine's own map in `boot_params`, and the size of
    /// extended memory for kernels that do not read it.
    #[verifier::opaque]
    pub open spec fn e820_written(self) -> MemView {
        let map = crate::memory::e820_spec(self.data.len() as u64);
        let m = self.e820_table(map, map.len() as int).write8(
            (BP + BP_E820_ENTRIES) as usize,
            map.len() as u8,
        );
        m.write32(
            (BP + BP_ALT_MEM_K) as usize,
            crate::bios::extended_kb(m.data.len() as u64) as u32,
        )
    }

    /// Memory with a NUL-terminated command line, and `boot_params` pointing
    /// at it.
    #[verifier::opaque]
    pub open spec fn cmdline_written(self, line: Seq<u8>) -> MemView {
        let c = clipped(line);
        self.load(CMDLINE_ADDR as usize, c).write8((CMDLINE_ADDR + c.len()) as usize, 0)
    }

    /// Memory with `boot_params` naming the command line and the loader.
    #[verifier::opaque]
    pub open spec fn loader_written(self) -> MemView {
        self.write32(hdr_field(CMD_LINE_PTR), CMDLINE_ADDR).write8(hdr_field(TYPE_OF_LOADER), 0xFF)
    }

    /// Memory with a ramdisk at an address, and `boot_params` describing it.
    #[verifier::opaque]
    pub open spec fn ramdisk_written(self, disk: Seq<u8>, addr: int) -> MemView {
        self.load(addr as usize, disk).write32(hdr_field(RAMDISK_IMAGE), addr as u32).write32(
            hdr_field(RAMDISK_SIZE),
            disk.len() as u32,
        )
    }

    /// Memory with a bzImage's kernel and a filled-in `boot_params`.
    pub open spec fn kernel_written(self, image: Seq<u8>, line: Seq<u8>) -> MemView {
        let info = header_info(image);
        let body = image.subrange(
            info.kernel_offset as int,
            info.kernel_offset + info.kernel_len,
        );
        let header = image.subrange(SETUP_SECTS as int, SETUP_SECTS + HDR_BYTES);
        let m = self.load(info.code32_start as usize, body).load(
            (BP + BP_HDR) as usize,
            header,
        ).write8(hdr_field(TYPE_OF_LOADER), 0xFF);
        m.write8(hdr_field(LOADFLAGS), m.read8(hdr_field(LOADFLAGS)) | 0x01).write32(
            hdr_field(CODE32_START),
            info.code32_start,
        ).write32(hdr_field(CMD_LINE_PTR), CMDLINE_ADDR).cmdline_written(line).e820_written()
    }

    /// Memory with a table of quad words.
    pub open spec fn qwords(self, base: usize, s: Seq<u64>) -> MemView
        decreases s.len(),
    {
        if s.len() == 0 {
            self
        } else {
            let n = s.len() - 1;
            self.qwords(base, s.take(n)).write64((base + n * 8) as usize, s[n])
        }
    }

    /// Memory with the page directories of the first `g` GiB.
    pub open spec fn directories(self, g: int) -> MemView
        decreases g,
    {
        if g <= 0 {
            self
        } else {
            self.directories(g - 1).qwords((PD_ADDR + (g - 1) * 0x1000) as usize, directory(g - 1))
        }
    }

    /// Memory with a 4-level page table that identity-maps the low 4 GiB.
    #[verifier::opaque]
    pub open spec fn identity_mapped(self) -> MemView {
        self.qwords(PML4_ADDR as usize, crate::state::zeros(512)).write64(
            PML4_ADDR as usize,
            0x3003,
        ).qwords(PDPT_ADDR as usize, pointer_table()).directories(4)
    }

    /// Memory with `n` bytes cleared.
    pub open spec fn cleared(self, addr: usize, from: int, n: int) -> MemView
        decreases n - from,
    {
        if n <= from {
            self
        } else {
            self.cleared(addr, from, n - 1).write8(addr.wrapping_add((n - 1) as usize), 0)
        }
    }
}

/// The page-directory-pointer table of the identity map: one present, writable
/// entry per GiB.
pub open spec fn pointer_table() -> Seq<u64> {
    Seq::new(512, |i: int| if i < 4 { ((PD_ADDR + i * 0x1000) as u64) | 3 } else { 0 })
}

/// The page directory of one GiB of the identity map: 2 MiB pages, present and
/// writable.
pub open spec fn directory(g: int) -> Seq<u64> {
    Seq::new(512, |i: int| ((g * 0x4000_0000 + i * 0x20_0000) as u64) | 3 | pte::PS)
}

/// A program header's view of a segment: where it is in the file and in
/// memory.
pub struct Segment {
    pub kind: u32,
    pub offset: u64,
    pub paddr: u64,
    pub filesz: u64,
    pub memsz: u64,
}

/// The segment an ELF64 program header at an offset describes.
pub open spec fn segment64(elf: Seq<u8>, off: int) -> Segment {
    Segment {
        kind: le32_at(elf, off),
        offset: le64_at(elf, off + 8),
        paddr: le64_at(elf, off + 24),
        filesz: le64_at(elf, off + 32),
        memsz: le64_at(elf, off + 40),
    }
}

/// The segment an ELF32 program header at an offset describes.
pub open spec fn segment32(elf: Seq<u8>, off: int) -> Segment {
    Segment {
        kind: le32_at(elf, off),
        offset: le32_at(elf, off + 4) as u64,
        paddr: le32_at(elf, off + 12) as u64,
        filesz: le32_at(elf, off + 16) as u64,
        memsz: le32_at(elf, off + 20) as u64,
    }
}

/// A program header table: where it starts, how long an entry is, and how many
/// there are.
pub struct HeaderTable {
    pub start: u64,
    pub size: u16,
    pub count: u16,
    /// The ELF64 layout?
    pub wide: bool,
}

impl HeaderTable {
    /// The offset of a header.
    pub open spec fn offset(self, i: int) -> int {
        self.start + i * self.size
    }

    /// The segment a header describes.
    pub open spec fn segment(self, elf: Seq<u8>, i: int) -> Segment {
        if self.wide {
            segment64(elf, self.offset(i))
        } else {
            segment32(elf, self.offset(i))
        }
    }

    /// The bytes of a header that are read.
    pub open spec fn needed(self) -> int {
        if self.wide { 56 } else { 24 }
    }
}

/// Memory with a segment in it: the file's bytes, then zeros.
pub open spec fn segment_loaded(m: MemView, elf: Seq<u8>, g: Segment) -> MemView {
    m.load(
        g.paddr as usize,
        elf.subrange(g.offset as int, g.offset + g.filesz),
    ).cleared(g.paddr as usize, g.filesz as int, g.memsz as int)
}

/// The outcome of loading the segments from header `i` on: memory, the highest
/// address reached so far, and what stopped the loading if anything did.
pub open spec fn segments_loaded(
    m: MemView,
    elf: Seq<u8>,
    t: HeaderTable,
    i: int,
    top: u64,
) -> (MemView, u64, Option<BootError>)
    decreases t.count - i,
{
    if i >= t.count {
        (m, top, None)
    } else if t.offset(i) + t.needed() > elf.len() {
        (m, top, Some(BootError::HeadersPastEnd))
    } else {
        let g = t.segment(elf, i);
        if g.kind != 1 {
            segments_loaded(m, elf, t, i + 1, top)
        } else if g.offset + g.filesz > elf.len() {
            (m, top, Some(BootError::SegmentPastEnd))
        } else {
            let end = g.paddr.wrapping_add(g.memsz);
            segments_loaded(
                segment_loaded(m, elf, g),
                elf,
                t,
                i + 1,
                if end > top { end } else { top },
            )
        }
    }
}

/// Does a file start like an ELF?
pub open spec fn is_elf(elf: Seq<u8>) -> bool {
    elf[0] == 0x7F && elf[1] == 0x45 && elf[2] == 0x4C && elf[3] == 0x46
}

/// The program header table of an ELF64.
pub open spec fn elf64_table(elf: Seq<u8>) -> Result<HeaderTable, BootError> {
    if elf.len() < 64 || !is_elf(elf) {
        Err(BootError::NotElf)
    } else if elf[4] != 2 {
        Err(BootError::NotElf64)
    } else if le16_at(elf, 56) == 0 || le16_at(elf, 54) < 56 {
        Err(BootError::NoProgramHeaders)
    } else {
        Ok(
            HeaderTable {
                start: le64_at(elf, 32),
                size: le16_at(elf, 54),
                count: le16_at(elf, 56),
                wide: true,
            },
        )
    }
}

/// The program header table of an ELF32.
pub open spec fn elf32_table(elf: Seq<u8>) -> Result<HeaderTable, BootError> {
    if elf.len() < 52 || !is_elf(elf) {
        Err(BootError::NotElf)
    } else if le16_at(elf, 44) == 0 || le16_at(elf, 42) < 32 {
        Err(BootError::NoProgramHeaders)
    } else {
        Ok(
            HeaderTable {
                start: le32_at(elf, 28) as u64,
                size: le16_at(elf, 42),
                count: le16_at(elf, 44),
                wide: false,
            },
        )
    }
}

/// A stack above an image that ends at `top`: page-aligned, and inside the
/// identity map.
pub open spec fn stack_above(top: u64, room: u64) -> u64 {
    let s = top.wrapping_add(room) & !0xFFFu64;
    if s < IDENTITY_MAP_BYTES - 0x1000 { s } else { (IDENTITY_MAP_BYTES - 0x1000) as u64 }
}

impl State {
    /// Every segment register loaded: CS with one selector, the others with
    /// another.
    #[verifier::opaque]
    pub open spec fn flat_segments(self, cs: u16, ds: u16) -> State {
        self.load_seg(SegReg::Cs, cs).load_seg(SegReg::Ds, ds).load_seg(SegReg::Es, ds).load_seg(
            SegReg::Ss,
            ds,
        ).load_seg(SegReg::Fs, ds).load_seg(SegReg::Gs, ds)
    }

    /// Protected mode entered with the flat GDT: flat segments, a stack below
    /// `boot_params`, ESI on it, and interrupts disabled.
    #[verifier::opaque]
    pub open spec fn protected_entered(self) -> State {
        let s = State {
            mem: self.mem.gdt_written(),
            gdt_base: GDT_ADDR as u64,
            gdt_limit: 24,
            pe: true,
            cr0: self.cr0 | 1,
            ..self
        };
        s.flat_segments(KERNEL_CS, KERNEL_DS).with_reg32(4, 0x8FFF0).with_reg32(
            6,
            BOOT_PARAMS_ADDR,
        ).with_flag(flags::IF, false)
    }

    /// Long mode turned on over the identity map. The order is the whole of
    /// the entry sequence: CR4.PAE, CR3, EFER.LME, then CR0.PG.
    #[verifier::opaque]
    pub open spec fn long_enabled(self) -> State {
        State {
            mem: self.mem.gdt64_written().identity_mapped(),
            gdt_base: GDT64_ADDR as u64,
            gdt_limit: 23,
            cr4: self.cr4 | CR4_PAE,
            cr3: PML4_ADDR as u64,
            efer: self.efer | (efer::LME | efer::NXE | efer::SCE),
            pe: true,
            cr0: self.cr0 | (CR0_PE | CR0_PG | CR0_WP),
            ..self
        }.update_long_mode().flushed()
    }

    /// The machine in 64-bit code at an entry point, with a stack.
    #[verifier::opaque]
    pub open spec fn long_entered(self, entry: u64, stack: u64) -> State {
        let s = self.long_enabled().flat_segments(KERNEL_CS64, KERNEL_DS64).with_reg64(4, stack);
        State { rip: entry, halted: false, ..s.with_flag(flags::IF, false) }.unfetched()
    }

    /// A bzImage loaded and entered.
    #[verifier::opaque]
    pub open spec fn kernel_loaded(self, image: Seq<u8>, line: Seq<u8>) -> State {
        State {
            rip: header_info(image).code32_start as u64,
            halted: false,
            ..State { mem: self.mem.kernel_written(image, line), ..self }.protected_entered()
        }
    }

    /// The outcome of booting a bzImage. Nothing changes unless it parses and
    /// holds a whole setup header.
    pub open spec fn boot_bzimage(self, image: Seq<u8>, line: Seq<u8>) -> (
        State,
        Result<KernelInfo, BootError>,
    ) {
        match bzimage(image) {
            Err(e) => (self, Err(e)),
            Ok(info) => if image.len() < SETUP_SECTS + HDR_BYTES {
                (self, Err(BootError::NoSetupHeader))
            } else {
                (self.kernel_loaded(image, line), Ok(info))
            },
        }
    }

    /// Memory prepared for an ELF kernel: console, memory map, command line
    /// and ramdisk described in `boot_params`.
    #[verifier::opaque]
    pub open spec fn params_written(self, line: Seq<u8>) -> State {
        State {
            mem: self.mem.screen_info_written().e820_written().cmdline_written(
                line,
            ).loader_written(),
            ..self
        }
    }

    /// A ramdisk placed, or the reason it cannot be.
    #[verifier::opaque]
    pub open spec fn ramdisk_placed(self, disk: Option<Seq<u8>>) -> (State, Option<BootError>) {
        match disk {
            None => (self, None),
            Some(d) => {
                let top = self.mem.data.len();
                if d.len() > top || d.len() > MMIO_HOLE_START {
                    (self, Some(BootError::RamdiskTooLarge))
                } else {
                    (
                        State {
                            mem: self.mem.ramdisk_written(
                                d,
                                ramdisk_addr(top as int, d.len() as int),
                            ),
                            ..self
                        },
                        None,
                    )
                }
            },
        }
    }

    /// The outcome of booting an ELF32 kernel.
    #[verifier::opaque]
    pub open spec fn boot_elf32(self, elf: Seq<u8>, line: Seq<u8>, disk: Option<Seq<u8>>) -> (
        State,
        Result<u32, BootError>,
    ) {
        match elf32_table(elf) {
            Err(e) => (self, Err(e)),
            Ok(t) => {
                let (m, _, stop) = segments_loaded(self.mem, elf, t, 0, 0);
                let s = State { mem: m, ..self };
                match stop {
                    Some(e) => (s, Err(e)),
                    None => {
                        let (p, refused) = s.ramdisk_placed(disk);
                        match refused {
                            Some(e) => (p, Err(e)),
                            None => (
                                State {
                                    rip: le32_at(elf, 24) as u64,
                                    halted: false,
                                    ..p.params_written(line).protected_entered()
                                },
                                Ok(le32_at(elf, 24)),
                            ),
                        }
                    },
                }
            },
        }
    }

    /// The outcome of booting an ELF64 kernel: long mode at its entry point,
    /// with RSI on `boot_params`.
    #[verifier::opaque]
    pub open spec fn boot_elf64(self, elf: Seq<u8>, line: Seq<u8>, disk: Option<Seq<u8>>) -> (
        State,
        Result<u64, BootError>,
    ) {
        match elf64_table(elf) {
            Err(e) => (self, Err(e)),
            Ok(t) => {
                let (m, top, stop) = segments_loaded(self.mem, elf, t, 0, 0);
                let s = State { mem: m, ..self };
                match stop {
                    Some(e) => (s, Err(e)),
                    None => {
                        let (p, refused) = s.params_written(line).ramdisk_placed(disk);
                        match refused {
                            Some(e) => (p, Err(e)),
                            None => {
                                let floor = if top > 0x10_0000 { top } else { 0x10_0000 };
                                (
                                    p.long_entered(
                                        le64_at(elf, 24),
                                        stack_above(floor, 0x10_0000),
                                    ).with_reg64(6, BOOT_PARAMS_ADDR as u64),
                                    Ok(le64_at(elf, 24)),
                                )
                            },
                        }
                    },
                }
            },
        }
    }

    /// A flat 64-bit binary loaded at an address and entered.
    #[verifier::opaque]
    pub open spec fn boot_flat64(self, code: Seq<u8>, addr: u64) -> State {
        State { mem: self.mem.load(addr as usize, code), ..self }.long_entered(
            addr,
            stack_above(addr.wrapping_add(code.len() as u64), 0x1_0000),
        )
    }

    /// The machine about to run a real-mode program at `segment:offset`.
    pub open spec fn real_started(self, segment: u16, offset: u16) -> State {
        State {
            cs: segment,
            ip: offset,
            ds: segment,
            es: segment,
            ss: 0,
            ..self.with_reg16(4, REAL_STACK)
        }
    }

    /// The machine with a flat 16-bit binary at `segment:offset`, about to run
    /// it.
    #[verifier::opaque]
    pub open spec fn boot_flat16(self, code: Seq<u8>, segment: u16, offset: u16) -> State {
        State {
            mem: self.mem.load(crate::memory::phys_of(segment, offset), code),
            ..self.real_started(segment, offset)
        }
    }

    /// The machine with a boot sector at 0000:0x7C00, about to run it. Only the
    /// first 512 bytes of an image are a boot sector, and a shorter image is
    /// none.
    #[verifier::opaque]
    pub open spec fn boot_sector(self, image: Seq<u8>) -> (State, Result<(), BootError>) {
        if image.len() < SECTOR_BYTES {
            (self, Err(BootError::SectorTooSmall { have: image.len() as u64 }))
        } else {
            (
                State {
                    mem: self.mem.load(SECTOR_ADDR as usize, image.take(SECTOR_BYTES as int)),
                    ..self.real_started(0, SECTOR_ADDR)
                },
                Ok(()),
            )
        }
    }
}

fn le16(b: &[u8], off: usize) -> (v: u16)
    requires
        off + 2 <= b@.len(),
    ensures
        v == le16_at(b@, off as int),
{
    (b[off] as u16) | ((b[off + 1] as u16) << 8)
}

fn le32(b: &[u8], off: usize) -> (v: u32)
    requires
        off + 4 <= b@.len(),
    ensures
        v == le32_at(b@, off as int),
{
    (b[off] as u32) | ((b[off + 1] as u32) << 8) | ((b[off + 2] as u32) << 16) | ((b[off + 3]
        as u32) << 24)
}

fn le64(b: &[u8], off: usize) -> (v: u64)
    requires
        off + 8 <= b@.len(),
    ensures
        v == le64_at(b@, off as int),
{
    let _total: usize = b.len();
    (le32(b, off) as u64) | ((le32(b, off + 4) as u64) << 32)
}

/// Parse the setup header of a bzImage.
///
/// The setup header lives at file offset `0x1F1` (after the 512-byte boot
/// sector). The boot flag (0xAA55) and the "HdrS" magic are validated, then
/// the fields needed to load and enter the kernel are read.
pub fn parse_bzimage(image: &[u8]) -> (r: Result<KernelInfo, BootError>)
    ensures
        r == bzimage(image@),
{
    if image.len() < 0x260 {
        return Err(BootError::NoSetupHeader);
    }
    let boot_flag: u16 = le16(image, BOOT_FLAG);
    if boot_flag != 0xAA55 {
        return Err(BootError::BadBootFlag { found: boot_flag });
    }
    let magic: u32 = le32(image, HDR_MAGIC);
    if magic != 0x5372_6448 {  // "HdrS"
        return Err(BootError::BadMagic);
    }
    let setup_sects: usize = image[SETUP_SECTS] as usize;
    let syssize: u32 = le32(image, SYSSIZE);
    let offset: u64 = (setup_sects as u64 + 1) * 512;
    let need: u64 = syssize as u64 * 16;
    if (image.len() as u64) < offset + need {
        return Err(BootError::Truncated { need, offset, have: image.len() as u64 });
    }
    Ok(
        KernelInfo {
            setup_sects,
            syssize,
            code32_start: le32(image, CODE32_START),
            loadflags: image[LOADFLAGS],
            relocatable: image[RELOCATABLE] != 0,
            kernel_alignment: le32(image, KERNEL_ALIGNMENT),
            pref_address: le64(image, PREF_ADDRESS),
            init_size: le32(image, INIT_SIZE),
            kernel_offset: offset as usize,
            kernel_len: need as usize,
        },
    )
}

impl Memory {
    /// Store part of a file in memory.
    fn load_part(&mut self, addr: usize, file: &[u8], from: usize, n: usize)
        requires
            from + n <= file@.len(),
        ensures
            final(self)@ == old(self)@.load(addr, file@.subrange(from as int, from + n)),
    {
        let ghost part = file@.subrange(from as int, from + n);
        let total: usize = file.len();
        let mut i: usize = 0;
        assert(part.take(0) =~= Seq::<u8>::empty());
        while i < n
            invariant
                i <= n,
                total == file@.len(),
                from + n <= total,
                part == file@.subrange(from as int, from + n),
                self@ == old(self)@.load(addr, part.take(i as int)),
            decreases n - i,
        {
            self.write_u8(addr.wrapping_add(i), file[from + i]);
            i = i + 1;
            assert(part.take(i as int).take(i - 1) =~= part.take(i - 1));
        }
        assert(part.take(i as int) =~= part);
    }

    /// Clear the bytes from `from` to `n` of a region.
    fn clear_part(&mut self, addr: usize, from: u64, n: u64)
        ensures
            final(self)@ == old(self)@.cleared(addr, from as int, n as int),
    {
        let mut i: u64 = from;
        while i < n
            invariant
                n <= from ==> i == from,
                from <= n ==> from <= i <= n,
                self@ == old(self)@.cleared(addr, from as int, i as int),
            decreases n - i,
        {
            self.write_u8(addr.wrapping_add(i as usize), 0);
            i = i + 1;
        }
    }

    /// Write a flat GDT (null, flat code, flat data) at `GDT_ADDR`.
    fn write_gdt(&mut self)
        ensures
            final(self)@ == old(self)@.gdt_written(),
    {
        proof {
            reveal(MemView::gdt_written);
        }
        // Null descriptor.
        self.write_u64(0x1000, 0);
        // Flat code: base 0, limit 4 GB, G=1, D=1, present, DPL0, type 0x9A.
        self.write_u64(0x1008, 0x00CF_9A00_0000_FFFF);
        // Flat data: base 0, limit 4 GB, G=1, D=1, present, DPL0, type 0x92.
        self.write_u64(0x1010, 0x00CF_9200_0000_FFFF);
    }

    /// Write a GDT with a null descriptor, a 64-bit code segment and a data
    /// segment.
    ///
    /// The 64-bit code segment is recognisable by what it *lacks*: no base, no
    /// limit (both are ignored in 64-bit mode), D/B clear and **L set**. A
    /// descriptor with D/B set instead of L is a perfectly valid 32-bit
    /// segment -- which is why a mistake here does not fault, it just quietly
    /// runs 64-bit code as 32-bit.
    fn write_gdt64(&mut self)
        ensures
            final(self)@ == old(self)@.gdt64_written(),
    {
        proof {
            reveal(MemView::gdt64_written);
        }
        self.write_u64(0x1800, 0);
        // Code: present, DPL 0, code, readable; G=1, L=1, D=0.
        self.write_u64(0x1808, 0x00AF_9A00_0000_FFFF);
        // Data: present, DPL 0, data, writable. Long mode ignores the rest.
        self.write_u64(0x1810, 0x00CF_9200_0000_FFFF);
    }

    /// Fill in `boot_params.screen_info` to describe the emulated VGA text
    /// console: mode 3, 80x25, colour VGA. Without this Linux picks the dummy
    /// console and nothing ever reaches the screen.
    fn write_screen_info(&mut self)
        ensures
            final(self)@ == old(self)@.screen_info_written(),
    {
        proof {
            reveal(MemView::screen_info_written);
        }
        self.write_u8(BP + BP_ORIG_X, 0);
        self.write_u8(BP + BP_ORIG_Y, 0);
        self.write_u16(BP + BP_ORIG_VIDEO_PAGE, 0);
        self.write_u8(BP + BP_ORIG_VIDEO_MODE, VIDEO_MODE_COLOR_TEXT);
        self.write_u8(BP + BP_ORIG_VIDEO_COLS, 80);
        // EGA BX: 3 means colour, 64 KB of video memory.
        self.write_u16(BP + BP_ORIG_VIDEO_EGA_BX, 3);
        self.write_u8(BP + BP_ORIG_VIDEO_LINES, 25);
        self.write_u8(BP + BP_ORIG_VIDEO_ISVGA, VIDEO_TYPE_VGAC);
        // Character cell height, in scan lines.
        self.write_u16(BP + BP_ORIG_VIDEO_POINTS, 16);
    }

    /// Write the E820 memory map into `boot_params`.
    ///
    /// The map is the machine's own (`Memory::e820`), not a second description
    /// of it: a bootloader that told the kernel something the BIOS would not
    /// have is how a guest ends up using RAM that is not there.
    fn write_e820(&mut self)
        ensures
            final(self)@ == old(self)@.e820_written(),
    {
        proof {
            reveal(MemView::e820_written);
        }
        let map: Vec<E820Entry> = self.e820();
        let ghost entries = map@;
        let n: usize = map.len();
        assert(n <= 6);
        let mut i: usize = 0;
        while i < n
            invariant
                i <= n <= 6,
                n == map@.len(),
                self@ == old(self)@.e820_table(map@, i as int),
            decreases n - i,
        {
            let (base, len, kind): E820Entry = map[i];
            let e: usize = BP + BP_E820_TABLE + i * 20;
            self.write_u64(e, base);
            self.write_u64(e + 8, len);
            self.write_u32(e + 16, kind);
            i = i + 1;
        }
        self.write_u8(BP + BP_E820_ENTRIES, n as u8);
        // alt_mem_k is the pre-E820 fallback: extended memory in KB above
        // 1 MiB, only consulted when the E820 map is missing.
        let ram: u64 = self.ram_size();
        let low: u64 = if ram < MMIO_HOLE_START {
            ram
        } else {
            MMIO_HOLE_START
        };
        let kb: u64 = if low < 0x10_0000 {
            0
        } else {
            (low - 0x10_0000) / 1024
        };
        self.write_u32(BP + BP_ALT_MEM_K, kb as u32);
    }

    /// Write the command line, NUL-terminated.
    fn write_cmdline(&mut self, line: &[u8])
        ensures
            final(self)@ == old(self)@.cmdline_written(line@),
    {
        proof {
            reveal(MemView::cmdline_written);
        }
        let n: usize = if line.len() < CMDLINE_MAX {
            line.len()
        } else {
            CMDLINE_MAX
        };
        assert(line@.subrange(0, n as int) =~= clipped(line@));
        self.load_part(CMDLINE_ADDR as usize, line, 0, n);
        self.write_u8(CMDLINE_ADDR as usize + n, 0);
    }

    /// Name the command line and the loader in `boot_params`.
    ///
    /// `type_of_loader` 0xFF is "undefined bootloader". It has to be non-zero
    /// or the kernel ignores `ramdisk_image` entirely.
    fn write_loader(&mut self)
        ensures
            final(self)@ == old(self)@.loader_written(),
    {
        proof {
            reveal(MemView::loader_written);
        }
        self.write_u32(BP + BP_HDR + (CMD_LINE_PTR - SETUP_SECTS), CMDLINE_ADDR);
        self.write_u8(BP + BP_HDR + (TYPE_OF_LOADER - SETUP_SECTS), 0xFF);
    }

    /// Write one entry of a table after another.
    fn write_qwords(&mut self, base: usize, s: &Vec<u64>)
        requires
            s@.len() <= 512,
            base <= 0x10_0000,
        ensures
            final(self)@ == old(self)@.qwords(base, s@),
    {
        let n: usize = s.len();
        let mut i: usize = 0;
        assert(s@.take(0) =~= Seq::<u64>::empty());
        while i < n
            invariant
                i <= n,
                n == s@.len(),
                n <= 512,
                base <= 0x10_0000,
                self@ == old(self)@.qwords(base, s@.take(i as int)),
            decreases n - i,
        {
            self.write_u64(base + i * 8, s[i]);
            i = i + 1;
            assert(s@.take(i as int).take(i - 1) =~= s@.take(i - 1));
        }
        assert(s@.take(i as int) =~= s@);
    }
}

/// The entries of a page-directory-pointer table.
fn pointer_entries() -> (v: Vec<u64>)
    ensures
        v@ == pointer_table(),
{
    let mut v: Vec<u64> = Vec::new();
    let mut i: u64 = 0;
    while i < 512
        invariant
            i <= 512,
            v@.len() == i,
            forall|k: int| 0 <= k < i ==> v@[k] == pointer_table()[k],
        decreases 512 - i,
    {
        v.push(
            if i < 4 {
                (PD_ADDR as u64 + i * 0x1000) | 3
            } else {
                0
            },
        );
        i = i + 1;
    }
    assert(v@ =~= pointer_table());
    v
}

/// The entries of the page directory of one GiB.
fn directory_entries(g: u64) -> (v: Vec<u64>)
    requires
        g < 4,
    ensures
        v@ == directory(g as int),
{
    let mut v: Vec<u64> = Vec::new();
    let mut i: u64 = 0;
    while i < 512
        invariant
            i <= 512,
            g < 4,
            v@.len() == i,
            forall|k: int| 0 <= k < i ==> v@[k] == directory(g as int)[k],
        decreases 512 - i,
    {
        v.push((g * 0x4000_0000 + i * 0x20_0000) | 3 | pte::PS);
        i = i + 1;
    }
    assert(v@ =~= directory(g as int));
    v
}

/// A table with nothing in it.
fn empty_entries() -> (v: Vec<u64>)
    ensures
        v@ == crate::state::zeros(512),
{
    let mut v: Vec<u64> = Vec::new();
    let mut i: usize = 0;
    while i < 512
        invariant
            i <= 512,
            v@.len() == i,
            forall|k: int| 0 <= k < i ==> v@[k] == 0,
        decreases 512 - i,
    {
        v.push(0);
        i = i + 1;
    }
    assert(v@ =~= crate::state::zeros(512));
    v
}

/// Build a 4-level page table that identity-maps the low `IDENTITY_MAP_BYTES`
/// of physical memory with 2 MiB pages, and returns the PML4 address.
///
/// 2 MiB pages are not an optimisation here, they are what makes this
/// tractable: mapping four gigabytes with 4 KiB pages needs two thousand page
/// tables and eight megabytes of them, where the large-page form needs four.
pub fn build_identity_map(mem: &mut Memory) -> (root: u64)
    ensures
        root == PML4_ADDR,
        final(mem)@ == old(mem)@.identity_mapped(),
{
    proof {
        reveal(MemView::identity_mapped);
    }
    mem.write_qwords(PML4_ADDR as usize, &empty_entries());
    // PML4[0] -> PDPT, present and writable.
    mem.write_u64(PML4_ADDR as usize, 0x3003);
    mem.write_qwords(PDPT_ADDR as usize, &pointer_entries());
    // Each page directory maps one GiB as 512 2 MiB pages.
    let ghost start = mem@;
    let mut g: u64 = 0;
    while g < 4
        invariant
            g <= 4,
            mem@ == start.directories(g as int),
        decreases 4 - g,
    {
        mem.write_qwords(PD_ADDR as usize + g as usize * 0x1000, &directory_entries(g));
        g = g + 1;
    }
    PML4_ADDR as u64
}

impl Cpu {
    fn load_flat_segments(&mut self, cs: u16, ds: u16)
        ensures
            final(self)@ == old(self)@.flat_segments(cs, ds),
    {
        proof {
            reveal(State::flat_segments);
        }
        self.load_seg(SegReg::Cs, cs);
        self.load_seg(SegReg::Ds, ds);
        self.load_seg(SegReg::Es, ds);
        self.load_seg(SegReg::Ss, ds);
        self.load_seg(SegReg::Fs, ds);
        self.load_seg(SegReg::Gs, ds);
    }

    /// Shared protected-mode setup: write the flat GDT, enable protected mode,
    /// load flat segments.
    fn enter_protected_mode(&mut self)
        ensures
            final(self)@ == old(self)@.protected_entered(),
    {
        proof {
            reveal(State::protected_entered);
        }
        self.mem.write_gdt();
        self.gdt_base = GDT_ADDR as u64;
        self.gdt_limit = 24;
        self.pe = true;
        self.cr0 = self.cr0 | 1;
        self.load_flat_segments(KERNEL_CS, KERNEL_DS);
        // A stack below boot_params.
        self.set_esp(0x8FFF0);
        // The kernel reads boot_params from ESI.
        self.set_esi(BOOT_PARAMS_ADDR);
        // The kernel sets up its own IDT before enabling interrupts.
        self.set_flag(flags::IF, false);
    }

    /// Turn long mode on.
    fn enable_long_mode(&mut self)
        ensures
            final(self)@ == old(self)@.long_enabled(),
    {
        proof {
            reveal(State::long_enabled);
        }
        self.mem.write_gdt64();
        let pml4: u64 = build_identity_map(&mut self.mem);
        self.gdt_base = GDT64_ADDR as u64;
        self.gdt_limit = 23;
        self.cr4 = self.cr4 | CR4_PAE;
        self.cr3 = pml4;
        self.efer = self.efer | (efer::LME | efer::NXE | efer::SCE);
        self.pe = true;
        self.cr0 = self.cr0 | (CR0_PE | CR0_PG | CR0_WP);
        self.update_long_mode();
        self.flush_tlb();
    }

    /// Describe the machine to an ELF kernel.
    fn write_params(&mut self, line: &[u8])
        ensures
            final(self)@ == old(self)@.params_written(line@),
    {
        proof {
            reveal(State::params_written);
        }
        self.mem.write_screen_info();
        self.mem.write_e820();
        self.mem.write_cmdline(line);
        self.mem.write_loader();
    }

    /// Place an initial ramdisk in memory and record it in `boot_params.hdr`
    /// so the kernel can find it.
    ///
    /// Bootloaders load the ramdisk as high in low memory as it will go, clear
    /// of the kernel image and of the bootmem allocations that follow it.
    fn place_ramdisk(&mut self, disk: Option<&[u8]>) -> (r: Option<BootError>)
        ensures
            (final(self)@, r) == old(self)@.ramdisk_placed(
                match disk {
                    Some(d) => Some(d@),
                    None => None,
                },
            ),
    {
        proof {
            reveal(State::ramdisk_placed);
            reveal(MemView::ramdisk_written);
        }
        let d: &[u8] = match disk {
            Some(d) => d,
            None => {
                return None;
            },
        };
        let ram: u64 = self.mem.ram_size();
        let size: u64 = d.len() as u64;
        if size > ram || size > MMIO_HOLE_START {
            return Some(BootError::RamdiskTooLarge);
        }
        let top: u64 = if ram < MMIO_HOLE_START {
            ram
        } else {
            MMIO_HOLE_START
        };
        let addr: u64 = (top - size) / 4096 * 4096;
        self.mem.load(addr as usize, d);
        self.mem.write_u32(BP + BP_HDR + (RAMDISK_IMAGE - SETUP_SECTS), addr as u32);
        self.mem.write_u32(BP + BP_HDR + (RAMDISK_SIZE - SETUP_SECTS), size as u32);
        None
    }
}

/// Put the CPU into 64-bit long mode with an identity-mapped low 4 GiB, a flat
/// 64-bit GDT and a stack, exactly as firmware hands over to a 64-bit payload.
///
/// The order of the steps is the whole of the long-mode entry sequence, and
/// none of them can move:
///
/// 1. **CR4.PAE** first. Long mode is built on PAE's 8-byte entries.
/// 2. **CR3** pointing at a PML4 that already maps the code about to run: the
///    instruction after the next step is fetched through these tables.
/// 3. **EFER.LME**, which *asks* for long mode without entering it.
/// 4. **CR0.PG**, which enters it: the hardware sets EFER.LMA in response.
///
/// Real firmware then far-jumps into a 64-bit code segment. Here the segment
/// is simply loaded with L set, which is the same state that jump produces.
pub fn enter_long_mode(cpu: &mut Cpu, entry: u64, stack: u64)
    ensures
        final(cpu)@ == old(cpu)@.long_entered(entry, stack),
{
    proof {
        reveal(State::long_entered);
    }
    cpu.enable_long_mode();
    cpu.load_flat_segments(KERNEL_CS64, KERNEL_DS64);
    cpu.set_rsp(stack);
    cpu.set_flag(flags::IF, false);
    cpu.rip = entry;
    cpu.halted = false;
    cpu.invalidate_phys_ip();
}

/// A stack above an image.
fn stack_for(top: u64, room: u64) -> (s: u64)
    ensures
        s == stack_above(top, room),
{
    let s: u64 = top.wrapping_add(room) & !0xFFFu64;
    if s < IDENTITY_MAP_BYTES - 0x1000 {
        s
    } else {
        IDENTITY_MAP_BYTES - 0x1000
    }
}

/// A program header table.
#[derive(Clone, Copy)]
struct Headers {
    start: u64,
    size: u16,
    count: u16,
    wide: bool,
}

impl Headers {
    spec fn table(self) -> HeaderTable {
        HeaderTable { start: self.start, size: self.size, count: self.count, wide: self.wide }
    }

    /// Read a program header.
    fn read(&self, elf: &[u8], off: usize) -> (g: (u32, u64, u64, u64, u64))
        requires
            off + self.table().needed() <= elf@.len(),
        ensures
            (Segment { kind: g.0, offset: g.1, paddr: g.2, filesz: g.3, memsz: g.4 }) == (
            if self.wide {
                segment64(elf@, off as int)
            } else {
                segment32(elf@, off as int)
            }),
    {
        let _total: usize = elf.len();
        if self.wide {
            (
                le32(elf, off),
                le64(elf, off + 8),
                le64(elf, off + 24),
                le64(elf, off + 32),
                le64(elf, off + 40),
            )
        } else {
            (
                le32(elf, off),
                le32(elf, off + 4) as u64,
                le32(elf, off + 12) as u64,
                le32(elf, off + 16) as u64,
                le32(elf, off + 20) as u64,
            )
        }
    }
}

/// Load the segments of an ELF at their physical addresses: the file's bytes,
/// then zeros up to the segment's size in memory.
fn load_segments(mem: &mut Memory, elf: &[u8], t: Headers) -> (r: (u64, Option<BootError>))
    ensures
        (final(mem)@, r.0, r.1) == segments_loaded(old(mem)@, elf@, t.table(), 0, 0),
{
    let ghost all = segments_loaded(mem@, elf@, t.table(), 0, 0);
    let needed: u128 = if t.wide {
        56
    } else {
        24
    };
    let mut top: u64 = 0;
    let mut i: u16 = 0;
    while i < t.count
        invariant
            i <= t.count,
            needed == t.table().needed(),
            all == segments_loaded(old(mem)@, elf@, t.table(), 0, 0),
            all == segments_loaded(mem@, elf@, t.table(), i as int, top),
        decreases t.count - i,
    {
        proof {
            assert(0 <= i * t.size <= 0xFFFF * 0xFFFF) by (nonlinear_arith)
                requires
                    0 <= i <= 0xFFFF,
                    0 <= t.size <= 0xFFFF,
            ;
        }
        let off: u128 = t.start as u128 + (i as u128) * (t.size as u128);
        if off + needed > elf.len() as u128 {
            return (top, Some(BootError::HeadersPastEnd));
        }
        let (kind, offset, paddr, filesz, memsz): (u32, u64, u64, u64, u64) = t.read(
            elf,
            off as usize,
        );
        if kind == 1 {
            if offset as u128 + filesz as u128 > elf.len() as u128 {
                return (top, Some(BootError::SegmentPastEnd));
            }
            mem.load_part(paddr as usize, elf, offset as usize, filesz as usize);
            mem.clear_part(paddr as usize, filesz, memsz);
            let end: u64 = paddr.wrapping_add(memsz);
            if end > top {
                top = end;
            }
        }
        i = i + 1;
    }
    (top, None)
}

fn starts_like_elf(elf: &[u8]) -> (b: bool)
    requires
        elf@.len() >= 4,
    ensures
        b == is_elf(elf@),
{
    elf[0] == 0x7F && elf[1] == 0x45 && elf[2] == 0x4C && elf[3] == 0x46
}

/// The program header table of an ELF64.
///
/// The ELF64 header is not the 32-bit one with wider fields in the same
/// places, and reading an ELF64 with the ELF32 offsets yields
/// plausible-looking nonsense rather than an error, so the class byte is
/// checked first.
fn elf64_headers(elf: &[u8]) -> (r: Result<Headers, BootError>)
    ensures
        match r {
            Ok(t) => elf64_table(elf@) == Ok::<HeaderTable, BootError>(t.table())
                && elf@.len() >= 64,
            Err(e) => elf64_table(elf@) == Err::<HeaderTable, BootError>(e),
        },
{
    if elf.len() < 64 || !starts_like_elf(elf) {
        return Err(BootError::NotElf);
    }
    if elf[4] != 2 {
        return Err(BootError::NotElf64);
    }
    let size: u16 = le16(elf, 54);
    let count: u16 = le16(elf, 56);
    if count == 0 || size < 56 {
        return Err(BootError::NoProgramHeaders);
    }
    Ok(Headers { start: le64(elf, 32), size, count, wide: true })
}

/// The program header table of an ELF32.
fn elf32_headers(elf: &[u8]) -> (r: Result<Headers, BootError>)
    ensures
        match r {
            Ok(t) => elf32_table(elf@) == Ok::<HeaderTable, BootError>(t.table())
                && elf@.len() >= 52,
            Err(e) => elf32_table(elf@) == Err::<HeaderTable, BootError>(e),
        },
{
    if elf.len() < 52 || !starts_like_elf(elf) {
        return Err(BootError::NotElf);
    }
    let size: u16 = le16(elf, 42);
    let count: u16 = le16(elf, 44);
    if count == 0 || size < 32 {
        return Err(BootError::NoProgramHeaders);
    }
    Ok(Headers { start: le32(elf, 28) as u64, size, count, wide: false })
}

/// Load a 64-bit ELF kernel and enter it in long mode.
pub fn load_elf64_kernel(
    cpu: &mut Cpu,
    elf: &[u8],
    cmdline: &str,
    initrd: Option<&[u8]>,
) -> (r: Result<u64, BootError>)
    ensures
        (final(cpu)@, r) == old(cpu)@.boot_elf64(
            elf@,
            cmdline.spec_bytes(),
            match initrd {
                Some(d) => Some(d@),
                None => None,
            },
        ),
{
    proof {
        reveal(State::boot_elf64);
    }
    let headers = match elf64_headers(elf) {
        Ok(t) => t,
        Err(e) => {
            return Err(e);
        },
    };
    let entry: u64 = le64(elf, 24);
    let (top, stop): (u64, Option<BootError>) = load_segments(&mut cpu.mem, elf, headers);
    if let Some(e) = stop {
        return Err(e);
    }
    // The same boot structures a 32-bit kernel gets: a described console, the
    // machine's own memory map, and the command line.
    cpu.write_params(cmdline.as_bytes());
    if let Some(e) = cpu.place_ramdisk(initrd) {
        return Err(e);
    }
    // A stack above the loaded image, page-aligned and clear of the boot
    // structures below 1 MiB.
    let floor: u64 = if top > 0x10_0000 {
        top
    } else {
        0x10_0000
    };
    enter_long_mode(cpu, entry, stack_for(floor, 0x10_0000));
    // RSI holds boot_params, as the 64-bit boot protocol specifies.
    cpu.set_reg64_raw(6, BOOT_PARAMS_ADDR as u64);
    Ok(entry)
}

/// Load a flat 64-bit binary at `addr` and run it in long mode.
///
/// No ELF, no boot protocol, just bytes at an address with the machine already
/// in long mode. It is the smallest thing that can demonstrate a 64-bit CPU.
pub fn load_flat64(cpu: &mut Cpu, code: &[u8], addr: u64) -> (r: Result<u64, BootError>)
    ensures
        final(cpu)@ == old(cpu)@.boot_flat64(code@, addr),
        r == Ok::<u64, BootError>(addr),
{
    proof {
        reveal(State::boot_flat64);
    }
    cpu.mem.load(addr as usize, code);
    let stack: u64 = stack_for(addr.wrapping_add(code.len() as u64), 0x1_0000);
    enter_long_mode(cpu, addr, stack);
    Ok(addr)
}

impl Cpu {
    /// Put the real-mode segments and the stack of a freshly loaded program.
    fn start_real(&mut self, segment: u16, offset: u16)
        ensures
            final(self)@ == old(self)@.real_started(segment, offset),
    {
        self.cs = segment;
        self.ip = offset;
        self.ds = segment;
        self.es = segment;
        self.ss = 0;
        self.set_sp(REAL_STACK);
    }
}

/// Load a flat 16-bit binary at `segment:offset` and start it in real mode.
pub fn load_flat16(cpu: &mut Cpu, code: &[u8], segment: u16, offset: u16)
    ensures
        final(cpu)@ == old(cpu)@.boot_flat16(code@, segment, offset),
{
    proof {
        reveal(State::boot_flat16);
    }
    cpu.start_real(segment, offset);
    cpu.mem.load(Memory::phys(segment, offset), code);
}

/// Load a boot sector at 0000:0x7C00 and start it, as a real PC does. Of a
/// longer image the first 512 bytes are loaded.
pub fn load_boot_sector(cpu: &mut Cpu, image: &[u8]) -> (r: Result<(), BootError>)
    ensures
        (final(cpu)@, r) == old(cpu)@.boot_sector(image@),
        r is Err <==> image@.len() < SECTOR_BYTES,
{
    proof {
        reveal(State::boot_sector);
    }
    if image.len() < SECTOR_BYTES {
        return Err(BootError::SectorTooSmall { have: image.len() as u64 });
    }
    cpu.start_real(0, SECTOR_ADDR);
    cpu.mem.load_part(SECTOR_ADDR as usize, image, 0, SECTOR_BYTES);
    assert(image@.subrange(0, SECTOR_BYTES as int) =~= image@.take(SECTOR_BYTES as int));
    Ok(())
}

/// Load a decompressed kernel ELF into the emulator and enter its entry point.
///
/// This is the path a bootloader uses for an *uncompressed* kernel: parse the
/// ELF program headers, load each PT_LOAD segment at its physical address, and
/// jump to the entry point.
pub fn load_elf_kernel(cpu: &mut Cpu, elf: &[u8], cmdline: &str) -> (r: Result<u32, BootError>)
    ensures
        (final(cpu)@, r) == old(cpu)@.boot_elf32(elf@, cmdline.spec_bytes(), None),
{
    load_elf_kernel_with_initrd(cpu, elf, cmdline, None)
}

/// As `load_elf_kernel`, but also loads an initial ramdisk.
pub fn load_elf_kernel_with_initrd(
    cpu: &mut Cpu,
    elf: &[u8],
    cmdline: &str,
    initrd: Option<&[u8]>,
) -> (r: Result<u32, BootError>)
    ensures
        (final(cpu)@, r) == old(cpu)@.boot_elf32(
            elf@,
            cmdline.spec_bytes(),
            match initrd {
                Some(d) => Some(d@),
                None => None,
            },
        ),
{
    proof {
        reveal(State::boot_elf32);
    }
    let headers = match elf32_headers(elf) {
        Ok(t) => t,
        Err(e) => {
            return Err(e);
        },
    };
    let entry: u32 = le32(elf, 24);
    let (_, stop): (u64, Option<BootError>) = load_segments(&mut cpu.mem, elf, headers);
    if let Some(e) = stop {
        return Err(e);
    }
    if let Some(e) = cpu.place_ramdisk(initrd) {
        return Err(e);
    }
    cpu.write_params(cmdline.as_bytes());
    cpu.enter_protected_mode();
    cpu.set_eip(entry);
    cpu.halted = false;
    Ok(entry)
}

impl Cpu {
    /// Load the parts of a parsed bzImage and enter the kernel.
    fn boot_kernel(&mut self, image: &[u8], info: KernelInfo, line: &[u8])
        requires
            image@.len() >= SETUP_SECTS + HDR_BYTES,
            info == header_info(image@),
            info.kernel_offset + info.kernel_len <= image@.len(),
        ensures
            final(self)@ == old(self)@.kernel_loaded(image@, line@),
    {
        proof {
            reveal(State::kernel_loaded);
        }
        // Load the protected-mode kernel at code32_start.
        self.mem.load_part(
            info.code32_start as usize,
            image,
            info.kernel_offset,
            info.kernel_len,
        );
        // Copy the setup header into boot_params.hdr.
        self.mem.load_part(BP + BP_HDR, image, SETUP_SECTS, HDR_BYTES);
        // type_of_loader = 0xFF (unknown).
        self.mem.write_u8(BP + BP_HDR + (TYPE_OF_LOADER - SETUP_SECTS), 0xFF);
        // loadflags |= 0x01 (LOADED_HIGH).
        let field: usize = BP + BP_HDR + (LOADFLAGS - SETUP_SECTS);
        let f: u8 = self.mem.read_u8(field) | 0x01;
        self.mem.write_u8(field, f);
        self.mem.write_u32(BP + BP_HDR + (CODE32_START - SETUP_SECTS), info.code32_start);
        self.mem.write_u32(BP + BP_HDR + (CMD_LINE_PTR - SETUP_SECTS), CMDLINE_ADDR);
        self.mem.write_cmdline(line);
        self.mem.write_e820();
        self.enter_protected_mode();
        // Jump to the kernel entry point.
        self.set_eip(info.code32_start);
        self.halted = false;
    }
}

/// Load a bzImage and set up the CPU to enter the 32-bit kernel.
///
/// Returns the parsed `KernelInfo` on success. On return the CPU is in
/// protected mode with flat segments, ESI = `BOOT_PARAMS_ADDR`, EIP =
/// `code32_start`, and interrupts disabled -- ready for `cpu.run(...)`.
pub fn load_kernel(cpu: &mut Cpu, image: &[u8], cmdline: &str) -> (r: Result<
    KernelInfo,
    BootError,
>)
    ensures
        (final(cpu)@, r) == old(cpu)@.boot_bzimage(image@, cmdline.spec_bytes()),
{
    let info = match parse_bzimage(image) {
        Ok(i) => i,
        Err(e) => {
            return Err(e);
        },
    };
    if image.len() < SETUP_SECTS + HDR_BYTES {
        return Err(BootError::NoSetupHeader);
    }
    cpu.boot_kernel(image, info, cmdline.as_bytes());
    Ok(info)
}

} // verus!
