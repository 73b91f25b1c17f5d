//! Tests of the boot module.

use x86emu::boot::{
    enter_long_mode, load_elf64_kernel, load_kernel, parse_bzimage, BOOT_FLAG, BOOT_PARAMS_ADDR,
    BP_ALT_MEM_K, BP_E820_ENTRIES, BP_E820_TABLE, BP_HDR, CMDLINE_ADDR, CMD_LINE_PTR, CODE32_START,
    HDR_MAGIC, KERNEL_CS, KERNEL_DS, LOADFLAGS, SETUP_SECTS, SYSSIZE, TYPE_OF_LOADER,
};
use x86emu::cpu::{Cpu, SegReg};

/// Build a minimal synthetic bzImage with a valid setup header using the
/// real boot-protocol offsets.
fn make_bzimage(setup_sects: usize, syssize: u32, code32_start: u32) -> Vec<u8> {
    let kernel_len = syssize as usize * 16;
    let total = (setup_sects + 1) * 512 + kernel_len;
    let mut img = vec![0u8; total];
    img[SETUP_SECTS] = setup_sects as u8;
    img[SYSSIZE..SYSSIZE + 4].copy_from_slice(&syssize.to_le_bytes());
    img[BOOT_FLAG] = 0x55;
    img[BOOT_FLAG + 1] = 0xAA;
    img[HDR_MAGIC..HDR_MAGIC + 4].copy_from_slice(&0x53726448u32.to_le_bytes());
    img[CODE32_START..CODE32_START + 4].copy_from_slice(&code32_start.to_le_bytes());
    img[LOADFLAGS] = 0x01;
    // Put a marker in the kernel payload so we can verify it was loaded.
    img[(setup_sects + 1) * 512] = 0xAA;
    img[(setup_sects + 1) * 512 + 1] = 0xBB;
    img
}

#[test]
fn parse_bzimage_parses_setup_header() {
    let img = make_bzimage(4, 256, 0x100000); // 4 setup sects, 4 KiB kernel
    let info = parse_bzimage(&img).unwrap();
    assert_eq!(info.setup_sects, 4);
    assert_eq!(info.syssize, 256);
    assert_eq!(info.code32_start, 0x100000);
    assert_eq!(info.kernel_offset, (4 + 1) * 512);
    assert_eq!(info.kernel_len, 256 * 16);
    assert!(!info.relocatable);
}

#[test]
fn parse_bzimage_rejects_bad_magic() {
    let mut img = make_bzimage(4, 256, 0x100000);
    img[HDR_MAGIC] = 0x00; // corrupt "HdrS"
    assert!(parse_bzimage(&img).is_err());
}

#[test]
fn load_kernel_sets_up_boot_params() {
    let mut cpu = Cpu::new();
    let img = make_bzimage(4, 256, 0x100000);
    let info = load_kernel(&mut cpu, &img, "console=tty0").unwrap();
    assert_eq!(info.code32_start, 0x100000);
    // Kernel loaded at code32_start.
    assert_eq!(cpu.mem.read_u8(0x100000), 0xAA);
    assert_eq!(cpu.mem.read_u8(0x100001), 0xBB);
    // boot_params.hdr at 0x90000 + 0x1F1: type_of_loader = 0xFF.
    assert_eq!(cpu.mem.read_u8(0x90000 + BP_HDR + (TYPE_OF_LOADER - SETUP_SECTS)), 0xFF);
    // loadflags has LOADED_HIGH (0x01).
    assert_eq!(
        cpu.mem.read_u8(0x90000 + BP_HDR + (LOADFLAGS - SETUP_SECTS)) & 0x01,
        0x01
    );
    // code32_start in boot_params.
    assert_eq!(
        cpu.mem.read_u32(0x90000 + BP_HDR + (CODE32_START - SETUP_SECTS)),
        0x100000
    );
    // cmd_line_ptr set.
    assert_eq!(
        cpu.mem.read_u32(0x90000 + BP_HDR + (CMD_LINE_PTR - SETUP_SECTS)),
        CMDLINE_ADDR
    );
    // Command line written.
    let mut s = String::new();
    let mut i = 0;
    loop {
        let c = cpu.mem.read_u8(CMDLINE_ADDR as usize + i);
        if c == 0 {
            break;
        }
        s.push(c as char);
        i += 1;
    }
    assert_eq!(s, "console=tty0");
    // E820 map: the machine's own, entry for entry.
    let expected = cpu.mem.e820();
    assert_eq!(cpu.mem.read_u8(0x90000 + BP_E820_ENTRIES) as usize, expected.len());
    for (i, (base, len, typ)) in expected.iter().enumerate() {
        let e = 0x90000 + BP_E820_TABLE + i * 20;
        assert_eq!(cpu.mem.read_u64(e), *base);
        assert_eq!(cpu.mem.read_u64(e + 8), *len);
        assert_eq!(cpu.mem.read_u32(e + 16), *typ);
    }
}

/// Build a minimal but well-formed ELF64 with one PT_LOAD segment.
fn make_elf64(entry: u64, paddr: u64, body: &[u8]) -> Vec<u8> {
    let ph_off = 64usize;
    let body_off = ph_off + 56;
    let mut e = vec![0u8; body_off + body.len()];
    e[0..4].copy_from_slice(b"\x7fELF");
    e[4] = 2; // ELFCLASS64
    e[5] = 1; // little-endian
    e[6] = 1; // version
    e[16..18].copy_from_slice(&2u16.to_le_bytes()); // ET_EXEC
    e[18..20].copy_from_slice(&0x3Eu16.to_le_bytes()); // EM_X86_64
    e[20..24].copy_from_slice(&1u32.to_le_bytes());
    e[24..32].copy_from_slice(&entry.to_le_bytes());
    e[32..40].copy_from_slice(&(ph_off as u64).to_le_bytes());
    e[52..54].copy_from_slice(&64u16.to_le_bytes()); // e_ehsize
    e[54..56].copy_from_slice(&56u16.to_le_bytes()); // e_phentsize
    e[56..58].copy_from_slice(&1u16.to_le_bytes()); // e_phnum
    let ph = ph_off;
    e[ph..ph + 4].copy_from_slice(&1u32.to_le_bytes()); // PT_LOAD
    e[ph + 4..ph + 8].copy_from_slice(&5u32.to_le_bytes()); // R+X
    e[ph + 8..ph + 16].copy_from_slice(&(body_off as u64).to_le_bytes());
    e[ph + 16..ph + 24].copy_from_slice(&paddr.to_le_bytes()); // p_vaddr
    e[ph + 24..ph + 32].copy_from_slice(&paddr.to_le_bytes()); // p_paddr
    e[ph + 32..ph + 40].copy_from_slice(&(body.len() as u64).to_le_bytes());
    // A memsz larger than filesz, so the zero-fill is exercised too.
    e[ph + 40..ph + 48].copy_from_slice(&((body.len() + 16) as u64).to_le_bytes());
    e[body_off..].copy_from_slice(body);
    e
}

#[test]
fn load_elf64_kernel_loads_segments_and_enters_long_mode() {
    let mut cpu = Cpu::new();
    // A body that ends in HLT, loaded at 1 MiB.
    let body = [0x48, 0x31, 0xC0, 0xF4]; // xor %rax,%rax ; hlt
    let elf = make_elf64(0x10_0000, 0x10_0000, &body);
    let entry = load_elf64_kernel(&mut cpu, &elf, "console=tty0", None).unwrap();
    assert_eq!(entry, 0x10_0000);

    // The segment landed at its physical address, and the memsz tail was
    // zeroed rather than left as whatever was there.
    for (i, b) in body.iter().enumerate() {
        assert_eq!(cpu.mem.read_u8(0x10_0000 + i), *b);
    }
    assert_eq!(cpu.mem.read_u8(0x10_0000 + body.len()), 0);

    // The machine is in 64-bit long mode, with RSI on boot_params as the
    // 64-bit boot protocol specifies.
    assert_eq!(cpu.mode(), x86emu::cpu::Mode::Long);
    assert_eq!(cpu.rip, 0x10_0000);
    assert_eq!(cpu.reg64(6), BOOT_PARAMS_ADDR as u64);
    assert!(!cpu.get_flag(x86emu::cpu::flags::IF));

    // ...and it actually runs.
    cpu.run(16);
    assert!(cpu.halted && !cpu.triple_fault);
}

#[test]
fn load_elf64_kernel_refuses_a_32_bit_elf() {
    // The two headers differ field by field, and reading an ELF32 with
    // ELF64 offsets yields plausible nonsense rather than an error -- so
    // the class byte is checked before anything else is believed.
    let mut cpu = Cpu::new();
    let mut elf = make_elf64(0x10_0000, 0x10_0000, &[0xF4]);
    elf[4] = 1; // ELFCLASS32
    let err = load_elf64_kernel(&mut cpu, &elf, "", None).unwrap_err();
    assert!(err.message().contains("32"), "unhelpful error: {}", err.message());
}

#[test]
fn load_elf64_kernel_refuses_a_segment_that_runs_off_the_end() {
    let mut cpu = Cpu::new();
    let mut elf = make_elf64(0x10_0000, 0x10_0000, &[0xF4]);
    // Claim a filesz far larger than the file.
    let ph = 64;
    elf[ph + 32..ph + 40].copy_from_slice(&0x10_0000u64.to_le_bytes());
    assert!(load_elf64_kernel(&mut cpu, &elf, "", None).is_err());
}

#[test]
fn the_identity_map_covers_the_low_four_gib_with_large_pages() {
    let mut cpu = Cpu::new();
    enter_long_mode(&mut cpu, 0x10_0000, 0x20_0000);
    // Every one of these translates to itself, through 2 MiB pages.
    for linear in [0u64, 0xB8000, 0x10_0000, 0x8000_0000, 0xFFFF_F000] {
        let phys = cpu.apply_paging(linear);
        assert!(cpu.pending_exception.is_none(), "{:X} did not translate", linear);
        assert_eq!(phys as u64, linear, "identity map at {:X}", linear);
    }
    // Past the mapped region there is nothing, and that is a page fault
    // rather than a silent alias.
    cpu.pending_exception = None;
    let _ = cpu.apply_paging(0x1_0000_0000);
    assert_eq!(cpu.pending_exception.unwrap().0, 0x0E);
}

#[test]
fn the_boot_map_a_big_machine_reports_matches_the_machine() {
    // The BIOS map and boot_params both come from `Memory::e820`, so a
    // machine cannot describe itself two different ways -- which is the
    // failure mode that has a guest using RAM that is not there.
    let mut cpu = Cpu::with_ram(x86emu::memory::MMIO_HOLE_START as usize + (128 << 20));
    let elf = make_elf64(0x10_0000, 0x10_0000, &[0xF4]);
    load_elf64_kernel(&mut cpu, &elf, "", None).unwrap();
    let expected = cpu.mem.e820();
    assert_eq!(expected.len(), 6, "hole split: low, EBDA, VGA, low RAM, hole, high RAM");
    let n = cpu.mem.read_u8(BOOT_PARAMS_ADDR as usize + BP_E820_ENTRIES) as usize;
    assert_eq!(n, expected.len());
    for (i, (base, len, typ)) in expected.iter().enumerate() {
        let e = BOOT_PARAMS_ADDR as usize + BP_E820_TABLE + i * 20;
        assert_eq!(cpu.mem.read_u64(e), *base);
        assert_eq!(cpu.mem.read_u64(e + 8), *len);
        assert_eq!(cpu.mem.read_u32(e + 16), *typ);
    }
    // alt_mem_k describes only what is below the hole: it is a 32-bit
    // count of kilobytes and cannot say anything about the rest.
    let alt = cpu.mem.read_u32(BOOT_PARAMS_ADDR as usize + BP_ALT_MEM_K) as u64;
    assert_eq!(alt, (x86emu::memory::MMIO_HOLE_START - 0x10_0000) / 1024);
}

#[test]
fn load_kernel_enters_protected_mode() {
    let mut cpu = Cpu::new();
    let img = make_bzimage(4, 256, 0x100000);
    load_kernel(&mut cpu, &img, "").unwrap();
    assert!(cpu.pe);
    assert_eq!(cpu.cr0 & 1, 1); // PE
    assert_eq!(cpu.eip(), 0x100000);
    assert_eq!(cpu.esi(), BOOT_PARAMS_ADDR);
    assert_eq!(cpu.cs, KERNEL_CS);
    assert_eq!(cpu.ds, KERNEL_DS);
    // Flat code segment: base 0.
    assert_eq!(cpu.seg_desc[SegReg::Cs as usize].base, 0);
    // Interrupts disabled.
    assert!(!cpu.get_flag(x86emu::cpu::flags::IF));
}
