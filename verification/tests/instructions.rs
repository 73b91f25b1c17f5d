//! Tests of the decoder and the executor.

use x86emu::cpu::{flags, Cpu, Reg32, Reg8, SegReg};
use x86emu::instructions::FpuOp;
use x86emu::memory::Memory;
use x86emu::paging::pte;
use x86emu::protected::Descriptor;

/// Run, answering the FPU's requests on the way.
fn run_with_fpu(cpu: &mut Cpu, max: u64) {
    let mut left = max;
    while left > 0 {
        let n = cpu.run(left);
        left -= n;
        match cpu.fpu.request {
            Some(r) => {
                let a = f64::from_bits(r.lhs);
                let b = f64::from_bits(r.rhs);
                let v = match r.op {
                    FpuOp::Add => a + b,
                    FpuOp::Sub => a - b,
                    FpuOp::Mul => a * b,
                    FpuOp::Div => a / b,
                };
                cpu.fpu.complete(v.to_bits());
            }
            None => break,
        }
    }
}

fn load(cpu: &mut Cpu, bytes: &[u8]) {
    cpu.mem.load(Memory::phys(cpu.cs, cpu.ip), bytes);
}

#[test]
fn mov_reg16_imm_and_add() {
    let mut cpu = Cpu::new();
    load(&mut cpu, &[
        0xB8, 0x34, 0x12,
        0xBB, 0x02, 0x00,
        0x01, 0xD8,
        0xF4,
    ]);
    cpu.run(16);
    assert_eq!(cpu.ax(), 0x1236);
    assert!(cpu.halted);
}

#[test]
fn sub_sets_borrow() {
    let mut cpu = Cpu::new();
    load(&mut cpu, &[
        0xB8, 0x01, 0x00,
        0xBB, 0x02, 0x00,
        0x29, 0xD8,
        0xF4,
    ]);
    cpu.run(16);
    assert_eq!(cpu.ax(), 0xFFFF);
    assert!(cpu.get_flag(flags::CF));
    assert!(cpu.get_flag(flags::SF));
}

#[test]
fn conditional_jump_taken() {
    let mut cpu = Cpu::new();
    load(&mut cpu, &[
        0xB8, 0x05, 0x00,
        0x3D, 0x05, 0x00,
        0x74, 0x01,
        0xF4,
        0x90,
        0xF4,
    ]);
    cpu.run(32);
    assert!(cpu.halted);
    assert_eq!(cpu.instructions_executed, 5);
}

#[test]
fn call_ret_roundtrip() {
    let mut cpu = Cpu::new();
    cpu.ss = 0;
    cpu.set_sp(0x0100);
    load(&mut cpu, &[
        0xE8, 0x01, 0x00,
        0xF4,
        0xB8, 0x99, 0x00,
        0xC3,
    ]);
    cpu.run(16);
    assert_eq!(cpu.ax(), 0x0099);
    assert!(cpu.halted);
}

#[test]
fn memory_mov_roundtrip() {
    let mut cpu = Cpu::new();
    cpu.ds = 0;
    load(&mut cpu, &[
        0xC7, 0x06, 0x00, 0x01, 0x42, 0x42,
        0xA1, 0x00, 0x01,
        0xF4,
    ]);
    cpu.run(16);
    assert_eq!(cpu.ax(), 0x4242);
}

#[test]
fn xor_clears_reg() {
    let mut cpu = Cpu::new();
    load(&mut cpu, &[
        0xB8, 0xFF, 0xFF,
        0x31, 0xC0,
        0xF4,
    ]);
    cpu.run(16);
    assert_eq!(cpu.ax(), 0);
    assert!(cpu.get_flag(flags::ZF));
    assert!(!cpu.get_flag(flags::CF));
}

#[test]
fn inc_does_not_touch_carry() {
    let mut cpu = Cpu::new();
    cpu.set_flag(flags::CF, true);
    load(&mut cpu, &[
        0xB8, 0xFF, 0xFF,
        0x40,
        0xF4,
    ]);
    cpu.run(16);
    assert_eq!(cpu.ax(), 0x0000);
    assert!(cpu.get_flag(flags::ZF));
    assert!(cpu.get_flag(flags::CF));
}

#[test]
fn int_iret_through_ivt() {
    let mut cpu = Cpu::new();
    cpu.ss = 0;
    cpu.set_sp(0x0100);
    cpu.mem.write_u16(0x84, 0x0100);
    cpu.mem.write_u16(0x86, 0x0000);
    cpu.mem.load(0x100, &[
        0xB8, 0x99, 0x00,
        0xCF,
    ]);
    load(&mut cpu, &[
        0xCD, 0x21,
        0xF4,
    ]);
    cpu.run(32);
    assert_eq!(cpu.ax(), 0x0099);
    assert!(cpu.halted);
    assert_eq!(cpu.sp(), 0x0100);
}

#[test]
fn pushf_popf_roundtrip() {
    let mut cpu = Cpu::new();
    cpu.ss = 0;
    cpu.set_sp(0x0100);
    cpu.set_flag(flags::CF, true);
    cpu.set_flag(flags::ZF, true);
    load(&mut cpu, &[
        0x9C,
        0x58,
        0xF4,
    ]);
    cpu.run(16);
    assert!(cpu.ax() as u32 & flags::CF != 0);
    assert!(cpu.ax() as u32 & flags::ZF != 0);
}

#[test]
fn shift_left_sets_carry() {
    let mut cpu = Cpu::new();
    load(&mut cpu, &[
        0xB8, 0x00, 0x80,
        0xD1, 0xE0,
        0xF4,
    ]);
    cpu.run(16);
    assert_eq!(cpu.ax(), 0x0000);
    assert!(cpu.get_flag(flags::CF));
    assert!(cpu.get_flag(flags::ZF));
}

#[test]
fn shift_imm8_with_count() {
    let mut cpu = Cpu::new();
    // mov ax, 0x8000 ; shr ax, 2 (0xC1 E8 02)
    load(&mut cpu, &[
        0xB8, 0x00, 0x80,
        0xC1, 0xE8, 0x02,
        0xF4,
    ]);
    cpu.run(16);
    assert_eq!(cpu.ax(), 0x2000);
}

#[test]
fn flag_control_instructions() {
    let mut cpu = Cpu::new();
    // stc ; clc ; std ; cld ; sti ; cli ; cmc
    load(&mut cpu, &[
        0xF9, // stc
        0xF8, // clc
        0xFD, // std
        0xFC, // cld
        0xFB, // sti
        0xFA, // cli
        0xF5, // cmc
        0xF4,
    ]);
    cpu.run(16);
    // After stc, clc: CF=0. After cmc: CF=1.
    assert!(cpu.get_flag(flags::CF));
    assert!(!cpu.get_flag(flags::DF));
    assert!(!cpu.get_flag(flags::IF));
}

#[test]
fn jmp_rm32_indirect() {
    let mut cpu = Cpu::new();
    // mov ax, 0x1000 ; jmp ax (FF E0, 16-bit in real mode) ; hlt
    load(&mut cpu, &[
        0xB8, 0x00, 0x10,
        0xFF, 0xE0,
        0xF4,
    ]);
    cpu.mem.load(0x1000, &[0xF4]);
    cpu.run(16);
    assert!(cpu.halted);
    assert_eq!(cpu.ip, 0x1001); // jmp to 0x1000, hlt advanced past it
}

#[test]
fn inc_rm16_via_ff() {
    let mut cpu = Cpu::new();
    // mov ax, 0x0001 ; inc word [bx] via FF /0 with rm=reg
    // FF C0 = inc eax (32-bit default? no — 16-bit mode here)
    load(&mut cpu, &[
        0xB8, 0x01, 0x00,
        0xFF, 0xC0,
        0xF4,
    ]);
    cpu.run(16);
    assert_eq!(cpu.ax(), 0x0002);
}

#[test]
fn mul16_uses_dx_ax() {
    let mut cpu = Cpu::new();
    load(&mut cpu, &[
        0xB8, 0x00, 0x10,
        0xBB, 0x10, 0x00,
        0xF7, 0xE3,
        0xF4,
    ]);
    cpu.run(16);
    assert_eq!(cpu.ax(), 0x0000);
    assert_eq!(cpu.dx(), 0x0001);
    assert!(cpu.get_flag(flags::CF));
}

#[test]
fn div16_quotient_remainder() {
    let mut cpu = Cpu::new();
    load(&mut cpu, &[
        0xB8, 0x13, 0x00,
        0xBB, 0x05, 0x00,
        0xF7, 0xF3,
        0xF4,
    ]);
    cpu.run(16);
    assert_eq!(cpu.ax(), 0x0003);
    assert_eq!(cpu.dx(), 0x0004);
}

#[test]
fn rep_movsb_copies_string() {
    let mut cpu = Cpu::new();
    cpu.ds = 0;
    cpu.es = 0;
    cpu.set_si(0x0100);
    cpu.set_di(0x0200);
    cpu.set_cx(3);
    cpu.mem.write_u8(0x100, 0x41);
    cpu.mem.write_u8(0x101, 0x42);
    cpu.mem.write_u8(0x102, 0x43);
    load(&mut cpu, &[
        0xF3, 0xA4,
        0xF4,
    ]);
    cpu.run(16);
    assert_eq!(cpu.mem.read_u8(0x200), 0x41);
    assert_eq!(cpu.mem.read_u8(0x201), 0x42);
    assert_eq!(cpu.mem.read_u8(0x202), 0x43);
    assert_eq!(cpu.cx(), 0);
    assert_eq!(cpu.si(), 0x0103);
    assert_eq!(cpu.di(), 0x0203);
}

#[test]
fn loop_decrements_cx() {
    let mut cpu = Cpu::new();
    cpu.set_cx(3);
    load(&mut cpu, &[
        0xE2, 0xFE,
        0xF4,
    ]);
    cpu.run(64);
    assert!(cpu.halted);
    assert_eq!(cpu.cx(), 0);
}

#[test]
fn lea_loads_effective_address() {
    let mut cpu = Cpu::new();
    cpu.set_bx(0x0100);
    cpu.set_si(0x0020);
    load(&mut cpu, &[
        0x8D, 0x00,
        0xF4,
    ]);
    cpu.run(16);
    assert_eq!(cpu.ax(), 0x0120);
}

#[test]
fn cwd_sign_extends_ax() {
    let mut cpu = Cpu::new();
    load(&mut cpu, &[
        0xB8, 0x00, 0x80,
        0x99,
        0xF4,
    ]);
    cpu.run(16);
    assert_eq!(cpu.dx(), 0xFFFF);
}

#[test]
fn neg_sets_carry() {
    let mut cpu = Cpu::new();
    load(&mut cpu, &[
        0xB8, 0x05, 0x00,
        0xF7, 0xD8,
        0xF4,
    ]);
    cpu.run(16);
    assert_eq!(cpu.ax(), 0xFFFB);
    assert!(cpu.get_flag(flags::CF));
}

// ---- 32-bit protected-mode tests ----

#[test]
fn opsize_prefix_32bit_mov() {
    let mut cpu = Cpu::new();
    // 66 B8 imm32 -> mov eax, 0x12345678
    load(&mut cpu, &[
        0x66, 0xB8, 0x78, 0x56, 0x34, 0x12,
        0xF4,
    ]);
    cpu.run(16);
    assert_eq!(cpu.eax(), 0x12345678);
    assert_eq!(cpu.ax(), 0x5678);
}

#[test]
fn opsize_prefix_32bit_add() {
    let mut cpu = Cpu::new();
    // 66 B8 imm32 ; 66 05 imm32 -> mov eax,1 ; add eax,2
    load(&mut cpu, &[
        0x66, 0xB8, 0x01, 0x00, 0x00, 0x00,
        0x66, 0x05, 0x02, 0x00, 0x00, 0x00,
        0xF4,
    ]);
    cpu.run(16);
    assert_eq!(cpu.eax(), 3);
}

#[test]
fn opsize_prefix_32bit_mul() {
    let mut cpu = Cpu::new();
    // 66 B8 0x10000000 ; 66 BB 0x10 ; 66 F7 E3 -> mul ebx
    load(&mut cpu, &[
        0x66, 0xB8, 0x00, 0x00, 0x00, 0x10,
        0x66, 0xBB, 0x10, 0x00, 0x00, 0x00,
        0x66, 0xF7, 0xE3,
        0xF4,
    ]);
    cpu.run(16);
    // 0x10000000 * 0x10 = 0x100000000 -> EAX=0, EDX=1
    assert_eq!(cpu.eax(), 0);
    assert_eq!(cpu.edx(), 1);
}

#[test]
fn addrsize_prefix_32bit_addressing() {
    let mut cpu = Cpu::new();
    cpu.ds = 0;
    // 67 8B 04 85 disp32 -> mov eax, [eax*4 + disp32]
    // modrm = 00 000 100 (reg=EAX, rm=100 -> SIB follows)
    // sib = 10 000 101 (scale=4, index=EAX, base=101 -> disp32)
    // disp32 = 0x1000
    cpu.set_eax(0x10);
    cpu.mem.write_u32(0x1000 + 0x10 * 4, 0xDEADBEEF);
    load(&mut cpu, &[
        0x66, 0x67, 0x8B, 0x04, 0x85, 0x00, 0x10, 0x00, 0x00,
        0xF4,
    ]);
    cpu.run(16);
    assert_eq!(cpu.eax(), 0xDEADBEEF);
}

#[test]
fn lgdt_loads_gdt() {
    let mut cpu = Cpu::new();
    cpu.ds = 0;
    // GDT at physical 0x2000: limit=0x17, base=0x3000
    cpu.mem.write_u16(0x1000, 0x17);
    cpu.mem.write_u32(0x1002, 0x3000);
    // lgdt [0x1000] = 0F 01 16 disp16
    load(&mut cpu, &[
        0x0F, 0x01, 0x16, 0x00, 0x10,
        0xF4,
    ]);
    cpu.run(16);
    assert_eq!(cpu.gdt_limit, 0x17);
    assert_eq!(cpu.gdt_base, 0x3000);
}

#[test]
fn protected_mode_segment_translation() {
    let mut cpu = Cpu::new();
    // Build a GDT at 0x2000 with a data descriptor at index 1:
    // base=0x10000, limit=0xFFFFF, granularity, present, data.
    // Descriptor bytes (little-endian u64):
    //   bits 0-15   limit 15:0 = 0xFFFF
    //   bits 16-31  base 15:0  = 0x0000
    //   bits 32-39  base 23:16 = 0x01
    //   bits 40-47  type/attr  = 0x92 (present, data read/write)
    //   bits 48-55  limit 19:16 = 0xF, G=1, D=1
    //   bits 56-63  base 31:24 = 0x00
    let desc: u64 = 0x00CF_9201_0000_FFFF;
    cpu.mem.write_u64(0x2008, desc);
    cpu.gdt_base = 0x2000;
    cpu.gdt_limit = 0x17;
    cpu.pe = true;
    // Load DS with selector 0x08 (index 1, RPL 0).
    cpu.load_seg(SegReg::Ds, 0x08);
    // DS base should be 0x10000.
    assert_eq!(cpu.seg_desc[SegReg::Ds as usize].base, 0x10000);
    // Translate DS:0x1234 -> 0x11234.
    assert_eq!(cpu.translate(SegReg::Ds, (0x1234) as u64), 0x11234);
}

#[test]
fn protected_mode_int_through_idt() {
    let mut cpu = Cpu::new();
    cpu.pe = true;
    cpu.ss = 0;
    cpu.set_esp(0x0100);
    // IDT at 0x3000, vector 0x20 entry at 0x3000 + 0x20*8 = 0x3100.
    // offset_lo = 0x5000, selector = 0x08, offset_hi = 0x0000.
    cpu.idt_base = 0x3000;
    cpu.idt_limit = 0xFF;
    let entry = 0x3000 + 0x20 * 8;
    cpu.mem.write_u16(entry, 0x5000);
    cpu.mem.write_u16(entry + 2, 0x08);
    cpu.mem.write_u16(entry + 6, 0x0000);
    // Handler at 0x5000: mov eax, 0x99 ; iret (32-bit)
    cpu.mem.load(0x5000, &[
        0x66, 0xB8, 0x99, 0x00, 0x00, 0x00,
        0x66, 0xCF,
    ]);
    // Main: int 0x20 ; hlt
    cpu.mem.load(0x1000, &[
        0xCD, 0x20,
        0xF4,
    ]);
    cpu.cs = 0x08;
    cpu.set_eip(0x1000);
    cpu.run(32);
    assert_eq!(cpu.eax(), 0x99);
    assert!(cpu.halted);
    assert_eq!(cpu.esp(), 0x0100);
}

#[test]
fn loop_uses_eip_in_32bit_mode() {
    let mut cpu = Cpu::new();
    cpu.pe = true;
    cpu.cs = 0x08;
    // Flat 32-bit code segment (D=1) so opsize defaults to 32-bit.
    cpu.seg_desc[SegReg::Cs as usize] = Descriptor {
        base: 0, limit: 0xFFFF_FFFF, attr: 0x9A, g: true, d_b: true, l: false,
    };
    cpu.set_eip(0x1000);
    // mov ecx, 3 ; loop $ (E2 FE) ; hlt
    // (no 0x66 prefix: opsize already 32-bit in this segment)
    cpu.mem.load(0x1000, &[
        0xB9, 0x03, 0x00, 0x00, 0x00, // mov ecx, 3
        0xE2, 0xFE,                    // loop -2 (back to itself)
        0xF4,                          // hlt
    ]);
    cpu.run(64);
    assert!(cpu.halted);
    assert_eq!(cpu.ecx(), 0);
    assert_eq!(cpu.eip(), 0x1008);
}

#[test]
fn jcc_uses_eip_in_32bit_mode() {
    let mut cpu = Cpu::new();
    cpu.pe = true;
    cpu.cs = 0x08;
    cpu.seg_desc[SegReg::Cs as usize] = Descriptor {
        base: 0, limit: 0xFFFF_FFFF, attr: 0x9A, g: true, d_b: true, l: false,
    };
    cpu.set_eip(0x1000);
    // mov eax, 1 ; test eax, eax ; jz +1 (74 01) ; hlt ; hlt
    cpu.mem.load(0x1000, &[
        0xB8, 0x01, 0x00, 0x00, 0x00, // mov eax, 1
        0x85, 0xC0,                    // test eax, eax
        0x74, 0x01,                    // jz +1 (not taken, ZF=0)
        0xF4,                          // hlt
        0xF4,                          // hlt
    ]);
    cpu.run(32);
    assert!(cpu.halted);
    // mov(5) + test(2) + jz(2) = 0x1009, then hlt advances to 0x100A.
    assert_eq!(cpu.eip(), 0x100A);
}

#[test]
fn jmp_rel8_uses_eip_in_32bit_mode() {
    let mut cpu = Cpu::new();
    cpu.pe = true;
    cpu.cs = 0x08;
    cpu.seg_desc[SegReg::Cs as usize] = Descriptor {
        base: 0, limit: 0xFFFF_FFFF, attr: 0x9A, g: true, d_b: true, l: false,
    };
    cpu.set_eip(0x1000);
    // jmp +1 (EB 01) over a hlt, landing on a second hlt.
    cpu.mem.load(0x1000, &[
        0xEB, 0x01, // jmp +1
        0xF4,       // hlt (skipped)
        0xF4,       // hlt (land here)
    ]);
    cpu.run(32);
    assert!(cpu.halted);
    assert_eq!(cpu.eip(), 0x1004);
}

#[test]
fn lss_loads_ss_and_offset() {
    let mut cpu = Cpu::new();
    cpu.pe = true;
    cpu.cs = 0x08;
    cpu.seg_desc[SegReg::Cs as usize] = Descriptor {
        base: 0, limit: 0xFFFF_FFFF, attr: 0x9A, g: true, d_b: true, l: false,
    };
    cpu.seg_desc[SegReg::Ds as usize] = Descriptor {
        base: 0, limit: 0xFFFF_FFFF, attr: 0x92, g: true, d_b: true, l: false,
    };
    // Far pointer at 0x2000: offset=0x8000, selector=0x10.
    cpu.mem.write_u32(0x2000, 0x8000);
    cpu.mem.write_u16(0x2004, 0x10);
    // lss eax, [0x2000] = 0F B2 05 disp32
    cpu.set_eip(0x1000);
    cpu.mem.load(0x1000, &[
        0x0F, 0xB2, 0x05, 0x00, 0x20, 0x00, 0x00, // lss eax, [0x2000]
        0xF4,
    ]);
    cpu.run(32);
    assert_eq!(cpu.eax(), 0x8000);
    assert_eq!(cpu.ss, 0x10);
    assert!(cpu.halted);
}

#[test]
fn rep_stosd_uses_ecx_in_32bit_mode() {
    let mut cpu = Cpu::new();
    cpu.pe = true;
    cpu.cs = 0x08;
    cpu.seg_desc[SegReg::Cs as usize] = Descriptor {
        base: 0, limit: 0xFFFF_FFFF, attr: 0x9A, g: true, d_b: true, l: false,
    };
    cpu.seg_desc[SegReg::Es as usize] = Descriptor {
        base: 0, limit: 0xFFFF_FFFF, attr: 0x92, g: true, d_b: true, l: false,
    };
    cpu.set_ecx(4);
    cpu.set_edi(0x3000);
    cpu.set_eax(0xDEADBEEF);
    // rep stosd (F3 AB) ; hlt
    cpu.set_eip(0x1000);
    cpu.mem.load(0x1000, &[
        0xF3, 0xAB,
        0xF4,
    ]);
    cpu.run(32);
    // 4 dwords written at 0x3000..0x3010.
    for i in 0..4 {
        assert_eq!(cpu.mem.read_u32(0x3000 + i * 4), 0xDEADBEEF);
    }
    assert_eq!(cpu.ecx(), 0);
    assert_eq!(cpu.edi(), 0x3010);
    assert!(cpu.halted);
}

// ---- x87 FPU tests ----

#[test]
fn fninit_resets_fpu() {
    let mut cpu = Cpu::new();
    cpu.fpu.push(3.5f64.to_bits());
    cpu.fpu.control = 0x0000;
    // fninit (DB E3) ; hlt
    load(&mut cpu, &[
        0xDB, 0xE3,
        0xF4,
    ]);
    cpu.run(16);
    assert_eq!(cpu.fpu.control, 0x037F);
    assert_eq!(cpu.fpu.tag, 0xFFFF); // all empty
}

#[test]
fn fstsw_ax_reports_status() {
    let mut cpu = Cpu::new();
    cpu.fpu.status = 0x3800;
    // fnstsw ax (DF E0) ; hlt
    load(&mut cpu, &[
        0xDF, 0xE0,
        0xF4,
    ]);
    cpu.run(16);
    assert_eq!(cpu.ax(), 0x3800);
}

#[test]
fn fld_push_and_fstp_store() {
    let mut cpu = Cpu::new();
    cpu.ds = 0;
    // fld qword [0x1000] (DD 06 disp16) ; fstp qword [0x2000] (DD 1E) ; hlt
    cpu.mem.write_u64(0x1000, 3.14159f64.to_bits());
    load(&mut cpu, &[
        0xDD, 0x06, 0x00, 0x10, // fld qword [0x1000]
        0xDD, 0x1E, 0x00, 0x20, // fstp qword [0x2000]
        0xF4,
    ]);
    cpu.run(16);
    assert!((f64::from_bits(cpu.mem.read_u64(0x2000)) - 3.14159).abs() < 1e-9);
    assert_eq!(cpu.fpu.tag, 0xFFFF); // popped back to empty
}

#[test]
fn fild_fistp_integer_roundtrip() {
    let mut cpu = Cpu::new();
    cpu.ds = 0;
    // fild dword [0x1000] (DB 06) ; fistp dword [0x2000] (DB 1E) ; hlt
    cpu.mem.write_u32(0x1000, 42);
    load(&mut cpu, &[
        0xDB, 0x06, 0x00, 0x10,
        0xDB, 0x1E, 0x00, 0x20,
        0xF4,
    ]);
    cpu.run(16);
    assert_eq!(cpu.mem.read_u32(0x2000), 42);
}

#[test]
fn fadd_st0_with_memory() {
    let mut cpu = Cpu::new();
    cpu.ds = 0;
    cpu.fpu.push(1.5f64.to_bits());
    cpu.mem.write_u64(0x1000, 2.5f64.to_bits());
    // fadd qword [0x1000] (DC 06) ; hlt
    load(&mut cpu, &[
        0xDC, 0x06, 0x00, 0x10,
        0xF4,
    ]);
    run_with_fpu(&mut cpu, 16);
    assert!((f64::from_bits(cpu.fpu.st_i(0)) - 4.0).abs() < 1e-9);
}

#[test]
fn fxsave_fxrstor_roundtrip() {
    let mut cpu = Cpu::new();
    cpu.ds = 0;
    cpu.fpu.push(1.25f64.to_bits());
    cpu.fpu.push(2.5f64.to_bits());
    // fxsave [0x3000] (0F AE 06 disp16) ; fxrstor [0x3000] (0F AE 0E) ; hlt
    load(&mut cpu, &[
        0x0F, 0xAE, 0x06, 0x00, 0x30,
        0x0F, 0xAE, 0x0E, 0x00, 0x30,
        0xF4,
    ]);
    cpu.run(16);
    // After fxrstor, the FPU should have the saved registers back.
    // Two pushes: top=6, so st[7] and st[6] are valid (tag bits 7,6 clear).
    assert_eq!(cpu.fpu.tag, 0xFF3F);
    assert!((f64::from_bits(cpu.fpu.st_i(0)) - 2.5).abs() < 1e-9);
}

// ---- Paging tests ----

// ---- CPUID / RDTSC tests ----

#[test]
fn cpuid_leaf0_returns_vendor() {
    let mut cpu = Cpu::new();
    // mov eax, 0 ; cpuid ; hlt
    load(&mut cpu, &[
        0x66, 0xB8, 0x00, 0x00, 0x00, 0x00,
        0x0F, 0xA2,
        0xF4,
    ]);
    cpu.run(16);
    assert_eq!(cpu.eax(), 1); // highest basic leaf
    assert_eq!(cpu.ebx(), 0x756E6547); // "Genu"
    assert_eq!(cpu.edx(), 0x49656E69); // "ineI"
    assert_eq!(cpu.ecx(), 0x6C65746E); // "ntel"
}

#[test]
fn cpuid_leaf1_returns_features() {
    let mut cpu = Cpu::new();
    // mov eax, 1 ; cpuid ; hlt
    load(&mut cpu, &[
        0x66, 0xB8, 0x01, 0x00, 0x00, 0x00,
        0x0F, 0xA2,
        0xF4,
    ]);
    cpu.run(16);
    // Family 6, model 0, stepping 0.
    assert_eq!(cpu.eax(), 0x00000600);
    // TSC bit (bit 4) must be set in EDX.
    assert!(cpu.edx() & (1 << 4) != 0);
}

#[test]
fn rdtsc_returns_timestamp() {
    let mut cpu = Cpu::new();
    // Set a known TSC, then rdtsc ; hlt
    cpu.tsc = 0x1234_5678_9ABC_DEF0;
    load(&mut cpu, &[
        0x0F, 0x31,
        0xF4,
    ]);
    cpu.run(16);
    assert_eq!(cpu.eax(), 0x9ABC_DEF0);
    assert_eq!(cpu.edx(), 0x1234_5678);
}

#[test]
fn test_acc_imm_sets_flags() {
    let mut cpu = Cpu::new();
    // mov al, 0x0F ; test al, 0x0F (A8) ; hlt
    load(&mut cpu, &[
        0xB0, 0x0F,
        0xA8, 0x0F,
        0xF4,
    ]);
    cpu.run(16);
    // 0x0F & 0x0F = 0x0F -> ZF clear, CF clear.
    assert!(!cpu.get_flag(flags::ZF));
    assert!(!cpu.get_flag(flags::CF));
}

#[test]
fn rdmsr_returns_zero() {
    let mut cpu = Cpu::new();
    // mov ecx, 0x1B ; rdmsr ; hlt
    load(&mut cpu, &[
        0x66, 0xB9, 0x1B, 0x00, 0x00, 0x00,
        0x0F, 0x32,
        0xF4,
    ]);
    cpu.run(16);
    assert_eq!(cpu.eax(), 0);
    assert_eq!(cpu.edx(), 0);
}

#[test]
fn bts_sets_bit_and_carry() {
    let mut cpu = Cpu::new();
    // mov eax, 0 ; bts eax, 3 (0F BA E8 03, /5) ; hlt
    load(&mut cpu, &[
        0x66, 0xB8, 0x00, 0x00, 0x00, 0x00,
        0x0F, 0xBA, 0xE8, 0x03,
        0xF4,
    ]);
    cpu.run(16);
    assert_eq!(cpu.eax(), 0x8); // bit 3 set
    assert!(!cpu.get_flag(flags::CF)); // was 0 before
}

#[test]
fn mov_moffs32_uses_addrsize() {
    // 0x12345678 is past the default 128 MiB, so this also pins that a
    // machine can be built with enough RAM to reach it -- it used to
    // "work" only because every address was masked back into the store.
    let mut cpu = Cpu::with_ram(320 << 20);
    cpu.pe = true;
    cpu.cs = 0x08;
    cpu.seg_desc[SegReg::Cs as usize] = Descriptor {
        base: 0, limit: 0xFFFF_FFFF, attr: 0x9A, g: true, d_b: true, l: false,
    };
    cpu.seg_desc[SegReg::Ds as usize] = Descriptor {
        base: 0, limit: 0xFFFF_FFFF, attr: 0x92, g: true, d_b: true, l: false,
    };
    // mov [0x12345678], al (A2 moffs32) ; hlt
    // In 32-bit addressing mode the moffs is 32-bit.
    cpu.set_eip(0x1000);
    cpu.mem.load(0x1000, &[
        0xA2, 0x78, 0x56, 0x34, 0x12,
        0xF4,
    ]);
    cpu.set_reg8(Reg8::Al, 0xAB);
    cpu.run(32);
    assert_eq!(cpu.mem.read_u8(0x12345678), 0xAB);
    assert!(cpu.halted);
}

#[test]
fn jcc32_branches_via_eip_in_32bit_mode() {
    let mut cpu = Cpu::new();
    cpu.pe = true;
    cpu.cs = 0x08;
    cpu.seg_desc[SegReg::Cs as usize] = Descriptor {
        base: 0, limit: 0xFFFF_FFFF, attr: 0x9A, g: true, d_b: true, l: false,
    };
    cpu.set_eip(0x1000);
    // mov eax, 1 ; test eax, eax ; jz rel32 (0F 84) not taken ; hlt
    cpu.mem.load(0x1000, &[
        0xB8, 0x01, 0x00, 0x00, 0x00, // mov eax, 1
        0x85, 0xC0,                    // test eax, eax
        0x0F, 0x84, 0x01, 0x00, 0x00, 0x00, // jz +1 (not taken)
        0xF4,                          // hlt
        0xF4,
    ]);
    cpu.run(32);
    assert!(cpu.halted);
    // mov(5) + test(2) + jz(6) = 0x100D, then hlt advances to 0x100E.
    assert_eq!(cpu.eip(), 0x100E);
}

#[test]
fn movzx_zero_extends_8bit() {
    let mut cpu = Cpu::new();
    cpu.pe = true;
    cpu.cs = 0x08;
    cpu.seg_desc[SegReg::Cs as usize] = Descriptor {
        base: 0, limit: 0xFFFF_FFFF, attr: 0x9A, g: true, d_b: true, l: false,
    };
    cpu.set_eip(0x1000);
    // movzx eax, al (0F B6 C0) ; hlt
    cpu.mem.load(0x1000, &[
        0x0F, 0xB6, 0xC0,
        0xF4,
    ]);
    cpu.set_reg8(Reg8::Al, 0xFF);
    cpu.run(32);
    assert_eq!(cpu.eax(), 0xFF);
    assert!(cpu.halted);
}

#[test]
fn movsx_sign_extends_8bit() {
    let mut cpu = Cpu::new();
    cpu.pe = true;
    cpu.cs = 0x08;
    cpu.seg_desc[SegReg::Cs as usize] = Descriptor {
        base: 0, limit: 0xFFFF_FFFF, attr: 0x9A, g: true, d_b: true, l: false,
    };
    cpu.set_eip(0x1000);
    // movsx eax, al (0F BE C0) ; hlt
    cpu.mem.load(0x1000, &[
        0x0F, 0xBE, 0xC0,
        0xF4,
    ]);
    cpu.set_reg8(Reg8::Al, 0xFF);
    cpu.run(32);
    assert_eq!(cpu.eax(), 0xFFFF_FFFF);
    assert!(cpu.halted);
}

#[test]
fn wait_and_lldt_are_noops() {
    let mut cpu = Cpu::new();
    // wait (9B) ; lldt ax (0F 00 D0) ; hlt
    load(&mut cpu, &[
        0x9B,
        0x0F, 0x00, 0xD0,
        0xF4,
    ]);
    cpu.run(16);
    assert!(cpu.halted);
}

#[test]
fn mov_to_from_cr() {
    let mut cpu = Cpu::new();
    // mov eax, 0x12345000 ; mov cr3, eax ; mov ebx, cr3
    load(&mut cpu, &[
        0x66, 0xB8, 0x00, 0x50, 0x34, 0x12,
        0x0F, 0x22, 0xD8,
        0x66, 0x8B, 0xD8,
        0x0F, 0x20, 0xDB,
        0xF4,
    ]);
    cpu.run(16);
    assert_eq!(cpu.cr3, 0x12345000);
    assert_eq!(cpu.ebx(), 0x12345000);
}

#[test]
fn paging_translates_linear_to_physical() {
    let mut cpu = Cpu::new();
    cpu.pe = true;
    // Flat data segment: base 0, limit 4 GiB.
    cpu.seg_desc[SegReg::Ds as usize] = Descriptor {
        base: 0, limit: 0xFFFF_FFFF, attr: 0x92, g: true, d_b: true, l: false,
    };
    // Page directory at 0x1000, page table at 0x2000.
    // Map linear 0x0040_0000 (PD 1, PT 0) to physical 0x1000.
    cpu.mem.write_u32(0x1000 + 1 * 4, 0x2003);
    cpu.mem.write_u32(0x2000 + 0 * 4, 0x1003);
    cpu.cr3 = 0x1000;
    cpu.cr0 = 0x8000_0000; // PG set
    // Write a value at physical 0x1000, read it via linear 0x0040_0000.
    cpu.mem.write_u32(0x1000, 0xCAFEBABE);
    let phys = cpu.translate(SegReg::Ds, (0x0040_0000) as u64);
    assert_eq!(phys, 0x1000);
    assert_eq!(cpu.mem.read_u32(phys), 0xCAFEBABE);
}

#[test]
fn paging_disabled_identity_maps() {
    let mut cpu = Cpu::new();
    cpu.pe = true;
    cpu.seg_desc[SegReg::Ds as usize] = Descriptor {
        base: 0, limit: 0xFFFF_FFFF, attr: 0x92, g: true, d_b: true, l: false,
    };
    // PG clear: linear == physical.
    cpu.cr0 = 0;
    assert_eq!(cpu.translate(SegReg::Ds, (0x1234) as u64), 0x1234);
}

// ---- Exception tests ----

#[test]
fn divide_by_zero_raises_de() {
    let mut cpu = Cpu::new();
    cpu.ss = 0;
    cpu.set_sp(0x0100);
    // Install an IVT entry for vector 0x00 (#DE) -> handler at 0x0000:0x0300.
    cpu.mem.write_u16(0x00 * 4, 0x0300);
    cpu.mem.write_u16(0x00 * 4 + 2, 0x0000);
    // Handler: mov ax, 0xDEAD ; hlt. It deliberately does not IRET --
    // #DE is a fault, so the saved address is the DIV itself and
    // returning without fixing the divisor would just re-run it.
    cpu.mem.load(0x0300, &[
        0xB8, 0xAD, 0xDE,
        0xF4,
    ]);
    // mov ax, 0x0001 ; mov bx, 0x0000 ; div bx ; hlt
    cpu.ip = 0x1000;
    load(&mut cpu, &[
        0xB8, 0x01, 0x00,
        0xBB, 0x00, 0x00,
        0xF7, 0xF3,
        0xF4,
    ]);
    cpu.run(32);
    // The #DE handler ran: AX = 0xDEAD.
    assert_eq!(cpu.ax(), 0xDEAD);
    assert!(cpu.halted);
    // The frame's return address is the DIV, not the instruction after
    // it: a fault is restartable.
    assert_eq!(cpu.mem.read_u16(0x00FA), 0x1006);
}

#[test]
fn int3_raises_bp() {
    let mut cpu = Cpu::new();
    cpu.ss = 0;
    cpu.set_sp(0x0100);
    // IVT entry for vector 0x03 (#BP) -> handler at 0x0000:0x0300.
    cpu.mem.write_u16(0x03 * 4, 0x0300);
    cpu.mem.write_u16(0x03 * 4 + 2, 0x0000);
    // Handler: mov ax, 0x1234 ; iret
    cpu.mem.load(0x0300, &[
        0xB8, 0x34, 0x12,
        0xCF,
    ]);
    // int3 ; hlt
    load(&mut cpu, &[
        0xCC,
        0xF4,
    ]);
    cpu.run(32);
    assert_eq!(cpu.ax(), 0x1234);
    assert!(cpu.halted);
}

#[test]
fn into_raises_of_when_overflow_set() {
    let mut cpu = Cpu::new();
    cpu.ss = 0;
    cpu.set_sp(0x0100);
    // IVT entry for vector 0x04 (#OF) -> handler at 0x0000:0x0300.
    cpu.mem.write_u16(0x04 * 4, 0x0300);
    cpu.mem.write_u16(0x04 * 4 + 2, 0x0000);
    // Handler: mov ax, 0x7777 ; iret
    cpu.mem.load(0x0300, &[
        0xB8, 0x77, 0x77,
        0xCF,
    ]);
    // Set OF, then into ; hlt
    cpu.set_flag(flags::OF, true);
    load(&mut cpu, &[
        0xCE,
        0xF4,
    ]);
    cpu.run(32);
    assert_eq!(cpu.ax(), 0x7777);
    assert!(cpu.halted);
}

#[test]
fn invalid_opcode_raises_ud() {
    let mut cpu = Cpu::new();
    cpu.ss = 0;
    cpu.set_sp(0x0100);
    // IVT entry for vector 0x06 (#UD) -> handler at 0x0000:0x0300.
    cpu.mem.write_u16(0x06 * 4, 0x0300);
    cpu.mem.write_u16(0x06 * 4 + 2, 0x0000);
    // Handler: mov ax, 0xBEEF ; hlt (#UD is a fault -- see the #DE test).
    cpu.mem.load(0x0300, &[
        0xB8, 0xEF, 0xBE,
        0xF4,
    ]);
    // 0x0F 0xFF is an invalid opcode (not implemented) ; hlt
    load(&mut cpu, &[
        0x0F, 0xFF,
        0xF4,
    ]);
    cpu.run(32);
    assert_eq!(cpu.ax(), 0xBEEF);
    assert!(cpu.halted);
    // The saved address is the invalid instruction itself (loaded at
    // CS:IP = 0:0 by the test helper), not the byte after it.
    assert_eq!(cpu.mem.read_u16(0x00FA), 0x0000);
}

#[test]
fn page_fault_raises_pf_through_idt() {
    let mut cpu = Cpu::new();
    cpu.pe = true;
    cpu.ss = 0;
    cpu.set_esp(0x0100);
    // Flat data segment: base 0.
    cpu.seg_desc[SegReg::Ds as usize] = Descriptor {
        base: 0, limit: 0xFFFF_FFFF, attr: 0x92, g: true, d_b: true, l: false,
    };
    // IDT at 0x3000, vector 0x0E (#PF) entry at 0x3000 + 0x0E*8 = 0x3070.
    cpu.idt_base = 0x3000;
    cpu.idt_limit = 0xFF;
    let entry = 0x3000 + 0x0E * 8;
    cpu.mem.write_u16(entry, 0x5000);
    cpu.mem.write_u16(entry + 2, 0x08);
    cpu.mem.write_u16(entry + 6, 0x0000);
    // Handler at 0x5000: mov eax, 0xCAFE ; hlt. No IRET: #PF pushes an
    // error code on top of the frame, so a handler has to drop it before
    // returning -- and returning at all would re-run the faulting load.
    cpu.mem.load(0x5000, &[
        0x66, 0xB8, 0xFE, 0xCA, 0x00, 0x00,
        0xF4,
    ]);
    // Page directory at 0x2000. Identity-map the low 4 MiB (PDE[0] ->
    // page table at 0x3000, PT[0..5] -> pages 0x0000..0x5000) so the
    // code at 0x1000 and the handler at 0x5000 both fetch fine. Leave
    // PDE[1] NOT-present so linear 0x0040_0000 faults.
    cpu.mem.write_u32(0x2000 + 0 * 4, 0x3003); // PDE[0] -> PT 0x3000, present
    for i in 0..6 {
        cpu.mem.write_u32(0x3000 + i * 4, (i << 12) as u32 | 0x3); // PT[i] -> page i
    }
    cpu.mem.write_u32(0x2000 + 1 * 4, 0x2000); // PDE[1] not present
    cpu.cr3 = 0x2000;
    cpu.cr0 = 0x8000_0000; // PG set
    // mov eax, [0x0040_0000] ; hlt  (linear 0x0040_0000 -> PD index 1)
    // 66 = 32-bit operand, 67 = 32-bit addressing (so moffs is 32-bit).
    cpu.mem.load(0x1000, &[
        0x66, 0x67, 0xA1, 0x00, 0x00, 0x40, 0x00,
        0xF4,
    ]);
    cpu.cs = 0x08;
    cpu.set_eip(0x1000);
    cpu.run(32);
    // The #PF handler ran: EAX = 0xCAFE.
    assert_eq!(cpu.eax(), 0xCAFE);
    // CR2 holds the faulting linear address.
    assert_eq!(cpu.cr2, 0x0040_0000);
    assert!(cpu.halted);
    // The frame is EFLAGS, CS, EIP, error code -- error code on TOP, at
    // the lowest address, which is where a handler reads it from.
    assert_eq!(cpu.mem.read_u32(0x00F0), 0x0000_0000); // error code: not present, read
    assert_eq!(cpu.mem.read_u32(0x00F4), 0x1000);      // EIP: the faulting load
    assert_eq!(cpu.mem.read_u32(0x00F8), 0x08);        // CS
}

// ---- Tests for the instructions and behaviours added while getting a
// ---- real Linux kernel to boot. Each of these pins a bug that was found
// ---- the hard way, from a kernel that crashed thousands of instructions
// ---- later with no obvious connection to the cause.

/// Set up a CPU in flat 32-bit protected mode with code at 0x1000 and a
/// stack at 0x8000, the shape almost every 32-bit test wants.
fn flat32() -> Cpu {
    let mut cpu = Cpu::new();
    cpu.pe = true;
    cpu.cs = 0x08;
    cpu.ss = 0x10;
    let code = Descriptor { base: 0, limit: 0xFFFF_FFFF, attr: 0x9A, g: true, d_b: true, l: false };
    let data = Descriptor { base: 0, limit: 0xFFFF_FFFF, attr: 0x92, g: true, d_b: true, l: false };
    cpu.seg_desc[SegReg::Cs as usize] = code;
    for s in [SegReg::Ds, SegReg::Es, SegReg::Ss, SegReg::Fs, SegReg::Gs] {
        cpu.seg_desc[s as usize] = data;
    }
    cpu.set_eip(0x1000);
    cpu.set_esp(0x8000);
    cpu
}

fn run32(bytes: &[u8]) -> Cpu {
    let mut cpu = flat32();
    cpu.mem.load(0x1000, bytes);
    cpu.run(200);
    cpu
}

#[test]
fn cmp_sets_flags_without_writing_the_destination() {
    // CMP is SUB that throws the result away. Writing it back corrupts a
    // register on every comparison -- and the kernel compares constantly.
    let cpu = run32(&[
        0xB8, 0x0A, 0x00, 0x00, 0x00, // mov eax, 10
        0xBB, 0x03, 0x00, 0x00, 0x00, // mov ebx, 3
        0x39, 0xD8,                   // cmp eax, ebx
        0xF4,
    ]);
    assert_eq!(cpu.eax(), 10, "CMP must not modify its destination");
    assert_eq!(cpu.ebx(), 3);
    assert!(!cpu.get_flag(flags::ZF));
    assert!(!cpu.get_flag(flags::CF));
}

#[test]
fn cmp_reg_form_also_leaves_the_register_alone() {
    let cpu = run32(&[
        0xB8, 0x03, 0x00, 0x00, 0x00, // mov eax, 3
        0xBB, 0x0A, 0x00, 0x00, 0x00, // mov ebx, 10
        0x3B, 0xC3,                   // cmp eax, ebx  (Dir::RegRm)
        0xF4,
    ]);
    assert_eq!(cpu.eax(), 3);
    assert!(cpu.get_flag(flags::CF), "3 - 10 borrows");
}

#[test]
fn shifts_are_32_bit_wide_in_a_32_bit_segment() {
    // D1/D3 in a D=1 segment shift the whole 32-bit register. Treating
    // them as byte shifts leaves the top 24 bits untouched, which turns
    // a `value >>= 4` loop into an infinite one.
    let cpu = run32(&[
        0xBA, 0x00, 0x00, 0x1A, 0xE1, // mov edx, 0xE11A0000
        0xB1, 0x04,                   // mov cl, 4
        0xD3, 0xEA,                   // shr edx, cl
        0xF4,
    ]);
    assert_eq!(cpu.edx(), 0x0E11_A000);
}

#[test]
fn shift_by_one_and_by_immediate_agree() {
    let cpu = run32(&[
        0xB8, 0x00, 0x00, 0x00, 0x80, // mov eax, 0x80000000
        0xD1, 0xE8,                   // shr eax, 1
        0xBB, 0x00, 0x00, 0x00, 0x80, // mov ebx, 0x80000000
        0xC1, 0xEB, 0x01,             // shr ebx, 1
        0xF4,
    ]);
    assert_eq!(cpu.eax(), 0x4000_0000);
    assert_eq!(cpu.ebx(), 0x4000_0000);
}

#[test]
fn shift_count_past_the_operand_width_clears_it() {
    // The count is masked to 5 bits for every operand size, so a 16-bit
    // shift by 20 really does shift a 16-bit value 20 places.
    let mut cpu = flat32();
    cpu.mem.load(0x1000, &[
        0x66, 0xB8, 0xFF, 0xFF, // mov ax, 0xFFFF
        0xB1, 0x14,             // mov cl, 20
        0x66, 0xD3, 0xE0,       // shl ax, cl
        0xF4,
    ]);
    cpu.run(64);
    assert_eq!(cpu.ax(), 0);
}

#[test]
fn sar_replicates_the_sign_bit() {
    let cpu = run32(&[
        0xB8, 0x00, 0x00, 0x00, 0x80, // mov eax, 0x80000000
        0xC1, 0xF8, 0x04,             // sar eax, 4
        0xF4,
    ]);
    assert_eq!(cpu.eax(), 0xF800_0000);
}

#[test]
fn rotate_through_carry_by_more_than_one() {
    // RCL rotates through a 33-bit quantity; doing it as a plain 32-bit
    // rotate loses the carry bit for any count above 1.
    let cpu = run32(&[
        0xF8,                         // clc
        0xB8, 0x01, 0x00, 0x00, 0x80, // mov eax, 0x80000001
        0xC1, 0xD0, 0x02,             // rcl eax, 2
        0xF4,
    ]);
    // Worked through as a 33-bit rotate: (CF:EAX) = 0_80000001 rotated
    // left twice gives 0_00000005, so EAX = 5 and CF comes back clear.
    // A plain 32-bit rotate would give 6 and lose the carry.
    assert_eq!(cpu.eax(), 0x0000_0005);
    assert!(!cpu.get_flag(flags::CF));
}

#[test]
fn pusha_and_popa_round_trip() {
    let cpu = run32(&[
        0xB8, 0x11, 0x11, 0x11, 0x11, // mov eax, 0x11111111
        0xBB, 0x22, 0x22, 0x22, 0x22, // mov ebx, 0x22222222
        0xB9, 0x33, 0x33, 0x33, 0x33, // mov ecx, 0x33333333
        0x60,                         // pushad
        0x31, 0xC0,                   // xor eax, eax
        0x31, 0xDB,                   // xor ebx, ebx
        0x31, 0xC9,                   // xor ecx, ecx
        0x61,                         // popad
        0xF4,
    ]);
    assert_eq!(cpu.eax(), 0x1111_1111);
    assert_eq!(cpu.ebx(), 0x2222_2222);
    assert_eq!(cpu.ecx(), 0x3333_3333);
    assert_eq!(cpu.esp(), 0x8000, "POPAD must restore the stack pointer");
}

#[test]
fn pop_rm_writes_memory() {
    let cpu = run32(&[
        0x68, 0xEF, 0xBE, 0xAD, 0xDE, // push 0xDEADBEEF
        0x8F, 0x05, 0x00, 0x30, 0x00, 0x00, // pop dword [0x3000]
        0xF4,
    ]);
    assert_eq!(cpu.mem.read_u32(0x3000), 0xDEAD_BEEF);
    assert_eq!(cpu.esp(), 0x8000);
}

#[test]
fn push_imm8_pushes_four_bytes_in_32_bit_mode() {
    // A two-byte push here misaligns the stack for everything after it.
    let cpu = run32(&[
        0x6A, 0xFF, // push -1
        0xF4,
    ]);
    assert_eq!(cpu.esp(), 0x7FFC);
    assert_eq!(cpu.mem.read_u32(0x7FFC), 0xFFFF_FFFF, "sign-extended");
}

#[test]
fn setcc_writes_one_or_zero() {
    let cpu = run32(&[
        0xB8, 0x05, 0x00, 0x00, 0x00, // mov eax, 5
        0x83, 0xF8, 0x05,             // cmp eax, 5
        0x0F, 0x94, 0xC3,             // sete bl
        0x0F, 0x95, 0xC7,             // setne bh
        0xF4,
    ]);
    assert_eq!(cpu.ebx() & 0xFF, 1);
    assert_eq!((cpu.ebx() >> 8) & 0xFF, 0);
}

#[test]
fn imul_three_operand_and_two_operand() {
    let cpu = run32(&[
        0xB8, 0x07, 0x00, 0x00, 0x00, // mov eax, 7
        0x6B, 0xD8, 0x06,             // imul ebx, eax, 6
        0xB9, 0x03, 0x00, 0x00, 0x00, // mov ecx, 3
        0x0F, 0xAF, 0xC8,             // imul ecx, eax
        0xF4,
    ]);
    assert_eq!(cpu.ebx(), 42);
    assert_eq!(cpu.ecx(), 21);
}

#[test]
fn imul_sets_carry_when_the_product_does_not_fit() {
    let cpu = run32(&[
        0xB8, 0x00, 0x00, 0x00, 0x40, // mov eax, 0x40000000
        0x6B, 0xC0, 0x04,             // imul eax, eax, 4
        0xF4,
    ]);
    assert_eq!(cpu.eax(), 0, "low half of the product");
    assert!(cpu.get_flag(flags::CF));
    assert!(cpu.get_flag(flags::OF));
}

#[test]
fn shrd_and_shld_move_bits_between_registers() {
    let cpu = run32(&[
        0xB8, 0xFF, 0xFF, 0x0F, 0x00, // mov eax, 0x000FFFFF
        0xBA, 0x00, 0x00, 0x1A, 0xE1, // mov edx, 0xE11A0000
        0xB1, 0x04,                   // mov cl, 4
        0x0F, 0xAD, 0xD0,             // shrd eax, edx, cl
        0xF4,
    ]);
    // eax >> 4, with edx's low nibble shifted into the top.
    assert_eq!(cpu.eax(), 0x0000_FFFF);
}

#[test]
fn bsf_and_bsr_find_the_end_bits() {
    let cpu = run32(&[
        0xB8, 0x00, 0x01, 0x00, 0x01, // mov eax, 0x01000100
        0x0F, 0xBC, 0xD8,             // bsf ebx, eax
        0x0F, 0xBD, 0xC8,             // bsr ecx, eax
        0xF4,
    ]);
    assert_eq!(cpu.ebx(), 8);
    assert_eq!(cpu.ecx(), 24);
    assert!(!cpu.get_flag(flags::ZF));
}

#[test]
fn bsf_of_zero_sets_zf_and_leaves_the_destination() {
    let cpu = run32(&[
        0xBB, 0x99, 0x00, 0x00, 0x00, // mov ebx, 0x99
        0x31, 0xC0,                   // xor eax, eax
        0x0F, 0xBC, 0xD8,             // bsf ebx, eax
        0xF4,
    ]);
    assert!(cpu.get_flag(flags::ZF));
    assert_eq!(cpu.ebx(), 0x99);
}

#[test]
fn bit_test_uses_the_registers_value_not_its_number() {
    // BT with a register offset takes the *value* in that register. Using
    // the ModR/M reg field instead makes every `test_bit()` answer from
    // whichever bit the register number happens to name -- which had the
    // kernel believing every interrupt vector was already claimed.
    let cpu = run32(&[
        0xB8, 0x00, 0x00, 0x00, 0x80, // mov eax, 0x80000000
        0xBA, 0x1F, 0x00, 0x00, 0x00, // mov edx, 31
        0x0F, 0xA3, 0xD0,             // bt eax, edx
        0xF4,
    ]);
    assert!(cpu.get_flag(flags::CF), "bit 31 of 0x80000000 is set");
}

#[test]
fn bit_test_on_memory_indexes_a_bit_string() {
    // With a memory operand the offset is not masked to the operand size:
    // it selects a dword further along, which is how kernel bitmaps work.
    let mut cpu = flat32();
    cpu.mem.write_u32(0x3000, 0);
    cpu.mem.write_u32(0x3004, 0x0000_0004); // bit 34 overall
    cpu.mem.load(0x1000, &[
        0xBA, 0x22, 0x00, 0x00, 0x00,             // mov edx, 34
        0x0F, 0xA3, 0x15, 0x00, 0x30, 0x00, 0x00, // bt [0x3000], edx
        0xF4,
    ]);
    cpu.run(64);
    assert!(cpu.get_flag(flags::CF));
}

#[test]
fn bts_on_memory_sets_the_right_bit() {
    let mut cpu = flat32();
    cpu.mem.load(0x1000, &[
        0xBA, 0x21, 0x00, 0x00, 0x00,             // mov edx, 33
        0x0F, 0xAB, 0x15, 0x00, 0x30, 0x00, 0x00, // bts [0x3000], edx
        0xF4,
    ]);
    cpu.run(64);
    assert_eq!(cpu.mem.read_u32(0x3000), 0);
    assert_eq!(cpu.mem.read_u32(0x3004), 0x0000_0002);
}

#[test]
fn xchg_swaps_register_and_memory() {
    let mut cpu = flat32();
    cpu.mem.write_u32(0x3000, 0xAAAA_AAAA);
    cpu.mem.load(0x1000, &[
        0xB8, 0xBB, 0xBB, 0xBB, 0xBB,       // mov eax, 0xBBBBBBBB
        0x87, 0x05, 0x00, 0x30, 0x00, 0x00, // xchg [0x3000], eax
        0xF4,
    ]);
    cpu.run(64);
    assert_eq!(cpu.eax(), 0xAAAA_AAAA);
    assert_eq!(cpu.mem.read_u32(0x3000), 0xBBBB_BBBB);
}

#[test]
fn cmpxchg_swaps_only_on_a_match() {
    let mut cpu = flat32();
    cpu.mem.write_u32(0x3000, 5);
    cpu.mem.load(0x1000, &[
        0xB8, 0x05, 0x00, 0x00, 0x00,       // mov eax, 5   (expected)
        0xBB, 0x63, 0x00, 0x00, 0x00,       // mov ebx, 99  (new)
        0x0F, 0xB1, 0x1D, 0x00, 0x30, 0x00, 0x00, // cmpxchg [0x3000], ebx
        0xF4,
    ]);
    cpu.run(64);
    assert!(cpu.get_flag(flags::ZF));
    assert_eq!(cpu.mem.read_u32(0x3000), 99);
}

#[test]
fn cmpxchg_loads_the_accumulator_on_a_mismatch() {
    let mut cpu = flat32();
    cpu.mem.write_u32(0x3000, 7);
    cpu.mem.load(0x1000, &[
        0xB8, 0x05, 0x00, 0x00, 0x00,
        0xBB, 0x63, 0x00, 0x00, 0x00,
        0x0F, 0xB1, 0x1D, 0x00, 0x30, 0x00, 0x00,
        0xF4,
    ]);
    cpu.run(64);
    assert!(!cpu.get_flag(flags::ZF));
    assert_eq!(cpu.eax(), 7, "accumulator takes the destination's value");
    assert_eq!(cpu.mem.read_u32(0x3000), 7, "destination unchanged");
}

#[test]
fn xadd_exchanges_and_adds() {
    let mut cpu = flat32();
    cpu.mem.write_u32(0x3000, 10);
    cpu.mem.load(0x1000, &[
        0xBB, 0x05, 0x00, 0x00, 0x00,             // mov ebx, 5
        0x0F, 0xC1, 0x1D, 0x00, 0x30, 0x00, 0x00, // xadd [0x3000], ebx
        0xF4,
    ]);
    cpu.run(64);
    assert_eq!(cpu.ebx(), 10, "source register gets the old destination");
    assert_eq!(cpu.mem.read_u32(0x3000), 15);
}

#[test]
fn cmpxchg8b_compares_and_swaps_64_bits() {
    let mut cpu = flat32();
    cpu.mem.write_u32(0x3000, 0x1111_1111);
    cpu.mem.write_u32(0x3004, 0x2222_2222);
    cpu.mem.load(0x1000, &[
        0xB8, 0x11, 0x11, 0x11, 0x11,       // mov eax, 0x11111111
        0xBA, 0x22, 0x22, 0x22, 0x22,       // mov edx, 0x22222222
        0xBB, 0x44, 0x44, 0x44, 0x44,       // mov ebx, 0x44444444
        0xB9, 0x33, 0x33, 0x33, 0x33,       // mov ecx, 0x33333333
        0x0F, 0xC7, 0x0D, 0x00, 0x30, 0x00, 0x00, // cmpxchg8b [0x3000]
        0xF4,
    ]);
    cpu.run(64);
    assert!(cpu.get_flag(flags::ZF));
    assert_eq!(cpu.mem.read_u32(0x3000), 0x4444_4444);
    assert_eq!(cpu.mem.read_u32(0x3004), 0x3333_3333);
}

#[test]
fn bswap_reverses_byte_order() {
    let cpu = run32(&[
        0xB8, 0x78, 0x56, 0x34, 0x12, // mov eax, 0x12345678
        0x0F, 0xC8,                   // bswap eax
        0xF4,
    ]);
    assert_eq!(cpu.eax(), 0x7856_3412);
}

#[test]
fn cmovcc_moves_only_when_the_condition_holds() {
    let cpu = run32(&[
        0xB8, 0x01, 0x00, 0x00, 0x00, // mov eax, 1
        0xBB, 0x63, 0x00, 0x00, 0x00, // mov ebx, 99
        0x85, 0xC0,                   // test eax, eax
        0x0F, 0x44, 0xD8,             // cmove ebx, eax   (not taken)
        0x0F, 0x45, 0xD8,             // cmovne ebx, eax  (taken)
        0xF4,
    ]);
    assert_eq!(cpu.ebx(), 1);
}

#[test]
fn leave_tears_down_the_frame() {
    let cpu = run32(&[
        0xBD, 0x00, 0x70, 0x00, 0x00, // mov ebp, 0x7000
        0x55,                         // push ebp
        0x89, 0xE5,                   // mov ebp, esp
        0x83, 0xEC, 0x20,             // sub esp, 32
        0xC9,                         // leave
        0xF4,
    ]);
    assert_eq!(cpu.ebp(), 0x7000);
    assert_eq!(cpu.esp(), 0x8000);
}

#[test]
fn ret_imm16_drops_arguments() {
    let cpu = run32(&[
        0x68, 0x08, 0x00, 0x00, 0x00, // push 8   (a fake argument)
        0xE8, 0x01, 0x00, 0x00, 0x00, // call +1
        0xF4,                         // hlt (returned here)
        0xC2, 0x04, 0x00,             // ret 4
    ]);
    assert!(cpu.halted);
    assert_eq!(cpu.esp(), 0x8000, "the pushed argument was dropped too");
}

#[test]
fn inc_and_dec_r_m8_preserve_carry() {
    let mut cpu = flat32();
    cpu.mem.write_u8(0x3000, 0x7F);
    cpu.mem.load(0x1000, &[
        0xF9,                               // stc
        0xFE, 0x05, 0x00, 0x30, 0x00, 0x00, // inc byte [0x3000]
        0xF4,
    ]);
    cpu.run(64);
    assert_eq!(cpu.mem.read_u8(0x3000), 0x80);
    assert!(cpu.get_flag(flags::CF), "INC leaves CF alone");
    assert!(cpu.get_flag(flags::OF), "0x7F + 1 overflows a signed byte");
}

#[test]
fn lock_prefix_is_accepted() {
    // `lock` is a prefix, not an opcode: failing to consume it turns
    // every atomic operation in the kernel into an invalid instruction.
    let mut cpu = flat32();
    cpu.mem.write_u32(0x3000, 1);
    cpu.mem.load(0x1000, &[
        0xF0, 0xFF, 0x05, 0x00, 0x30, 0x00, 0x00, // lock inc dword [0x3000]
        0xF4,
    ]);
    cpu.run(64);
    assert!(cpu.unknown_ops.is_empty(), "LOCK must decode as a prefix");
    assert_eq!(cpu.mem.read_u32(0x3000), 2);
}

#[test]
fn multi_byte_nop_decodes() {
    let cpu = run32(&[
        0x0F, 0x1F, 0x40, 0x00, // nopl 0x0(%eax)
        0xF4,
    ]);
    assert!(cpu.unknown_ops.is_empty());
    assert!(cpu.halted);
}

#[test]
fn pushfd_and_popfd_move_the_whole_of_eflags() {
    // Linux toggles the ID bit (21) through PUSHFD/POPFD to decide whether
    // CPUID exists at all. A 16-bit flags word cannot carry it.
    let cpu = run32(&[
        0x9C,                               // pushfd
        0x58,                               // pop eax
        0x35, 0x00, 0x00, 0x20, 0x00,       // xor eax, 0x00200000  (ID)
        0x50,                               // push eax
        0x9D,                               // popfd
        0x9C,                               // pushfd
        0x5B,                               // pop ebx
        0xF4,
    ]);
    assert_eq!(cpu.ebx() & 0x0020_0000, 0x0020_0000, "ID bit is writable");
    assert_eq!(cpu.esp(), 0x8000);
}

#[test]
fn segment_registers_push_and_pop() {
    let cpu = run32(&[
        0x0F, 0xA0, // push fs
        0x1E,       // push ds
        0x1F,       // pop ds
        0x0F, 0xA1, // pop fs
        0xF4,
    ]);
    assert!(cpu.unknown_ops.is_empty());
    assert_eq!(cpu.esp(), 0x8000);
}

#[test]
fn debug_registers_read_back_what_was_written() {
    let cpu = run32(&[
        0xB8, 0x55, 0x00, 0x00, 0x00, // mov eax, 0x55
        0x0F, 0x23, 0xF8,             // mov dr7, eax
        0x0F, 0x21, 0xFB,             // mov ebx, dr7
        0xF4,
    ]);
    assert_eq!(cpu.ebx(), 0x55);
}

#[test]
fn moffs_honours_a_segment_override() {
    // `mov %gs:0xC,%eax` is how i386 userspace reads thread-local storage.
    // Translating it through DS instead reads address 0xC.
    let mut cpu = flat32();
    cpu.seg_desc[SegReg::Gs as usize] = Descriptor {
        base: 0x5000, limit: 0xFFFF_FFFF, attr: 0x92, g: true, d_b: true, l: false,
    };
    cpu.mem.write_u32(0x500C, 0xFEED_FACE);
    cpu.mem.write_u32(0x000C, 0xDEAD_0000);
    cpu.mem.load(0x1000, &[
        0x65, 0xA1, 0x0C, 0x00, 0x00, 0x00, // mov eax, gs:0xC
        0xF4,
    ]);
    cpu.run(64);
    assert_eq!(cpu.eax(), 0xFEED_FACE);
}

#[test]
fn an_immediate_that_ends_on_a_page_boundary_is_fetched_whole() {
    // The instruction-fetch cache advances a physical pointer. When an
    // operand's last byte sits at offset 0xFFF the cursor lands on the
    // next *virtual* page, whose physical page is unrelated -- so the
    // cache has to be dropped. Here the two pages are deliberately not
    // contiguous in physical memory, so a stale cache reads rubbish.
    let mut cpu = flat32();
    cpu.cr3 = 0x20000;
    // Page directory entry 0 -> page table at 0x21000.
    cpu.mem.write_u32(0x20000, 0x21003);
    // Identity-map the first 16 pages so the stack and data work.
    for i in 0..16u32 {
        cpu.mem.write_u32(0x21000 + i as usize * 4, (i << 12) | 3);
    }
    // Virtual page 0x10 -> physical 0x40000, virtual 0x11 -> 0x60000:
    // adjacent virtually, far apart physically.
    cpu.mem.write_u32(0x21000 + 0x10 * 4, 0x40003);
    cpu.mem.write_u32(0x21000 + 0x11 * 4, 0x60003);
    cpu.cr0 = 0x8000_0001;
    // `mov dword [0x3000], 0xAABBCCDD` placed so its immediate straddles
    // the boundary: the instruction is 10 bytes and starts 6 before it.
    let code: [u8; 11] = [
        0xC7, 0x05, 0x00, 0x30, 0x00, 0x00, 0xDD, 0xCC, 0xBB, 0xAA,
        0xF4,
    ];
    // The first six bytes sit at the end of physical page 0x40000; the
    // rest continue at the start of physical page 0x60000, because that
    // is where the *next virtual* page actually lives.
    for (i, b) in code.iter().enumerate() {
        if i < 6 {
            cpu.mem.write_u8(0x40000 + 0x1000 - 6 + i, *b);
        } else {
            cpu.mem.write_u8(0x60000 + (i - 6), *b);
        }
    }
    // Physical 0x41000 -- where a stale fetch cache would keep reading --
    // holds a pattern that must not reach the immediate.
    for i in 0..8 {
        cpu.mem.write_u8(0x41000 + i, 0x77);
    }
    cpu.set_eip(0x10000 + 0x1000 - 6);
    cpu.run(16);
    assert_eq!(cpu.mem.read_u32(0x3000), 0xAABB_CCDD);
}

#[test]
fn a_faulting_instruction_does_not_commit_its_result() {
    // `add (%edi),%edx` whose load page-faults must leave EDX untouched:
    // the instruction restarts after the handler, and a partial commit
    // makes the retry add to an already-modified value.
    let mut cpu = flat32();
    cpu.cr3 = 0x20000;
    cpu.mem.write_u32(0x20000, 0x21003);
    for i in 0..16u32 {
        cpu.mem.write_u32(0x21000 + i as usize * 4, (i << 12) | 3);
    }
    // Leave virtual page 0x30 unmapped.
    cpu.cr0 = 0x8000_0001;
    cpu.idt_base = 0x5000;
    cpu.idt_limit = 0xFF;
    // #PF handler: just halt, so the test can look at the register.
    let entry = 0x5000 + 0x0E * 8;
    cpu.mem.write_u16(entry, 0x2000);
    cpu.mem.write_u16(entry + 2, 0x08);
    cpu.mem.write_u16(entry + 4, 0x8E00);
    cpu.mem.write_u16(entry + 6, 0x0000);
    cpu.mem.write_u8(0x2000, 0xF4);
    cpu.mem.load(0x1000, &[
        0xBA, 0x0A, 0x00, 0x00, 0x00,       // mov edx, 10
        0xBF, 0x00, 0x00, 0x03, 0x00,       // mov edi, 0x30000 (unmapped)
        0x03, 0x17,                         // add edx, [edi]
        0xF4,
    ]);
    cpu.run(64);
    assert_eq!(cpu.cr2, 0x0003_0000, "the faulting address");
    assert_eq!(cpu.edx(), 10, "EDX must be untouched by the faulted add");
}

#[test]
fn a_rep_string_stops_at_the_element_that_faults() {
    // The count and index registers have to point at the failing element
    // so the restart resumes there. Running the loop to completion through
    // the fault writes the rest of it into nowhere and the retry copies
    // nothing.
    let mut cpu = flat32();
    cpu.cr3 = 0x20000;
    cpu.mem.write_u32(0x20000, 0x21003);
    for i in 0..16u32 {
        cpu.mem.write_u32(0x21000 + i as usize * 4, (i << 12) | 3);
    }
    cpu.cr0 = 0x8000_0001;
    cpu.idt_base = 0x5000;
    cpu.idt_limit = 0xFF;
    let entry = 0x5000 + 0x0E * 8;
    cpu.mem.write_u16(entry, 0x2000);
    cpu.mem.write_u16(entry + 2, 0x08);
    cpu.mem.write_u16(entry + 4, 0x8E00);
    cpu.mem.write_u16(entry + 6, 0x0000);
    cpu.mem.write_u8(0x2000, 0xF4);
    // Store 0x100 dwords from 0xFF00: the last of them runs off the end
    // of the mapped region at 0x10000.
    cpu.mem.load(0x1000, &[
        0xB8, 0xFF, 0xFF, 0xFF, 0xFF,       // mov eax, 0xFFFFFFFF
        0xBF, 0x00, 0xFF, 0x00, 0x00,       // mov edi, 0xFF00
        0xB9, 0x00, 0x01, 0x00, 0x00,       // mov ecx, 0x100
        0xF3, 0xAB,                         // rep stosd
        0xF4,
    ]);
    cpu.run(64);
    assert_eq!(cpu.cr2 & !0xFFF, 0x0001_0000, "faulted on the next page");
    assert_eq!(cpu.edi(), 0x1_0000, "EDI stops at the faulting element");
    assert_eq!(cpu.ecx(), 0x100 - 0x40, "and so does the count");
    // Everything before the fault really was written.
    assert_eq!(cpu.mem.read_u32(0xFFFC), 0xFFFF_FFFF);
}

#[test]
fn write_protect_faults_a_supervisor_write_to_a_read_only_page() {
    // CR0.WP. Linux checks this before it will run at all.
    let mut cpu = flat32();
    cpu.cr3 = 0x20000;
    cpu.mem.write_u32(0x20000, 0x21003);
    for i in 0..16u32 {
        cpu.mem.write_u32(0x21000 + i as usize * 4, (i << 12) | 3);
    }
    // Make virtual page 5 read-only.
    cpu.mem.write_u32(0x21000 + 5 * 4, 0x5001);
    cpu.idt_base = 0x5000;
    cpu.idt_limit = 0xFF;
    let entry = 0x5000 + 0x0E * 8;
    cpu.mem.write_u16(entry, 0x2000);
    cpu.mem.write_u16(entry + 2, 0x08);
    cpu.mem.write_u16(entry + 4, 0x8E00);
    cpu.mem.write_u16(entry + 6, 0x0000);
    cpu.mem.write_u8(0x2000, 0xF4);

    // With WP clear the write goes through.
    cpu.cr0 = 0x8000_0001;
    cpu.mem.load(0x1000, &[
        0xC7, 0x05, 0x00, 0x50, 0x00, 0x00, 0x2A, 0x00, 0x00, 0x00,
        0xF4,
    ]);
    cpu.run(32);
    assert_eq!(cpu.mem.read_u32(0x5000), 42);

    // With WP set the same write faults.
    let mut cpu2 = flat32();
    cpu2.cr3 = 0x20000;
    cpu2.mem.write_u32(0x20000, 0x21003);
    for i in 0..16u32 {
        cpu2.mem.write_u32(0x21000 + i as usize * 4, (i << 12) | 3);
    }
    cpu2.mem.write_u32(0x21000 + 5 * 4, 0x5001);
    cpu2.idt_base = 0x5000;
    cpu2.idt_limit = 0xFF;
    cpu2.mem.write_u16(entry, 0x2000);
    cpu2.mem.write_u16(entry + 2, 0x08);
    cpu2.mem.write_u16(entry + 4, 0x8E00);
    cpu2.mem.write_u16(entry + 6, 0x0000);
    cpu2.mem.write_u8(0x2000, 0xF4);
    cpu2.cr0 = 0x8001_0001; // PG | WP | PE
    cpu2.mem.load(0x1000, &[
        0xC7, 0x05, 0x00, 0x50, 0x00, 0x00, 0x63, 0x00, 0x00, 0x00,
        0xF4,
    ]);
    cpu2.run(32);
    assert_eq!(cpu2.cr2, 0x5000);
    assert_ne!(cpu2.mem.read_u32(0x5000), 99, "the write must not land");
}

#[test]
fn an_exception_pushes_its_error_code_on_top_of_the_frame() {
    // EFLAGS, CS, EIP, then the error code -- error code last, so it ends
    // up at the lowest address. Any other order shifts every field the
    // handler reads by one slot.
    let mut cpu = flat32();
    cpu.cr3 = 0x20000;
    cpu.mem.write_u32(0x20000, 0x21003);
    for i in 0..16u32 {
        cpu.mem.write_u32(0x21000 + i as usize * 4, (i << 12) | 3);
    }
    cpu.cr0 = 0x8000_0001;
    cpu.idt_base = 0x5000;
    cpu.idt_limit = 0xFF;
    let entry = 0x5000 + 0x0E * 8;
    cpu.mem.write_u16(entry, 0x2000);
    cpu.mem.write_u16(entry + 2, 0x08);
    cpu.mem.write_u16(entry + 4, 0x8E00);
    cpu.mem.write_u16(entry + 6, 0x0000);
    cpu.mem.write_u8(0x2000, 0xF4);
    cpu.mem.load(0x1000, &[
        0xA1, 0x00, 0x00, 0x03, 0x00, // mov eax, [0x30000] (unmapped)
        0xF4,
    ]);
    cpu.run(32);
    let esp = cpu.esp() as usize;
    assert_eq!(cpu.mem.read_u32(esp), 0, "error code: not present, read");
    assert_eq!(cpu.mem.read_u32(esp + 4), 0x1000, "EIP: the faulting insn");
    assert_eq!(cpu.mem.read_u32(esp + 8), 0x08, "CS");
}

#[test]
fn the_16_bit_view_of_a_register_is_not_a_separate_copy() {
    // Writing ECX then reading CL must see the new value. Keeping AX and
    // EAX as two fields meant any 32-bit write that forgot to refresh the
    // 16-bit half left the two disagreeing, and the next byte-register
    // write rebuilt the 32-bit register from the stale half.
    let cpu = run32(&[
        0xBF, 0x00, 0x00, 0x04, 0x00, // mov edi, 0x40000 (clear of the code)
        0xB9, 0x9C, 0x06, 0x00, 0x00, // mov ecx, 0x69C
        0xF3, 0xAB,                   // rep stosd  (drives ECX to 0)
        0xB1, 0x04,                   // mov cl, 4
        0xF4,
    ]);
    assert_eq!(cpu.ecx(), 4, "CL must write into the register ECX shares");
}

#[test]
fn hlt_waits_for_an_interrupt_instead_of_stopping_the_machine() {
    // The idle loop is `hlt`; a CPU that stops there never takes another
    // timer tick and the kernel never runs again.
    let mut cpu = Cpu::new();
    cpu.ss = 0;
    cpu.set_sp(0x0100);
    cpu.port_out(0x43, 0x36);
    cpu.port_out(0x40, 200);
    cpu.port_out(0x40, 0);
    cpu.port_out(0x20, 0x11);
    cpu.port_out(0x21, 0x08);
    cpu.mem.write_u16(0x08 * 4, 0x0200);
    cpu.mem.write_u16(0x08 * 4 + 2, 0x0000);
    // Handler: mask the timer, set AX, iret.
    cpu.mem.load(0x0200, &[
        0xB0, 0x01, 0xE6, 0x21, 0xB8, 0x42, 0x00, 0xCF,
    ]);
    cpu.mem.load(0x0100, &[0xF4, 0xF4]);
    cpu.cs = 0;
    cpu.ip = 0x0100;
    cpu.set_flag(flags::IF, true);
    cpu.run(4096);
    assert_eq!(cpu.ax(), 0x42, "the timer woke the halted CPU");
}

// ================================================================
// Long mode (64-bit)
// ================================================================
//
// Every test here starts from the real boot path (`boot::load_flat64`),
// so it exercises the same long-mode entry a payload would get: PAE on,
// a 4-level page table identity-mapping the low 4 GiB, EFER.LME set,
// paging enabled, and a code segment with L set.

/// Where `long_cpu` loads its code.
const CODE64: u64 = 0x10_0000;

fn long_cpu(code: &[u8]) -> Cpu {
    let mut cpu = Cpu::new();
    x86emu::boot::load_flat64(&mut cpu, code, CODE64).unwrap();
    cpu
}

/// Run an already-built machine until HLT, with a bound so a broken
/// test fails instead of hanging.
fn run64(cpu: &mut Cpu) {
    cpu.run(4096);
    assert!(cpu.halted, "did not reach HLT (rip={:016X})", cpu.rip);
    assert!(!cpu.triple_fault, "triple faulted at rip={:016X}", cpu.rip);
}

/// Build a long-mode machine from `code` and run it to HLT.
fn run64_code(code: &[u8]) -> Cpu {
    let mut cpu = long_cpu(code);
    run64(&mut cpu);
    cpu
}

/// Two unrelated physical pages behind linear 0x40_0000 and 0x40_1000.
fn split_map(cpu: &mut Cpu) {
    // PD entry 2 of the first GiB (linear 0x40_0000-0x60_0000) becomes a
    // 4 KiB page table at 0xA000 instead of a 2 MiB page.
    let pt = 0xA000usize;
    for i in 0..512 {
        cpu.mem.write_u64(pt + i * 8, 0);
    }
    cpu.mem.write_u64(pt, 0x70_0000 | pte::P | pte::RW);
    cpu.mem.write_u64(pt + 8, 0x90_0000 | pte::P | pte::RW);
    cpu.mem.write_u64(0x4000 + 2 * 8, pt as u64 | pte::P | pte::RW);
    cpu.flush_tlb();
}

#[test]
fn an_access_that_straddles_a_page_is_split_across_both_pages() {
    // mov [0x400FFA],rbx ; mov rax,[0x400FFC] ; hlt
    let code = [
        0x48, 0x89, 0x1C, 0x25, 0xFA, 0x0F, 0x40, 0x00, // mov [0x400FFA],rbx
        0x48, 0x8B, 0x04, 0x25, 0xFC, 0x0F, 0x40, 0x00, // mov rax,[0x400FFC]
        0xF4,
    ];
    let mut cpu = long_cpu(&code);
    split_map(&mut cpu);
    // The two physical pages: distinct fill patterns.
    for i in 0..0x1000 {
        cpu.mem.write_u8(0x70_0000 + i, 0xA0 | (i & 0xF) as u8);
    }
    for i in 0..0x1000 {
        cpu.mem.write_u8(0x90_0000 + i, 0xB0 | (i & 0xF) as u8);
    }
    cpu.regs[3] = 0x1122_3344_5566_7788;
    run64(&mut cpu);
    // The 8-byte store, 6 + 2.
    assert_eq!(cpu.mem.read_u16(0x70_0FFA), 0x7788);
    assert_eq!(cpu.mem.read_u16(0x90_0000), 0x1122);
    // Its neighbours, and the page that follows in physical memory, are as
    // they were.
    assert_eq!(cpu.mem.read_u16(0x70_0FF8), 0xA9A8);
    assert_eq!(cpu.mem.read_u16(0x90_0002), 0xB3B2);
    assert_eq!(cpu.mem.read_u64(0x70_1000), 0);
    // The 8-byte load, 4 + 4, sees the store.
    assert_eq!(cpu.regs[0], 0xB3B2_1122_3344_5566);
}

#[test]
fn entering_long_mode_takes_four_steps_in_order() {
    let cpu = long_cpu(&[0xF4]);
    // CR4.PAE, CR3, EFER.LME, CR0.PG -- and LMA set by the hardware in
    // response to the last of them, not by software.
    assert_ne!(cpu.cr4 & x86emu::cpu::CR4_PAE, 0, "PAE");
    assert_ne!(cpu.cr0 & x86emu::cpu::CR0_PG, 0, "paging");
    assert_ne!(cpu.efer & x86emu::cpu::efer::LME, 0, "LME");
    assert_ne!(cpu.efer & x86emu::cpu::efer::LMA, 0, "LMA was not set by the CPU");
    assert!(cpu.long_mode() && cpu.long64());
    assert_eq!(cpu.mode(), x86emu::cpu::Mode::Long);
    assert_eq!(cpu.paging_mode(), x86emu::paging::PagingMode::Long);
    // The code segment is 64-bit: L set, D/B clear. Both set is illegal.
    let cs = cpu.seg_desc[SegReg::Cs as usize];
    assert!(cs.l && !cs.d_b);
}

#[test]
fn clearing_paging_leaves_long_mode() {
    // LMA follows CR0.PG. `mov %rax,%cr0` with PG cleared drops the CPU
    // out of long mode, which is what a kernel does on the way to a
    // reboot or a 32-bit trampoline.
    let mut cpu = long_cpu(&[0xF4]);
    assert!(cpu.long_mode());
    cpu.cr0 &= !x86emu::cpu::CR0_PG;
    cpu.update_long_mode();
    assert!(!cpu.long_mode());
    assert_eq!(cpu.mode(), x86emu::cpu::Mode::Protected);
}

#[test]
fn rex_w_makes_the_operand_64_bits() {
    // movabs $0x0123456789ABCDEF,%rax ; mov %rax,%rbx ; add %rax,%rbx ; hlt
    let cpu = run64_code(&[
        0x48, 0xB8, 0xEF, 0xCD, 0xAB, 0x89, 0x67, 0x45, 0x23, 0x01,
        0x48, 0x89, 0xC3,
        0x48, 0x01, 0xC3,
        0xF4,
    ]);
    assert_eq!(cpu.reg64(0), 0x0123_4567_89AB_CDEF);
    assert_eq!(cpu.reg64(3), 0x0123_4567_89AB_CDEFu64.wrapping_mul(2));
}

#[test]
fn rex_b_reaches_the_registers_rex_added() {
    // mov $0x1234,%eax ; mov %rax,%r8 ; mov %r8,%r15 ; hlt
    let cpu = run64_code(&[
        0xB8, 0x34, 0x12, 0x00, 0x00,
        0x49, 0x89, 0xC0,
        0x4D, 0x89, 0xC7,
        0xF4,
    ]);
    assert_eq!(cpu.reg64(8), 0x1234, "R8");
    assert_eq!(cpu.reg64(15), 0x1234, "R15");
}

#[test]
fn a_32_bit_write_zero_extends_but_a_16_bit_one_does_not() {
    // The asymmetry is x86-64's, and code generated for it depends on
    // both halves: `mov $0,%eax` is the idiomatic way to clear RAX.
    // movabs $-1,%rax ; mov $1,%eax ; hlt
    let cpu = run64_code(&[
        0x48, 0xB8, 0xFF, 0xFF, 0xFF, 0xFF, 0xFF, 0xFF, 0xFF, 0xFF,
        0xB8, 0x01, 0x00, 0x00, 0x00,
        0xF4,
    ]);
    assert_eq!(cpu.reg64(0), 1, "a 32-bit write must clear the high half");

    // movabs $-1,%rax ; mov $1,%ax ; hlt
    let cpu = run64_code(&[
        0x48, 0xB8, 0xFF, 0xFF, 0xFF, 0xFF, 0xFF, 0xFF, 0xFF, 0xFF,
        0x66, 0xB8, 0x01, 0x00,
        0xF4,
    ]);
    assert_eq!(cpu.reg64(0), 0xFFFF_FFFF_FFFF_0001,
        "a 16-bit write must leave the bits above it alone");
}

#[test]
fn rip_relative_addressing_measures_from_the_end_of_the_instruction() {
    // mov 0x9(%rip),%rax ; hlt ; <8 bytes of data>
    //
    // The displacement is from the *next* instruction, so it has to skip
    // the HLT: seven bytes of MOV, one of HLT, and the data follows.
    let mut code = vec![
        0x48, 0x8B, 0x05, 0x01, 0x00, 0x00, 0x00, // mov 1(%rip),%rax
        0xF4,                                     // hlt
    ];
    code.extend_from_slice(&0xDEAD_BEEF_CAFE_F00Du64.to_le_bytes());
    let cpu = run64_code(&code);
    assert_eq!(cpu.reg64(0), 0xDEAD_BEEF_CAFE_F00D);
}

#[test]
fn lea_computes_a_rip_relative_address_without_reading_it() {
    // lea 0x10(%rip),%rax ; hlt
    let cpu = run64_code(&[
        0x48, 0x8D, 0x05, 0x10, 0x00, 0x00, 0x00,
        0xF4,
    ]);
    assert_eq!(cpu.reg64(0), CODE64 + 7 + 0x10);
}

#[test]
fn movsxd_sign_extends_a_32_bit_value() {
    // mov $-2,%ecx ; movslq %ecx,%rax ; hlt
    let cpu = run64_code(&[
        0xB9, 0xFE, 0xFF, 0xFF, 0xFF,
        0x48, 0x63, 0xC1,
        0xF4,
    ]);
    assert_eq!(cpu.reg64(0), 0xFFFF_FFFF_FFFF_FFFE);
    // ECX itself was zero-extended by its own 32-bit write, so the value
    // MOVSXD widened came from the low half alone.
    assert_eq!(cpu.reg64(1), 0xFFFF_FFFE);
}

#[test]
fn push_and_pop_are_eight_bytes_wide_and_not_overridable() {
    // movabs $0x1122334455667788,%rax ; push %rax ; pop %rbx ; hlt
    let mut cpu = long_cpu(&[
        0x48, 0xB8, 0x88, 0x77, 0x66, 0x55, 0x44, 0x33, 0x22, 0x11,
        0x50,
        0x5B,
        0xF4,
    ]);
    let rsp0 = cpu.rsp();
    cpu.run(4096);
    assert_eq!(cpu.reg64(3), 0x1122_3344_5566_7788);
    assert_eq!(cpu.rsp(), rsp0, "the stack came back to where it started");
}

#[test]
fn a_call_pushes_a_64_bit_return_address() {
    // call +1 ; hlt ; mov $7,%eax ; ret
    let cpu = run64_code(&[
        0xE8, 0x01, 0x00, 0x00, 0x00, // call .+1 (past the hlt)
        0xF4,                         // hlt
        0xB8, 0x07, 0x00, 0x00, 0x00, // mov $7,%eax
        0xC3,                         // ret
    ]);
    assert_eq!(cpu.reg64(0), 7);
    assert_eq!(cpu.rip, CODE64 + 6, "returned to the instruction after the call");
}

#[test]
fn shifts_take_a_six_bit_count_at_64_bit_width() {
    // A 5-bit mask would make `shl $32,%rax` a no-op, leaving the value
    // where it was instead of moving it into the high half.
    // mov $1,%eax ; shl $32,%rax ; hlt
    let cpu = run64_code(&[
        0xB8, 0x01, 0x00, 0x00, 0x00,
        0x48, 0xC1, 0xE0, 0x20,
        0xF4,
    ]);
    assert_eq!(cpu.reg64(0), 1u64 << 32);
}

#[test]
fn arithmetic_flags_are_computed_at_the_full_width() {
    // movabs $-1,%rax ; add $1,%rax ; hlt  -> zero, with a carry out.
    let cpu = run64_code(&[
        0x48, 0xB8, 0xFF, 0xFF, 0xFF, 0xFF, 0xFF, 0xFF, 0xFF, 0xFF,
        0x48, 0x83, 0xC0, 0x01,
        0xF4,
    ]);
    assert_eq!(cpu.reg64(0), 0);
    assert!(cpu.get_flag(flags::ZF));
    assert!(cpu.get_flag(flags::CF), "the carry out of bit 63");
    // The same addition at 32 bits would have carried out of bit 31 long
    // before, which is the bug a masked-to-32 implementation produces.
    assert!(!cpu.get_flag(flags::SF));
}

#[test]
fn multiply_and_divide_use_the_full_128_bit_intermediate() {
    // movabs $0x100000000,%rax ; mov %rax,%rbx ; mul %rbx ; hlt
    // 2^32 * 2^32 = 2^64: the whole product lives in RDX.
    let cpu = run64_code(&[
        0x48, 0xB8, 0x00, 0x00, 0x00, 0x00, 0x01, 0x00, 0x00, 0x00,
        0x48, 0x89, 0xC3,
        0x48, 0xF7, 0xE3,
        0xF4,
    ]);
    assert_eq!(cpu.reg64(0), 0, "low half");
    assert_eq!(cpu.reg64(2), 1, "high half");
    assert!(cpu.get_flag(flags::CF), "the product did not fit in RAX");
}

#[test]
fn imul_sign_extends_across_the_whole_width() {
    // mov $-1,%eax ; movslq %eax,%rax ; imul $3,%rax,%rbx ; hlt
    let cpu = run64_code(&[
        0xB8, 0xFF, 0xFF, 0xFF, 0xFF,
        0x48, 0x63, 0xC0,
        0x48, 0x6B, 0xD8, 0x03,
        0xF4,
    ]);
    assert_eq!(cpu.reg64(3) as i64, -3);
}

#[test]
fn string_instructions_step_64_bit_index_registers() {
    // lea 0x100(%rip),%rdi ; mov $4,%ecx ; movabs $0x1111...,%rax ;
    // rep stosq ; hlt
    let mut cpu = long_cpu(&[
        0x48, 0x8D, 0x3D, 0x00, 0x01, 0x00, 0x00,      // lea 0x100(%rip),%rdi
        0xB9, 0x04, 0x00, 0x00, 0x00,                  // mov $4,%ecx
        0x48, 0xB8, 0x11, 0x11, 0x11, 0x11, 0x11, 0x11, 0x11, 0x11,
        0xF3, 0x48, 0xAB,                              // rep stos %rax,(%rdi)
        0xF4,
    ]);
    cpu.run(4096);
    assert!(cpu.halted);
    let base = CODE64 + 7 + 0x100;
    for i in 0..4u64 {
        assert_eq!(cpu.mem.read_u64((base + i * 8) as usize), 0x1111_1111_1111_1111);
    }
    assert_eq!(cpu.reg64(7), base + 32, "RDI advanced eight bytes per element");
    assert_eq!(cpu.reg64(1), 0, "RCX ran down to zero");
}

#[test]
fn four_level_paging_reaches_the_high_half_of_the_address_space() {
    // Map linear 0xFFFF_8000_0000_0000 (PML4 entry 256) onto a 2 MiB page
    // at physical 0x40_0000, then write through it and read the physical
    // bytes back. This is the mapping every 64-bit kernel runs from.
    let mut cpu = long_cpu(&[0xF4]);
    let pml4 = cpu.cr3 as usize;
    // A fresh PDPT and PD above the identity map's tables.
    let pdpt = 0x9000usize;
    let pd = 0xA000usize;
    cpu.mem.write_u64(pml4 + 256 * 8, pdpt as u64 | pte::P | pte::RW);
    cpu.mem.write_u64(pdpt, pd as u64 | pte::P | pte::RW);
    cpu.mem.write_u64(pd, 0x40_0000 | pte::P | pte::RW | pte::PS);
    cpu.flush_tlb();

    let high: u64 = 0xFFFF_8000_0000_0000;
    let phys = cpu.apply_paging(high + 0x1234);
    assert!(cpu.pending_exception.is_none(), "the high half must translate");
    assert_eq!(phys, 0x40_0000 + 0x1234);

    // And it is writable through the CPU's own store path.
    let addr = cpu.translate_write(SegReg::Ds, high + 8);
    cpu.mem.write_u64(addr, 0xFEED_FACE_1234_5678);
    assert_eq!(cpu.mem.read_u64(0x40_0000 + 8), 0xFEED_FACE_1234_5678);
}

#[test]
fn a_non_canonical_address_is_a_general_protection_fault() {
    // The unused middle of the 64-bit address space is a hole, not an
    // alias: reaching into it is a #GP before the page tables are even
    // consulted, which is what stops a 48-bit machine from pretending to
    // have 64 bits of address space.
    let mut cpu = long_cpu(&[0xF4]);
    let phys = cpu.apply_paging(0x0000_8000_0000_0000);
    assert_eq!(cpu.pending_exception, Some((0x0D, Some(0))));
    assert_eq!(phys, x86emu::memory::UNBACKED);
    // A canonical address gets past this check and on to the page tables,
    // where being unmapped is an ordinary page fault -- a different
    // exception, reported differently, and fixable by a handler.
    cpu.pending_exception = None;
    cpu.apply_paging(0xFFFF_8000_0000_0000);
    assert_eq!(cpu.pending_exception.unwrap().0, 0x0E);
    // And a canonical address that *is* mapped simply works.
    cpu.pending_exception = None;
    assert_eq!(cpu.apply_paging(0x1234), 0x1234);
    assert!(cpu.pending_exception.is_none());
}

#[test]
fn no_execute_faults_on_a_fetch_and_only_on_a_fetch() {
    // NX has to be checked on the fetch path alone: a no-execute page is
    // still perfectly readable, and faulting on the read would break
    // every string constant a kernel keeps in its data segment.
    let mut cpu = long_cpu(&[0xF4]);
    // The identity map's second 2 MiB page, marked no-execute.
    let pd = 0x4000usize;
    let e = cpu.mem.read_u64(pd + 8);
    cpu.mem.write_u64(pd + 8, e | pte::NX);
    cpu.flush_tlb();

    let target = 0x20_0000u64;
    // A read is fine.
    let phys = cpu.apply_paging(target);
    assert!(cpu.pending_exception.is_none(), "a read of an NX page must work");
    assert_eq!(phys, target as usize);
    // A fetch is not.
    let _ = cpu.apply_paging_fetch(target);
    let (vector, code) = cpu.pending_exception.expect("fetch from NX must fault");
    assert_eq!(vector, 0x0E);
    assert_eq!(code.unwrap() & (1 << 4), 1 << 4, "the I/D bit says it was a fetch");
    assert_eq!(cpu.cr2, target);
}

#[test]
fn cpuid_reports_long_mode() {
    // Bit 29 of leaf 0x80000001's EDX is the long-mode bit, and reaching
    // that leaf at all requires 0x80000000 to answer with a high enough
    // maximum. A bootloader checks both, in that order.
    let mut cpu = long_cpu(&[0x0F, 0xA2, 0xF4]);
    cpu.set_reg32(Reg32::Eax, 0x8000_0000);
    cpu.run(8);
    assert!(cpu.reg32(Reg32::Eax) >= 0x8000_0001);

    let mut cpu = long_cpu(&[0x0F, 0xA2, 0xF4]);
    cpu.set_reg32(Reg32::Eax, 0x8000_0001);
    cpu.run(8);
    assert_ne!(cpu.reg32(Reg32::Edx) & (1 << 29), 0, "LM");
    assert_ne!(cpu.reg32(Reg32::Edx) & (1 << 20), 0, "NX");
    assert_ne!(cpu.reg32(Reg32::Edx) & (1 << 11), 0, "SYSCALL");
    // And PAE, in the basic leaf: a 64-bit boot will not start without it.
    let mut cpu = long_cpu(&[0x0F, 0xA2, 0xF4]);
    cpu.set_reg32(Reg32::Eax, 1);
    cpu.run(8);
    assert_ne!(cpu.reg32(Reg32::Edx) & (1 << 6), 0, "PAE");
}

#[test]
fn efer_round_trips_through_wrmsr_but_lma_is_the_cpus_to_set() {
    // mov $0xC0000080,%ecx ; rdmsr ; hlt
    let mut cpu = long_cpu(&[0xB9, 0x80, 0x00, 0x00, 0xC0, 0x0F, 0x32, 0xF4]);
    cpu.run(16);
    let efer = (cpu.reg32(Reg32::Eax) as u64) | ((cpu.reg32(Reg32::Edx) as u64) << 32);
    assert_eq!(efer, cpu.efer);
    assert_ne!(efer & x86emu::cpu::efer::LMA, 0);

    // Software cannot clear LMA by writing EFER: it follows CR0.PG.
    let mut cpu = long_cpu(&[0xF4]);
    cpu.write_msr(x86emu::cpu::msr::EFER, x86emu::cpu::efer::LME);
    assert_ne!(cpu.efer & x86emu::cpu::efer::LMA, 0,
        "LMA must not be clearable by a plain EFER write");
}

#[test]
fn fs_and_gs_bases_come_from_msrs_and_actually_offset_an_access() {
    // In 64-bit mode FS and GS are the only segments with a base, and it
    // is set through an MSR because it no longer fits in a descriptor.
    let mut cpu = long_cpu(&[0x64, 0x48, 0x8B, 0x04, 0x25, 0x00, 0x00, 0x00, 0x00, 0xF4]);
    // ^ mov %fs:0x0,%rax
    cpu.write_msr(x86emu::cpu::msr::FS_BASE, 0x30_0000);
    cpu.mem.write_u64(0x30_0000, 0xABCD_1234_5678_9EF0);
    cpu.run(16);
    assert_eq!(cpu.reg64(0), 0xABCD_1234_5678_9EF0);
}

#[test]
fn swapgs_exchanges_the_two_gs_bases() {
    // swapgs ; swapgs ; hlt -- one swap moves the kernel base into GS,
    // the second puts it back, which is the pattern at every kernel entry
    // and exit.
    let mut cpu = long_cpu(&[0x0F, 0x01, 0xF8, 0x0F, 0x01, 0xF8, 0xF4]);
    cpu.gs_base = 0x1111_0000;
    cpu.kernel_gs_base = 0x2222_0000;
    // Step one instruction at a time so the intermediate state is visible.
    cpu.step();
    assert_eq!(cpu.gs_base, 0x2222_0000);
    assert_eq!(cpu.kernel_gs_base, 0x1111_0000);
    cpu.step();
    assert_eq!(cpu.gs_base, 0x1111_0000);
    assert_eq!(cpu.kernel_gs_base, 0x2222_0000);
}

/// Add the user code/data descriptors SYSRET expects to the long-mode GDT.
fn add_user_descriptors(cpu: &mut Cpu) {
    let g = x86emu::boot::GDT64_ADDR as usize;
    // 0x18: 32-bit user code (the SYSRET base; unused by the 64-bit form)
    cpu.mem.write_u64(g + 0x18, 0x00CF_FA00_0000_FFFF);
    // 0x20: user data
    cpu.mem.write_u64(g + 0x20, 0x00CF_F200_0000_FFFF);
    // 0x28: 64-bit user code (L set, DPL 3)
    cpu.mem.write_u64(g + 0x28, 0x00AF_FA00_0000_FFFF);
    cpu.gdt_limit = 0x2F;
}

#[test]
fn syscall_and_sysret_round_trip_through_the_msrs() {
    // syscall ; hlt ; <handler> mov $0x99,%eax ; sysretq
    let handler = CODE64 + 0x40;
    let mut code = vec![
        0x0F, 0x05, // syscall
        0xF4,       // hlt
    ];
    code.resize(0x40, 0x90);
    code.extend_from_slice(&[
        0xB8, 0x99, 0x00, 0x00, 0x00, // mov $0x99,%eax
        0x48, 0x0F, 0x07,             // sysretq
    ]);
    let mut cpu = long_cpu(&code);
    add_user_descriptors(&mut cpu);
    cpu.write_msr(x86emu::cpu::msr::LSTAR, handler);
    // STAR: kernel CS in 47:32, the SYSRET selector base in 63:48.
    cpu.write_msr(x86emu::cpu::msr::STAR, (0x08u64 << 32) | (0x18u64 << 48));
    // SYSCALL clears IF through SFMASK, as a kernel entry must.
    cpu.write_msr(x86emu::cpu::msr::SFMASK, flags::IF as u64);
    cpu.set_flag(flags::IF, true);

    let expect_return = CODE64 + 2;
    cpu.step(); // syscall
    assert_eq!(cpu.rip, handler, "landed at LSTAR");
    assert_eq!(cpu.reg64(1), expect_return, "RCX carries the return address");
    assert_eq!(cpu.cs, 0x08, "kernel CS from STAR");
    assert_eq!(cpu.ss, 0x10, "kernel SS is the next descriptor");
    assert!(!cpu.get_flag(flags::IF), "SFMASK cleared IF");
    assert!(cpu.long64(), "still 64-bit code");

    cpu.step(); // mov $0x99,%eax
    cpu.step(); // sysretq
    assert_eq!(cpu.reg64(0), 0x99);
    assert_eq!(cpu.rip, expect_return, "SYSRET returned to RCX");
    assert!(cpu.get_flag(flags::IF), "R11 carried the flags back");
    assert_eq!(cpu.cs, 0x2B, "user CS with RPL 3");
    assert_eq!(cpu.ss, 0x23, "user SS with RPL 3");
    assert!(cpu.long64(), "the user segment is 64-bit too");
}

#[test]
fn syscall_without_efer_sce_is_an_invalid_opcode() {
    let mut cpu = long_cpu(&[0x0F, 0x05, 0xF4]);
    cpu.efer &= !x86emu::cpu::efer::SCE;
    cpu.step();
    assert_eq!(cpu.pending_exception, Some((0x06, None)));
}

/// Install a 64-bit interrupt gate: sixteen bytes, offset in three
/// pieces, with an IST index sharing a byte with the reserved field.
fn install_gate64(cpu: &mut Cpu, idt: u64, vector: u8, handler: u64, ist: u8) {
    let e = idt as usize + (vector as usize) * 16;
    cpu.mem.write_u16(e, handler as u16);
    cpu.mem.write_u16(e + 2, 0x08); // kernel CS
    cpu.mem.write_u8(e + 4, ist & 7);
    cpu.mem.write_u8(e + 5, 0x8E); // present, DPL 0, interrupt gate
    cpu.mem.write_u16(e + 6, (handler >> 16) as u16);
    cpu.mem.write_u32(e + 8, (handler >> 32) as u32);
    cpu.mem.write_u32(e + 12, 0);
    cpu.idt_base = idt;
    cpu.idt_limit = 0xFFF;
}

#[test]
fn an_interrupt_in_long_mode_uses_a_16_byte_gate_and_iretq_returns() {
    // int $0x80 ; hlt ; <handler> mov $0x55,%eax ; iretq
    let handler = CODE64 + 0x40;
    let mut code = vec![0xCD, 0x80, 0xF4];
    code.resize(0x40, 0x90);
    code.extend_from_slice(&[
        0xB8, 0x55, 0x00, 0x00, 0x00, // mov $0x55,%eax
        0x48, 0xCF,                   // iretq
    ]);
    let mut cpu = long_cpu(&code);
    install_gate64(&mut cpu, 0xB000, 0x80, handler, 0);
    let rsp0 = cpu.rsp();

    cpu.step(); // int $0x80
    assert_eq!(cpu.rip, handler, "vectored through the 16-byte gate");
    // The frame is five 8-byte words: RIP, CS, RFLAGS, RSP, SS -- SS and
    // RSP are pushed even though the privilege level did not change.
    let sp = cpu.rsp() as usize;
    assert_eq!(cpu.mem.read_u64(sp), CODE64 + 2, "saved RIP");
    assert_eq!(cpu.mem.read_u64(sp + 8), 0x08, "saved CS");
    assert_eq!(cpu.mem.read_u64(sp + 24), rsp0, "saved RSP");
    assert!(!cpu.get_flag(flags::IF), "an interrupt gate clears IF");

    cpu.run(16);
    assert!(cpu.halted);
    assert_eq!(cpu.reg64(0), 0x55);
    assert_eq!(cpu.rip, CODE64 + 3, "IRETQ returned past the INT");
    assert_eq!(cpu.rsp(), rsp0, "IRETQ restored the stack pointer");
}

#[test]
fn a_gate_with_an_ist_index_switches_to_the_table_stack() {
    // The IST is what makes a fault on a broken stack survivable: the
    // gate names a stack unconditionally, with no privilege change
    // needed. Without it, a double fault has nowhere to land.
    let handler = CODE64 + 0x40;
    let mut code = vec![0xCD, 0x80, 0xF4];
    code.resize(0x40, 0x90);
    code.extend_from_slice(&[0xF4]);
    let mut cpu = long_cpu(&code);
    install_gate64(&mut cpu, 0xB000, 0x80, handler, 1);
    // A 64-bit TSS at 0xC000 with IST1 pointing at a known stack.
    let tss = 0xC000u64;
    cpu.tr_base = tss;
    cpu.mem.write_u64(tss as usize + 0x24, 0x7_0000); // IST1
    cpu.step();
    assert_eq!(cpu.rip, handler);
    // The frame landed on the IST stack, not the one it came in on.
    assert_eq!(cpu.rsp(), 0x7_0000 - 40);
}

#[test]
fn a_page_fault_in_long_mode_records_a_64_bit_cr2() {
    // CR2 has to be 64 bits wide, or a fault in the high half of the
    // address space reports an address in the low half -- and the
    // handler fixes up the wrong page.
    let mut cpu = long_cpu(&[0xF4]);
    let bad: u64 = 0xFFFF_8800_1234_5000;
    let _ = cpu.apply_paging(bad);
    assert_eq!(cpu.pending_exception.unwrap().0, 0x0E);
    assert_eq!(cpu.cr2, bad);
}

#[test]
fn the_tlb_caches_a_64_bit_translation_and_invlpg_drops_it() {
    let mut cpu = long_cpu(&[0xF4]);
    let pml4 = cpu.cr3 as usize;
    let pdpt = 0x9000usize;
    let pd = 0xA000usize;
    cpu.mem.write_u64(pml4 + 256 * 8, pdpt as u64 | pte::P | pte::RW);
    cpu.mem.write_u64(pdpt, pd as u64 | pte::P | pte::RW);
    cpu.mem.write_u64(pd, 0x40_0000 | pte::P | pte::RW | pte::PS);
    cpu.flush_tlb();

    let high: u64 = 0xFFFF_8000_0000_0000;
    assert_eq!(cpu.apply_paging(high), 0x40_0000);
    // Repoint the mapping without telling the CPU: the TLB still answers
    // with the old translation, which is the whole point of INVLPG.
    cpu.mem.write_u64(pd, 0x60_0000 | pte::P | pte::RW | pte::PS);
    assert_eq!(cpu.apply_paging(high), 0x40_0000, "served from the TLB");
    cpu.invlpg(high);
    assert_eq!(cpu.apply_paging(high), 0x60_0000, "re-walked after INVLPG");
}

#[test]
fn ram_above_four_gib_is_reachable_through_the_page_tables() {
    // The point of the whole exercise: a machine with more RAM than fits
    // below the MMIO hole, addressed from 64-bit code.
    let ram = x86emu::memory::MMIO_HOLE_START as usize + (32 << 20);
    let mut cpu = Cpu::with_ram(ram);
    x86emu::boot::load_flat64(&mut cpu, &[0xF4], CODE64).unwrap();
    let high_phys = x86emu::memory::HIGH_RAM_BASE + 0x2_0000;

    // Map linear 0xFFFF_8000_0000_0000 onto a 2 MiB page up there.
    let pml4 = cpu.cr3 as usize;
    cpu.mem.write_u64(pml4 + 256 * 8, 0x9000u64 | pte::P | pte::RW);
    cpu.mem.write_u64(0x9000, 0xA000u64 | pte::P | pte::RW);
    cpu.mem.write_u64(0xA000, (x86emu::memory::HIGH_RAM_BASE) | pte::P | pte::RW | pte::PS);
    cpu.flush_tlb();

    let linear = 0xFFFF_8000_0000_0000u64 + 0x2_0000;
    let phys = cpu.translate_write(SegReg::Ds, linear);
    assert!(cpu.pending_exception.is_none());
    assert_eq!(phys as u64, high_phys);
    cpu.mem.write_u64(phys, 0x0BAD_C0DE_0BAD_C0DE);
    assert_eq!(cpu.mem.read_u64(high_phys as usize), 0x0BAD_C0DE_0BAD_C0DE);
    // And the machine says so in its memory map.
    let map = cpu.mem.e820();
    assert!(map.iter().any(|e| e.0 == x86emu::memory::HIGH_RAM_BASE && e.2 == 1));
}

#[test]
fn compatibility_mode_runs_32_bit_code_under_a_64_bit_machine() {
    // Long mode with a code segment whose L bit is clear: the machine is
    // still in long mode (LMA set, 4-level paging) but the code runs with
    // 32-bit defaults. This is how a 64-bit kernel runs a 32-bit process.
    let mut cpu = long_cpu(&[0xF4]);
    // Install a 32-bit code descriptor and load it.
    let g = x86emu::boot::GDT64_ADDR as usize;
    cpu.mem.write_u64(g + 0x18, 0x00CF_9A00_0000_FFFF); // D/B set, L clear
    cpu.gdt_limit = 0x1F;
    cpu.load_seg(SegReg::Cs, 0x18);
    assert_eq!(cpu.mode(), x86emu::cpu::Mode::Compat);
    assert!(cpu.long_mode(), "the machine is still in long mode");
    assert!(!cpu.long64(), "but this code segment is not 64-bit");
    // Paging is still the 4-level kind, which is what makes it long mode.
    assert_eq!(cpu.paging_mode(), x86emu::paging::PagingMode::Long);
}

#[test]
fn pae_paging_works_without_long_mode() {
    // The middle of the three paging modes: 8-byte entries and three
    // levels, but a 32-bit linear address. A 32-bit kernel with more than
    // 4 GiB of RAM runs here.
    let mut cpu = Cpu::new();
    cpu.pe = true;
    cpu.cr4 |= x86emu::cpu::CR4_PAE;
    // PDPT at 0x1000 -> PD 0x2000 -> a 2 MiB page at 0x80_0000.
    cpu.mem.write_u64(0x1000, 0x2000u64 | pte::P);
    cpu.mem.write_u64(0x2000, 0x80_0000u64 | pte::P | pte::RW | pte::PS);
    cpu.cr3 = 0x1000;
    cpu.cr0 |= x86emu::cpu::CR0_PG;
    cpu.flush_tlb();
    assert_eq!(cpu.paging_mode(), x86emu::paging::PagingMode::Pae);
    assert_eq!(cpu.apply_paging(0x1234), 0x80_0000 + 0x1234);
    assert!(cpu.pending_exception.is_none());
}

#[test]
fn a_halt_with_interrupts_disabled_really_stops() {
    // ... but with IF clear nothing can ever wake it, so the run ends
    // rather than spinning to the instruction limit.
    let mut cpu = Cpu::new();
    cpu.mem.load(0, &[0xFA, 0xF4]); // cli ; hlt
    let ran = cpu.run(1_000_000);
    assert!(cpu.halted);
    assert!(ran < 10, "ran {} instructions", ran);
}
