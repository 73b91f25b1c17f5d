//! The laws of arithmetic on concrete values.

use x86emu::cpu::{flags, Cpu};
use x86emu::float::{from_int, narrow, to_int, widen};
use x86emu::instructions::alu::alu_flags;
use x86emu::instructions::arith::{scan_forward, scan_reverse};
use x86emu::instructions::shift::shift_w;
use x86emu::instructions::{AluOp, Cond, ShiftOp};
use x86emu::memory::Memory;

fn run_real(code: &[u8]) -> Cpu {
    let mut cpu = Cpu::with_ram(0x10_0000);
    cpu.ip = 0x1000;
    cpu.set_sp(0x8000);
    cpu.mem.load(Memory::phys(0, 0x1000), code);
    cpu.run(64);
    assert!(cpu.halted);
    cpu
}

#[test]
fn conditions_compare_signed_and_unsigned() {
    let values = [0u64, 1, 0x7F, 0x80, 0x81, 0xFE, 0xFF];
    for a in values {
        for b in values {
            let (_, f) = alu_flags(AluOp::Cmp, 2, a, b, 8);
            let mut cpu = Cpu::with_ram(0x10_0000);
            cpu.flags = f;
            let (sa, sb) = (a as u8 as i8, b as u8 as i8);
            let cases = [
                (Cond::B, a < b),
                (Cond::Nb, a >= b),
                (Cond::Be, a <= b),
                (Cond::Nbe, a > b),
                (Cond::E, a == b),
                (Cond::Ne, a != b),
                (Cond::L, sa < sb),
                (Cond::Nl, sa >= sb),
                (Cond::Le, sa <= sb),
                (Cond::Nle, sa > sb),
            ];
            for (c, want) in cases {
                assert_eq!(c.test(&cpu), want, "{:?} {:X} {:X}", c, a, b);
            }
        }
    }
}

#[test]
fn the_carry_completes_the_sum() {
    let (r, f) = alu_flags(AluOp::Add, 2, 0xF0, 0x25, 8);
    assert_eq!(r, 0x15);
    assert_eq!(f & flags::CF, 1);
    let (r, f) = alu_flags(AluOp::Add, 2, u64::MAX, 1, 64);
    assert_eq!(r, 0);
    assert_eq!(f & (flags::CF | flags::ZF), flags::CF | flags::ZF);
}

#[test]
fn subtraction_undoes_addition() {
    for w in [8u32, 16, 32, 64] {
        let a = 0xFEDC_BA98_7654_32F0u64;
        let b = 0x0F0F_1234_8888_77F5u64;
        let (sum, _) = alu_flags(AluOp::Add, 2, a, b, w);
        let (back, _) = alu_flags(AluOp::Sub, 2, sum, b, w);
        let mask = if w == 64 { u64::MAX } else { (1 << w) - 1 };
        assert_eq!(back, a & mask);
    }
}

#[test]
fn negation_is_its_own_inverse() {
    // neg al ; neg al
    let cpu = run_real(&[0xB0, 0x5A, 0xF6, 0xD8, 0x88, 0xC3, 0xF6, 0xD8, 0xF4]);
    assert_eq!(cpu.bx() & 0xFF, 0xA6);
    assert_eq!(cpu.ax() & 0xFF, 0x5A);
}

#[test]
fn inc_and_dec_keep_the_carry() {
    // stc ; mov ax, 0xFFFF ; inc ax ; dec ax
    let cpu = run_real(&[0xF9, 0xB8, 0xFF, 0xFF, 0x40, 0x48, 0xF4]);
    assert_eq!(cpu.ax(), 0xFFFF);
    assert!(cpu.get_flag(flags::CF));
    // clc ; mov ax, 0xFFFF ; inc ax
    let cpu = run_real(&[0xF8, 0xB8, 0xFF, 0xFF, 0x40, 0xF4]);
    assert_eq!(cpu.ax(), 0);
    assert!(!cpu.get_flag(flags::CF));
    assert!(cpu.get_flag(flags::ZF));
}

#[test]
fn compare_and_test_write_no_operand() {
    // mov ax, 5 ; mov bx, 9 ; cmp ax, bx ; cmp [0x500], ax ; test ax, bx
    let cpu = run_real(&[
        0xB8, 0x05, 0x00, 0xBB, 0x09, 0x00, 0x39, 0xD8, 0x39, 0x06, 0x00, 0x05, 0x85, 0xD8, 0xF4,
    ]);
    assert_eq!(cpu.ax(), 5);
    assert_eq!(cpu.bx(), 9);
    assert_eq!(cpu.mem.read_u16(0x500), 0);
    assert!(!cpu.get_flag(flags::ZF));
}

#[test]
fn a_count_of_zero_shifts_nothing() {
    for op in [ShiftOp::Shl, ShiftOp::Shr, ShiftOp::Sar, ShiftOp::Rol, ShiftOp::Ror, ShiftOp::Rcl, ShiftOp::Rcr] {
        assert_eq!(shift_w(op, 0x8D7, 0x1234_5678, 0, 32), (0x1234_5678, 0x8D7));
        assert_eq!(shift_w(op, 0x8D7, 0x1234_5678, 32, 32), (0x1234_5678, 0x8D7));
        assert_eq!(shift_w(op, 0x8D7, 0x1234_5678, 64, 64), (0x1234_5678, 0x8D7));
    }
    // At 64 bits a count of 32 is a count of 32.
    assert_eq!(shift_w(ShiftOp::Shl, 2, 1, 32, 64).0, 0x1_0000_0000);
}

#[test]
fn a_rotate_right_undoes_a_rotate_left() {
    for (w, v) in [(8u32, 0xB4u64), (16, 0xBEEF), (32, 0xDEAD_BEEF), (64, 0x0123_4567_89AB_CDEF)] {
        for n in 0..70 {
            let (r, _) = shift_w(ShiftOp::Rol, 2, v, n, w);
            assert_eq!(shift_w(ShiftOp::Ror, 2, r, n, w).0, v);
        }
    }
}

#[test]
fn bit_scans_find_the_ends() {
    assert_eq!(scan_forward(0b1011_0000), 4);
    assert_eq!(scan_reverse(0b1011_0000), 7);
    assert_eq!(scan_forward(1 << 63), 63);
    assert_eq!(scan_reverse(u64::MAX), 63);
    assert_eq!(scan_forward(0), 64);
}

#[test]
fn bswap_is_its_own_inverse() {
    // mov eax, 0x12345678 ; bswap eax ; mov ebx, eax ; bswap eax
    let cpu = run_real(&[
        0x66, 0xB8, 0x78, 0x56, 0x34, 0x12, 0x66, 0x0F, 0xC8, 0x66, 0x89, 0xC3, 0x66, 0x0F, 0xC8,
        0xF4,
    ]);
    assert_eq!(cpu.ebx(), 0x7856_3412);
    assert_eq!(cpu.eax(), 0x1234_5678);
}

#[test]
fn division_gives_back_the_dividend() {
    // mov edx, -1 ; mov eax, -7 ; mov ebx, 2 ; idiv ebx
    let cpu = run_real(&[
        0x66, 0xBA, 0xFF, 0xFF, 0xFF, 0xFF, 0x66, 0xB8, 0xF9, 0xFF, 0xFF, 0xFF, 0x66, 0xBB, 0x02,
        0x00, 0x00, 0x00, 0x66, 0xF7, 0xFB, 0xF4,
    ]);
    assert_eq!(cpu.eax() as i32, -3);
    assert_eq!(cpu.edx() as i32, -1);
}

#[test]
fn a_product_is_whole_in_its_two_registers() {
    // mov eax, 0xFFFFFFFF ; mov ebx, 0xFFFFFFFF ; mul ebx
    let cpu = run_real(&[
        0x66, 0xB8, 0xFF, 0xFF, 0xFF, 0xFF, 0x66, 0xBB, 0xFF, 0xFF, 0xFF, 0xFF, 0x66, 0xF7, 0xE3,
        0xF4,
    ]);
    assert_eq!(((cpu.edx() as u64) << 32) | cpu.eax() as u64, 0xFFFF_FFFE_0000_0001);
    assert!(cpu.get_flag(flags::CF));
}

#[test]
fn one_operand_imul_carries_only_what_does_not_fit() {
    // mov al, -2 ; mov bl, 3 ; imul bl
    let cpu = run_real(&[0xB0, 0xFE, 0xB3, 0x03, 0xF6, 0xEB, 0xF4]);
    assert_eq!(cpu.ax(), 0xFFFA);
    assert!(!cpu.get_flag(flags::CF));
    // mov al, -128 ; mov bl, -1 ; imul bl: 128 does not fit in a byte.
    let cpu = run_real(&[0xB0, 0x80, 0xB3, 0xFF, 0xF6, 0xEB, 0xF4]);
    assert_eq!(cpu.ax(), 0x0080);
    assert!(cpu.get_flag(flags::CF));
}

#[test]
fn reserved_flags_stay() {
    // push 0xFFFF ; popf ; pushf ; pop ax
    let cpu = run_real(&[0x68, 0xFF, 0xFF, 0x9D, 0x9C, 0x58, 0xF4]);
    assert_eq!(cpu.ax() & 0x8028, 0);
    assert_eq!(cpu.ax() & 2, 2);
    assert_eq!(cpu.ax() & 0x7FD5, 0x7FD5);
}

#[test]
fn loopz_and_loopnz_also_look_at_the_zero_flag() {
    // mov cx, 3 ; xor ax, ax ; loopnz $ : ZF is set, so it does not loop.
    let cpu = run_real(&[0xB9, 0x03, 0x00, 0x31, 0xC0, 0xE2, 0xFE, 0xF4]);
    assert_eq!(cpu.cx(), 2);
    // loopz loops, and so does loop.
    let cpu = run_real(&[0xB9, 0x03, 0x00, 0x31, 0xC0, 0xE1, 0xFE, 0xF4]);
    assert_eq!(cpu.cx(), 0);
    let cpu = run_real(&[0xB9, 0x03, 0x00, 0x31, 0xC0, 0xE0, 0xFE, 0xF4]);
    assert_eq!(cpu.cx(), 0);
    // mov cx, 3 ; or ax, 1 : with ZF clear loopnz loops, loopz does not.
    let cpu = run_real(&[0xB9, 0x03, 0x00, 0x83, 0xC8, 0x01, 0xE2, 0xFE, 0xF4]);
    assert_eq!(cpu.cx(), 0);
    let cpu = run_real(&[0xB9, 0x03, 0x00, 0x83, 0xC8, 0x01, 0xE1, 0xFE, 0xF4]);
    assert_eq!(cpu.cx(), 2);
}

#[test]
fn integers_survive_the_fpu() {
    for v in [0i32, 1, -1, 7, -12345, 0x7FFF_FFFF, -0x8000_0000, 1 << 20] {
        assert_eq!(from_int(v), (v as f64).to_bits());
        assert_eq!(to_int(from_int(v)), v);
    }
}

#[test]
fn conversions_agree_with_the_host() {
    let singles = [0.0f32, -0.0, 1.0, -2.5, 3.1415927, f32::MIN_POSITIVE, 1e-45, 3.4e38, f32::INFINITY, f32::NEG_INFINITY];
    for s in singles {
        assert_eq!(widen(s.to_bits()), (s as f64).to_bits(), "{}", s);
        assert_eq!(narrow((s as f64).to_bits()), s.to_bits(), "{}", s);
    }
    let doubles = [0.1f64, -0.1, 1.0 / 3.0, 1e300, -1e300, 1e-300, 1e-40, 16777217.0, 16777219.0, 123456.789, 4e-46, 7e-46];
    for d in doubles {
        assert_eq!(narrow(d.to_bits()), (d as f32).to_bits(), "{}", d);
        assert_eq!(to_int(d.to_bits()), d as i32, "{}", d);
    }
    assert_eq!(to_int(f64::NAN.to_bits()), 0);
    assert_eq!(to_int((2147483648.5f64).to_bits()), i32::MAX);
    assert_eq!(to_int((-2147483649.5f64).to_bits()), i32::MIN);
    assert_eq!(to_int((-0.99f64).to_bits()), 0);
}

#[test]
fn the_fpu_is_a_stack() {
    let mut f = x86emu::fpu::Fpu::new();
    f.push(11);
    f.push(22);
    assert_eq!(f.st_i(0), 22);
    assert_eq!(f.st_i(1), 11);
    f.pop();
    assert_eq!(f.st_i(0), 11);
    f.pop();
    assert_eq!(f.top, 0);
}

#[test]
fn saved_fpu_registers_come_back() {
    let mut mem = Memory::with_size(0x10_0000);
    let mut f = x86emu::fpu::Fpu::new();
    let values = [1.5f64, -0.25, 1e300, 5e-324, 0.0, -7.0, 3.0, 1e-10];
    for v in values {
        f.push(v.to_bits());
    }
    f.fxsave(&mut mem, 0x4000);
    let mut g = x86emu::fpu::Fpu::new();
    g.fxrstor(&mem, 0x4000);
    assert_eq!(g.st, f.st);
    assert_eq!(g.control, f.control);
}
