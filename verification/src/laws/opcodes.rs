//! Laws of the encoding: what the bits of prefixes, opcodes and operand bytes
//! stand for.

use crate::cpu::{Prefixes, SegReg};
use crate::instructions::decode::{initial_prefixes, prefix_applied, rep_applied, settled};
use crate::instructions::{AluOp, Cond, Dir, Inst, Rep, ShiftCount, ShiftOp};
use crate::laws::fields::{lemma_extended, lemma_fields8, lemma_joined};
use crate::laws::sums::as_signed;
use crate::modrm::ModRm;
use crate::state::State;
use vstd::arithmetic::power2::lemma2_to64;
use vstd::prelude::*;

verus! {

/// The instruction stream is read byte by byte, and each byte moves the
/// instruction pointer by one, wrapping at the size of the mode.
pub proof fn law_bytes_are_fetched_in_order(s: State)
    requires
        s.fetch.valid,
    ensures
        ({
            let (t, b) = s.fetch8();
            &&& b == s.mem.ram8(s.fetch.phys)
            &&& t.fetch.linear == (s.fetch.linear + 1) % 0x1_0000_0000_0000_0000
            &&& t.fetch.valid <==> s.fetch.linear % 0x1000 != 0xFFF
            &&& t.rip == if s.long64() {
                (s.rip + 1) % 0x1_0000_0000_0000_0000
            } else if s.pe {
                (s.rip as int % 0x1_0000_0000 + 1) % 0x1_0000_0000
            } else {
                s.rip as int
            }
            &&& t.ip == if s.pe || s.long64() { s.ip as int } else { (s.ip + 1) % 0x1_0000 }
            &&& s.fetch.phys < usize::MAX ==> t.fetch.phys == s.fetch.phys + 1
        }),
{
    reveal(State::fetch8);
    crate::laws::fields::lemma_narrow(s.rip);
    crate::laws::fields::lemma_fields64(s.fetch.linear, 0);
}

/// Where nothing has been fetched, the stream starts at CS and the instruction
/// pointer.
pub proof fn law_the_stream_starts_at_the_instruction_pointer(s: State)
    requires
        !s.fetch.valid,
    ensures
        ({
            let (a, phys) = s.access(s.ip_linear(), crate::cpu::address::Access::Fetch);
            &&& s.fetching().fetch.valid
            &&& s.fetching().fetch.phys == phys
            &&& s.fetching().fetch.linear == s.ip_linear()
            &&& s.fetch8() == s.fetching().fetch8()
        }),
{
    reveal(State::fetch8);
}

/// Immediates and displacements are little-endian.
pub proof fn law_immediates_are_little_endian(s: State)
    ensures
        ({
            let (a, b0) = s.fetch8();
            let (b, b1) = a.fetch8();
            s.fetch16() == (b, (b0 + 0x100 * b1) as u16)
        }),
        ({
            let (a, lo) = s.fetch16();
            let (b, hi) = a.fetch16();
            s.fetch32() == (b, (lo + 0x1_0000 * hi) as u32)
        }),
        ({
            let (a, lo) = s.fetch32();
            let (b, hi) = a.fetch32();
            s.fetch64() == (b, (lo + 0x1_0000_0000 * hi) as u64)
        }),
{
    reveal(State::fetch16);
    reveal(State::fetch32);
    reveal(State::fetch64);
    let (a, b0) = s.fetch8();
    let (b, b1) = a.fetch8();
    lemma_joined(b0, b1, 0, 0, 0, 0, 0, 0);
    let (c, l16) = s.fetch16();
    let (d, h16) = c.fetch16();
    lemma_joined(0, 0, 0, 0, l16 as u32, h16 as u32, 0, 0);
    let (e, l32) = s.fetch32();
    let (f, h32) = e.fetch32();
    lemma_joined(0, 0, 0, 0, l32, h32, 0, 0);
}

/// A ModR/M byte holds the mode in its top two bits, a register number in the
/// next three and an operand in the last three. REX.R extends the register, and
/// REX.B the operand where it is a register.
pub proof fn law_operand_bytes_have_three_fields(s: State, byte: u8)
    ensures
        ({
            let m = s.modrm_fields(byte);
            let (x, y, z) = (byte as int / 64, byte as int / 8 % 8, byte as int % 8);
            &&& m.mod_field == x
            &&& m.reg == y + (if s.pfx.rex_r { 8int } else { 0 })
            &&& m.rm_raw == z
            &&& m.rm == z + (if x == 3 && s.pfx.rex_b { 8int } else { 0 })
            &&& m.rex_b == s.pfx.rex_b
            &&& m.rex_x == s.pfx.rex_x
        }),
{
    lemma_fields8(byte);
    lemma_fields8((byte >> 3) & 7);
    lemma_fields8(byte & 7);
}

/// After the ModR/M byte comes, at an address size of 32 or 64 bits, a SIB byte
/// where the operand field is 4, and a displacement: of one byte in mode 1, of
/// four in mode 2, and in mode 0 of four where the base is number 5. A byte is
/// sign-extended.
pub proof fn law_operands_have_their_displacement(s: State, m: ModRm, b: u8)
    ensures
        s.fetch_sib(m) == if m.mod_field != 3 && m.rm_raw == 4 {
            let (t, x) = s.fetch8();
            (t, ModRm { sib: Some(x), ..m })
        } else {
            (s, m)
        },
        m.mod_field == 1 ==> ({
            let (t, x) = s.fetch8();
            s.fetch_disp32(m) == (
                t,
                ModRm { disp32: Some((as_signed(x as int, 8) % 0x1_0000_0000) as u32), ..m },
            )
        }),
        m.mod_field == 1 ==> ({
            let (t, x) = s.fetch8();
            s.fetch_disp16(m) == (
                t,
                ModRm { disp8: Some((as_signed(x as int, 8) % 0x1_0000) as u16), ..m },
            )
        }),
        m.mod_field == 2 ==> ({
            let (t, d) = s.fetch32();
            s.fetch_disp32(m) == (t, ModRm { disp32: Some(d), ..m })
        }),
        m.mod_field == 2 ==> ({
            let (t, d) = s.fetch16();
            s.fetch_disp16(m) == (t, ModRm { disp16: Some(d), ..m })
        }),
        m.mod_field == 0 && (m.rm_raw == 5 || m.sib == Some(b) && b % 8 == 5) ==> ({
            let (t, d) = s.fetch32();
            s.fetch_disp32(m) == (
                t,
                ModRm { disp32: Some(d), rip_rel: m.rm_raw == 5 && s.long64(), ..m },
            )
        }),
        m.mod_field == 0 && m.rm_raw == 6 ==> ({
            let (t, d) = s.fetch16();
            s.fetch_disp16(m) == (t, ModRm { disp16: Some(d), ..m })
        }),
        m.mod_field == 3 ==> s.fetch_disp32(m) == (s, m) && s.fetch_disp16(m) == (s, m),
{
    lemma2_to64();
    lemma_fields8(b);
    let (t, x) = s.fetch8();
    lemma_extended(x, 0, 0);
}

/// A REX prefix has one bit for each of W, R, X and B; the operand-size and
/// address-size prefixes switch to the other size, in 64-bit code to the smaller
/// one; the segment prefixes name a segment, in 64-bit code only FS and GS. A
/// prefix that is not REX takes away an earlier REX.
pub proof fn law_prefixes_have_their_meaning(p: Prefixes, b: u8, long64: bool)
    ensures
        ({
            let q = prefix_applied(p, b, long64);
            let rex = long64 && b as int / 16 == 4;
            let named = if b == 0x26 && !long64 {
                Some(SegReg::Es)
            } else if b == 0x2E && !long64 {
                Some(SegReg::Cs)
            } else if b == 0x36 && !long64 {
                Some(SegReg::Ss)
            } else if b == 0x3E && !long64 {
                Some(SegReg::Ds)
            } else if b == 0x64 {
                Some(SegReg::Fs)
            } else if b == 0x65 {
                Some(SegReg::Gs)
            } else {
                p.seg_override
            };
            &&& q.rex_present <==> rex
            &&& q.rex_w <==> rex && b / 8 % 2 == 1
            &&& q.rex_r <==> rex && b / 4 % 2 == 1
            &&& q.rex_x <==> rex && b / 2 % 2 == 1
            &&& q.rex_b <==> rex && b % 2 == 1
            &&& q.seg_override == named
            &&& q.opsize == if b == 0x66 { !long64 && !p.opsize } else { p.opsize }
            &&& q.addrsize == if b == 0x67 && !long64 { !p.addrsize } else { p.addrsize }
            &&& q.addr64 == if b == 0x67 && long64 { false } else { p.addr64 }
        }),
{
    reveal(prefix_applied);
    lemma_fields8(b);
}

/// Code starts with the sizes of its segment: 32 bits where the default-size bit
/// says so, else 16; 64-bit code has 32-bit operands and 64-bit addresses. REX.W
/// overrules an operand-size prefix. Of the repeat prefixes the last one counts.
pub proof fn law_sizes_come_from_the_segment(long64: bool, d32: bool, p: Prefixes, rep: Rep, b: u8)
    ensures
        ({
            let q = initial_prefixes(long64, d32);
            &&& q.opsize == (long64 || d32)
            &&& q.addrsize == (long64 || d32)
            &&& q.addr64 == long64
            &&& !q.rex_present && !q.rex_w && !q.rex_r && !q.rex_x && !q.rex_b
            &&& q.seg_override is None
        }),
        settled(p) == (Prefixes { opsize: p.opsize || p.rex_w, ..p }),
        rep_applied(rep, b) == if b == 0xF3 {
            Rep::Repe
        } else if b == 0xF2 {
            Rep::Repne
        } else {
            rep
        },
{
    reveal(initial_prefixes);
    reveal(settled);
    reveal(rep_applied);
}

/// The operations of the arithmetic block, by number.
pub open spec fn operation(n: int) -> AluOp {
    seq![
        AluOp::Add,
        AluOp::Or,
        AluOp::Adc,
        AluOp::Sbb,
        AluOp::And,
        AluOp::Sub,
        AluOp::Xor,
        AluOp::Cmp,
    ][n]
}

/// In the arithmetic block below 0x40, bits 3 to 5 of the opcode number the
/// operation. Bit 0 chooses bytes or full-size operands, bit 1 whether the
/// register is the destination, and bit 2 an immediate for the accumulator.
pub proof fn law_arithmetic_opcodes(s: State, op: u8, rep: Rep)
    requires
        op < 0x40,
        op % 8 < 6,
        op != 0x0F,
    ensures
        ({
            let f = operation(op as int / 8);
            let dir = if op / 2 % 2 == 1 { Dir::RegRm } else { Dir::RmReg };
            let (t, m) = s.fetch_modrm();
            let r = s.decode_op(op, rep);
            if op / 4 % 2 == 0 {
                r == (
                    t,
                    if op % 2 == 0 {
                        Inst::AluRm8Reg { op: f, m, reg: m.reg, dir }
                    } else if s.pfx.opsize {
                        Inst::AluRm32Reg { op: f, m, reg: m.reg, dir }
                    } else {
                        Inst::AluRm16Reg { op: f, m, reg: m.reg, dir }
                    },
                )
            } else if op % 2 == 0 {
                r == (s.fetch8().0, Inst::AluAccImm8 { op: f, imm: s.fetch8().1 })
            } else if s.pfx.opsize {
                r == (s.fetch32().0, Inst::AluAccImm32 { op: f, imm: s.fetch32().1 })
            } else {
                r == (s.fetch16().0, Inst::AluAccImm16 { op: f, imm: s.fetch16().1 })
            }
        }),
{
    reveal(State::decode_op);
    reveal(State::decode_alu);
}

/// The shifts, by number: six and seven are both SAR.
pub open spec fn shift_numbered(n: int) -> ShiftOp {
    seq![
        ShiftOp::Rol,
        ShiftOp::Ror,
        ShiftOp::Rcl,
        ShiftOp::Rcr,
        ShiftOp::Shl,
        ShiftOp::Shr,
        ShiftOp::Sar,
        ShiftOp::Sar,
    ][n]
}

/// In the shift opcodes the register field numbers the shift; bit 0 chooses
/// bytes or full-size operands, and bit 1 a count of one or one in CL.
pub proof fn law_shift_opcodes(s: State, op: u8, rep: Rep)
    requires
        0xD0 <= op <= 0xD3,
    ensures
        ({
            let (t, m) = s.fetch_modrm();
            s.decode_op(op, rep) == (
                t,
                Inst::Shift {
                    op: shift_numbered(m.reg as int % 8),
                    m,
                    width: if op % 2 == 0 { 8 } else { t.osize() },
                    count: if op / 2 % 2 == 0 { ShiftCount::One } else { ShiftCount::Cl },
                },
            )
        }),
{
    reveal(State::decode_op);
    reveal(State::decode_dx);
    lemma_fields8(s.fetch_modrm().1.reg);
}

/// In the opcodes that name a register, bits 0 to 2 are its number and REX.B the
/// fourth bit: PUSH and POP, and the moves of an immediate.
pub proof fn law_register_opcodes(s: State, op: u8, rep: Rep)
    ensures
        ({
            let n = (op % 8 + (if s.pfx.rex_b { 8int } else { 0 })) as u8;
            let (t, inst) = s.decode_op(op, rep);
            &&& 0x50 <= op < 0x58 ==> (t, inst) == (
                s,
                if s.pfx.opsize { Inst::PushReg32 { src: n } } else { Inst::PushReg16 { src: n } },
            )
            &&& 0x58 <= op < 0x60 ==> (t, inst) == (
                s,
                if s.pfx.opsize { Inst::PopReg32 { dst: n } } else { Inst::PopReg16 { dst: n } },
            )
            &&& 0x40 <= op < 0x48 ==> inst == if s.pfx.opsize {
                Inst::IncReg32 { dst: op % 8 }
            } else {
                Inst::IncReg16 { dst: op % 8 }
            }
            &&& 0x48 <= op < 0x50 ==> inst == if s.pfx.opsize {
                Inst::DecReg32 { dst: op % 8 }
            } else {
                Inst::DecReg16 { dst: op % 8 }
            }
        }),
{
    reveal(State::decode_op);
    reveal(State::decode_4x);
    lemma_fields8(op % 8);
}

/// The low four bits of the opcode of a conditional jump number its condition,
/// and its displacement follows, one signed byte or, after 0x0F, four.
pub proof fn law_conditional_opcodes(s: State, op: u8, rep: Rep)
    ensures
        0x70 <= op < 0x80 ==> ({
            let (t, b) = s.fetch8();
            let (u, inst) = s.decode_op(op, rep);
            &&& u == t
            &&& inst matches Inst::Jcc { cond, rel }
            &&& cond == Cond::of(op)
            &&& rel == as_signed(b as int, 8)
        }),
        op == 0x0F ==> ({
            let (a, second) = s.fetch8();
            let (t, d) = a.fetch32();
            let (u, inst) = s.decode_op(op, rep);
            0x80 <= second < 0x90 ==> {
                &&& u == t
                &&& inst matches Inst::Jcc32 { cond, rel }
                &&& cond == Cond::of(second)
                &&& rel == as_signed(d as int, 32)
            }
        }),
{
    reveal(State::decode_op);
    lemma2_to64();
    lemma_fields8(op);
    let (t, b) = s.fetch8();
    lemma_extended(b, 0, t.fetch32().1);
    if 0x70 <= op < 0x80 {
        reveal(State::decode_4x);
        lemma_fields8((op - 0x70) as u8);
    }
    if op == 0x0F && 0x80 <= b < 0x90 {
        reveal(State::decode_0f_low);
        lemma_fields8(b);
        lemma_fields8((b - 0x80) as u8);
    }
}

} // verus!
