//! Instruction decoder and executor.
//!
//! Supports the 8086 real-mode instruction set plus the 32-bit protected-mode
//! and 64-bit long-mode extensions: the 0x66/0x67 size-override and REX
//! prefixes, 32- and 64-bit register and addressing forms, system
//! instructions, and interrupt dispatch through the IDT.

use crate::cpu::{flags, Cpu, SegReg};
use crate::modrm::ModRm;
use crate::state::State;
use vstd::prelude::*;

pub mod alu;
pub mod arith;
pub mod control;
pub mod decode;
pub mod exec;
pub mod interrupt;
pub mod mov;
pub mod muldiv;
pub mod shift;
pub mod strings;
pub mod system;
pub mod x87;

pub use decode::decode;
pub use exec::execute;

verus! {

/// A decoded instruction, kept simple for diagnostics and tests.
#[derive(Clone, Copy, Debug)]
#[allow(inconsistent_fields)]
pub enum Inst {
    Nop,
    Hlt,
    MovRm8Reg { m: ModRm, src: u8 },
    MovRm16Reg { m: ModRm, src: u8 },
    MovRm32Reg { m: ModRm, src: u8 },
    MovRegRm8 { m: ModRm, dst: u8 },
    MovRegRm16 { m: ModRm, dst: u8 },
    MovRegRm32 { m: ModRm, dst: u8 },
    MovRm8Imm { m: ModRm, imm: u8 },
    MovRm16Imm { m: ModRm, imm: u16 },
    MovRm32Imm { m: ModRm, imm: u32 },
    MovReg8Imm { dst: u8, imm: u8 },
    MovReg16Imm { dst: u8, imm: u16 },
    MovReg32Imm { dst: u8, imm: u32 },
    /// B8+r with REX.W: the only instruction carrying a 64-bit immediate.
    MovReg64Imm { dst: u8, imm: u64 },
    MovAccMem8 { addr: u16 },
    MovMem8Acc { addr: u16 },
    MovAccMem8Addr32 { addr: u32 },
    MovMem8AccAddr32 { addr: u32 },
    MovAccMem8Addr64 { addr: u64 },
    MovMem8AccAddr64 { addr: u64 },
    MovAccMem16 { addr: u16 },
    MovMem16Acc { addr: u16 },
    MovAccMem16Addr32 { addr: u32 },
    MovMem16AccAddr32 { addr: u32 },
    // The moffs forms take an address as wide as the address size, which
    // in 64-bit mode is a full 64 bits — `movabs` to and from an absolute
    // address, the only way to reach one without a base register.
    MovAccMem32 { addr: u64 },
    MovMem32Acc { addr: u64 },
    MovRmSeg { m: ModRm, seg: SegReg },
    MovSegRm { seg: SegReg, m: ModRm },
    // Load segment with pointer: LDS (0xC5) / LES (0xC4) / LSS (0F B2) /
    // LFS (0F B4) / LGS (0F B5)
    Lds { m: ModRm },
    Les { m: ModRm },
    Lss { m: ModRm },
    Lfs { m: ModRm },
    Lgs { m: ModRm },
    AluRm8Reg { op: AluOp, m: ModRm, reg: u8, dir: Dir },
    AluRm16Reg { op: AluOp, m: ModRm, reg: u8, dir: Dir },
    AluRm32Reg { op: AluOp, m: ModRm, reg: u8, dir: Dir },
    AluRm8Imm { op: AluOp, m: ModRm, imm: u8 },
    AluRm16Imm { op: AluOp, m: ModRm, imm: u16, imm_is8: bool },
    AluRm32Imm { op: AluOp, m: ModRm, imm: u32, imm_is8: bool },
    AluAccImm8 { op: AluOp, imm: u8 },
    AluAccImm16 { op: AluOp, imm: u16 },
    AluAccImm32 { op: AluOp, imm: u32 },
    IncReg16 { dst: u8 },
    DecReg16 { dst: u8 },
    IncReg32 { dst: u8 },
    DecReg32 { dst: u8 },
    PushReg16 { src: u8 },
    PopReg16 { dst: u8 },
    PushReg32 { src: u8 },
    PopReg32 { dst: u8 },
    // Two- and three-operand IMUL: 0F AF (r <- r * r/m) and 69/6B
    // (r <- r/m * imm). Both set CF/OF when the full product does not fit
    // in the destination; the stored result is the truncated low half.
    ImulRegRm16 { m: ModRm, dst: u8 },
    ImulRegRm32 { m: ModRm, dst: u8 },
    ImulRegRmImm16 { m: ModRm, dst: u8, imm: i16 },
    ImulRegRmImm32 { m: ModRm, dst: u8, imm: i32 },
    // Double-precision shifts: SHLD (0F A4/A5) and SHRD (0F AC/AD).
    Shld { m: ModRm, reg: u8, count: ShiftCount, w32: bool },
    Shrd { m: ModRm, reg: u8, count: ShiftCount, w32: bool },
    // SETcc r/m8 (0F 90-9F): store 1 if the condition holds, else 0.
    Setcc { cond: Cond, m: ModRm },
    // LEAVE (0xC9): tear down a stack frame — ESP = EBP, then pop EBP.
    // Bit scan forward/reverse (0F BC / 0F BD).
    Bsf { m: ModRm, dst: u8, w32: bool },
    Bsr { m: ModRm, dst: u8, w32: bool },
    // XCHG r/m, r (0x86 byte / 0x87 word-dword).
    XchgRmReg { m: ModRm, reg: u8, width: u32 },
    // CMPXCHG r/m, r (0F B0 byte / 0F B1 word-dword).
    Cmpxchg { m: ModRm, reg: u8, width: u32 },
    // XADD r/m, r (0F C0 byte / 0F C1 word-dword).
    Xadd { m: ModRm, reg: u8, width: u32 },
    // CMPXCHG8B m64 (0F C7 /1).
    Cmpxchg8b { m: ModRm },
    // BSWAP r32 (0F C8+r).
    Bswap { reg: u8 },
    // CMOVcc r, r/m (0F 40-4F).
    Cmovcc { cond: Cond, m: ModRm, dst: u8, w32: bool },
    // PUSH/POP a segment register. The one-byte forms cover ES/CS/SS/DS
    // (0x06/0x0E/0x16/0x1E push, 0x07/0x17/0x1F pop -- there is no POP CS);
    // FS/GS use the two-byte forms 0F A0/A1 and 0F A8/A9.
    PushSeg { seg: SegReg },
    PopSeg { seg: SegReg },
    // MOV r32, DRx (0F 21) / MOV DRx, r32 (0F 23).
    MovDr { dr: u8, reg: u8 },
    MovToDr { dr: u8, reg: u8 },
    // 0F 00 group: LLDT (/2), LTR (/3), SLDT (/0), STR (/1).
    Lldt { m: ModRm },
    Ltr { m: ModRm },
    Sldt { m: ModRm },
    Str { m: ModRm },
    Leave { w32: bool },
    // POP r/m16 / r/m32 (0x8F /0).
    PopRm16 { m: ModRm },
    PopRm32 { m: ModRm },
    // PUSHA/PUSHAD (0x60) and POPA/POPAD (0x61).
    Pusha { w32: bool },
    Popa { w32: bool },
    PushImm16 { imm: u16 },
    PushImm32 { imm: u32 },
    JmpRel8 { rel: i8 },
    JmpRel16 { rel: i16 },
    JmpRel32 { rel: i32 },
    Jcc { cond: Cond, rel: i8 },
    // 32-bit conditional jump (0F 80-8F): Jcc rel32.
    Jcc32 { cond: Cond, rel: i32 },
    // MOVZX r16/32, r/m8 (0F B6) / MOVZX r32, r/m16 (0F B7)
    Movzx8 { m: ModRm, dst: u8 },
    Movzx16 { m: ModRm, dst: u8 },
    // MOVSX r16/32, r/m8 (0F BE) / MOVSX r32, r/m16 (0F BF)
    Movsx8 { m: ModRm, dst: u8 },
    Movsx16 { m: ModRm, dst: u8 },
    /// MOVSXD r64, r/m32 (0x63 in 64-bit mode, where it displaces ARPL).
    Movsxd { m: ModRm, dst: u8 },
    CallRel16 { rel: i16 },
    CallRel32 { rel: i32 },
    Ret,
    Ret32,
    // RET imm16 (0xC2): return, then drop `imm` bytes of arguments.
    RetImm { imm: u16, w32: bool },
    XchgAxReg { reg: u8 },
    XchgEaxReg { reg: u8 },
    Int { vector: u8 },
    Int3,
    Into,
    Iret,
    Iret32,
    Pushf,
    Popf,
    // Shifts / rotates (group 2, 0xD0-0xD3). `width` is 8, 16 or 32 — a
    // bool here is what let the 32-bit form silently run as an 8-bit shift.
    Shift { op: ShiftOp, m: ModRm, width: u32, count: ShiftCount },
    // Shifts / rotates with imm8 count (group 2, 0xC0-0xC1)
    ShiftImm { op: ShiftOp, m: ModRm, width: u32, imm: u8 },
    // Group 3 (0xF6/0xF7): TEST / NOT / NEG / MUL / IMUL / DIV / IDIV
    TestRm8Imm { m: ModRm, imm: u8 },
    TestRm16Imm { m: ModRm, imm: u16 },
    TestRm32Imm { m: ModRm, imm: u32 },
    TestRm8Reg { m: ModRm, reg: u8 },
    TestRm16Reg { m: ModRm, reg: u8 },
    TestRm32Reg { m: ModRm, reg: u8 },
    TestAccImm8 { imm: u8 },
    TestAccImm16 { imm: u16 },
    TestAccImm32 { imm: u32 },
    NotRm8 { m: ModRm },
    NotRm16 { m: ModRm },
    NotRm32 { m: ModRm },
    NegRm8 { m: ModRm },
    NegRm16 { m: ModRm },
    NegRm32 { m: ModRm },
    MulRm8 { m: ModRm },
    MulRm16 { m: ModRm },
    MulRm32 { m: ModRm },
    ImulRm8 { m: ModRm },
    ImulRm16 { m: ModRm },
    ImulRm32 { m: ModRm },
    DivRm8 { m: ModRm },
    DivRm16 { m: ModRm },
    DivRm32 { m: ModRm },
    IdivRm8 { m: ModRm },
    IdivRm16 { m: ModRm },
    IdivRm32 { m: ModRm },
    // LEA (0x8D)
    Lea { m: ModRm, dst: u8 },
    // CBW (0x98) / CWD (0x99) / CWDE (0x98 w/ 66) / CDQ (0x99 w/ 66)
    Cbw,
    Cwd,
    Cwde,
    Cdq,
    // LOOP / LOOPZ / LOOPNZ / JCXZ (0xE0-0xE3)
    Loop { cond: LoopCond, rel: i8 },
    // Far control flow
    JmpFar { off: u16, seg: u16 },
    CallFar { off: u16, seg: u16 },
    JmpFar32 { off: u32, seg: u16 },
    CallFar32 { off: u32, seg: u16 },
    Retf,
    Retf32,
    // Group 5 (0xFF): INC / DEC / CALL / JMP / PUSH r/m
    // INC/DEC r/m8 (group 4, 0xFE /0 and /1).
    IncRm8 { m: ModRm },
    DecRm8 { m: ModRm },
    IncRm16 { m: ModRm },
    IncRm32 { m: ModRm },
    DecRm16 { m: ModRm },
    DecRm32 { m: ModRm },
    CallRm16 { m: ModRm },
    CallRm32 { m: ModRm },
    JmpRm16 { m: ModRm },
    JmpRm32 { m: ModRm },
    PushRm16 { m: ModRm },
    PushRm32 { m: ModRm },
    // String ops (with optional REP prefix)
    Movs { rep: Rep, w: bool },
    Stos { rep: Rep, w: bool },
    Lods { rep: Rep, w: bool },
    Cmps { rep: Rep, w: bool },
    Scas { rep: Rep, w: bool },
    // LGDT / LIDT (0x0F 0x01 /2 and /3), and their store forms SGDT / SIDT
    // (/0 and /1). A kernel reads its own GDTR back to verify it, so
    // a CPU that loads has to store too.
    Lgdt { m: ModRm },
    Lidt { m: ModRm },
    Sgdt { m: ModRm },
    Sidt { m: ModRm },
    /// SMSW (0F 01 /4) / LMSW (0F 01 /6): the 286-era views of CR0's low
    /// 16 bits. LMSW can set PE and never clear it.
    Smsw { m: ModRm },
    Lmsw { m: ModRm },
    /// XGETBV / XSETBV (0F 01 D0 / D1): the extended control register XCR0.
    Xgetbv,
    Xsetbv,
    /// CLAC / STAC (0F 01 CA / CB): clear or set RFLAGS.AC (SMAP).
    Clac,
    Stac,
    // INVLPG (0x0F 0x01 /7): invalidate TLB entry for a linear address.
    Invlpg { m: ModRm },
    // MOV r32, cr (0x0F 0x20) / MOV cr, r32 (0x0F 0x22)
    MovCr { cr: u8, reg: u8 },
    MovToCr { cr: u8, reg: u8 },
    // CLTS (0x0F 0x06): clear CR0.TS (task-switched flag).
    Clts,
    /// SYSCALL (0F 05) and SYSRET (0F 07): the fast system-call pair long
    /// mode replaces `int 0x80` with.
    Syscall,
    Sysret,
    /// SWAPGS (0F 01 F8): exchange GS.base with KERNEL_GS_BASE.
    Swapgs,
    /// RDTSCP (0F 01 F9): RDTSC plus the processor id in ECX.
    Rdtscp,
    /// Instructions with no architectural effect here: memory fences,
    /// prefetch hints, cache management, and the multi-byte NOP.
    NopHint,
    /// INVD / WBINVD (0F 08 / 0F 09): no cache to invalidate, but a
    /// hypervisor may ask to see them.
    Invd,
    Wbinvd,
    /// MONITOR / MWAIT (0F 01 C8 / C9) and PAUSE (F3 90). One core and no
    /// caches: MONITOR arms nothing, MWAIT is a HLT that also wakes on the
    /// interrupt it would have waited for, PAUSE is a NOP -- but each is its
    /// own instruction so a hypervisor can intercept it.
    Monitor,
    Mwait,
    Pause,
    // CPUID (0x0F 0xA2) / RDTSC (0x0F 0x31)
    Cpuid,
    Rdtsc,
    // RDMSR (0x0F 0x32) / WRMSR (0x0F 0x30)
    Rdmsr,
    Wrmsr,
    // Bit tests: BT/BTS/BTR/BTC (0F A3/AB/B3/BB, and group 8 0F BA /4-/7)
    Bt { m: ModRm, bit: BitOffset },
    Bts { m: ModRm, bit: BitOffset },
    Btr { m: ModRm, bit: BitOffset },
    Btc { m: ModRm, bit: BitOffset },
    // IN / OUT (0xE4-0xE7, 0xEC-0xEF)
    InAlImm { port: u8 },
    InAxImm { port: u8 },
    InAlDx,
    InAxDx,
    OutImmAl { port: u8 },
    OutImmAx { port: u8 },
    OutDxAl,
    OutDxAx,
    // Flag-control instructions: CLC/STC/CLI/STI/CLD/STD/CMC
    Clc,
    Stc,
    Cli,
    Sti,
    Cld,
    Std,
    Cmc,
    // ---- x87 FPU (D8-DF) ----
    // FNINIT (DB E3)
    Fninit,
    // FSTCW m16 (D9 /7) / FLDCW m16 (D9 /5)
    Fstcw { m: ModRm },
    Fldcw { m: ModRm },
    // FSTSW AX (DF E0) / FSTSW m16 (DD /7)
    FstswAx,
    Fstsw { m: ModRm },
    // FST/FSTP ST(i) (DD /0, /1)
    Fst { m: ModRm, w64: bool },
    Fstp { m: ModRm, w64: bool },
    // FLD m32/m64 (D9 /0, DD /0)
    Fld { m: ModRm, w64: bool },
    // FILD m32 (DB /0) and m16 (DF /0)
    Fild { m: ModRm },
    Fild16 { m: ModRm },
    // FISTP m32 (DB /3) and m16 (DF /3)
    Fistp { m: ModRm },
    Fistp16 { m: ModRm },
    // FADD/FSUB/FMUL/FDIV (D8/DC groups) — simplified: operate on ST0.
    Fop { op: FpuOp, m: ModRm },
    /// FXSAVE (0F AE /0) and FXRSTOR (0F AE /1).
    Fxsave { m: ModRm },
    Fxrstor { m: ModRm },
    Unknown { opcode: u16 },
}

/// The x87 arithmetic operations.
#[derive(Clone, Copy, Debug, PartialEq, Eq, Structural)]
pub enum FpuOp {
    Add,
    Sub,
    Mul,
    Div,
}

/// Where a bit-test instruction's bit offset comes from.
///
/// The register form (0F A3/AB/B3/BB) takes the *value* of the register named
/// by the ModR/M reg field, not the field itself.
#[derive(Clone, Copy, Debug, PartialEq, Eq, Structural)]
pub enum BitOffset {
    Imm(u8),
    Reg(u8),
}

/// Shift/rotate operation selected by the `reg` field of group 2.
#[derive(Clone, Copy, Debug, PartialEq, Eq, Structural)]
pub enum ShiftOp {
    Rol,
    Ror,
    Rcl,
    Rcr,
    Shl,
    Shr,
    Sar,
}

impl ShiftOp {
    /// The operation encoded by the low three bits of `i`. Both 6 and 7 are
    /// SAR.
    pub open spec fn of(i: u8) -> ShiftOp {
        let k = i & 7;
        if k == 0 {
            ShiftOp::Rol
        } else if k == 1 {
            ShiftOp::Ror
        } else if k == 2 {
            ShiftOp::Rcl
        } else if k == 3 {
            ShiftOp::Rcr
        } else if k == 4 {
            ShiftOp::Shl
        } else if k == 5 {
            ShiftOp::Shr
        } else {
            ShiftOp::Sar
        }
    }

    pub fn from_index(i: u8) -> (op: Self)
        ensures
            op == ShiftOp::of(i),
    {
        match i & 7 {
            0 => ShiftOp::Rol,
            1 => ShiftOp::Ror,
            2 => ShiftOp::Rcl,
            3 => ShiftOp::Rcr,
            4 => ShiftOp::Shl,
            5 => ShiftOp::Shr,
            _ => ShiftOp::Sar,
        }
    }
}

/// Shift count source: immediate 1, the CL register, or an immediate.
#[derive(Clone, Copy, Debug, PartialEq, Eq, Structural)]
pub enum ShiftCount {
    One,
    Cl,
    Imm(u8),
}

/// REP prefix state for string instructions.
#[derive(Clone, Copy, Debug, PartialEq, Eq, Structural)]
pub enum Rep {
    /// No prefix: the instruction runs once.
    No,
    Repe,
    Repne,
}

/// Loop condition for LOOP / LOOPZ / LOOPNZ / JCXZ.
#[derive(Clone, Copy, Debug, PartialEq, Eq, Structural)]
pub enum LoopCond {
    Loop,
    Loopz,
    Loopnz,
    Jcxz,
}

/// The two-operand ALU operations.
#[derive(Clone, Copy, Debug, PartialEq, Eq, Structural)]
pub enum AluOp {
    Add,
    Or,
    Adc,
    Sbb,
    And,
    Sub,
    Xor,
    Cmp,
}

impl AluOp {
    /// The operation an index names; 7 and everything above it is CMP.
    pub open spec fn of(i: u8) -> AluOp {
        if i == 0 {
            AluOp::Add
        } else if i == 1 {
            AluOp::Or
        } else if i == 2 {
            AluOp::Adc
        } else if i == 3 {
            AluOp::Sbb
        } else if i == 4 {
            AluOp::And
        } else if i == 5 {
            AluOp::Sub
        } else if i == 6 {
            AluOp::Xor
        } else {
            AluOp::Cmp
        }
    }

    /// The ALU operation index encoded in bits 3-5 of opcodes 0x00-0x3F.
    pub fn from_index(i: u8) -> (op: Self)
        ensures
            op == AluOp::of(i),
    {
        match i {
            0 => AluOp::Add,
            1 => AluOp::Or,
            2 => AluOp::Adc,
            3 => AluOp::Sbb,
            4 => AluOp::And,
            5 => AluOp::Sub,
            6 => AluOp::Xor,
            _ => AluOp::Cmp,
        }
    }
}

/// Direction of a two-operand r/m,reg instruction.
/// `RmReg`: dest = r/m, src = reg.  `RegRm`: dest = reg, src = r/m.
#[derive(Clone, Copy, Debug, PartialEq, Eq, Structural)]
pub enum Dir {
    RmReg,
    RegRm,
}

/// A branch condition.
#[derive(Clone, Copy, Debug, PartialEq, Eq, Structural)]
pub enum Cond {
    O,
    No,
    B,
    Nb,
    E,
    Ne,
    Be,
    Nbe,
    S,
    Ns,
    P,
    Np,
    L,
    Nl,
    Le,
    Nle,
}

impl Cond {
    /// The condition the low nibble of `i` encodes.
    pub open spec fn of(i: u8) -> Cond {
        let k = i & 0xF;
        if k == 0 {
            Cond::O
        } else if k == 1 {
            Cond::No
        } else if k == 2 {
            Cond::B
        } else if k == 3 {
            Cond::Nb
        } else if k == 4 {
            Cond::E
        } else if k == 5 {
            Cond::Ne
        } else if k == 6 {
            Cond::Be
        } else if k == 7 {
            Cond::Nbe
        } else if k == 8 {
            Cond::S
        } else if k == 9 {
            Cond::Ns
        } else if k == 10 {
            Cond::P
        } else if k == 11 {
            Cond::Np
        } else if k == 12 {
            Cond::L
        } else if k == 13 {
            Cond::Nl
        } else if k == 14 {
            Cond::Le
        } else {
            Cond::Nle
        }
    }

    /// Does the condition hold in a state?
    pub open spec fn holds(self, s: State) -> bool {
        match self {
            Cond::O => s.flag(flags::OF),
            Cond::No => !s.flag(flags::OF),
            Cond::B => s.flag(flags::CF),
            Cond::Nb => !s.flag(flags::CF),
            Cond::E => s.flag(flags::ZF),
            Cond::Ne => !s.flag(flags::ZF),
            Cond::Be => s.flag(flags::CF) || s.flag(flags::ZF),
            Cond::Nbe => !s.flag(flags::CF) && !s.flag(flags::ZF),
            Cond::S => s.flag(flags::SF),
            Cond::Ns => !s.flag(flags::SF),
            Cond::P => s.flag(flags::PF),
            Cond::Np => !s.flag(flags::PF),
            Cond::L => s.flag(flags::SF) != s.flag(flags::OF),
            Cond::Nl => s.flag(flags::SF) == s.flag(flags::OF),
            Cond::Le => s.flag(flags::ZF) || s.flag(flags::SF) != s.flag(flags::OF),
            Cond::Nle => !s.flag(flags::ZF) && s.flag(flags::SF) == s.flag(flags::OF),
        }
    }

    /// Map the low nibble of a 0x70-0x7F Jcc opcode to a condition.
    pub fn from_jcc(i: u8) -> (c: Self)
        ensures
            c == Cond::of(i),
    {
        proof {
            crate::bits::lemma_masks();
        }
        match i & 0xF {
            0 => Cond::O,
            1 => Cond::No,
            2 => Cond::B,
            3 => Cond::Nb,
            4 => Cond::E,
            5 => Cond::Ne,
            6 => Cond::Be,
            7 => Cond::Nbe,
            8 => Cond::S,
            9 => Cond::Ns,
            10 => Cond::P,
            11 => Cond::Np,
            12 => Cond::L,
            13 => Cond::Nl,
            14 => Cond::Le,
            _ => Cond::Nle,
        }
    }

    /// Does the condition hold now?
    pub fn test(&self, cpu: &Cpu) -> (b: bool)
        ensures
            b == self.holds(cpu@),
    {
        let o = cpu.get_flag(flags::OF);
        let c = cpu.get_flag(flags::CF);
        let z = cpu.get_flag(flags::ZF);
        let s = cpu.get_flag(flags::SF);
        let p = cpu.get_flag(flags::PF);
        match *self {
            Cond::O => o,
            Cond::No => !o,
            Cond::B => c,
            Cond::Nb => !c,
            Cond::E => z,
            Cond::Ne => !z,
            Cond::Be => c || z,
            Cond::Nbe => !c && !z,
            Cond::S => s,
            Cond::Ns => !s,
            Cond::P => p,
            Cond::Np => !p,
            // signed comparisons use SF != OF
            Cond::L => s != o,
            Cond::Nl => s == o,
            Cond::Le => z || s != o,
            Cond::Nle => !z && s == o,
        }
    }
}

} // verus!
