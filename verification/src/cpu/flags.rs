//! Flag bit positions in the EFLAGS register.
//!
//! EFLAGS is 32 bits wide, not 16: a 32-bit kernel probes the high half to
//! identify the CPU. Linux toggles `AC` (bit 18) to tell a 386 from a 486 and
//! `ID` (bit 21) to decide whether `CPUID` exists at all, both through
//! `PUSHFD`/`POPFD`.

use vstd::prelude::*;

verus! {

pub const CF: u32 = 0x0000_0001;
pub const PF: u32 = 0x0000_0004;
pub const AF: u32 = 0x0000_0010;
pub const ZF: u32 = 0x0000_0040;
pub const SF: u32 = 0x0000_0080;
pub const TF: u32 = 0x0000_0100;
pub const IF: u32 = 0x0000_0200;
pub const DF: u32 = 0x0000_0400;
pub const OF: u32 = 0x0000_0800;
pub const IOPL: u32 = 0x0000_3000;
pub const NT: u32 = 0x0000_4000;
pub const RF: u32 = 0x0001_0000;
pub const VM: u32 = 0x0002_0000;
pub const AC: u32 = 0x0004_0000;
pub const VIF: u32 = 0x0008_0000;
pub const VIP: u32 = 0x0010_0000;
pub const ID: u32 = 0x0020_0000;

/// Bits that software may write through POPF/POPFD/IRET. Bit 1 is always
/// set, bits 3/5/15 are always clear, and bits 22-31 are reserved.
pub const WRITABLE: u32 = 0x003F_7FD5;

/// The value the reserved bits must always read back as.
pub const ALWAYS_SET: u32 = 0x0000_0002;

} // verus!
