//! The model-specific registers the CPU keeps.

use vstd::prelude::*;

verus! {

pub const SYSENTER_CS: u32 = 0x174;
pub const SYSENTER_ESP: u32 = 0x175;
pub const SYSENTER_EIP: u32 = 0x176;
/// Extended feature enables: long mode, NX, SYSCALL.
pub const EFER: u32 = 0xC000_0080;
/// Selectors SYSCALL and SYSRET load.
pub const STAR: u32 = 0xC000_0081;
/// Entry point of SYSCALL from 64-bit code.
pub const LSTAR: u32 = 0xC000_0082;
/// Entry point of SYSCALL from compatibility mode.
pub const CSTAR: u32 = 0xC000_0083;
/// Flags SYSCALL clears.
pub const SFMASK: u32 = 0xC000_0084;
/// Base of FS in 64-bit mode.
pub const FS_BASE: u32 = 0xC000_0100;
/// Base of GS in 64-bit mode.
pub const GS_BASE: u32 = 0xC000_0101;
/// The base SWAPGS exchanges with GS's.
pub const KERNEL_GS_BASE: u32 = 0xC000_0102;

} // verus!
