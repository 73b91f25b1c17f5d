//! Bits of the extended feature enable register.

use vstd::prelude::*;

verus! {

/// SYSCALL/SYSRET enabled.
pub const SCE: u64 = 0x001;
/// Long mode asked for.
pub const LME: u64 = 0x100;
/// Long mode active. The CPU's to set, never software's.
pub const LMA: u64 = 0x400;
/// No-execute page protection enabled.
pub const NXE: u64 = 0x800;

} // verus!
