//! Page-table entry bits.

use vstd::prelude::*;

verus! {

/// Present.
pub const P: u64 = 0x01;
/// Read/write (0 = read-only).
pub const RW: u64 = 0x02;
/// User/supervisor (0 = supervisor-only).
pub const US: u64 = 0x04;
/// Accessed.
pub const A: u64 = 0x20;
/// Dirty.
pub const D: u64 = 0x40;
/// Page size (1 = the entry maps a large page itself).
pub const PS: u64 = 0x80;
/// No-execute (8-byte entries only).
pub const NX: u64 = 0x8000_0000_0000_0000;

} // verus!
