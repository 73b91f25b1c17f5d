//! Facts about masks and shifts that the rest of the crate leans on.

use vstd::prelude::*;

verus! {

/// Masking with a low mask bounds a value.
pub proof fn lemma_masks()
    by (bit_vector)
    ensures
        forall|x: u8| #[trigger] (x & 7u8) < 8,
        forall|x: u8| #[trigger] (x & 3u8) < 4,
        forall|x: u8| #[trigger] (x & 15u8) < 16,
        forall|x: u8| #[trigger] (x & 0x7Fu8) < 128,
        forall|x: u16| #[trigger] (x & 7u16) < 8,
        forall|x: u16| #[trigger] (x & 0x1FFFu16) < 0x2000,
        forall|x: u32| #[trigger] (x & 31u32) < 32,
        forall|x: u32| #[trigger] (x & 63u32) < 64,
        forall|x: u32| #[trigger] (x & 0xFFFu32) < 0x1000,
        forall|x: u64| #[trigger] (x & 31u64) < 32,
        forall|x: u64| #[trigger] (x & 63u64) < 64,
        forall|x: u64| #[trigger] (x & 0xFFu64) < 0x100,
        forall|x: u64| #[trigger] (x & 0xFFFu64) < 0x1000,
        forall|x: usize| #[trigger] (x & 0xFFFusize) < 0x1000,
        forall|x: usize| #[trigger] (x & 3usize) < 4,
        forall|x: usize| x < 4 ==> #[trigger] (x & 3usize) == x,
        forall|x: u64| #[trigger] (x & 0x7FFu64) <= 0x7FF,
        forall|n: u32| n < 64 ==> #[trigger] (1u64 << n) >= 1,
        forall|x: usize| #[trigger] (x & !0xFFFusize) == x / 4096 * 4096,
        0x0Cu8 & 0x7Fu8 == 0x0Cu8,
{
}

} // verus!
